use cli_pulse::alerts::AlertThresholds;
use cli_pulse::cache::{
    cache_get_daily_usage, cache_get_dashboard, cache_get_providers, cache_invalidate,
    cache_put_daily_usage, cache_put_dashboard, cache_put_providers, ensure_daily_usage,
    get_dashboard_summary, get_provider_summary, DashboardCache, ReadPlan, DASHBOARD_CACHE_TTL,
};
use cli_pulse::device::HelperConfig;

type Cache = Option<DashboardCache<u8, u16, u32>>;

fn config() -> HelperConfig {
    HelperConfig {
        device_id: "dev".into(),
        user_id: "u".into(),
        device_name: "box".into(),
        helper_version: "1".into(),
        helper_secret: "s".into(),
        thresholds: AlertThresholds::default(),
        email: String::new(),
    }
}

#[test]
fn values_are_given_back_while_fresh() {
    let mut c: Cache = None;
    cache_put_dashboard(&mut c, "u", 1, 100);
    cache_put_providers(&mut c, "u", 2, 200);
    cache_put_daily_usage(&mut c, "u", 3, 300);
    assert_eq!(cache_get_dashboard(&c, "u", 100), Some(&1));
    assert_eq!(cache_get_dashboard(&c, "u", 99 + DASHBOARD_CACHE_TTL), Some(&1));
    assert_eq!(cache_get_dashboard(&c, "u", 100 + DASHBOARD_CACHE_TTL), None);
    assert_eq!(cache_get_providers(&c, "u", 100 + DASHBOARD_CACHE_TTL), Some(&2));
    assert_eq!(cache_get_daily_usage(&c, "u", 250 + DASHBOARD_CACHE_TTL), Some(&3));
    // A clock that seems to have gone back leaves the value fresh.
    assert_eq!(cache_get_dashboard(&c, "u", 0), Some(&1));
}

#[test]
fn another_user_finds_and_leaves_nothing() {
    let mut c: Cache = None;
    cache_put_dashboard(&mut c, "u", 1, 0);
    assert_eq!(cache_get_dashboard(&c, "v", 0), None);
    cache_put_providers(&mut c, "v", 9, 0);
    assert_eq!(cache_get_dashboard(&c, "u", 0), None);
    assert_eq!(cache_get_dashboard(&c, "v", 0), None);
    assert_eq!(cache_get_providers(&c, "v", 0), Some(&9));
    cache_put_daily_usage(&mut c, "u", 5, 0);
    assert_eq!(cache_get_providers(&c, "v", 0), None);
    assert_eq!(cache_get_daily_usage(&c, "u", 0), Some(&5));
}

#[test]
fn invalidation_drops_everything() {
    let mut c: Cache = None;
    cache_put_dashboard(&mut c, "u", 1, 0);
    cache_invalidate(&mut c);
    assert!(c.is_none());
    assert_eq!(cache_get_dashboard(&c, "u", 0), None);
}

#[test]
fn readings_look_at_the_cache_first() {
    let mut c: Cache = None;
    match get_dashboard_summary(None, &c, 0) {
        ReadPlan::Fail(e) => assert_eq!(e, "Sign in required to view dashboard data."),
        _ => panic!("not refused"),
    }
    match get_dashboard_summary(Some(config()), &c, 0) {
        ReadPlan::Fetch { user_id } => assert_eq!(user_id, "u"),
        _ => panic!("not fetched"),
    }
    cache_put_dashboard(&mut c, "u", 1, 0);
    assert!(matches!(get_dashboard_summary(Some(config()), &c, 5), ReadPlan::Kept(1)));
    assert!(matches!(get_provider_summary(Some(config()), &c, 5), ReadPlan::Fetch { .. }));
    assert!(matches!(get_provider_summary(None, &c, 5), ReadPlan::Fail(_)));
    cache_put_providers(&mut c, "u", 2, 0);
    assert!(matches!(get_provider_summary(Some(config()), &c, 5), ReadPlan::Kept(2)));
    assert!(matches!(ensure_daily_usage("u".into(), &c, 5), ReadPlan::Fetch { .. }));
    cache_put_daily_usage(&mut c, "u", 3, 0);
    assert!(matches!(ensure_daily_usage("u".into(), &c, 5), ReadPlan::Kept(3)));
}
