use cli_pulse::alerts::AlertThresholds;
use cli_pulse::clock::Moment;
use cli_pulse::device::{
    bundle_extras, default_device_name, device_name_from, device_type, diagnostic_snapshot,
    emit_test_sentry_event, get_thresholds, hostname, set_thresholds, system_label, Backend,
    ConfigView, HelperConfig,
};
use cli_pulse::number::Double;
use cli_pulse::usage::Measured;

fn config() -> HelperConfig {
    HelperConfig {
        device_id: "0123456789".into(),
        user_id: "user".into(),
        device_name: "box".into(),
        helper_version: "1".into(),
        helper_secret: "secret".into(),
        thresholds: AlertThresholds::default(),
        email: "a@b.c".into(),
    }
}

#[test]
fn systems_are_named() {
    assert_eq!(device_type("windows"), "Windows");
    assert_eq!(device_type("linux"), "Linux");
    assert_eq!(device_type("macos"), "macOS");
    assert_eq!(device_type("freebsd"), "Desktop");
    assert_eq!(system_label(Some("box"), "macos"), "box (macOS)");
    assert_eq!(system_label(None, "plan9"), "desktop (Desktop)");
}

#[test]
fn the_first_host_name_that_is_set_counts() {
    assert_eq!(hostname(Some("a"), Some("b")).as_deref(), Some("a"));
    assert_eq!(hostname(Some(""), Some("b")).as_deref(), Some("b"));
    assert_eq!(hostname(None, Some("b")).as_deref(), Some("b"));
    assert_eq!(hostname(Some(""), Some("")), None);
    assert_eq!(hostname(None, None), None);
}

#[test]
fn a_blank_device_name_falls_back() {
    assert_eq!(device_name_from(" Desk ".into(), Some("h".into())), " Desk ");
    assert_eq!(device_name_from(" \t".into(), Some("h".into())), "h");
    assert_eq!(device_name_from(String::new(), None), "Desktop");
}

#[test]
fn this_device_has_a_name() {
    let dn = whoami::devicename();
    let expected = if !dn.trim().is_empty() {
        dn
    } else {
        whoami::fallible::hostname().unwrap_or_else(|_| "Desktop".to_string())
    };
    assert_eq!(default_device_name(), expected);
}

#[test]
fn a_pairing_is_shown_without_its_secret() {
    let v = ConfigView::from_optional(Some(&config()), "linux", "9.9");
    assert!(v.paired);
    assert_eq!(v.device_id.as_deref(), Some("0123456789"));
    assert_eq!(v.device_name.as_deref(), Some("box"));
    assert_eq!(v.user_id.as_deref(), Some("user"));
    assert_eq!((v.device_type.as_str(), v.helper_version.as_str()), ("Linux", "9.9"));
    let v = ConfigView::from_optional(None, "linux", "9.9");
    assert!(!v.paired && v.device_id.is_none() && v.device_name.is_none() && v.user_id.is_none());
}

#[test]
fn a_bug_report_shows_eight_characters_of_the_device() {
    let s = diagnostic_snapshot(
        Some(&config()),
        "linux",
        "x86_64",
        "9.9",
        Some("/cache".into()),
        None,
        Backend::File,
    );
    assert_eq!(s.device_id_short.as_deref(), Some("01234567"));
    assert_eq!((s.os.as_str(), s.family.as_str(), s.arch.as_str()), ("Linux", "linux", "x86_64"));
    assert_eq!((s.app_version.as_str(), s.cache_dir.as_deref()), ("9.9", Some("/cache")));
    assert!(s.paired && s.log_dir.is_none());
    assert_eq!(s.provider_creds_backend, Backend::File);
    let s = diagnostic_snapshot(None, "linux", "x", "1", None, None, Backend::OsKeychain);
    assert!(!s.paired && s.device_id_short.is_none());
}

#[test]
fn a_bundle_holds_snapshot_and_versions() {
    let files = bundle_extras("{}".into(), "1.2");
    assert_eq!(files.len(), 2);
    assert_eq!((files[0].name.as_str(), files[0].content.as_str()), ("diagnostic_snapshot.json", "{}"));
    assert_eq!(files[1].name, "versions.txt");
    assert_eq!(files[1].content, "tauri.conf.json version: 1.2\nCargo.toml version: 1.2\n");
}

#[test]
fn thresholds_live_in_the_pairing() {
    for cfg in [Ok(None), Err("unreadable".to_string())] {
        let defaults = get_thresholds(cfg);
        assert!(defaults.daily_budget_usd.is_none() && defaults.weekly_budget_usd.is_none());
        assert_eq!(f64::from_bits(defaults.cpu_spike_pct.bits), 80.0);
    }
    let limits = AlertThresholds {
        daily_budget_usd: Some(Measured {
            value: Double { bits: 5.0f64.to_bits() },
            text: "5.00".into(),
        }),
        ..AlertThresholds::default()
    };
    let saved = set_thresholds(Some(config()), limits).ok().expect("paired");
    assert_eq!(saved.device_id, "0123456789");
    let limits = get_thresholds(Ok(Some(saved)));
    assert_eq!(limits.daily_budget_usd.map(|m| m.text).as_deref(), Some("5.00"));
    assert_eq!(
        set_thresholds(None, AlertThresholds::default()).err().as_deref(),
        Some("Device not paired — pair first, then set budgets")
    );
}

#[test]
fn a_test_report_is_tagged() {
    let r = emit_test_sentry_event(&Moment { secs: 1_777_032_000, nanos: 999 });
    let tags: Vec<(&str, &str)> =
        r.tags.iter().map(|t| (t.name.as_str(), t.value.as_str())).collect();
    assert_eq!(
        tags,
        vec![("diagnostic_test", "true"), ("emitted_at", "2026-04-24T12:00:00Z")]
    );
    assert_eq!(r.message, "CLI Pulse desktop diagnostic test event — manual emit, ignore.");
}
