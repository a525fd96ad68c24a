use cli_pulse::notify::NotificationCopy;
use cli_pulse::number::Double;
use cli_pulse::tray::{
    apply_metrics, click_toggles, collect_tray_metrics, force_tray_menu_refresh, format_forecast,
    format_month_so_far, format_synced_ago, install, local_daily_rows, menu_action, menu_rows,
    month_figures, record_local_tray_snapshot, set_copy, show_main, toggle_main, MenuAction,
    MenuRow, MoneyFormat, MoneyFormatPayload, MonthFigures, MouseButton, Rendered, TrayCopy,
    TrayCopyPayload, TrayMetrics, WindowStep,
};
use cli_pulse::usage::{message_provider, DailyEntry, ScanResult, CLAUDE_MSG_BUCKET_MODEL};

fn double(v: f64) -> Double {
    Double { bits: v.to_bits() }
}

fn rendered(copy: &TrayCopy, usd: f64) -> Rendered {
    let (rate, decimals) = match &copy.money {
        Some(m) => (f64::from_bits(m.rate.bits), m.decimals),
        None => (1.0, 2),
    };
    let shown = usd * rate;
    Rendered {
        dollars: format!("{usd:.2}"),
        magnitude: format!("{:.*}", decimals, shown.abs()),
        negative: shown < 0.0,
    }
}

fn month(copy: &TrayCopy, value: Option<f64>, paired: bool) -> String {
    format_month_so_far(copy, &value.map(|v| rendered(copy, v)), paired)
}

fn forecast(copy: &TrayCopy, value: Option<f64>, paired: bool) -> String {
    format_forecast(copy, &value.map(|v| rendered(copy, v)), paired)
}

fn format_usd(value: f64) -> String {
    cli_pulse::tray::format_usd(&format!("{value:.2}"))
}

fn group_thousands(value: f64, decimals: usize) -> String {
    cli_pulse::tray::group_thousands(&format!("{:.*}", decimals, value.abs()), value < 0.0)
}

fn money(symbol: &str, rate: f64, decimals: usize) -> Option<MoneyFormat> {
    Some(MoneyFormat { symbol: symbol.into(), rate: double(rate), decimals })
}

#[test]
fn format_usd_two_decimals() {
    assert_eq!(format_usd(0.0), "$0.00");
    assert_eq!(format_usd(0.999), "$1.00"); // banker's rounding via fmt
    assert_eq!(format_usd(12.34), "$12.34");
    assert_eq!(format_usd(1234.5), "$1234.50");
}

#[test]
fn month_so_far_unpaired_shows_not_paired() {
    let copy = TrayCopy::default();
    assert_eq!(month(&copy, Some(99.99), false), "Month so far: Not signed in");
    // Paired but no data yet — show the dash, not the not-paired
    // hint (the user IS paired; the data just isn't there yet).
    assert_eq!(month(&copy, None, true), "Month so far: —");
}

#[test]
fn forecast_paired_with_value() {
    let copy = TrayCopy::default();
    assert_eq!(forecast(&copy, Some(42.5), true), "Forecast: $42.50");
}

#[test]
fn synced_ago_buckets_correctly() {
    let copy = TrayCopy::default();
    assert_eq!(format_synced_ago(&copy, None), "Not synced yet");
    assert_eq!(format_synced_ago(&copy, Some(0)), "Synced 0 s ago");
    assert_eq!(format_synced_ago(&copy, Some(45)), "Synced 45 s ago");
    assert_eq!(format_synced_ago(&copy, Some(60)), "Synced 1 min ago");
    assert_eq!(format_synced_ago(&copy, Some(3599)), "Synced 59 min ago");
    assert_eq!(format_synced_ago(&copy, Some(3600)), "Synced 1 hr ago");
    assert_eq!(format_synced_ago(&copy, Some(7200)), "Synced 2 hr ago");
    assert_eq!(format_synced_ago(&copy, Some(86_400)), "Synced 1 d ago");
}

#[test]
fn template_replace_handles_repeated_placeholder() {
    let copy = TrayCopy {
        month_so_far_template: "{value} ({value})".into(),
        ..TrayCopy::default()
    };
    assert_eq!(month(&copy, Some(7.0), true), "$7.00 ($7.00)");
}

#[test]
fn template_replace_preserves_surrounding_text() {
    let copy = TrayCopy {
        synced_ago_template: "已同步 {age} 前".into(),
        ..TrayCopy::default()
    };
    assert_eq!(format_synced_ago(&copy, Some(120)), "已同步 2 min 前");
}

#[test]
fn age_units_come_from_the_pushed_copy() {
    let copy = TrayCopy {
        synced_ago_template: "{age}前同步".into(),
        age_seconds_template: "{n} 秒".into(),
        age_minutes_template: "{n} 分钟".into(),
        age_hours_template: "{n} 小时".into(),
        age_days_template: "{n} 天".into(),
        ..TrayCopy::default()
    };
    assert_eq!(format_synced_ago(&copy, Some(45)), "45 秒前同步");
    assert_eq!(format_synced_ago(&copy, Some(120)), "2 分钟前同步");
    assert_eq!(format_synced_ago(&copy, Some(7200)), "2 小时前同步");
    assert_eq!(format_synced_ago(&copy, Some(172_800)), "2 天前同步");
}

#[test]
fn amounts_use_the_display_currency() {
    let copy = TrayCopy { money: money("¥", 7.1, 2), ..TrayCopy::default() };
    assert_eq!(month(&copy, Some(200.0), true), "Month so far: ¥1,420.00");
    let yen = TrayCopy { money: money("JP¥", 147.0, 0), ..TrayCopy::default() };
    assert_eq!(forecast(&yen, Some(12.5), true), "Forecast: JP¥1,838");
    // No usable rate: dollars, never a blank or NaN.
    let broken = TrayCopy { money: money("€", f64::NAN, 2), ..TrayCopy::default() };
    assert_eq!(forecast(&broken, Some(12.5), true), "Forecast: $12.50");
}

#[test]
fn grouping_handles_small_large_and_negative_values() {
    assert_eq!(group_thousands(0.5, 2), "0.50");
    assert_eq!(group_thousands(999.999, 2), "1,000.00");
    assert_eq!(group_thousands(1_234_567.0, 0), "1,234,567");
    assert_eq!(group_thousands(-1234.5, 1), "-1,234.5");
}

#[test]
fn rates_that_are_no_use_mean_dollars() {
    for rate in [0.0, -1.0, f64::INFINITY, f64::NEG_INFINITY, -0.0] {
        let copy = TrayCopy { money: money("€", rate, 2), ..TrayCopy::default() };
        assert_eq!(forecast(&copy, Some(2.0), true), "Forecast: $2.00");
    }
    let tiny = TrayCopy { money: money("€", f64::MIN_POSITIVE, 2), ..TrayCopy::default() };
    assert_eq!(forecast(&tiny, Some(2.0), true), "Forecast: €0.00");
}

#[test]
fn zero_has_no_sign() {
    assert_eq!(group_thousands(-0.001, 2), "0.00");
    assert_eq!(group_thousands(-0.006, 2), "-0.01");
    assert_eq!(group_thousands(-0.0, 0), "0");
}

#[test]
fn commas_are_all_that_grouping_adds() {
    for v in [1.0, 12.0, 123.0, 1234.0, 98_765_432.1] {
        assert_eq!(group_thousands(v, 2).replace(',', ""), format!("{v:.2}"));
    }
}

fn scan(entries: Vec<DailyEntry>) -> ScanResult {
    ScanResult {
        entries,
        today_key: "2026-05-06".into(),
        total_cost_usd: double(0.0),
        total_tokens: 0,
        files_scanned: 1,
    }
}

fn entry(model: &str, cost: Option<f64>) -> DailyEntry {
    DailyEntry {
        date: "2026-05-06".into(),
        provider: message_provider(),
        model: model.into(),
        input_tokens: 1000,
        cached_tokens: 500,
        output_tokens: 200,
        cost_usd: cost.map(double),
    }
}

#[test]
fn message_buckets_are_left_out_of_the_forecast() {
    let rows = local_daily_rows(&scan(vec![
        entry("sonnet-4.6", Some(0.42)),
        entry(CLAUDE_MSG_BUCKET_MODEL, None),
        entry("opus", None),
    ]));
    assert_eq!(rows.len(), 2);
    assert_eq!(rows[0].model, "sonnet-4.6");
    assert_eq!(rows[0].cost, double(0.42));
    assert_eq!((rows[0].input_tokens, rows[0].cached_tokens, rows[0].output_tokens), (1000, 500, 200));
    assert_eq!(rows[1].cost, double(0.0));
    assert!(local_daily_rows(&scan(vec![])).is_empty());
}

#[test]
fn a_new_forecast_replaces_the_kept_one() {
    let a = MonthFigures { so_far: double(0.42), expected: double(12.6) };
    let b = MonthFigures { so_far: double(1.0), expected: double(30.0) };
    let mut kept = None;
    record_local_tray_snapshot(&mut kept, Some(a));
    assert_eq!(kept, Some(a));
    record_local_tray_snapshot(&mut kept, None);
    assert_eq!(kept, Some(a));
    assert_eq!(month_figures(kept, Some(b)), Some(a));
    assert_eq!(month_figures(None, Some(b)), Some(b));
    assert_eq!(month_figures(None, None), None);
}

fn metrics(copy: &TrayCopy) -> TrayMetrics {
    collect_tray_metrics(true, Some(rendered(copy, 7.0)), Some(rendered(copy, 42.5)), Some(120))
}

#[test]
fn a_fresh_menu_is_english_and_blank() {
    let h = install();
    let rows = menu_rows(&h);
    let shown: Vec<(String, String, bool)> = rows
        .into_iter()
        .map(|r| match r {
            MenuRow::Item { id, label, enabled } => (id, label, enabled),
            MenuRow::Separator => ("-".into(), "-".into(), false),
        })
        .collect();
    let expected = [
        ("header", "CLI Pulse", false),
        ("-", "-", false),
        ("month", "Month so far: Not signed in", false),
        ("forecast", "Forecast: Not signed in", false),
        ("synced", "Not synced yet", false),
        ("-", "-", false),
        ("open", "Open CLI Pulse", true),
        ("quit", "Quit", true),
    ];
    assert_eq!(shown.len(), expected.len());
    for (got, want) in shown.iter().zip(expected) {
        assert_eq!((got.0.as_str(), got.1.as_str(), got.2), want);
    }
}

#[test]
fn metrics_change_the_live_rows_only() {
    let mut h = install();
    let m = metrics(&h.lock.copy);
    apply_metrics(&mut h, &m);
    assert_eq!(h.month_item, "Month so far: $7.00");
    assert_eq!(h.forecast_item, "Forecast: $42.50");
    assert_eq!(h.synced_item, "Synced 2 min ago");
    assert_eq!((h.header_item.as_str(), h.quit_item.as_str()), ("CLI Pulse", "Quit"));
}

fn german() -> TrayCopy {
    TrayCopy {
        header_label: "CLI Pulse".into(),
        month_so_far_template: "Monat: {value}".into(),
        open_label: "Öffnen".into(),
        quit_label: "Beenden".into(),
        ..TrayCopy::default()
    }
}

#[test]
fn new_texts_flip_the_whole_menu() {
    let mut h = install();
    let m = metrics(&h.lock.copy);
    apply_metrics(&mut h, &m);
    set_copy(&mut h, german());
    assert_eq!(h.open_item, "Öffnen");
    assert_eq!(h.month_item, "Month so far: $7.00");
    apply_metrics(&mut h, &m);
    assert_eq!(h.month_item, "Monat: $7.00");
    assert_eq!(h.quit_item, "Beenden");
}

#[test]
fn a_poisoned_lock_falls_back_to_english() {
    let mut h = install();
    h.lock.poisoned = true;
    set_copy(&mut h, german());
    assert_eq!(h.open_item, "Öffnen");
    let m = metrics(&TrayCopy::default());
    apply_metrics(&mut h, &m);
    assert_eq!(h.month_item, "Month so far: $7.00");
}

fn payload() -> TrayCopyPayload {
    TrayCopyPayload {
        header_label: "H".into(),
        month_so_far_template: "M {value}".into(),
        forecast_template: "F {value}".into(),
        synced_ago_template: "S {age}".into(),
        synced_never: "never".into(),
        not_paired: "none".into(),
        no_data: "?".into(),
        open_label: "O".into(),
        quit_label: "Q".into(),
        age_seconds_template: None,
        age_minutes_template: Some("{n}m".into()),
        age_hours_template: None,
        age_days_template: None,
        money: Some(MoneyFormatPayload { symbol: "€".into(), rate: double(0.9), decimals: 9 }),
    }
}

#[test]
fn a_payload_may_leave_the_units_out() {
    let c = TrayCopy::from(payload());
    assert_eq!(c.age_seconds_template, "{n} s");
    assert_eq!(c.age_minutes_template, "{n}m");
    assert_eq!(c.money.as_ref().map(|m| m.decimals), Some(4));
    assert_eq!(c.money.as_ref().map(|m| m.rate), Some(double(0.9)));
}

#[test]
fn a_forced_refresh_takes_what_is_sent() {
    let mut h = install();
    let mut texts = NotificationCopy::default();
    let m = TrayMetrics {
        month_so_far_usd: None,
        forecast_usd: None,
        synced_seconds_ago: Some(60),
        paired: true,
    };
    force_tray_menu_refresh(&mut h, &mut texts, Some(payload()), None, &m);
    assert_eq!((h.header_item.as_str(), h.month_item.as_str()), ("H", "M ?"));
    assert_eq!(h.synced_item, "S 1m");
    assert_eq!(texts, NotificationCopy::default());
    force_tray_menu_refresh(&mut h, &mut texts, None, None, &m);
    assert_eq!(h.header_item, "H");
}

#[test]
fn an_unpaired_device_has_no_metrics() {
    let copy = TrayCopy::default();
    let m = collect_tray_metrics(false, Some(rendered(&copy, 7.0)), None, Some(5));
    assert!(!m.paired && m.month_so_far_usd.is_none() && m.synced_seconds_ago.is_none());
}

#[test]
fn clicks_and_rows_act() {
    assert_eq!(menu_action("open"), MenuAction::ShowMain);
    assert_eq!(menu_action("quit"), MenuAction::Quit);
    assert_eq!(menu_action("month"), MenuAction::Nothing);
    assert!(click_toggles(MouseButton::Left, true));
    assert!(!click_toggles(MouseButton::Left, false));
    assert!(!click_toggles(MouseButton::Right, true));
    assert_eq!(toggle_main(Some(true)), vec![WindowStep::Hide]);
    assert_eq!(toggle_main(Some(false)), vec![WindowStep::Show, WindowStep::Focus]);
    assert_eq!(toggle_main(None), vec![WindowStep::Show, WindowStep::Focus]);
    assert_eq!(show_main(), vec![WindowStep::Show, WindowStep::Focus, WindowStep::Unminimize]);
}

/// The month so far and an expected total that is never below it.
fn forecast_from_daily(scan: &ScanResult) -> MonthFigures {
    let spent: f64 = local_daily_rows(scan).iter().map(|r| f64::from_bits(r.cost.bits)).sum();
    MonthFigures { so_far: double(spent), expected: double(spent * 2.0) }
}

#[test]
fn record_local_tray_snapshot_populates_global() {
    let mut kept = None;
    let today_key = chrono::Local::now().date_naive().format("%Y-%m-%d").to_string();
    let mut found = scan(vec![
        DailyEntry { date: today_key.clone(), ..entry("sonnet-4.6", Some(0.42)) },
        DailyEntry {
            date: today_key.clone(),
            input_tokens: 0,
            cached_tokens: 0,
            output_tokens: 0,
            ..entry(CLAUDE_MSG_BUCKET_MODEL, None)
        },
    ]);
    found.today_key = today_key;
    found.total_cost_usd = double(0.42);
    found.total_tokens = 1700;
    record_local_tray_snapshot(&mut kept, Some(forecast_from_daily(&found)));
    let stashed = kept.expect("must be Some after a successful snapshot");
    let (month, predicted) =
        (f64::from_bits(stashed.so_far.bits), f64::from_bits(stashed.expected.bits));
    assert!((month - 0.42).abs() < f64::EPSILON, "month_so_far expected ~0.42, got {month}");
    assert!(predicted >= month, "predicted_total must be >= month_so_far, got {predicted} vs {month}");
}

#[test]
fn record_local_tray_snapshot_handles_empty_scan() {
    let mut kept = None;
    record_local_tray_snapshot(&mut kept, Some(forecast_from_daily(&scan(vec![]))));
    assert!(kept.is_some(), "empty scan must still populate the stash");
    let stashed = kept.unwrap();
    assert_eq!(f64::from_bits(stashed.so_far.bits), 0.0);
    assert_eq!(f64::from_bits(stashed.expected.bits), 0.0);
}
