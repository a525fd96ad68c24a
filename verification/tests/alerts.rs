use cli_pulse::alerts::{
    compute, costs_since, cpu_spike_alert, figures, iso_week_label, last_7_days_costs, project_id,
    short_name, slug, today_costs, week_label, Alert, AlertThresholds, Figures, MAX_ALERTS,
};
use cli_pulse::clock::Moment;
use cli_pulse::notify::{budget_text, NotificationCopy};
use cli_pulse::number::Double;
use cli_pulse::usage::{
    message_provider, message_provider_title, DailyEntry, LiveSession, Measured, ScanResult,
    SessionsSnapshot,
};

fn double(v: f64) -> Double {
    Double { bits: v.to_bits() }
}

fn dollars(v: f64) -> Measured {
    Measured { value: double(v), text: format!("{v:.2}") }
}

fn sum(costs: &[Double]) -> f64 {
    costs.iter().map(|c| f64::from_bits(c.bits)).sum()
}

fn entry(date: &str, model: &str, cost: Option<f64>) -> DailyEntry {
    DailyEntry {
        date: date.into(),
        provider: message_provider_title(),
        model: model.into(),
        input_tokens: 10,
        cached_tokens: 0,
        output_tokens: 10,
        cost_usd: cost.map(double),
    }
}

fn dummy_scan(today: &str, cost_today: f64, cost_yesterday: f64) -> ScanResult {
    let model = format!("{}-sonnet-4-6", message_provider());
    ScanResult {
        entries: vec![
            entry(today, &model, Some(cost_today)),
            entry("2026-04-23", &model, Some(cost_yesterday)),
        ],
        today_key: today.into(),
        total_cost_usd: double(cost_today + cost_yesterday),
        total_tokens: 40,
        files_scanned: 1,
    }
}

fn dummy_sessions(count: usize, cpu: f32) -> SessionsSnapshot {
    let sessions = (0..count)
        .map(|i| LiveSession {
            id: format!("proc-{i}"),
            name: format!("{} --cli-{i}", message_provider()),
            provider: message_provider_title(),
            project: "demo".into(),
            cpu_usage: Measured { value: double(f64::from(cpu)), text: format!("{cpu:.1}") },
        })
        .collect();
    SessionsSnapshot { sessions, total_processes_seen: 100 }
}

fn alerts_of(
    scan: &ScanResult,
    sess: &SessionsSnapshot,
    th: &AlertThresholds,
    device: Option<&str>,
) -> Vec<Alert> {
    compute(scan, sess, th, device, &figures_at(scan, &Moment::now()))
}

fn figures_at(scan: &ScanResult, now: &Moment) -> Figures {
    let today = dollars(sum(&today_costs(scan)));
    let week = dollars(sum(&last_7_days_costs(scan, now)));
    figures(now, today, week)
}

#[test]
fn daily_budget_breach_fires_once() {
    let scan = dummy_scan("2026-04-24", 75.0, 10.0);
    let sess = dummy_sessions(0, 0.0);
    let th = AlertThresholds {
        daily_budget_usd: Some(dollars(50.0)),
        ..AlertThresholds::default()
    };
    let alerts = alerts_of(&scan, &sess, &th, None);
    assert_eq!(alerts.len(), 1);
    assert_eq!(alerts[0].alert_type, "Daily Budget Exceeded");
    assert_eq!(alerts[0].suppression_key.as_deref(), Some("budget-daily:2026-04-24"));
}

#[test]
fn budget_alerts_render_localized_notifications() {
    let copy = NotificationCopy {
        budget_daily_title: "D {amount}".into(),
        budget_daily_body: "D {spend} / {limit}".into(),
        budget_weekly_title: "W {amount}".into(),
        budget_weekly_body: "W {spend} / {limit}".into(),
        ..NotificationCopy::default()
    };
    let scan = dummy_scan(&chrono::Utc::now().format("%Y-%m-%d").to_string(), 75.0, 10.0);
    let th = AlertThresholds {
        daily_budget_usd: Some(dollars(50.0)),
        weekly_budget_usd: Some(dollars(20.0)),
        ..AlertThresholds::default()
    };
    let alerts = alerts_of(&scan, &dummy_sessions(0, 0.0), &th, None);
    let daily = alerts.iter().find(|a| a.id.starts_with("budget-daily-")).expect("daily alert");
    assert_eq!(
        budget_text(&copy, daily),
        ("D $75.00".into(), "D $75.00 / $50.00".into())
    );
    let weekly = alerts.iter().find(|a| a.id.starts_with("budget-weekly-")).expect("weekly alert");
    let (title, body) = budget_text(&copy, weekly);
    assert!(title.starts_with("W $"), "{title}");
    assert!(body.ends_with(" / $20.00"), "{body}");
}

#[test]
fn daily_budget_under_limit_no_alert() {
    let scan = dummy_scan("2026-04-24", 10.0, 5.0);
    let sess = dummy_sessions(0, 0.0);
    let th = AlertThresholds {
        daily_budget_usd: Some(dollars(50.0)),
        ..AlertThresholds::default()
    };
    let alerts = alerts_of(&scan, &sess, &th, None);
    assert_eq!(alerts.len(), 0);
}

#[test]
fn cpu_spike_above_threshold_triggers() {
    let scan = dummy_scan("2026-04-24", 1.0, 1.0);
    let sess = dummy_sessions(2, 85.0);
    let th = AlertThresholds::default();
    let alerts = alerts_of(&scan, &sess, &th, None);
    assert_eq!(alerts.len(), 2);
    assert_eq!(alerts[0].alert_type, "Usage Spike");
    assert_eq!(alerts[0].severity, "Warning");
}

#[test]
fn cpu_below_threshold_no_alert() {
    let scan = dummy_scan("2026-04-24", 1.0, 1.0);
    let sess = dummy_sessions(3, 40.0);
    let th = AlertThresholds::default();
    let alerts = alerts_of(&scan, &sess, &th, None);
    assert_eq!(alerts.len(), 0);
}

#[test]
fn msg_bucket_not_counted_in_budget_cost() {
    let mut scan = dummy_scan("2026-04-24", 10.0, 5.0);
    scan.entries.push(DailyEntry {
        date: "2026-04-24".into(),
        provider: message_provider_title(),
        model: "__claude_msg__".into(),
        input_tokens: 0,
        cached_tokens: 0,
        output_tokens: 0,
        cost_usd: None,
    });
    let sess = dummy_sessions(0, 0.0);
    let th = AlertThresholds {
        daily_budget_usd: Some(dollars(8.0)),
        ..AlertThresholds::default()
    };
    let alerts = alerts_of(&scan, &sess, &th, None);
    // Today cost = 10 (msg bucket excluded) > 8 → one alert.
    assert_eq!(alerts.len(), 1);
}

#[test]
fn project_id_sanitizes_safely() {
    assert_eq!(project_id("Hello World"), "hello-world");
    assert_eq!(project_id("!!!"), "local-workspace");
    assert_eq!(project_id("foo / bar"), "foo-bar");
}

#[test]
fn a_priced_message_bucket_still_costs_nothing() {
    let mut scan = dummy_scan("2026-04-24", 10.0, 5.0);
    scan.entries.push(entry("2026-04-24", "__claude_msg__", Some(100.0)));
    assert_eq!(sum(&today_costs(&scan)), 10.0);
}

#[test]
fn a_budget_alert_is_written_in_full() {
    let scan = dummy_scan("2026-04-24", 75.0, 10.0);
    let th = AlertThresholds {
        daily_budget_usd: Some(dollars(50.0)),
        ..AlertThresholds::default()
    };
    let alerts = alerts_of(&scan, &dummy_sessions(0, 0.0), &th, Some("box"));
    let a = &alerts[0];
    assert_eq!(a.id, "budget-daily-2026-04-24");
    assert_eq!(a.title, "Daily budget exceeded — $75.00");
    assert_eq!(a.message, "Today's spend of $75.00 is above your daily budget of $50.00.");
    assert_eq!(a.related_device_name.as_deref(), Some("box"));
    assert_eq!(a.source_kind.as_deref(), Some("budget"));
    assert_eq!(a.source_id.as_deref(), Some("daily:2026-04-24"));
    assert_eq!(a.grouping_key.as_deref(), Some("budget:daily"));
}

#[test]
fn spend_at_the_limit_is_within_it() {
    let scan = dummy_scan("2026-04-24", 50.0, 0.0);
    let th = AlertThresholds {
        daily_budget_usd: Some(dollars(50.0)),
        ..AlertThresholds::default()
    };
    assert_eq!(alerts_of(&scan, &dummy_sessions(0, 0.0), &th, None).len(), 0);
    let zero = AlertThresholds {
        daily_budget_usd: Some(dollars(0.0)),
        ..AlertThresholds::default()
    };
    assert_eq!(alerts_of(&scan, &dummy_sessions(0, 0.0), &zero, None).len(), 0);
}

#[test]
fn a_session_at_the_threshold_spikes() {
    let scan = dummy_scan("2026-04-24", 1.0, 1.0);
    assert_eq!(
        alerts_of(&scan, &dummy_sessions(1, 80.0), &AlertThresholds::default(), None).len(),
        1
    );
    let nan = AlertThresholds { cpu_spike_pct: double(f64::NAN), ..AlertThresholds::default() };
    assert_eq!(alerts_of(&scan, &dummy_sessions(1, 80.0), &nan, None).len(), 0);
}

#[test]
fn at_most_twenty_alerts_are_sent() {
    let scan = dummy_scan("2026-04-24", 75.0, 10.0);
    let th = AlertThresholds {
        daily_budget_usd: Some(dollars(50.0)),
        ..AlertThresholds::default()
    };
    let alerts = alerts_of(&scan, &dummy_sessions(30, 99.0), &th, None);
    assert_eq!(alerts.len(), MAX_ALERTS);
    assert_eq!(alerts[0].alert_type, "Daily Budget Exceeded");
}

#[test]
fn the_same_day_makes_the_same_keys() {
    let scan = dummy_scan("2026-04-24", 75.0, 10.0);
    let th = AlertThresholds {
        daily_budget_usd: Some(dollars(50.0)),
        ..AlertThresholds::default()
    };
    let keys = |at: &str| -> Vec<(String, Option<String>)> {
        let figures = Figures {
            today: dollars(75.0),
            week: dollars(85.0),
            week_label: "2026-W17".into(),
            now_iso: at.into(),
        };
        compute(&scan, &dummy_sessions(2, 90.0), &th, None, &figures)
            .into_iter()
            .map(|a| (a.id, a.suppression_key))
            .collect()
    };
    assert_eq!(keys("2026-04-24T08:00:00+00:00"), keys("2026-04-24T20:00:00+00:00"));
}

#[test]
fn no_budget_means_no_budget_alert() {
    let scan = dummy_scan("2026-04-24", 1e9, 1e9);
    let alerts = alerts_of(&scan, &dummy_sessions(0, 0.0), &AlertThresholds::default(), None);
    assert!(alerts.is_empty());
}

#[test]
fn the_week_reaches_back_seven_days() {
    // Noon of 2026-04-24; seven days before is 2026-04-17.
    let now = Moment { secs: 1_777_032_000, nanos: 0 };
    let mut scan = dummy_scan("2026-04-24", 1.0, 2.0);
    scan.entries.push(entry("2026-04-16", "m", Some(40.0)));
    scan.entries.push(entry("2026-04-17", "m", Some(4.0)));
    scan.entries.push(entry("not a day", "m", Some(8.0)));
    assert_eq!(sum(&last_7_days_costs(&scan, &now)), 7.0);
    let today = now.day();
    let days = vec![Some(today), Some(today - 1), Some(today - 8), Some(today - 7), None];
    assert_eq!(sum(&costs_since(&scan.entries, &days, today - 7)), 7.0);
    assert_eq!(sum(&costs_since(&scan.entries, &days, today)), 1.0);
}

#[test]
fn iso_weeks_are_labelled() {
    assert_eq!(iso_week_label(&Moment { secs: 1_777_032_000, nanos: 0 }), "2026-W17");
    // 2027-01-01 belongs to the last week of 2026.
    assert_eq!(iso_week_label(&Moment { secs: 1_798_761_600, nanos: 0 }), "2026-W53");
    assert_eq!(week_label(2026, 3), "2026-W03");
}

#[test]
fn long_names_are_shortened() {
    assert_eq!(short_name("short"), "short");
    assert_eq!(short_name(&"x".repeat(32)), "x".repeat(32));
    assert_eq!(short_name(&"é".repeat(33)), format!("{}...", "é".repeat(29)));
}

#[test]
fn slugs_have_single_dashes_inside() {
    assert_eq!(slug("a--b  c"), "a-b-c");
    assert_eq!(slug("--"), "local-workspace");
    assert_eq!(project_id("ÄÖ Test"), "äö-test");
}

#[test]
fn a_spike_names_its_session() {
    let sess = dummy_sessions(1, 85.25);
    let a = cpu_spike_alert(&sess.sessions[0], "2026-04-24T12:00:00+00:00", Some("box"));
    assert_eq!(a.alert_type, "Usage Spike");
    assert_eq!(a.related_session_id.as_deref(), Some("proc-0"));
    assert_eq!(a.related_project_id.as_deref(), Some("demo"));
    assert_eq!(a.created_at, "2026-04-24T12:00:00+00:00");
    assert!(a.message.contains("85.2") || a.title.contains("85.2"), "{} {}", a.title, a.message);
}

#[test]
fn weeks_are_labelled_to_the_ends_of_the_calendar() {
    let first = iso_week_label(&Moment { secs: -8_334_601_228_800, nanos: 0 });
    let last = iso_week_label(&Moment { secs: 8_210_266_876_799, nanos: 0 });
    assert!(first.starts_with("-26214") && first.contains("-W"), "{first}");
    assert!(last.starts_with("26214") && last.contains("-W"), "{last}");
}

#[test]
fn figures_carry_the_week_and_the_time() {
    let f = figures(&Moment { secs: 1_777_032_000, nanos: 0 }, dollars(1.5), dollars(2.5));
    assert_eq!((f.today.text.as_str(), f.week.text.as_str()), ("1.50", "2.50"));
    assert_eq!((f.week_label.as_str(), f.now_iso.as_str()), ("2026-W17", "2026-04-24T12:00:00+00:00"));
}

#[test]
fn all_times_of_a_day_make_the_same_keys() {
    let scan = dummy_scan("2026-04-24", 75.0, 10.0);
    let th = AlertThresholds {
        daily_budget_usd: Some(dollars(50.0)),
        weekly_budget_usd: Some(dollars(20.0)),
        ..AlertThresholds::default()
    };
    let midnight = 1_776_988_800;
    let at = |secs: i64| {
        let now = Moment { secs, nanos: 0 };
        let sess = dummy_sessions(2, 95.0);
        compute(&scan, &sess, &th, Some("box"), &figures_at(&scan, &now))
            .into_iter()
            .map(|a| (a.id, a.suppression_key))
            .collect::<Vec<_>>()
    };
    let first = at(midnight);
    assert_eq!(first.len(), 4);
    for secs in [midnight + 1, midnight + 43_200, midnight + 86_399] {
        assert_eq!(at(secs), first);
    }
    assert_ne!(at(midnight + 14 * 86_400), first);
}

#[test]
fn identifiers_are_their_own_identifiers() {
    for name in ["Demo Project", "--", "", "A//B..C", "x", "local-workspace", "9 Lives!"] {
        let id = project_id(name);
        assert_eq!(project_id(&id), id, "{name}");
        assert_eq!(slug(&id), id, "{name}");
    }
    assert_eq!(slug("é x"), "é-x");
    assert_eq!(slug(&slug("«é» x")), "é-x");
}

#[test]
fn every_ascii_character_is_told_apart() {
    for b in 0u8..128 {
        let c = char::from(b);
        let kept = c.is_ascii_alphanumeric();
        let expected = if kept { c.to_ascii_lowercase().to_string() } else { "local-workspace".into() };
        assert_eq!(project_id(&c.to_string()), expected, "{b}");
    }
}

#[test]
fn an_amount_without_digits_keeps_the_english() {
    let scan = dummy_scan("2026-04-24", f64::INFINITY, 0.0);
    let th = AlertThresholds {
        daily_budget_usd: Some(dollars(50.0)),
        weekly_budget_usd: Some(dollars(20.0)),
        ..AlertThresholds::default()
    };
    let now = Moment { secs: 1_777_032_000, nanos: 0 };
    let alerts = compute(&scan, &dummy_sessions(0, 0.0), &th, None, &figures_at(&scan, &now));
    assert_eq!(alerts.len(), 2);
    assert_eq!(alerts[0].title, "Daily budget exceeded — $inf");
    for a in &alerts {
        let told = budget_text(&NotificationCopy::default(), a);
        assert_eq!(told, (a.title.clone(), a.message.clone()));
    }
}
