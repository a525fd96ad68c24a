use cli_pulse::alerts::{Alert, AlertThresholds, Figures};
use cli_pulse::device::HelperConfig;
use cli_pulse::notify::NotificationCopy;
use cli_pulse::number::Double;
use cli_pulse::quota::{CollectorOutcome, QuotaSnapshot};
use cli_pulse::server::SupabaseError;
use cli_pulse::sync::TickOutcome;
use cli_pulse::upload::{
    background_tick, maybe_notify_budget_breach, preview_alerts, tick_outcome, MachineLoad,
    SyncEvent, SyncStep, Taken, TaskError, ToldBudgets, UsageTaken,
};
use cli_pulse::usage::{LiveSession, Measured, ScanResult, SessionsSnapshot};
use serde_json::Value;

fn double(v: f64) -> Double {
    Double { bits: v.to_bits() }
}

fn dollars(v: f64) -> Measured {
    Measured { value: double(v), text: format!("{v:.2}") }
}

fn config() -> HelperConfig {
    HelperConfig {
        device_id: "dev".into(),
        user_id: "user".into(),
        device_name: "box".into(),
        helper_version: "1".into(),
        helper_secret: "s".into(),
        thresholds: AlertThresholds {
            daily_budget_usd: Some(dollars(10.0)),
            ..AlertThresholds::default()
        },
        email: String::new(),
    }
}

fn scan() -> ScanResult {
    ScanResult {
        entries: vec![],
        today_key: "2026-04-24".into(),
        total_cost_usd: double(12.5),
        total_tokens: 77,
        files_scanned: 3,
    }
}

fn sessions() -> SessionsSnapshot {
    SessionsSnapshot {
        sessions: vec![LiveSession {
            id: "p".into(),
            name: "n".into(),
            provider: "x".into(),
            project: "y".into(),
            cpu_usage: Measured { value: double(1.0), text: "1.0".into() },
        }],
        total_processes_seen: 9,
    }
}

fn figures() -> Figures {
    Figures {
        today: dollars(12.5),
        week: dollars(12.5),
        week_label: "2026-W17".into(),
        now_iso: "2026-04-24T12:00:00+00:00".into(),
    }
}

fn step(s: SyncStep, e: SyncEvent, told: &mut ToldBudgets) -> SyncStep {
    s.perform_sync(e, &NotificationCopy::default(), told)
}

fn failure(s: SyncStep) -> String {
    match s {
        SyncStep::Done(Err(e)) => e,
        _ => panic!("the round did not fail"),
    }
}

fn to_send(told: &mut ToldBudgets) -> SyncStep {
    let s = step(SyncStep::LoadConfig, SyncEvent::Config(Ok(Some(config()))), told);
    let s = step(s, SyncEvent::Scanned(Ok(scan())), told);
    let s = step(s, SyncEvent::Seen(Ok(sessions())), told);
    let s = step(s, SyncEvent::Measured(figures()), told);
    let s = step(s, SyncEvent::Toasted, told);
    let collected = vec![CollectorOutcome {
        provider: "Codex".into(),
        snapshot: Some(QuotaSnapshot {
            quota: Value::from(1),
            remaining: Value::from(5),
            plan_type: Value::Null,
            session_reset: Value::Null,
            tiers: Value::Null,
            status_text: None,
        }),
        error: None,
    }];
    step(s, SyncEvent::Collected(collected), told)
}

fn taken() -> Taken {
    Taken { sessions_synced: 1, alerts_synced: 2 }
}

#[test]
fn a_round_goes_through_all_its_steps() {
    let mut told = ToldBudgets::new();
    let s = to_send(&mut told);
    match &s {
        SyncStep::Send { round, remaining, tiers } => {
            assert_eq!(remaining.to_string(), r#"{"Codex":5}"#);
            assert_eq!(tiers["Codex"]["quota"], Value::from(1));
            assert_eq!(round.alerts.len(), 1);
            assert_eq!(round.alerts[0].related_device_name.as_deref(), Some("box"));
        }
        _ => panic!("not sent"),
    }
    let s = step(s, SyncEvent::Sent { taken: Ok(taken()), rows: 4 }, &mut told);
    assert!(matches!(s, SyncStep::SendUsage { .. }));
    let usage = UsageTaken { metrics_synced: 3, metrics_errored: 1 };
    let s = step(s, SyncEvent::UsageSent(Ok(usage)), &mut told);
    assert!(matches!(s, SyncStep::Record { .. }));
    let s = step(s, SyncEvent::Recorded, &mut told);
    let s = step(s, SyncEvent::LoadRead(Some(MachineLoad { cpu: 10, memory: 20 })), &mut told);
    let s = step(s, SyncEvent::SensorsRead(Some(Value::from(36))), &mut told);
    match &s {
        SyncStep::Heartbeat { load, sensors, active, .. } => {
            assert_eq!(*load, MachineLoad { cpu: 10, memory: 20 });
            assert_eq!((sensors, *active), (&Some(Value::from(36)), 1));
        }
        _ => panic!("no heartbeat"),
    }
    match step(s, SyncEvent::Beaten, &mut told) {
        SyncStep::Done(Ok(r)) => {
            assert_eq!((r.sessions_synced, r.alerts_synced), (1, 2));
            assert_eq!((r.metrics_synced, r.metrics_errored), (3, 1));
            assert_eq!((r.total_cost_usd, r.total_tokens, r.files_scanned), (double(12.5), 77, 3));
            assert_eq!((r.live_sessions_sent, r.live_processes_seen, r.alerts_computed), (1, 9, 1));
        }
        _ => panic!("not done"),
    }
}

#[test]
fn what_follows_the_send_cannot_fail_the_round() {
    let mut told = ToldBudgets::new();
    let s = to_send(&mut told);
    let s = step(s, SyncEvent::Sent { taken: Ok(taken()), rows: 1 }, &mut told);
    let s = step(s, SyncEvent::UsageSent(Err(SupabaseError::Other("down".into()))), &mut told);
    assert!(matches!(s, SyncStep::KeepFigures { .. }), "the time is kept");
    let s = step(s, SyncEvent::Recorded, &mut told);
    assert!(matches!(s, SyncStep::ReadLoad { .. }));
    let s = step(s, SyncEvent::LoadRead(None), &mut told);
    let s = step(s, SyncEvent::SensorsRead(None), &mut told);
    match &s {
        SyncStep::Heartbeat { load, sensors, .. } => {
            assert_eq!(*load, MachineLoad { cpu: 0, memory: 0 });
            assert!(sensors.is_none());
        }
        _ => panic!("no heartbeat"),
    }
    match step(s, SyncEvent::Beaten, &mut told) {
        SyncStep::Done(Ok(r)) => assert_eq!((r.metrics_synced, r.metrics_errored), (0, 0)),
        _ => panic!("not done"),
    }
}

#[test]
fn without_usage_rows_none_are_sent() {
    let mut told = ToldBudgets::new();
    let s = to_send(&mut told);
    let s = step(s, SyncEvent::Sent { taken: Ok(taken()), rows: 0 }, &mut told);
    assert!(matches!(s, SyncStep::Record { .. }));
}

#[test]
fn a_round_fails_in_words() {
    let mut told = ToldBudgets::new();
    let load = |e| SyncEvent::Config(e);
    assert_eq!(
        failure(step(SyncStep::LoadConfig, load(Ok(None)), &mut told)),
        "Device not paired yet"
    );
    assert_eq!(failure(step(SyncStep::LoadConfig, load(Err("io".into())), &mut told)), "io");
    let at_scan = || SyncStep::Scan { cfg: config() };
    assert_eq!(
        failure(step(at_scan(), SyncEvent::Scanned(Err(TaskError::Join("gone".into()))), &mut told)),
        "scanner join error: gone"
    );
    assert_eq!(
        failure(step(at_scan(), SyncEvent::Scanned(Err(TaskError::Failed("bad".into()))), &mut told)),
        "bad"
    );
    let at_sessions = SyncStep::Sessions { cfg: config(), scan: scan() };
    assert_eq!(
        failure(step(at_sessions, SyncEvent::Seen(Err("gone".into())), &mut told)),
        "sessions join error: gone"
    );
    let s = to_send(&mut told);
    let refused = SupabaseError::Http { status: 401, body: "no".into() };
    assert_eq!(
        failure(step(s, SyncEvent::Sent { taken: Err(refused), rows: 1 }, &mut told)),
        "Supabase HTTP 401: no"
    );
}

#[test]
fn a_budget_is_told_of_once() {
    let mut told = ToldBudgets::new();
    let toasts = |told: &mut ToldBudgets| {
        let s = SyncStep::Measure { cfg: config(), scan: scan(), snapshot: sessions() };
        match step(s, SyncEvent::Measured(figures()), told) {
            SyncStep::Toast { toasts, .. } => toasts,
            _ => panic!("no toasts"),
        }
    };
    let first = toasts(&mut told);
    assert_eq!(first.len(), 1);
    assert_eq!(first[0].title, "Daily budget exceeded — $12.50");
    assert!(toasts(&mut told).is_empty());
}

#[test]
fn a_weekly_budget_is_told_of_once_a_day() {
    let mut told = ToldBudgets::new();
    let mut toasts = |day: &str| {
        let mut cfg = config();
        cfg.thresholds.daily_budget_usd = None;
        cfg.thresholds.weekly_budget_usd = Some(dollars(10.0));
        let mut scan = scan();
        scan.today_key = day.into();
        let s = SyncStep::Measure { cfg, scan, snapshot: sessions() };
        match step(s, SyncEvent::Measured(figures()), &mut told) {
            SyncStep::Toast { toasts, .. } => {
                toasts.into_iter().map(|n| n.title).collect::<Vec<String>>()
            }
            _ => panic!("no toasts"),
        }
    };
    let weekly = vec!["Weekly budget exceeded — $12.50".to_string()];
    assert_eq!(toasts("2026-04-24"), weekly);
    assert!(toasts("2026-04-24").is_empty());
    assert_eq!(toasts("2026-04-25"), weekly);
    assert!(toasts("2026-04-25").is_empty());
}

#[test]
fn over_many_calls_each_budget_is_told_of_once_a_day() {
    let mut told = ToldBudgets::new();
    let c = NotificationCopy::default();
    let a = || alert("a", Some("budget"), Some("k1"));
    let b = || alert("b", Some("budget"), Some("k2"));
    let s = || alert("s", Some("session"), Some("k1"));
    let mut tell = |day: &str, list: Vec<Alert>| {
        maybe_notify_budget_breach(&mut told, &c, &list, day)
            .into_iter()
            .map(|n| n.title)
            .collect::<Vec<String>>()
    };
    assert_eq!(tell("1", vec![s(), a()]), vec!["a"]);
    assert_eq!(tell("1", vec![a(), b()]), vec!["b"]);
    assert!(tell("1", vec![b(), a(), s()]).is_empty());
    assert_eq!(tell("2", vec![b(), b()]), vec!["b"]);
    assert_eq!(tell("2", vec![a(), b()]), vec!["a"]);
    assert!(tell("1", vec![a(), b()]).is_empty());
}

fn alert(id: &str, kind: Option<&str>, key: Option<&str>) -> Alert {
    Alert {
        id: id.into(),
        alert_type: String::new(),
        severity: String::new(),
        title: id.into(),
        message: String::new(),
        created_at: String::new(),
        related_project_id: None,
        related_project_name: None,
        related_session_id: None,
        related_session_name: None,
        related_provider: None,
        related_device_name: None,
        source_kind: kind.map(str::to_string),
        source_id: None,
        grouping_key: None,
        suppression_key: key.map(str::to_string),
    }
}

#[test]
fn budgets_are_told_apart_by_key() {
    let mut told = ToldBudgets::new();
    let list = vec![
        alert("a", Some("budget"), Some("k1")),
        alert("b", Some("budget"), Some("k1")),
        alert("c", Some("budget"), None),
        alert("d", Some("session"), Some("k2")),
        alert("e", None, Some("k3")),
    ];
    let c = NotificationCopy::default();
    let titles: Vec<String> =
        maybe_notify_budget_breach(&mut told, &c, &list, "d").into_iter().map(|n| n.title).collect();
    assert_eq!(titles, vec!["a", "c"]);
    let kept: Vec<(&str, &str)> =
        told.budgets.iter().map(|b| (b.key.as_str(), b.day.as_str())).collect();
    assert_eq!(kept, vec![("k1", "d"), ("c", "d")]);
    assert!(!told.insert("c".into(), "d".into()));
    assert!(told.insert("c".into(), "e".into()));
}

#[test]
fn a_preview_uses_the_limits_in_force() {
    let paired = preview_alerts(&Some(config()), &scan(), &sessions(), &figures());
    assert_eq!(paired.len(), 1);
    assert!(preview_alerts(&None, &scan(), &sessions(), &figures()).is_empty());
}

#[test]
fn ticks_end_as_their_rounds_do() {
    assert!(background_tick(Ok(true)).is_none());
    assert!(matches!(background_tick(Ok(false)), Some(TickOutcome::NotPaired)));
    match background_tick(Err("io".into())) {
        Some(TickOutcome::Failed(e)) => assert_eq!(e, "io"),
        _ => panic!("not failed"),
    }
    match tick_outcome(Err("x".into())) {
        TickOutcome::Failed(e) => assert_eq!(e, "x"),
        _ => panic!("not failed"),
    }
}
