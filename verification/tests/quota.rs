use cli_pulse::quota::{
    get_last_collector_status, provider_payloads, CollectorOutcome, QuotaSnapshot,
};
use serde_json::Value;

fn number(n: i64) -> Value {
    Value::from(n)
}

fn snapshot(remaining: i64, status: Option<&str>) -> QuotaSnapshot {
    QuotaSnapshot {
        quota: number(100),
        remaining: number(remaining),
        plan_type: Value::from("pro"),
        session_reset: Value::Null,
        tiers: Value::Array(vec![number(1)]),
        status_text: status.map(str::to_string),
    }
}

fn outcome(provider: &str, snapshot: Option<QuotaSnapshot>, error: Option<&str>) -> CollectorOutcome {
    CollectorOutcome { provider: provider.into(), snapshot, error: error.map(str::to_string) }
}

#[test]
fn snapshots_are_sent_by_provider() {
    let (remaining, tiers) = provider_payloads(&vec![
        outcome("Cursor", Some(snapshot(40, None)), None),
        outcome("Gemini", None, Some("no token")),
        outcome("Codex", Some(snapshot(7, None)), None),
    ]);
    assert_eq!(remaining.to_string(), r#"{"Codex":7,"Cursor":40}"#);
    let one = r#"{"plan_type":"pro","quota":100,"remaining":40,"reset_time":null,"tiers":[1]}"#;
    assert_eq!(tiers["Cursor"].to_string(), one);
    assert_eq!(tiers.as_object().map(|m| m.len()), Some(2));
    assert!(tiers.get("Gemini").is_none());
}

#[test]
fn the_later_snapshot_of_a_provider_is_sent() {
    let (remaining, _) = provider_payloads(&vec![
        outcome("A", Some(snapshot(1, None)), None),
        outcome("A", Some(snapshot(2, None)), None),
    ]);
    assert_eq!(remaining["A"], number(2));
}

#[test]
fn no_outcomes_make_empty_objects() {
    let (remaining, tiers) = provider_payloads(&vec![]);
    assert_eq!((remaining.to_string(), tiers.to_string()), ("{}".into(), "{}".into()));
}

#[test]
fn cards_show_how_collectors_fared() {
    let cards = get_last_collector_status(&vec![
        outcome("A", Some(snapshot(1, Some("$12.34 balance"))), None),
        outcome("B", None, Some("timed out")),
        outcome("C", None, None),
    ]);
    let shown: Vec<(&str, bool, Option<&str>, Option<&str>)> = cards
        .iter()
        .map(|c| (c.provider.as_str(), c.ok, c.error.as_deref(), c.status_text.as_deref()))
        .collect();
    assert_eq!(
        shown,
        vec![
            ("A", true, None, Some("$12.34 balance")),
            ("B", false, Some("timed out"), None),
            ("C", false, None, None),
        ]
    );
}
