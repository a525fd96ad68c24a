use cli_pulse::alerts::Alert;
use cli_pulse::notify::{
    budget_breach, budget_text, copy, is_printed, pair_success, session_expired, set_copy,
    sync_failure_streak, sync_paused_body, NotificationCopy, NotificationCopyPayload,
};
use cli_pulse::number::Double;
use cli_pulse::usage::Measured;

fn budget_alert(id: &str, title: &str, message: &str) -> Alert {
    Alert {
        id: id.into(),
        alert_type: "Daily Budget Exceeded".into(),
        severity: "Warning".into(),
        title: title.into(),
        message: message.into(),
        created_at: "2026-09-17T00:00:00Z".into(),
        related_project_id: None,
        related_project_name: None,
        related_session_id: None,
        related_session_name: None,
        related_provider: None,
        related_device_name: None,
        source_kind: Some("budget".into()),
        source_id: None,
        grouping_key: None,
        suppression_key: None,
    }
}

#[test]
fn default_copy_is_the_previous_english() {
    let c = NotificationCopy::default();
    assert_eq!(
        c.pair_body.replace("{device}", "box"),
        "Device “box” is now syncing with your phone."
    );
    assert_eq!(
        sync_paused_body(&c, 3, "HTTP 500"),
        "3 consecutive sync failures.\nHTTP 500"
    );
    let a = budget_alert(
        "budget-daily-2026-09-17",
        "Daily budget exceeded — $12.34",
        "Today's spend of $12.34 is above your daily budget of $10.00.",
    );
    assert_eq!(budget_text(&c, &a), (a.title.clone(), a.message.clone()));
}

#[test]
fn budget_notifications_render_in_the_pushed_language() {
    let c = NotificationCopy {
        budget_daily_title: "每日预算已超出 — {amount}".into(),
        budget_daily_body: "今日支出 {spend} 已超过每日预算 {limit}。".into(),
        budget_weekly_title: "每周预算已超出 — {amount}".into(),
        budget_weekly_body: "最近 7 天支出共计 {spend}，已超过每周预算 {limit}。".into(),
        ..NotificationCopy::default()
    };
    let daily = budget_alert(
        "budget-daily-2026-09-17",
        "Daily budget exceeded — $12.34",
        "Today's spend of $12.34 is above your daily budget of $10.00.",
    );
    assert_eq!(
        budget_text(&c, &daily),
        (
            "每日预算已超出 — $12.34".into(),
            "今日支出 $12.34 已超过每日预算 $10.00。".into()
        )
    );
    let weekly = budget_alert(
        "budget-weekly-2026-W38",
        "Weekly budget exceeded — $1,088.20",
        "Last 7 days of spend totals $1,088.20, above your weekly budget of $50.00.",
    );
    assert_eq!(
        budget_text(&c, &weekly).1,
        "最近 7 天支出共计 $1,088.20，已超过每周预算 $50.00。"
    );
}

#[test]
fn unknown_alerts_keep_their_own_text() {
    let c = NotificationCopy::default();
    let a = budget_alert("something-else", "Title", "Message with $1 only.");
    assert_eq!(
        budget_text(&c, &a),
        ("Title".into(), "Message with $1 only.".into())
    );
}

#[test]
fn amounts_are_read_as_far_as_they_go() {
    let c = NotificationCopy {
        budget_daily_body: "{spend}|{limit}".into(),
        ..NotificationCopy::default()
    };
    let body = |m: &str| budget_text(&c, &budget_alert("budget-daily-x", "T", m)).1;
    assert_eq!(body("$1,2,3.40. and $5."), "$1,2,3.40|$5");
    assert_eq!(body("$$7 then $8,"), "$7|$8,");
    assert_eq!(body("$.5 and $1"), "$.5 and $1");
    assert_eq!(body("$1 $2 $3"), "$1 $2 $3");
    assert_eq!(body("none"), "none");
}

#[test]
fn an_english_notification_is_the_weekly_alert() {
    let a = budget_alert(
        "budget-weekly-2026-W38",
        "Weekly budget exceeded — $1088.20",
        "Last 7 days of spend totals $1088.20, above your weekly budget of $50.00.",
    );
    assert_eq!(
        budget_text(&NotificationCopy::default(), &a),
        (a.title.clone(), a.message.clone())
    );
}

#[test]
fn a_long_budget_body_is_cut() {
    let c = NotificationCopy::default();
    let a = budget_alert("x", "T", &"é".repeat(500));
    let n = budget_breach(&c, &a);
    assert_eq!(n.title, "T");
    assert_eq!(n.body.chars().count(), 280);
}

#[test]
fn notifications_are_filled_in() {
    let c = NotificationCopy::default();
    assert_eq!(pair_success(&c, "box").body, "Device “box” is now syncing with your phone.");
    assert_eq!(pair_success(&c, "box").title, "CLI Pulse — Paired");
    let streak = sync_failure_streak(&c, 3, &"e".repeat(200));
    assert_eq!(streak.title, "CLI Pulse — Sync paused");
    assert_eq!(streak.body, format!("3 consecutive sync failures.\n{}", "e".repeat(140)));
    assert_eq!(session_expired(&c, "device_missing").body, c.signed_out_device_missing);
    assert_eq!(session_expired(&c, "account_missing").body, c.signed_out_account_missing);
    assert_eq!(session_expired(&c, "other").body, c.signed_out_expired);
    assert_eq!(session_expired(&c, "other").title, "CLI Pulse — Sign in again");
}

#[test]
fn pushed_texts_replace_the_old_ones() {
    let mut current = NotificationCopy::default();
    let pushed = NotificationCopy { pair_title: "Gekoppelt".into(), ..NotificationCopy::default() };
    set_copy(&mut current, pushed.clone());
    assert_eq!(current, pushed);
    assert_eq!(copy(Some(&current)), pushed);
    assert_eq!(copy(None), NotificationCopy::default());
}

#[test]
fn a_payload_becomes_the_copy() {
    let p = NotificationCopyPayload {
        pair_title: "1".into(),
        pair_body: "2".into(),
        sync_paused_title: "3".into(),
        sync_paused_lead: "4".into(),
        signed_out_title: "5".into(),
        signed_out_device_missing: "6".into(),
        signed_out_account_missing: "7".into(),
        signed_out_expired: "8".into(),
        budget_daily_title: "9".into(),
        budget_daily_body: "10".into(),
        budget_weekly_title: "11".into(),
        budget_weekly_body: "12".into(),
    };
    let c = NotificationCopy::from(p);
    assert_eq!((c.pair_title.as_str(), c.pair_body.as_str()), ("1", "2"));
    assert_eq!((c.signed_out_expired.as_str(), c.budget_weekly_body.as_str()), ("8", "12"));
}

#[test]
fn printed_numbers_are_recognised() {
    for v in [0.0, 0.005, 12.34, 1e20, 1e300, f64::MIN_POSITIVE, f64::MAX, f64::INFINITY, f64::NAN, -1.5, -0.0] {
        assert!(is_printed(&format!("{v:.2}")), "{v}");
        assert!(is_printed(&format!("{v:.1}")), "{v}");
    }
    for t in ["", "5", "5.", ".", "$5.00", "1.2.3", "1,000.00", "1.0x", "x$", "-$1.00"] {
        assert_eq!(is_printed(t), t == ".", "{t}");
        let made = Measured::new(Double { bits: 0 }, t.into());
        assert_eq!(made.is_some(), t == ".", "{t}");
    }
    let made = Measured::new(Double { bits: 7 }, "1.50".into()).expect("printed");
    assert_eq!((made.value.bits, made.text.as_str()), (7, "1.50"));
}
