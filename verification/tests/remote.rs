use cli_pulse::alerts::AlertThresholds;
use cli_pulse::device::HelperConfig;
use cli_pulse::remote::{
    decide_remote_approval, default_provider_args, request_remote_session_start,
    send_remote_session_command, ApprovalEvent, ApprovalStep, PendingRequest, StartSessionArgs,
    ALREADY_DECIDED, HIGH_RISK,
};
use cli_pulse::usage::{message_provider, message_provider_title};

fn config() -> HelperConfig {
    HelperConfig {
        device_id: "dev".into(),
        user_id: "user".into(),
        device_name: "box".into(),
        helper_version: "1".into(),
        helper_secret: "s".into(),
        thresholds: AlertThresholds::default(),
        email: String::new(),
    }
}

fn decide(decision: &str, scope: &str) -> ApprovalStep {
    decide_remote_approval(Some(config()), "r1".into(), decision.into(), scope.into())
}

fn failure(step: ApprovalStep) -> String {
    match step {
        ApprovalStep::Done(Err(e)) => e,
        _ => panic!("the deciding did not fail"),
    }
}

fn pending(list: &[(&str, &str)]) -> Vec<PendingRequest> {
    list.iter().map(|(id, risk)| PendingRequest { id: (*id).into(), risk: (*risk).into() }).collect()
}

#[test]
fn an_approval_is_checked_before_it_is_sent() {
    let s = decide("approve", "once");
    assert!(matches!(s, ApprovalStep::List { .. }));
    let s = s.step(ApprovalEvent::Listed(Ok(pending(&[("r0", "high"), ("r1", "low")]))));
    match &s {
        ApprovalStep::Send { decision } => {
            assert_eq!(decision.request_id, "r1");
            assert_eq!((decision.decision.as_str(), decision.scope.as_str()), ("approve", "once"));
            assert_eq!(decision.device_id, "dev");
        }
        _ => panic!("not sent"),
    }
    assert!(matches!(s.step(ApprovalEvent::Sent(Ok(()))), ApprovalStep::Done(Ok(()))));
}

#[test]
fn a_risky_approval_is_never_sent() {
    let s = decide("approve", "once").step(ApprovalEvent::Listed(Ok(pending(&[("r1", "high")]))));
    assert_eq!(failure(s), HIGH_RISK);
    assert_eq!(
        HIGH_RISK,
        "High-risk requests can only be approved on the originating device — never from the desktop app."
    );
    let s = decide("approve", "once").step(ApprovalEvent::Listed(Ok(pending(&[("r2", "low")]))));
    assert_eq!(failure(s), ALREADY_DECIDED);
    let s = decide("approve", "once").step(ApprovalEvent::Listed(Err("offline".into())));
    assert_eq!(failure(s), "offline");
    // The first request with the identifier decides.
    let two = pending(&[("r1", "high"), ("r1", "low")]);
    assert_eq!(failure(decide("approve", "once").step(ApprovalEvent::Listed(Ok(two)))), HIGH_RISK);
}

#[test]
fn a_denial_is_sent_at_once() {
    assert!(matches!(decide("deny", "alwaysSession"), ApprovalStep::Send { .. }));
}

#[test]
fn decisions_are_vetted() {
    assert_eq!(
        failure(decide("maybe", "once")),
        "Invalid decision `maybe` — must be `approve` or `deny`."
    );
    assert_eq!(
        failure(decide("deny", "ever")),
        "Invalid scope `ever` — must be `once` or `alwaysSession`."
    );
    let s = decide_remote_approval(None, "r".into(), "maybe".into(), "ever".into());
    assert_eq!(failure(s), "Sign in required to decide remote approvals.");
}

#[test]
fn commands_are_vetted() {
    assert_eq!(send_remote_session_command("stop", None, Ok(true)), Ok(()));
    assert_eq!(send_remote_session_command("interrupt", None, Ok(true)), Ok(()));
    assert_eq!(send_remote_session_command("prompt", Some("hi"), Ok(true)), Ok(()));
    assert_eq!(
        send_remote_session_command("prompt", Some(" \n"), Ok(true)),
        Err("Prompt command requires non-empty payload.".to_string())
    );
    assert_eq!(
        send_remote_session_command("prompt", None, Ok(false)),
        Err("Prompt command requires non-empty payload.".to_string())
    );
    assert_eq!(
        send_remote_session_command("kill", None, Ok(false)),
        Err("Invalid command kind `kill` — must be `prompt`, `stop`, or `interrupt`.".to_string())
    );
    assert_eq!(
        send_remote_session_command("stop", None, Ok(false)),
        Err("Sign in required to send remote commands.".to_string())
    );
}

fn args(provider: &str, cwd: &str, basename: Option<&str>) -> StartSessionArgs {
    StartSessionArgs {
        cwd: cwd.into(),
        cwd_basename: basename.map(str::to_string),
        client_label: Some("label".into()),
        provider: provider.into(),
    }
}

#[test]
fn sessions_of_the_hosted_provider_start() {
    let hosted = default_provider_args();
    assert_eq!(hosted, message_provider());
    let s = request_remote_session_start(Ok(Some(config())), args(&hosted, r"C:\a\b/proj", None));
    let s = s.ok().expect("started");
    assert_eq!((s.basename.as_str(), s.device_id.as_str()), ("proj", "dev"));
    assert_eq!(s.client_label.as_deref(), Some("label"));
    let long = format!("/x/{}", "é".repeat(300));
    let s = request_remote_session_start(Ok(Some(config())), args(&hosted, &long, None)).ok().unwrap();
    assert_eq!(s.basename, "é".repeat(255));
    let s = request_remote_session_start(Ok(Some(config())), args(&hosted, "/x", Some("given/it")));
    assert_eq!(s.ok().unwrap().basename, "given/it");
}

#[test]
fn other_sessions_do_not() {
    let e = request_remote_session_start(Ok(None), args("codex", "/x", None)).err().unwrap();
    assert_eq!(
        e,
        format!(
            "Provider `codex` is not yet supported. v0.9.1a hosts {} sessions only.",
            message_provider_title()
        )
    );
    let e = request_remote_session_start(Ok(None), args(&default_provider_args(), "/x", None));
    assert_eq!(e.err().unwrap(), "Sign in required to start a remote session.");
}

#[test]
fn a_pairing_that_cannot_be_read_is_told_last() {
    assert_eq!(
        send_remote_session_command("stop", None, Err("io".into())),
        Err("io".to_string())
    );
    assert!(send_remote_session_command("kill", None, Err("io".into())).unwrap_err().starts_with("Inv"));
    let e = request_remote_session_start(Err("io".into()), args(&default_provider_args(), "/x", None));
    assert_eq!(e.err().unwrap(), "io");
    let e = request_remote_session_start(Err("io".into()), args("codex", "/x", None));
    assert!(e.err().unwrap().starts_with("Provider `codex`"));
}

#[test]
fn the_hosted_provider_is_the_one_whose_messages_are_counted() {
    assert_eq!(format!("__{}_msg__", message_provider()), "__claude_msg__");
    assert_eq!(message_provider_title().to_lowercase(), message_provider());
    assert!(message_provider_title().starts_with('C'));
}
