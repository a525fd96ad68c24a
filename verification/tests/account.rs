use cli_pulse::account::{
    account_deleted, auth_account_check, auth_send_otp, auth_sign_out, auth_status, auth_verify_otp,
    caches_cleared, classify_auth_failure, clear_local_caches, delete_account_and_unpair,
    fetch_plan, pair_device, registration, required, resolved_name, AuthSession, Clearing,
    DeviceStatus,
    FetchPlan, Host, JwtEvent, JwtStep, LocalStep, PairEvent, PairStep, Registered, UnpairEvent,
    UnpairServerStatus, UnpairStep, SIGN_IN_FOR_DASHBOARD, SIGN_IN_FOR_REMOTE_CONTROL,
};
use cli_pulse::alerts::AlertThresholds;
use cli_pulse::device::HelperConfig;
use cli_pulse::server::{AuthError, KeychainError, SupabaseError};

fn host() -> Host {
    Host { os: "linux".into(), host: Some("box".into()), version: "1.2.3".into() }
}

fn session() -> AuthSession {
    AuthSession {
        access_token: "access".into(),
        refresh_token: "refresh".into(),
        email: "a@b.c".into(),
    }
}

fn registered() -> Registered {
    Registered { device_id: "dev".into(), user_id: "user".into(), helper_secret: "s".into() }
}

fn config() -> HelperConfig {
    HelperConfig {
        device_id: "dev".into(),
        user_id: "user".into(),
        device_name: "box".into(),
        helper_version: "1.2.3".into(),
        helper_secret: "s".into(),
        thresholds: AlertThresholds::default(),
        email: "a@b.c".into(),
    }
}

fn words<T>(step: JwtStep<T>) -> String {
    match step {
        JwtStep::Done(Err(e)) => e,
        _ => panic!("the call did not fail"),
    }
}

#[test]
fn a_call_stores_the_rotated_token_first() {
    let s: JwtStep<u8> = JwtStep::ReadToken;
    let s = s.with_user_jwt(JwtEvent::Token(Ok(Some("old".into()))));
    match &s {
        JwtStep::Refresh { token } => assert_eq!(token, "old"),
        _ => panic!("not refreshed"),
    }
    let s = s.with_user_jwt(JwtEvent::Refreshed(Ok(session())));
    match &s {
        JwtStep::Store { session } => assert_eq!(session.refresh_token, "refresh"),
        _ => panic!("not stored"),
    }
    let s = s.with_user_jwt(JwtEvent::Stored);
    match &s {
        JwtStep::Call { access_token } => assert_eq!(access_token, "access"),
        _ => panic!("not called"),
    }
    match s.with_user_jwt(JwtEvent::Called(Ok(7))) {
        JwtStep::Done(Ok(n)) => assert_eq!(n, 7),
        _ => panic!("not done"),
    }
}

#[test]
fn a_call_fails_in_its_own_words() {
    let start = || -> JwtStep<u8> { JwtStep::ReadToken };
    assert_eq!(words(start().with_user_jwt(JwtEvent::Token(Ok(None)))), SIGN_IN_FOR_DASHBOARD);
    assert_eq!(
        words(start().with_user_jwt(JwtEvent::Token(Err("NotAvailable".into())))),
        "Keychain unavailable: NotAvailable"
    );
    let refresh = || -> JwtStep<u8> { JwtStep::Refresh { token: "t".into() } };
    let forget = refresh().with_user_jwt(JwtEvent::Refreshed(Err(AuthError::RefreshFailed)));
    assert!(matches!(forget, JwtStep::Forget));
    assert_eq!(
        words(forget.with_user_jwt(JwtEvent::Forgotten)),
        "Session expired — sign in again to view dashboard."
    );
    assert_eq!(
        words(refresh().with_user_jwt(JwtEvent::Refreshed(Err(AuthError::Network("dns".into()))))),
        "Network error: dns"
    );
    let call: JwtStep<u8> = JwtStep::Call { access_token: "a".into() };
    assert_eq!(
        words(call.with_user_jwt(JwtEvent::Called(Err(SupabaseError::Rpc {
            code: "P1".into(),
            message: "no".into(),
        })))),
        "no [P1]"
    );
}

#[test]
fn an_event_out_of_turn_changes_nothing() {
    let s: JwtStep<u8> = JwtStep::ReadToken;
    assert!(matches!(s.with_user_jwt(JwtEvent::Stored), JwtStep::ReadToken));
}

#[test]
fn a_reading_needs_a_pairing() {
    assert!(matches!(fetch_plan(Ok(None)), FetchPlan::Empty));
    match fetch_plan(Ok(Some(config()))) {
        FetchPlan::Fetch { user_id } => assert_eq!(user_id, "user"),
        _ => panic!("not fetched"),
    }
    match fetch_plan(Err("io".into())) {
        FetchPlan::Fail(e) => assert_eq!(e, "io"),
        _ => panic!("not failed"),
    }
    assert_eq!(
        required(None, SIGN_IN_FOR_REMOTE_CONTROL).err().as_deref(),
        Some("Sign in required to change Remote Control.")
    );
    assert_eq!(required(Some(config()), "x").map(|c| c.device_id), Ok("dev".to_string()));
}

fn failure(step: PairStep) -> String {
    match step {
        PairStep::Done(Err(e)) => e,
        _ => panic!("the pairing did not fail"),
    }
}

#[test]
fn a_pairing_code_pairs() {
    let s = pair_device("  ABC ", Some("  "), &host());
    match &s {
        PairStep::RegisterByCode { code, request } => {
            assert_eq!(code, "ABC");
            assert_eq!(request.device_name, "box (Linux)");
            assert_eq!(request.device_type, "Linux");
            assert_eq!(request.system, "box (Linux)");
            assert_eq!(request.helper_version, "1.2.3");
        }
        _ => panic!("not registered"),
    }
    let s = s.step(PairEvent::Registered(Ok(registered())));
    match &s {
        PairStep::Save { cfg, signed_in } => {
            assert!(!signed_in);
            assert_eq!((cfg.email.as_str(), cfg.helper_secret.as_str()), ("", "s"));
            assert!(cfg.thresholds.daily_budget_usd.is_none());
        }
        _ => panic!("not saved"),
    }
    let s = s.step(PairEvent::Saved(Ok(())));
    match s.step(PairEvent::Welcomed) {
        PairStep::Done(Ok(p)) => {
            assert_eq!((p.device_id.as_str(), p.user_id.as_str()), ("dev", "user"));
            assert_eq!(p.device_name, "box (Linux)");
        }
        _ => panic!("not paired"),
    }
    assert_eq!(failure(pair_device("  ", None, &host())), "Pairing code is empty");
}

#[test]
fn a_sign_in_registers_and_keeps_its_token() {
    let s = auth_verify_otp(" a@b.c ", " 123 ", Some(" desk "), "fallback".into(), &host());
    match &s {
        PairStep::Verify { email, code, request } => {
            assert_eq!((email.as_str(), code.as_str()), ("a@b.c", "123"));
            assert_eq!(request.device_name, "desk");
        }
        _ => panic!("not verified"),
    }
    let s = s.step(PairEvent::Verified(Ok(session())));
    let s = s.step(PairEvent::Registered(Ok(registered())));
    assert!(matches!(s, PairStep::StoreToken { .. }));
    let s = s.step(PairEvent::Stored(Ok(())));
    match &s {
        PairStep::Save { cfg, signed_in } => {
            assert!(signed_in);
            assert_eq!(cfg.email, "a@b.c");
        }
        _ => panic!("not saved"),
    }
    assert_eq!(
        failure(s.step(PairEvent::Saved(Err("full".into())))),
        "Failed to save config: full"
    );
}

#[test]
fn a_sign_in_without_a_keychain_fails_closed() {
    let at_store = || PairStep::StoreToken {
        session: session(),
        request: registration("desk".into(), &host()),
        device: registered(),
    };
    let s = at_store().step(PairEvent::Stored(Err(KeychainError::NotAvailable)));
    match &s {
        PairStep::Unregister { device, .. } => {
            assert_eq!(device.device_id, registered().device_id);
            assert_eq!(device.helper_secret, registered().helper_secret);
        }
        _ => panic!("the device stays registered"),
    }
    let s = s.step(PairEvent::Unregistered(Ok(true)));
    assert!(matches!(s, PairStep::DropToken { .. }));
    assert_eq!(
        failure(s.step(PairEvent::Dropped)),
        "OS keychain not available. On Linux, install libsecret (e.g. `gnome-keyring` or `kwalletd`); on minimal headless servers, use the Mac pairing flow instead."
    );
    let s = at_store().step(PairEvent::Stored(Err(KeychainError::Backend("locked".into()))));
    let s = s.step(PairEvent::Unregistered(Err(SupabaseError::Other("down".into()))));
    assert_eq!(failure(s.step(PairEvent::Dropped)), "Keychain error: locked");
}

#[test]
fn a_sign_in_is_refused_in_words() {
    let empty = "Email or code is empty";
    assert_eq!(failure(auth_verify_otp("", "1", None, "f".into(), &host())), empty);
    assert_eq!(failure(auth_verify_otp("a", " ", None, "f".into(), &host())), empty);
    let s = auth_verify_otp("a", "1", None, "f".into(), &host());
    assert_eq!(
        failure(s.step(PairEvent::Verified(Err(AuthError::InvalidCode)))),
        "Invalid or expired code."
    );
    let s = PairStep::RegisterSignedIn {
        session: session(),
        request: registration("desk".into(), &host()),
    };
    assert_eq!(
        failure(s.step(PairEvent::Registered(Err(SupabaseError::Other("boom".into()))))),
        "boom"
    );
}

#[test]
fn names_fall_back() {
    assert_eq!(resolved_name(Some(" x "), "f".into()), "x");
    assert_eq!(resolved_name(Some(" "), "f".into()), "f");
    assert_eq!(resolved_name(None, "f".into()), "f");
}

#[test]
fn codes_are_sent_to_trimmed_addresses() {
    assert_eq!(auth_send_otp(" a@b.c\n"), Ok("a@b.c".to_string()));
    assert_eq!(auth_send_otp(" "), Err("Email is empty".to_string()));
}

#[test]
fn the_sign_in_is_shown() {
    let s = auth_status(Some(config()), Ok(Some("t".into())));
    assert!(s.paired && s.has_refresh_token);
    assert_eq!(s.email, "a@b.c");
    let s = auth_status(None, Err(KeychainError::NotAvailable));
    assert!(!s.paired && !s.has_refresh_token && s.email.is_empty());
    assert!(!auth_status(None, Ok(None)).has_refresh_token);
}

#[test]
fn a_missing_device_clears_the_pairing() {
    let (steps, kind) = classify_auth_failure(DeviceStatus::Healthy);
    assert!(steps.is_empty() && kind.is_none());
    let cleared = vec![LocalStep::DeleteToken, LocalStep::ClearConfig, LocalStep::DropCache];
    let (steps, kind) = classify_auth_failure(DeviceStatus::DeviceMissing);
    assert_eq!((steps, kind), (cleared.clone(), Some("device_missing")));
    let (steps, kind) = classify_auth_failure(DeviceStatus::AccountMissing);
    assert_eq!((steps, kind), (cleared, Some("account_missing")));
    assert_eq!(auth_account_check(DeviceStatus::Healthy), "healthy");
}

#[test]
fn unpairing_clears_whatever_the_server_says() {
    let s = UnpairStep::Load.unpair_device(UnpairEvent::Loaded(Ok(None)));
    assert!(matches!(s, UnpairStep::Clear { status: UnpairServerStatus::Skipped }));
    let s = UnpairStep::Load.unpair_device(UnpairEvent::Loaded(Err("io".into())));
    assert!(matches!(s, UnpairStep::Clear { status: UnpairServerStatus::Skipped }));

    let at = || UnpairStep::Load.unpair_device(UnpairEvent::Loaded(Ok(Some(config()))));
    let s = at().unpair_device(UnpairEvent::Unregistered(Ok(true)));
    assert!(matches!(s, UnpairStep::Clear { status: UnpairServerStatus::Deleted }));
    let s = at().unpair_device(UnpairEvent::Unregistered(Ok(false)));
    assert!(matches!(s, UnpairStep::Clear { status: UnpairServerStatus::AlreadyGone }));
    let s = at().unpair_device(UnpairEvent::Unregistered(Err(SupabaseError::Http {
        status: 502,
        body: "bad".into(),
    })));
    match s.unpair_device(UnpairEvent::Cleared(Ok(()))) {
        UnpairStep::Done(Ok(UnpairServerStatus::Transient { detail })) => {
            assert_eq!(detail, "Supabase HTTP 502: bad");
        }
        _ => panic!("not told"),
    }
    let s = at().unpair_device(UnpairEvent::Unregistered(Ok(true)));
    match s.unpair_device(UnpairEvent::Cleared(Err("locked".into()))) {
        UnpairStep::Done(Err(e)) => assert_eq!(e, "locked"),
        _ => panic!("not failed"),
    }
}

#[test]
fn leaving_takes_its_steps_in_order() {
    assert_eq!(
        auth_sign_out(),
        vec![LocalStep::DeleteToken, LocalStep::DropCache, LocalStep::ClearConfig]
    );
    assert!(delete_account_and_unpair(&Err("refused".into())).is_empty());
    assert_eq!(
        delete_account_and_unpair(&Ok(())),
        vec![
            LocalStep::DropCache,
            LocalStep::WipeScanCache,
            LocalStep::DeleteToken,
            LocalStep::WipeCreds,
            LocalStep::ClearConfig,
        ]
    );
    assert_eq!(clear_local_caches(), vec![LocalStep::DropCache, LocalStep::WipeScanCache]);
    assert_eq!(caches_cleared(Ok(())), Ok(()));
    assert_eq!(
        caches_cleared(Err("busy".into())),
        Err("Failed to wipe scan cache: busy".to_string())
    );
}

/// Takes the steps with these outcomes: the steps in the order in which they were due, and the end.
fn taken(steps: Vec<LocalStep>, outcomes: &[Result<(), String>]) -> (Vec<LocalStep>, Result<(), String>) {
    let mut due = vec![];
    let mut clearing = Clearing::begin(steps);
    loop {
        clearing = match clearing {
            Clearing::Done(outcome) => return (due, outcome),
            Clearing::Take { steps, next } => {
                due.push(steps[next]);
                Clearing::Take { steps, next }.step(outcomes[next].clone())
            }
        };
    }
}

#[test]
fn signing_out_rests_on_the_configuration() {
    let no = || Err("no".to_string());
    let (due, outcome) = taken(auth_sign_out(), &[no(), no(), Ok(())]);
    assert_eq!((due, outcome), (auth_sign_out(), Ok(())));
    let (due, outcome) = taken(auth_sign_out(), &[Ok(()), Ok(()), Err("locked".into())]);
    assert_eq!((due, outcome), (auth_sign_out(), Err("locked".to_string())));
    assert_eq!(taken(vec![], &[]), (vec![], Ok(())));
}

#[test]
fn a_deleted_account_is_cleared_whatever_fails() {
    let no = || Err("no".to_string());
    let steps = delete_account_and_unpair(&Ok(()));
    let (due, _) = taken(delete_account_and_unpair(&Ok(())), &[no(), no(), no(), no(), no()]);
    assert_eq!(due, steps);
    assert_eq!(account_deleted(Ok(())), Ok(()));
    assert_eq!(account_deleted(Err("refused".into())), Err("refused".to_string()));
}
