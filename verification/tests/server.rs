use cli_pulse::server::{
    auth_friendly, friendly, keychain_friendly, AuthError, KeychainError, SupabaseError,
};
use cli_pulse::sync::looks_like_auth_failure;

#[test]
fn server_faults_are_told() {
    assert_eq!(
        friendly(&SupabaseError::Rpc { code: "P0001".into(), message: "nope".into() }),
        "nope [P0001]"
    );
    let long = "é".repeat(400);
    assert_eq!(
        friendly(&SupabaseError::Http { status: 503, body: long }),
        format!("Supabase HTTP 503: {}", "é".repeat(300))
    );
    assert_eq!(friendly(&SupabaseError::Other("x".into())), "x");
}

#[test]
fn a_refused_device_is_recognised_in_what_is_told() {
    for status in [401, 403] {
        let told = friendly(&SupabaseError::Http { status, body: "anything".into() });
        assert!(looks_like_auth_failure(&told));
    }
    let told = friendly(&SupabaseError::Http { status: 500, body: "anything".into() });
    assert!(!looks_like_auth_failure(&told));
}

#[test]
fn sign_in_faults_are_told() {
    let told = |e: AuthError| auth_friendly(&e);
    assert_eq!(
        told(AuthError::RateLimited),
        "Too many tries — please wait a minute and try again."
    );
    assert_eq!(told(AuthError::InvalidCode), "Invalid or expired code.");
    assert_eq!(told(AuthError::RefreshFailed), "Your sign-in expired. Please sign in again.");
    assert_eq!(told(AuthError::Network("dns".into())), "Network error: dns");
    assert_eq!(
        told(AuthError::Other { status: 418, body: "tea".into() }),
        "Auth error (HTTP 418): tea"
    );
    assert_eq!(told(AuthError::Json("eof".into())), "Auth response parse error: eof");
}

#[test]
fn keychain_faults_are_told() {
    assert_eq!(keychain_friendly(&KeychainError::Backend("b".into())), "Keychain error: b");
    assert!(keychain_friendly(&KeychainError::NotAvailable).starts_with("OS keychain not available."));
}
