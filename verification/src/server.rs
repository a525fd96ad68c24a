//! The faults of the server, the sign-in service and the keychain, and how they are told.

use crate::text;
use vstd::prelude::*;
use vstd::string::*;

verus! {

/// At most this many characters of a server's answer are shown.
pub const BODY_SHOWN: usize = 300;

/// Why a call to the server failed.
pub enum SupabaseError {
    /// A function of the server raised an error.
    Rpc { code: String, message: String },
    /// The server answered with this status.
    Http { status: u16, body: String },
    /// Anything else, in its own words.
    Other(String),
}

/// Why the sign-in service turned a call down.
pub enum AuthError {
    RateLimited,
    InvalidCode,
    RefreshFailed,
    Network(String),
    Other { status: u16, body: String },
    Json(String),
}

/// Why the keychain of the system cannot be used.
pub enum KeychainError {
    NotAvailable,
    Backend(String),
}

/// How a fault of the server is told.
pub open spec fn friendly_of(e: SupabaseError) -> Seq<char> {
    match e {
        SupabaseError::Rpc { code, message } => message@ + " ["@ + code@ + "]"@,
        SupabaseError::Http { status, body } => "Supabase HTTP "@ + text::decimal_of(status as nat)
            + ": "@ + text::first(body@, BODY_SHOWN as nat),
        SupabaseError::Other(words) => words@,
    }
}

/// How a fault of the server is told.
pub fn friendly(e: &SupabaseError) -> (r: String)
    ensures
        r@ == friendly_of(*e),
{
    match e {
        SupabaseError::Rpc { code, message } => {
            let mut r = text::join(message.as_str(), " [");
            r.append(code.as_str());
            r.append("]");
            r
        },
        SupabaseError::Http { status, body } => {
            let number = text::decimal(*status as u64);
            let snippet = text::take(body.as_str(), BODY_SHOWN);
            let mut r = text::join("Supabase HTTP ", number.as_str());
            r.append(": ");
            r.append(snippet.as_str());
            r
        },
        SupabaseError::Other(words) => words.clone(),
    }
}

/// How a fault of the sign-in service is told.
pub open spec fn auth_friendly_of(e: AuthError) -> Seq<char> {
    match e {
        AuthError::RateLimited => "Too many tries — please wait a minute and try again."@,
        AuthError::InvalidCode => "Invalid or expired code."@,
        AuthError::RefreshFailed => "Your sign-in expired. Please sign in again."@,
        AuthError::Network(err) => "Network error: "@ + err@,
        AuthError::Other { status, body } => "Auth error (HTTP "@ + text::decimal_of(status as nat)
            + "): "@ + body@,
        AuthError::Json(err) => "Auth response parse error: "@ + err@,
    }
}

/// How a fault of the sign-in service is told.
pub fn auth_friendly(e: &AuthError) -> (r: String)
    ensures
        r@ == auth_friendly_of(*e),
{
    match e {
        AuthError::RateLimited => text::owned(
            "Too many tries — please wait a minute and try again.",
        ),
        AuthError::InvalidCode => text::owned("Invalid or expired code."),
        AuthError::RefreshFailed => text::owned("Your sign-in expired. Please sign in again."),
        AuthError::Network(err) => text::join("Network error: ", err.as_str()),
        AuthError::Other { status, body } => {
            let number = text::decimal(*status as u64);
            let mut r = text::join("Auth error (HTTP ", number.as_str());
            r.append("): ");
            r.append(body.as_str());
            r
        },
        AuthError::Json(err) => text::join("Auth response parse error: ", err.as_str()),
    }
}

/// How a keychain that kept no token is told at sign-in.
pub open spec fn keychain_friendly_of(e: KeychainError) -> Seq<char> {
    match e {
        KeychainError::NotAvailable => "OS keychain not available. On Linux, install libsecret (e.g. `gnome-keyring` or `kwalletd`); on minimal headless servers, use the Mac pairing flow instead."@,
        KeychainError::Backend(msg) => "Keychain error: "@ + msg@,
    }
}

/// How a keychain that kept no token is told at sign-in.
pub fn keychain_friendly(e: &KeychainError) -> (r: String)
    ensures
        r@ == keychain_friendly_of(*e),
{
    match e {
        KeychainError::NotAvailable => text::owned(
            "OS keychain not available. On Linux, install libsecret (e.g. `gnome-keyring` or `kwalletd`); on minimal headless servers, use the Mac pairing flow instead.",
        ),
        KeychainError::Backend(msg) => text::join("Keychain error: ", msg.as_str()),
    }
}

/// An answer of the server with a status that turns the device down is recognised as such in the
/// words in which it is told, whatever its body says.
pub proof fn lemma_refused_device_is_recognised(status: u16, body: String)
    requires
        status == 401 || status == 403,
    ensures
        crate::sync::auth_failure(friendly_of(SupabaseError::Http { status, body })),
{
    let msg = friendly_of(SupabaseError::Http { status, body });
    reveal_strlit("Supabase HTTP ");
    reveal_strlit(": ");
    reveal_strlit("HTTP 401");
    reveal_strlit("HTTP 403");
    reveal_with_fuel(text::decimal_of, 4);
    assert(text::decimal_of(401) =~= seq!['4', '0', '1']);
    assert(text::decimal_of(403) =~= seq!['4', '0', '3']);
    if status == 401 {
        assert(msg.subrange(9, 17) =~= "HTTP 401"@);
        assert(text::occurs_at(msg, "HTTP 401"@, 9));
    } else {
        assert(msg.subrange(9, 17) =~= "HTTP 403"@);
        assert(text::occurs_at(msg, "HTTP 403"@, 9));
    }
}

/// What is told of a server's answer stays short, whatever its body says.
pub proof fn lemma_told_body_is_short(status: u16, body: String)
    ensures
        friendly_of(SupabaseError::Http { status, body }).len() <= 14 + 5 + 2 + BODY_SHOWN,
{
    reveal_strlit("Supabase HTTP ");
    reveal_strlit(": ");
    reveal_with_fuel(text::decimal_of, 6);
}

/// A fault that a function of the server raised is told by its message, with its code in square
/// brackets behind it; any other fault in its own words.
pub proof fn lemma_fault_is_told(code: String, message: String, words: String)
    ensures
        friendly_of(SupabaseError::Rpc { code, message }) == message@ + " ["@ + code@ + "]"@,
        friendly_of(SupabaseError::Other(words)) == words@,
{
}

/// An answer with a status is told by the status and the start of the body, 300 characters at most.
pub proof fn lemma_answer_is_told(status: u16, body: String)
    ensures
        body@.len() <= 300 ==> friendly_of(SupabaseError::Http { status, body })
            == "Supabase HTTP "@ + text::decimal_of(status as nat) + ": "@ + body@,
        body@.len() > 300 ==> friendly_of(SupabaseError::Http { status, body })
            == "Supabase HTTP "@ + text::decimal_of(status as nat) + ": "@ + body@.take(300),
{
}

/// Each fault of the sign-in service is told in words of its own.
pub proof fn lemma_sign_in_fault_is_told(status: u16, body: String, words: String)
    ensures
        auth_friendly_of(AuthError::RateLimited)
            == "Too many tries — please wait a minute and try again."@,
        auth_friendly_of(AuthError::InvalidCode) == "Invalid or expired code."@,
        auth_friendly_of(AuthError::RefreshFailed) == "Your sign-in expired. Please sign in again."@,
        auth_friendly_of(AuthError::Network(words)) == "Network error: "@ + words@,
        auth_friendly_of(AuthError::Other { status, body }) == "Auth error (HTTP "@
            + text::decimal_of(status as nat) + "): "@ + body@,
        auth_friendly_of(AuthError::Json(words)) == "Auth response parse error: "@ + words@,
        keychain_friendly_of(KeychainError::Backend(words)) == "Keychain error: "@ + words@,
        text::begins(
            keychain_friendly_of(KeychainError::NotAvailable),
            "OS keychain not available."@,
        ),
{
    reveal_strlit("OS keychain not available.");
    reveal_strlit(
        "OS keychain not available. On Linux, install libsecret (e.g. `gnome-keyring` or `kwalletd`); on minimal headless servers, use the Mac pairing flow instead.",
    );
    let all = keychain_friendly_of(KeychainError::NotAvailable);
    assert(all.subrange(0, 26) =~= "OS keychain not available."@);
}

} // verus!
