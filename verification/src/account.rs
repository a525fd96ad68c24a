//! Signing in, pairing and leaving: the order of their steps and what each failure tells.

use crate::alerts::AlertThresholds;
use crate::device;
use crate::device::HelperConfig;
use crate::server;
use crate::server::{AuthError, KeychainError, SupabaseError};
use crate::text;
use vstd::prelude::*;
use vstd::string::*;

verus! {

/// Told where dashboard data is asked for without a sign-in.
pub const SIGN_IN_FOR_DASHBOARD: &'static str = "Sign in required to view dashboard data.";

/// Told where the remote control setting is changed without a sign-in.
pub const SIGN_IN_FOR_REMOTE_CONTROL: &'static str = "Sign in required to change Remote Control.";

/// A signed-in session of the user.
pub struct AuthSession {
    pub access_token: String,
    pub refresh_token: String,
    pub email: String,
}

/// The pairing is handed on, or these words where there is none.
pub open spec fn requires_pairing(
    r: Result<HelperConfig, String>,
    cfg: Option<HelperConfig>,
    words: Seq<char>,
) -> bool {
    match cfg {
        Some(c) => r == Ok::<HelperConfig, String>(c),
        None => r is Err && r->Err_0@ == words,
    }
}

/// The pairing, where there is one; these words where there is none.
pub fn required(cfg: Option<HelperConfig>, words: &str) -> (r: Result<HelperConfig, String>)
    ensures
        cfg matches Some(c) ==> r == Ok::<HelperConfig, String>(c),
        cfg is None ==> r is Err && r->Err_0@ == words@,
        requires_pairing(r, cfg, words@),
{
    match cfg {
        Some(c) => Ok(c),
        None => Err(text::owned(words)),
    }
}

/// What a reading that a device without a pairing answers with an empty list does first.
pub enum FetchPlan {
    /// Tell why the configuration could not be loaded.
    Fail(String),
    /// Answer with nothing.
    Empty,
    /// Ask the server on behalf of the user.
    Fetch { user_id: String },
}

/// What such a reading does first.
pub open spec fn plan_of(cfg: Result<Option<HelperConfig>, String>) -> FetchPlan {
    match cfg {
        Ok(Some(c)) => FetchPlan::Fetch { user_id: c.user_id },
        Ok(None) => FetchPlan::Empty,
        Err(e) => FetchPlan::Fail(e),
    }
}

/// What such a reading does first.
pub fn fetch_plan(cfg: Result<Option<HelperConfig>, String>) -> (r: FetchPlan)
    ensures
        r == match cfg {
            Ok(Some(c)) => FetchPlan::Fetch { user_id: c.user_id },
            Ok(None) => FetchPlan::Empty,
            Err(e) => FetchPlan::Fail(e),
        },
        r == plan_of(cfg),
{
    match cfg {
        Ok(Some(c)) => FetchPlan::Fetch { user_id: c.user_id },
        Ok(None) => FetchPlan::Empty,
        Err(e) => FetchPlan::Fail(e),
    }
}

/// What a call on behalf of the user does next.
pub enum JwtStep<T> {
    /// Read the refresh token from the keychain.
    ReadToken,
    /// Trade the refresh token for a session.
    Refresh { token: String },
    /// Delete the refresh token and drop the cached dashboard.
    Forget,
    /// Put the session's refresh token into the keychain.
    Store { session: AuthSession },
    /// Call the server with this access token.
    Call { access_token: String },
    /// The call is over.
    Done(Result<T, String>),
}

/// What became of the last action of a call on behalf of the user.
pub enum JwtEvent<T> {
    /// The token, or what the keychain's fault looks like.
    Token(Result<Option<String>, String>),
    Refreshed(Result<AuthSession, AuthError>),
    Forgotten,
    /// Whether the keychain took the token makes no difference.
    Stored,
    Called(Result<T, SupabaseError>),
}

/// The call failed with these words.
pub open spec fn call_failed<T>(step: JwtStep<T>, words: Seq<char>) -> bool {
    step matches JwtStep::Done(Err(e)) && e@ == words
}

/// `after` is what the event makes of the call at `before`. An event that its action cannot bring
/// changes nothing.
pub open spec fn call_leads<T>(before: JwtStep<T>, event: JwtEvent<T>, after: JwtStep<T>) -> bool {
    match (before, event) {
        (JwtStep::ReadToken, JwtEvent::Token(read)) => match read {
            Ok(Some(token)) => after == (JwtStep::<T>::Refresh { token }),
            Ok(None) => call_failed(after, SIGN_IN_FOR_DASHBOARD@),
            Err(e) => call_failed(after, "Keychain unavailable: "@ + e@),
        },
        (JwtStep::Refresh { .. }, JwtEvent::Refreshed(r)) => match r {
            Ok(session) => after == (JwtStep::<T>::Store { session }),
            Err(AuthError::RefreshFailed) => after == JwtStep::<T>::Forget,
            Err(e) => call_failed(after, server::auth_friendly_of(e)),
        },
        (JwtStep::Forget, JwtEvent::Forgotten) => call_failed(
            after,
            "Session expired — sign in again to view dashboard."@,
        ),
        (JwtStep::Store { session }, JwtEvent::Stored) => after == (JwtStep::<T>::Call {
            access_token: session.access_token,
        }),
        (JwtStep::Call { .. }, JwtEvent::Called(r)) => match r {
            Ok(t) => after == JwtStep::Done(Ok::<T, String>(t)),
            Err(e) => call_failed(after, server::friendly_of(e)),
        },
        _ => after == before,
    }
}

impl<T> JwtStep<T> {
    /// What the event makes of a call on behalf of the user.
    pub fn with_user_jwt(self, event: JwtEvent<T>) -> (r: JwtStep<T>)
        ensures
            call_leads(self, event, r),
    {
        match (self, event) {
            (JwtStep::ReadToken, JwtEvent::Token(read)) => match read {
                Ok(Some(token)) => JwtStep::Refresh { token },
                Ok(None) => JwtStep::Done(Err(text::owned(SIGN_IN_FOR_DASHBOARD))),
                Err(e) => JwtStep::Done(Err(text::join("Keychain unavailable: ", e.as_str()))),
            },
            (JwtStep::Refresh { .. }, JwtEvent::Refreshed(r)) => match r {
                Ok(session) => JwtStep::Store { session },
                Err(AuthError::RefreshFailed) => JwtStep::Forget,
                Err(e) => JwtStep::Done(Err(server::auth_friendly(&e))),
            },
            (JwtStep::Forget, JwtEvent::Forgotten) => JwtStep::Done(
                Err(text::owned("Session expired — sign in again to view dashboard.")),
            ),
            (JwtStep::Store { session }, JwtEvent::Stored) => JwtStep::Call {
                access_token: session.access_token,
            },
            (JwtStep::Call { .. }, JwtEvent::Called(r)) => match r {
                Ok(t) => JwtStep::Done(Ok(t)),
                Err(e) => JwtStep::Done(Err(server::friendly(&e))),
            },
            (step, _) => step,
        }
    }
}

/// The server is called only with the access token of a session whose refresh token was put into
/// the keychain just before.
pub proof fn lemma_token_is_stored_before_the_call<T>(
    before: JwtStep<T>,
    event: JwtEvent<T>,
    after: JwtStep<T>,
)
    requires
        call_leads(before, event, after),
        after is Call,
    ensures
        before == after || (before is Store && event is Stored && after->Call_access_token
            == before->Store_session.access_token),
{
}

/// The refresh token is deleted only where the sign-in service turned it down; any other failure
/// leaves it.
pub proof fn lemma_token_is_forgotten_only_when_refused<T>(
    before: JwtStep<T>,
    event: JwtEvent<T>,
    after: JwtStep<T>,
)
    requires
        call_leads(before, event, after),
        after is Forget,
    ensures
        before == after || (before is Refresh && event == JwtEvent::<T>::Refreshed(
            Err(AuthError::RefreshFailed),
        )),
{
}

/// A call without a sign-in never reaches the server.
pub proof fn lemma_no_token_no_call<T>(after: JwtStep<T>, event: JwtEvent<T>, then: JwtStep<T>)
    requires
        call_leads(JwtStep::<T>::ReadToken, JwtEvent::<T>::Token(Ok(None)), after),
        call_leads(after, event, then),
    ensures
        call_failed(after, SIGN_IN_FOR_DASHBOARD@),
        then == after,
{
}

/// The steps of a call from its beginning, each made of the one before by some event.
pub open spec fn is_call<T>(steps: Seq<JwtStep<T>>) -> bool {
    &&& steps.len() > 0
    &&& steps[0] is ReadToken
    &&& forall|i: int|
        0 <= i < steps.len() - 1 ==> exists|event: JwtEvent<T>| #[trigger]
            call_leads(#[trigger] steps[i], event, steps[i + 1])
}

proof fn lemma_store_is_passed<T>(steps: Seq<JwtStep<T>>, k: int)
    requires
        is_call(steps),
        0 <= k < steps.len(),
        steps[k] is Call || (steps[k] is Done && steps[k]->Done_0 is Ok),
    ensures
        exists|i: int| 0 <= i < k && #[trigger] steps[i] is Store,
    decreases k,
{
    if k > 0 {
        let (before, after) = (steps[k - 1], steps[k]);
        assert(exists|event: JwtEvent<T>| #[trigger] call_leads(before, event, steps[k - 1 + 1]));
        let event = choose|event: JwtEvent<T>| #[trigger] call_leads(before, event, after);
        if before is Store {
            assert(steps[k - 1] is Store);
        } else {
            lemma_store_is_passed(steps, k - 1);
        }
    }
}

/// A call that succeeds has put the rotated refresh token into the keychain on the way, before the
/// server was called.
pub proof fn lemma_successful_call_stored_its_token<T>(steps: Seq<JwtStep<T>>)
    requires
        is_call(steps),
        steps.last() is Done && steps.last()->Done_0 is Ok,
    ensures
        exists|i: int| 0 <= i < steps.len() && #[trigger] steps[i] is Store,
{
    lemma_store_is_passed(steps, steps.len() - 1);
}

/// The machine that pairs: the name of its operating system, of its host where it has one, and the
/// version of this app.
pub struct Host {
    pub os: String,
    pub host: Option<String>,
    pub version: String,
}

/// What a device sends of itself to be registered.
pub struct Registration {
    pub device_name: String,
    pub device_type: String,
    pub system: String,
    pub helper_version: String,
}

/// What the server gives a registered device.
pub struct Registered {
    pub device_id: String,
    pub user_id: String,
    pub helper_secret: String,
}

/// What the user interface is told of a new pairing.
pub struct PairResult {
    pub device_id: String,
    pub user_id: String,
    pub device_name: String,
}

/// The registration is of this device under this name.
pub open spec fn registers(r: Registration, name: Seq<char>, host: Host) -> bool {
    &&& r.device_name@ == name
    &&& r.device_type@ == device::device_type_of(host.os@)
    &&& r.system@ == device::system_label_of(text::opt(host.host), host.os@)
    &&& r.helper_version@ == host.version@
}

fn label(host: &Host) -> (r: String)
    ensures
        r@ == device::system_label_of(text::opt(host.host), host.os@),
{
    match &host.host {
        Some(h) => device::system_label(Some(h.as_str()), host.os.as_str()),
        None => device::system_label(None, host.os.as_str()),
    }
}

/// What this device sends of itself to be registered under a name.
pub fn registration(name: String, host: &Host) -> (r: Registration)
    ensures
        registers(r, name@, *host),
{
    Registration {
        device_name: name,
        device_type: text::owned(device::device_type(host.os.as_str())),
        system: label(host),
        helper_version: host.version.clone(),
    }
}

/// The name that the user gave, without the white space around it; the fallback where that is
/// empty or none was given.
pub open spec fn given_or(given: Option<Seq<char>>, fallback: Seq<char>) -> Seq<char> {
    if given is Some && text::trimmed(given->0).len() > 0 {
        text::trimmed(given->0)
    } else {
        fallback
    }
}

/// The name that the user gave, or the fallback.
pub fn resolved_name(given: Option<&str>, fallback: String) -> (r: String)
    ensures
        r@ == given_or(text::opt_str(given), fallback@),
{
    match given {
        Some(g) => {
            let name = text::trim(g);
            if name.as_str().unicode_len() > 0 {
                name
            } else {
                fallback
            }
        },
        None => fallback,
    }
}

/// What a pairing does next.
pub enum PairStep {
    /// Check the code that was sent to the address.
    Verify { email: String, code: String, request: Registration },
    /// Register the device for the signed-in user.
    RegisterSignedIn { session: AuthSession, request: Registration },
    /// Register the device by a pairing code.
    RegisterByCode { code: String, request: Registration },
    /// Put the session's refresh token into the keychain.
    StoreToken { session: AuthSession, request: Registration, device: Registered },
    /// Remove the device, just registered, from the server again, then fail with these words.
    Unregister { device: Registered, words: String },
    /// Delete the refresh token, then fail with these words.
    DropToken { words: String },
    /// Save the configuration; drop the cached dashboard then, where the user signed in.
    Save { cfg: HelperConfig, signed_in: bool },
    /// Drop the cached dashboard where the user signed in, and tell the user that the device is
    /// paired.
    Welcome { paired: PairResult, signed_in: bool },
    /// The pairing is over.
    Done(Result<PairResult, String>),
}

/// What became of a pairing's last action.
pub enum PairEvent {
    Verified(Result<AuthSession, AuthError>),
    Registered(Result<Registered, SupabaseError>),
    Stored(Result<(), KeychainError>),
    Unregistered(Result<bool, SupabaseError>),
    Dropped,
    Saved(Result<(), String>),
    Welcomed,
}

/// The pairing failed with these words.
pub open spec fn pairing_failed(step: PairStep, words: Seq<char>) -> bool {
    step matches PairStep::Done(Err(e)) && e@ == words
}

/// The configuration of a device just registered.
pub open spec fn configures(
    cfg: HelperConfig,
    device: Registered,
    request: Registration,
    email: Seq<char>,
) -> bool {
    &&& cfg.device_id == device.device_id
    &&& cfg.user_id == device.user_id
    &&& cfg.device_name == request.device_name
    &&& cfg.helper_version == request.helper_version
    &&& cfg.helper_secret == device.helper_secret
    &&& cfg.thresholds.is_default()
    &&& cfg.email@ == email
}

/// `after` is what the event makes of the pairing at `before`. An event that its action cannot
/// bring changes nothing.
pub open spec fn pairing_leads(before: PairStep, event: PairEvent, after: PairStep) -> bool {
    match (before, event) {
        (PairStep::Verify { request, .. }, PairEvent::Verified(r)) => match r {
            Ok(session) => after == (PairStep::RegisterSignedIn { session, request }),
            Err(e) => pairing_failed(after, server::auth_friendly_of(e)),
        },
        (PairStep::RegisterSignedIn { session, request }, PairEvent::Registered(r)) => match r {
            Ok(device) => after == (PairStep::StoreToken { session, request, device }),
            Err(e) => pairing_failed(after, server::friendly_of(e)),
        },
        (PairStep::RegisterByCode { request, .. }, PairEvent::Registered(r)) => match r {
            Ok(device) => {
                &&& after matches PairStep::Save { cfg, signed_in }
                &&& !signed_in
                &&& configures(cfg, device, request, ""@)
            },
            Err(e) => pairing_failed(after, server::friendly_of(e)),
        },
        (PairStep::StoreToken { session, request, device }, PairEvent::Stored(r)) => match r {
            Ok(_) => {
                &&& after matches PairStep::Save { cfg, signed_in }
                &&& signed_in
                &&& configures(cfg, device, request, session.email@)
            },
            Err(e) => {
                &&& after matches PairStep::Unregister { device: orphan, words }
                &&& orphan == device
                &&& words@ == server::keychain_friendly_of(e)
            },
        },
        (PairStep::Unregister { words, .. }, PairEvent::Unregistered(_)) => after == (
        PairStep::DropToken { words }),
        (PairStep::DropToken { words }, PairEvent::Dropped) => pairing_failed(after, words@),
        (PairStep::Save { cfg, signed_in }, PairEvent::Saved(r)) => match r {
            Ok(_) => after == (PairStep::Welcome {
                paired: PairResult {
                    device_id: cfg.device_id,
                    user_id: cfg.user_id,
                    device_name: cfg.device_name,
                },
                signed_in,
            }),
            Err(e) => pairing_failed(after, "Failed to save config: "@ + e@),
        },
        (PairStep::Welcome { paired, .. }, PairEvent::Welcomed) => after == PairStep::Done(
            Ok(paired),
        ),
        _ => after == before,
    }
}

fn configuration(device: Registered, request: Registration, email: String) -> (r: HelperConfig)
    ensures
        configures(r, device, request, email@),
{
    HelperConfig {
        device_id: device.device_id,
        user_id: device.user_id,
        device_name: request.device_name,
        helper_version: request.helper_version,
        helper_secret: device.helper_secret,
        thresholds: AlertThresholds::default(),
        email,
    }
}

/// The step begins a pairing by this code, under the name that is given or the system's.
pub open spec fn opens_by_code(
    r: PairStep,
    pairing_code: Seq<char>,
    given: Option<Seq<char>>,
    host: Host,
) -> bool {
    if text::trimmed(pairing_code).len() == 0 {
        pairing_failed(r, "Pairing code is empty"@)
    } else {
        &&& r matches PairStep::RegisterByCode { code, request }
        &&& code@ == text::trimmed(pairing_code)
        &&& registers(
            request,
            given_or(given, device::system_label_of(text::opt(host.host), host.os@)),
            host,
        )
    }
}

/// The step begins a sign-in by this address and code, under the name that is given or the device's
/// own.
pub open spec fn opens_by_sign_in(
    r: PairStep,
    email: Seq<char>,
    code: Seq<char>,
    given: Option<Seq<char>>,
    own: Seq<char>,
    host: Host,
) -> bool {
    if text::trimmed(email).len() == 0 || text::trimmed(code).len() == 0 {
        pairing_failed(r, "Email or code is empty"@)
    } else {
        &&& r matches PairStep::Verify { email: address, code: sent, request }
        &&& address@ == text::trimmed(email)
        &&& sent@ == text::trimmed(code)
        &&& registers(request, given_or(given, own), host)
    }
}

/// The first step of pairing by a code: the code without the white space around it, refused where
/// that is empty; the device is named after the system where the user gives no name.
pub fn pair_device(pairing_code: &str, device_name: Option<&str>, host: &Host) -> (r: PairStep)
    ensures
        text::trimmed(pairing_code@).len() == 0 ==> pairing_failed(r, "Pairing code is empty"@),
        text::trimmed(pairing_code@).len() > 0 ==> {
            &&& r matches PairStep::RegisterByCode { code, request }
            &&& code@ == text::trimmed(pairing_code@)
            &&& registers(
                request,
                given_or(
                    text::opt_str(device_name),
                    device::system_label_of(text::opt(host.host), host.os@),
                ),
                *host,
            )
        },
        opens_by_code(r, pairing_code@, text::opt_str(device_name), *host),
{
    let code = text::trim(pairing_code);
    if code.as_str().unicode_len() == 0 {
        return PairStep::Done(Err(text::owned("Pairing code is empty")));
    }
    let name = resolved_name(device_name, label(host));
    PairStep::RegisterByCode { code, request: registration(name, host) }
}

/// The first step of signing in: address and code without the white space around them, refused
/// where either is empty; the device goes by its own name where the user gives none.
pub fn auth_verify_otp(
    email: &str,
    code: &str,
    device_name: Option<&str>,
    default_name: String,
    host: &Host,
) -> (r: PairStep)
    ensures
        text::trimmed(email@).len() == 0 || text::trimmed(code@).len() == 0 ==> pairing_failed(
            r,
            "Email or code is empty"@,
        ),
        text::trimmed(email@).len() > 0 && text::trimmed(code@).len() > 0 ==> {
            &&& r matches PairStep::Verify { email: address, code: sent, request }
            &&& address@ == text::trimmed(email@)
            &&& sent@ == text::trimmed(code@)
            &&& registers(request, given_or(text::opt_str(device_name), default_name@), *host)
        },
        opens_by_sign_in(r, email@, code@, text::opt_str(device_name), default_name@, *host),
{
    let email = text::trim(email);
    let code = text::trim(code);
    if email.as_str().unicode_len() == 0 || code.as_str().unicode_len() == 0 {
        return PairStep::Done(Err(text::owned("Email or code is empty")));
    }
    let name = resolved_name(device_name, default_name);
    PairStep::Verify { email, code, request: registration(name, host) }
}

impl PairStep {
    /// What the event makes of a pairing.
    pub fn step(self, event: PairEvent) -> (r: PairStep)
        ensures
            pairing_leads(self, event, r),
    {
        match (self, event) {
            (PairStep::Verify { request, .. }, PairEvent::Verified(r)) => match r {
                Ok(session) => PairStep::RegisterSignedIn { session, request },
                Err(e) => PairStep::Done(Err(server::auth_friendly(&e))),
            },
            (PairStep::RegisterSignedIn { session, request }, PairEvent::Registered(r)) => match r {
                Ok(device) => PairStep::StoreToken { session, request, device },
                Err(e) => PairStep::Done(Err(server::friendly(&e))),
            },
            (PairStep::RegisterByCode { request, .. }, PairEvent::Registered(r)) => match r {
                Ok(device) => PairStep::Save {
                    cfg: configuration(device, request, text::owned("")),
                    signed_in: false,
                },
                Err(e) => PairStep::Done(Err(server::friendly(&e))),
            },
            (PairStep::StoreToken { session, request, device }, PairEvent::Stored(r)) => match r {
                Ok(_) => PairStep::Save {
                    cfg: configuration(device, request, session.email),
                    signed_in: true,
                },
                Err(e) => PairStep::Unregister { device, words: server::keychain_friendly(&e) },
            },
            (
                PairStep::Unregister { words, .. },
                PairEvent::Unregistered(_),
            ) => PairStep::DropToken { words },
            (PairStep::DropToken { words }, PairEvent::Dropped) => PairStep::Done(Err(words)),
            (PairStep::Save { cfg, signed_in }, PairEvent::Saved(r)) => match r {
                Ok(_) => PairStep::Welcome {
                    paired: PairResult {
                        device_id: cfg.device_id,
                        user_id: cfg.user_id,
                        device_name: cfg.device_name,
                    },
                    signed_in,
                },
                Err(e) => PairStep::Done(Err(text::join("Failed to save config: ", e.as_str()))),
            },
            (PairStep::Welcome { paired, .. }, PairEvent::Welcomed) => PairStep::Done(Ok(paired)),
            (step, _) => step,
        }
    }
}

/// A sign-in saves its configuration only after the keychain took the refresh token. Where the
/// keychain did not, the device just registered is removed from the server, whatever the server
/// answers the token is deleted, and the pairing fails.
pub proof fn lemma_sign_in_fails_closed(before: PairStep, event: PairEvent, after: PairStep)
    requires
        pairing_leads(before, event, after),
    ensures
        after is Save && before != after ==> (before is RegisterByCode && !after->Save_signed_in) || (
        before is StoreToken && event is Stored && event->Stored_0 is Ok && after->Save_signed_in),
        before is DropToken ==> after == before || (after is Done && after->Done_0 is Err),
        before is StoreToken && event is Stored && event->Stored_0 is Err ==> after is Unregister
            && after->Unregister_device == before->StoreToken_device,
        before is Unregister && event is Unregistered ==> after is DropToken,
        before is DropToken && event is Dropped ==> pairing_failed(after, before->DropToken_words@),
        before is Unregister ==> after == before || after is DropToken,
{
}

/// A pairing succeeds only after its configuration was saved, and reports what was saved.
pub proof fn lemma_pairing_is_saved_first(before: PairStep, event: PairEvent, after: PairStep)
    requires
        pairing_leads(before, event, after),
    ensures
        after is Done && after->Done_0 is Ok && before != after ==> before is Welcome,
        after is Welcome && before != after ==> before is Save && event is Saved
            && event->Saved_0 is Ok && after->paired.device_id == before->cfg.device_id && after->paired.user_id
            == before->cfg.user_id && after->paired.device_name == before->cfg.device_name,
{
}

/// The steps of a sign-in from its beginning, each made of the one before by some event.
pub open spec fn is_sign_in(steps: Seq<PairStep>) -> bool {
    &&& steps.len() > 0
    &&& steps[0] is Verify
    &&& forall|i: int|
        0 <= i < steps.len() - 1 ==> exists|event: PairEvent| #[trigger]
            pairing_leads(#[trigger] steps[i], event, steps[i + 1])
}

proof fn lemma_token_is_passed(steps: Seq<PairStep>, k: int)
    requires
        is_sign_in(steps),
        0 <= k < steps.len(),
        steps[k] is Save || steps[k] is Welcome || (steps[k] is Done && steps[k]->Done_0 is Ok)
            || steps[k] is RegisterByCode,
    ensures
        !(steps[k] is RegisterByCode),
        exists|i: int| 0 <= i < k && #[trigger] steps[i] is StoreToken,
        !(steps[k] is Save) ==> exists|i: int| 0 <= i < k && #[trigger] steps[i] is Save,
    decreases k,
{
    if k > 0 {
        let (before, after) = (steps[k - 1], steps[k]);
        assert(exists|event: PairEvent| #[trigger] pairing_leads(before, event, steps[k - 1 + 1]));
        let event = choose|event: PairEvent| #[trigger] pairing_leads(before, event, after);
        if before is StoreToken {
            assert(steps[k - 1] is StoreToken);
        } else {
            lemma_token_is_passed(steps, k - 1);
            if before is Save {
                assert(steps[k - 1] is Save);
            }
        }
    }
}

/// A sign-in that succeeds has kept its refresh token and saved its configuration on the way.
pub proof fn lemma_successful_sign_in_kept_its_token(steps: Seq<PairStep>)
    requires
        is_sign_in(steps),
        steps.last() is Done && steps.last()->Done_0 is Ok,
    ensures
        exists|i: int| 0 <= i < steps.len() && #[trigger] steps[i] is StoreToken,
        exists|i: int| 0 <= i < steps.len() && #[trigger] steps[i] is Save,
{
    lemma_token_is_passed(steps, steps.len() - 1);
}

proof fn lemma_untaken_token_is_cleared(steps: Seq<PairStep>, i: int, k: int)
    requires
        is_sign_in(steps),
        0 <= i <= k < steps.len(),
        steps[i] is StoreToken,
        forall|j: int| 0 <= j <= k ==> !(#[trigger] steps[j] is Save),
    ensures
        steps[k] is StoreToken || (steps[k] is Unregister && steps[k]->Unregister_device
            == steps[i]->StoreToken_device) || exists|j: int|
            i < j < k && #[trigger] steps[j] is Unregister && steps[j]->Unregister_device
                == steps[i]->StoreToken_device,
        steps[k] is StoreToken ==> steps[k]->StoreToken_device == steps[i]->StoreToken_device,
        steps[k] is StoreToken || steps[k] is Unregister || steps[k] is DropToken || (
        steps[k] is Done && steps[k]->Done_0 is Err && exists|j: int|
            i < j < k && #[trigger] steps[j] is DropToken),
    decreases k - i,
{
    if i < k {
        lemma_untaken_token_is_cleared(steps, i, k - 1);
        let (before, after) = (steps[k - 1], steps[k]);
        assert(exists|event: PairEvent| #[trigger] pairing_leads(before, event, steps[k - 1 + 1]));
        let event = choose|event: PairEvent| #[trigger] pairing_leads(before, event, after);
        assert(!(steps[k] is Save));
        if before is Unregister || before is DropToken {
            assert(steps[k - 1] == before);
        }
    }
}

/// A sign-in that is over without a configuration, though its device was registered, has removed
/// that device from the server, deleted the token and failed.
pub proof fn lemma_failed_sign_in_leaves_no_device(steps: Seq<PairStep>, i: int)
    requires
        is_sign_in(steps),
        0 <= i < steps.len(),
        steps[i] is StoreToken,
        steps.last() is Done,
        forall|j: int| 0 <= j < steps.len() ==> !(#[trigger] steps[j] is Save),
    ensures
        steps.last()->Done_0 is Err,
        exists|j: int|
            i < j < steps.len() && #[trigger] steps[j] is Unregister && steps[j]->Unregister_device
                == steps[i]->StoreToken_device,
        exists|j: int| i < j < steps.len() && #[trigger] steps[j] is DropToken,
{
    lemma_untaken_token_is_cleared(steps, i, steps.len() - 1);
}

/// The address is the one that is given, without the white space around it.
pub open spec fn addresses(r: Result<String, String>, email: Seq<char>) -> bool {
    match r {
        Ok(address) => address@ == text::trimmed(email) && address@.len() > 0,
        Err(e) => e@ == "Email is empty"@ && text::trimmed(email).len() == 0,
    }
}

/// The address to which a sign-in code is sent.
pub fn auth_send_otp(email: &str) -> (r: Result<String, String>)
    ensures
        text::trimmed(email@).len() == 0 ==> r is Err && r->Err_0@ == "Email is empty"@,
        text::trimmed(email@).len() > 0 ==> r is Ok && r->Ok_0@ == text::trimmed(email@),
        addresses(r, email@),
{
    let email = text::trim(email);
    if email.as_str().unicode_len() == 0 {
        Err(text::owned("Email is empty"))
    } else {
        Ok(email)
    }
}

/// What the user interface shows of the sign-in.
pub struct AuthStatus {
    pub paired: bool,
    pub email: String,
    pub has_refresh_token: bool,
}

impl AuthStatus {
    /// The status shows this pairing and this token.
    pub open spec fn shows(
        self,
        cfg: Option<HelperConfig>,
        token: Result<Option<String>, KeychainError>,
    ) -> bool {
        &&& self.paired == cfg is Some
        &&& self.email@ == match cfg {
            Some(c) => c.email@,
            None => ""@,
        }
        &&& self.has_refresh_token == match token {
            Ok(t) => t is Some,
            Err(_) => false,
        }
    }
}

/// What is shown of the sign-in; a token counts where the keychain could be read and holds one.
pub fn auth_status(cfg: Option<HelperConfig>, token: Result<Option<String>, KeychainError>) -> (r:
    AuthStatus)
    ensures
        r.paired == cfg is Some,
        r.email@ == if cfg is Some {
            cfg->0.email@
        } else {
            ""@
        },
        r.has_refresh_token == (token is Ok && token->Ok_0 is Some),
        r.shows(cfg, token),
{
    let paired = cfg.is_some();
    let email = match cfg {
        Some(c) => c.email,
        None => text::owned(""),
    };
    let has_refresh_token = match token {
        Ok(Some(_)) => true,
        _ => false,
    };
    AuthStatus { paired, email, has_refresh_token }
}

/// How the server knows a device.
#[derive(Clone, Copy, Debug, PartialEq, Eq, Structural)]
pub enum DeviceStatus {
    Healthy,
    DeviceMissing,
    AccountMissing,
}

/// The word for a device's status.
pub open spec fn status_word_of(s: DeviceStatus) -> Seq<char> {
    match s {
        DeviceStatus::Healthy => "healthy"@,
        DeviceStatus::DeviceMissing => "device_missing"@,
        DeviceStatus::AccountMissing => "account_missing"@,
    }
}

/// The word for a device's status.
pub fn auth_account_check(s: DeviceStatus) -> (r: &'static str)
    ensures
        r@ == status_word_of(s),
{
    match s {
        DeviceStatus::Healthy => "healthy",
        DeviceStatus::DeviceMissing => "device_missing",
        DeviceStatus::AccountMissing => "account_missing",
    }
}

/// A change to what the device keeps.
#[derive(Clone, Copy, Debug, PartialEq, Eq, Structural)]
pub enum LocalStep {
    /// Delete the refresh token from the keychain.
    DeleteToken,
    /// Drop the cached dashboard.
    DropCache,
    /// Wipe the cache of the local scan.
    WipeScanCache,
    /// Wipe the credentials of the providers.
    WipeCreds,
    /// Clear the configuration.
    ClearConfig,
}

/// The steps that clear a pairing whose device or account is gone, in order.
pub open spec fn gone_steps() -> Seq<LocalStep> {
    seq![LocalStep::DeleteToken, LocalStep::ClearConfig, LocalStep::DropCache]
}

/// The steps of signing out, in order.
pub open spec fn sign_out_steps() -> Seq<LocalStep> {
    seq![LocalStep::DeleteToken, LocalStep::DropCache, LocalStep::ClearConfig]
}

/// The steps once the account was deleted, in order.
pub open spec fn deleted_steps() -> Seq<LocalStep> {
    seq![
        LocalStep::DropCache,
        LocalStep::WipeScanCache,
        LocalStep::DeleteToken,
        LocalStep::WipeCreds,
        LocalStep::ClearConfig,
    ]
}

/// The steps leave nothing of the user: no token, no cached dashboard, no configuration.
pub open spec fn leaves_nothing(steps: Seq<LocalStep>) -> bool {
    &&& steps.contains(LocalStep::DeleteToken)
    &&& steps.contains(LocalStep::DropCache)
    &&& steps.contains(LocalStep::ClearConfig)
}

/// However the device comes to be signed out, nothing of the user stays: by the user, because the
/// device or the account is gone, or because the account was deleted, which wipes the credentials of
/// the providers too.
pub proof fn lemma_signed_out_leaves_nothing()
    ensures
        leaves_nothing(gone_steps()),
        leaves_nothing(sign_out_steps()),
        leaves_nothing(deleted_steps()),
        deleted_steps().contains(LocalStep::WipeCreds),
{
    assert(gone_steps()[0] == LocalStep::DeleteToken);
    assert(gone_steps()[1] == LocalStep::ClearConfig);
    assert(gone_steps()[2] == LocalStep::DropCache);
    assert(sign_out_steps()[0] == LocalStep::DeleteToken);
    assert(sign_out_steps()[1] == LocalStep::DropCache);
    assert(sign_out_steps()[2] == LocalStep::ClearConfig);
    assert(deleted_steps()[0] == LocalStep::DropCache);
    assert(deleted_steps()[2] == LocalStep::DeleteToken);
    assert(deleted_steps()[3] == LocalStep::WipeCreds);
    assert(deleted_steps()[4] == LocalStep::ClearConfig);
}

/// An answer about the device leads to these steps and this notice.
pub open spec fn settles(
    s: DeviceStatus,
    steps: Seq<LocalStep>,
    notice: Option<Seq<char>>,
) -> bool {
    if s == DeviceStatus::Healthy {
        steps.len() == 0 && notice is None
    } else {
        steps == gone_steps() && notice == Some(status_word_of(s))
    }
}

/// What an answer about the device leads to: the local steps, in order, then the kind of sign-out
/// that the user is told of. The pairing is cleared exactly where the device or the account is gone.
pub fn classify_auth_failure(s: DeviceStatus) -> (r: (Vec<LocalStep>, Option<&'static str>))
    ensures
        s == DeviceStatus::Healthy ==> r.0@.len() == 0 && r.1 is None,
        s != DeviceStatus::Healthy ==> r.0@ == gone_steps() && r.1 is Some && r.1->0@ == status_word_of(s),
        settles(s, r.0@, text::opt_str(r.1)),
{
    let mut steps: Vec<LocalStep> = Vec::new();
    match s {
        DeviceStatus::Healthy => (steps, None),
        _ => {
            steps.push(LocalStep::DeleteToken);
            steps.push(LocalStep::ClearConfig);
            steps.push(LocalStep::DropCache);
            assert(steps@ =~= gone_steps());
            (steps, Some(auth_account_check(s)))
        },
    }
}

/// Local steps that are being taken, in order.
pub enum Clearing {
    /// Take the step at `next`, whatever became of those before it.
    Take { steps: Vec<LocalStep>, next: usize },
    /// All are taken; what became of the last, success where there was none.
    Done(Result<(), String>),
}

/// The clearing once the step it is at was taken with this outcome.
pub open spec fn cleared(before: Clearing, outcome: Result<(), String>) -> Clearing {
    match before {
        Clearing::Take { steps, next } => if next + 1 < steps@.len() {
            Clearing::Take { steps, next: (next + 1) as usize }
        } else {
            Clearing::Done(outcome)
        },
        Clearing::Done(_) => before,
    }
}

/// The clearing once steps were taken with these outcomes, one after the other.
pub open spec fn cleared_all(first: Clearing, outcomes: Seq<Result<(), String>>) -> Clearing
    decreases outcomes.len(),
{
    if outcomes.len() == 0 {
        first
    } else {
        cleared(cleared_all(first, outcomes.drop_last()), outcomes.last())
    }
}

impl Clearing {
    /// There is a step to take, or all are taken.
    pub open spec fn wf(self) -> bool {
        self matches Clearing::Take { steps, next } ==> next < steps@.len()
    }

    /// The step to take next.
    pub open spec fn due(self) -> Option<LocalStep> {
        match self {
            Clearing::Take { steps, next } => Some(steps@[next as int]),
            Clearing::Done(_) => None,
        }
    }

    /// The beginning of these steps.
    pub fn begin(steps: Vec<LocalStep>) -> (r: Clearing)
        ensures
            r.wf(),
            steps@.len() == 0 ==> r == Clearing::Done(Ok::<(), String>(())),
            steps@.len() > 0 ==> r == (Clearing::Take { steps, next: 0 }),
    {
        if steps.len() == 0 {
            Clearing::Done(Ok(()))
        } else {
            Clearing::Take { steps, next: 0 }
        }
    }

    /// The clearing once its step was taken with this outcome.
    pub fn step(self, outcome: Result<(), String>) -> (r: Clearing)
        requires
            self.wf(),
        ensures
            r == cleared(self, outcome),
            r.wf(),
    {
        match self {
            Clearing::Take { steps, next } => {
                if next < steps.len() - 1 {
                    Clearing::Take { steps, next: next + 1 }
                } else {
                    Clearing::Done(outcome)
                }
            },
            done => done,
        }
    }
}

/// Every step is taken, once and in order, whatever becomes of the others: after any outcomes of the
/// first steps the next one is due. Once all are taken, what became of the last is what becomes of
/// the whole.
pub proof fn lemma_every_step_is_taken(
    steps: Vec<LocalStep>,
    outcomes: Seq<Result<(), String>>,
)
    requires
        outcomes.len() <= steps@.len(),
        steps@.len() > 0,
    ensures
        ({
            let after = cleared_all(Clearing::Take { steps, next: 0 }, outcomes);
            &&& outcomes.len() < steps@.len() ==> after == (Clearing::Take {
                steps,
                next: outcomes.len() as usize,
            }) && after.due() == Some(steps@[outcomes.len() as int])
            &&& outcomes.len() == steps@.len() ==> after == Clearing::Done(outcomes.last())
        }),
    decreases outcomes.len(),
{
    assert(steps@.len() == steps.len());
    if outcomes.len() > 0 {
        lemma_every_step_is_taken(steps, outcomes.drop_last());
    }
}

/// Signing out deletes the token and drops the cached dashboard first; it succeeds exactly where the
/// configuration was cleared then, and hands on why it was not, whatever became of the token.
pub proof fn lemma_signing_out_rests_on_the_configuration(
    steps: Vec<LocalStep>,
    outcomes: Seq<Result<(), String>>,
)
    requires
        steps@ == sign_out_steps(),
        outcomes.len() == 3,
    ensures
        ({
            let first = Clearing::Take { steps, next: 0 };
            &&& cleared_all(first, outcomes.take(0)).due() == Some(LocalStep::DeleteToken)
            &&& cleared_all(first, outcomes.take(1)).due() == Some(LocalStep::DropCache)
            &&& cleared_all(first, outcomes.take(2)).due() == Some(LocalStep::ClearConfig)
            &&& cleared_all(first, outcomes) == Clearing::Done(outcomes[2])
        }),
{
    lemma_every_step_is_taken(steps, outcomes.take(0));
    lemma_every_step_is_taken(steps, outcomes.take(1));
    lemma_every_step_is_taken(steps, outcomes.take(2));
    lemma_every_step_is_taken(steps, outcomes);
}

/// The local steps of signing out, in order; whether the configuration was cleared decides whether
/// it succeeds.
pub fn auth_sign_out() -> (r: Vec<LocalStep>)
    ensures
        r@ == sign_out_steps(),
{
    let mut r: Vec<LocalStep> = Vec::new();
    r.push(LocalStep::DeleteToken);
    r.push(LocalStep::DropCache);
    r.push(LocalStep::ClearConfig);
    r
}

/// What the server said when the device was taken off the account.
pub enum UnpairServerStatus {
    Deleted,
    AlreadyGone,
    Transient { detail: String },
    Skipped,
}

/// What unpairing does next.
pub enum UnpairStep {
    /// Load the configuration.
    Load,
    /// Ask the server to take the device off the account.
    Unregister { cfg: HelperConfig },
    /// Take the steps of signing out.
    Clear { status: UnpairServerStatus },
    /// The unpairing is over.
    Done(Result<UnpairServerStatus, String>),
}

/// What became of unpairing's last action.
pub enum UnpairEvent {
    Loaded(Result<Option<HelperConfig>, String>),
    /// Whether the server had the device, or why it could not be asked.
    Unregistered(Result<bool, SupabaseError>),
    /// Whether the configuration was cleared.
    Cleared(Result<(), String>),
}

/// `after` is what the event makes of the unpairing at `before`. An event that its action cannot
/// bring changes nothing.
pub open spec fn unpairing_leads(before: UnpairStep, event: UnpairEvent, after: UnpairStep) -> bool {
    match (before, event) {
        (UnpairStep::Load, UnpairEvent::Loaded(r)) => after == match r {
            Ok(Some(cfg)) => UnpairStep::Unregister { cfg },
            _ => UnpairStep::Clear { status: UnpairServerStatus::Skipped },
        },
        (UnpairStep::Unregister { .. }, UnpairEvent::Unregistered(r)) => match r {
            Ok(true) => after == (UnpairStep::Clear { status: UnpairServerStatus::Deleted }),
            Ok(false) => after == (UnpairStep::Clear { status: UnpairServerStatus::AlreadyGone }),
            Err(e) => after matches UnpairStep::Clear {
                status: UnpairServerStatus::Transient { detail },
            } && detail@ == server::friendly_of(e),
        },
        (UnpairStep::Clear { status }, UnpairEvent::Cleared(r)) => after == match r {
            Ok(_) => UnpairStep::Done(Ok(status)),
            Err(e) => UnpairStep::Done(Err(e)),
        },
        _ => after == before,
    }
}

impl UnpairStep {
    /// What the event makes of an unpairing.
    pub fn unpair_device(self, event: UnpairEvent) -> (r: UnpairStep)
        ensures
            unpairing_leads(self, event, r),
    {
        match (self, event) {
            (UnpairStep::Load, UnpairEvent::Loaded(r)) => match r {
                Ok(Some(cfg)) => UnpairStep::Unregister { cfg },
                _ => UnpairStep::Clear { status: UnpairServerStatus::Skipped },
            },
            (UnpairStep::Unregister { .. }, UnpairEvent::Unregistered(r)) => match r {
                Ok(true) => UnpairStep::Clear { status: UnpairServerStatus::Deleted },
                Ok(false) => UnpairStep::Clear { status: UnpairServerStatus::AlreadyGone },
                Err(e) => UnpairStep::Clear {
                    status: UnpairServerStatus::Transient { detail: server::friendly(&e) },
                },
            },
            (UnpairStep::Clear { status }, UnpairEvent::Cleared(r)) => match r {
                Ok(_) => UnpairStep::Done(Ok(status)),
                Err(e) => UnpairStep::Done(Err(e)),
            },
            (step, _) => step,
        }
    }
}

/// Unpairing is over only after the device's own state was cleared, whatever the server said.
pub proof fn lemma_unpairing_always_clears(before: UnpairStep, event: UnpairEvent, after: UnpairStep)
    requires
        unpairing_leads(before, event, after),
    ensures
        after is Done && before != after ==> before is Clear,
        before is Load && event is Loaded ==> after is Unregister || after is Clear,
        before is Unregister && event is Unregistered ==> after is Clear,
{
}

/// The local steps once the server has answered whether it deleted the account, in order: none where
/// it did not, so that the user can try again signed in.
pub fn delete_account_and_unpair(answer: &Result<(), String>) -> (r: Vec<LocalStep>)
    ensures
        answer is Err ==> r@.len() == 0,
        answer is Ok ==> r@ == deleted_steps(),
{
    let mut r: Vec<LocalStep> = Vec::new();
    if answer.is_ok() {
        r.push(LocalStep::DropCache);
        r.push(LocalStep::WipeScanCache);
        r.push(LocalStep::DeleteToken);
        r.push(LocalStep::WipeCreds);
        r.push(LocalStep::ClearConfig);
    }
    r
}

/// The answer is handed on.
pub open spec fn hands_on(r: Result<(), String>, answer: Result<(), String>) -> bool {
    match answer {
        Ok(_) => r is Ok,
        Err(e) => r is Err && r->Err_0 == e,
    }
}

/// What deleting the account gives: why the server did not delete it, or success, whatever becomes
/// of the local steps.
pub fn account_deleted(answer: Result<(), String>) -> (r: Result<(), String>)
    ensures
        answer is Ok ==> r == Ok::<(), String>(()),
        answer matches Err(e) ==> r is Err && r->Err_0 == e,
        hands_on(r, answer),
{
    match answer {
        Ok(_) => Ok(()),
        Err(e) => Err(e),
    }
}

/// Once the server has deleted the account, all that is kept of the user is cleared, each thing
/// whether or not another could be: the cached dashboard, the cache of the scan, the token, the
/// credentials of the providers and the configuration.
pub proof fn lemma_deletion_clears_all(steps: Vec<LocalStep>, outcomes: Seq<Result<(), String>>)
    requires
        steps@ == deleted_steps(),
        outcomes.len() == 5,
    ensures
        ({
            let first = Clearing::Take { steps, next: 0 };
            &&& cleared_all(first, outcomes.take(0)).due() == Some(LocalStep::DropCache)
            &&& cleared_all(first, outcomes.take(1)).due() == Some(LocalStep::WipeScanCache)
            &&& cleared_all(first, outcomes.take(2)).due() == Some(LocalStep::DeleteToken)
            &&& cleared_all(first, outcomes.take(3)).due() == Some(LocalStep::WipeCreds)
            &&& cleared_all(first, outcomes.take(4)).due() == Some(LocalStep::ClearConfig)
            &&& cleared_all(first, outcomes) is Done
        }),
{
    lemma_every_step_is_taken(steps, outcomes.take(0));
    lemma_every_step_is_taken(steps, outcomes.take(1));
    lemma_every_step_is_taken(steps, outcomes.take(2));
    lemma_every_step_is_taken(steps, outcomes.take(3));
    lemma_every_step_is_taken(steps, outcomes.take(4));
    lemma_every_step_is_taken(steps, outcomes);
}

/// The local steps that clear the caches, in order; the user stays signed in.
pub fn clear_local_caches() -> (r: Vec<LocalStep>)
    ensures
        r@ == seq![LocalStep::DropCache, LocalStep::WipeScanCache],
        !r@.contains(LocalStep::DeleteToken) && !r@.contains(LocalStep::WipeCreds) && !r@.contains(
            LocalStep::ClearConfig,
        ),
{
    let mut r: Vec<LocalStep> = Vec::new();
    r.push(LocalStep::DropCache);
    r.push(LocalStep::WipeScanCache);
    r
}

/// The result tells whether the scan cache was wiped.
pub open spec fn tells_of_wiping(r: Result<(), String>, wiped: Result<(), String>) -> bool {
    match wiped {
        Ok(_) => r is Ok,
        Err(e) => r is Err && r->Err_0@ == "Failed to wipe scan cache: "@ + e@,
    }
}

/// What clearing the caches tells of the wiped scan cache.
pub fn caches_cleared(wiped: Result<(), String>) -> (r: Result<(), String>)
    ensures
        wiped is Ok ==> r == Ok::<(), String>(()),
        wiped matches Err(e) ==> r is Err && r->Err_0@ == "Failed to wipe scan cache: "@ + e@,
        tells_of_wiping(r, wiped),
{
    match wiped {
        Ok(_) => Ok(()),
        Err(e) => Err(text::join("Failed to wipe scan cache: ", e.as_str())),
    }
}

/// The steps of a pairing and the events that made each of the one before.
pub open spec fn pairs(steps: Seq<PairStep>, events: Seq<PairEvent>) -> bool {
    &&& steps.len() == events.len() + 1
    &&& forall|i: int|
        0 <= i < events.len() ==> pairing_leads(#[trigger] steps[i], events[i], steps[i + 1])
}

/// The name that a step gives the device.
pub open spec fn name_of(step: PairStep) -> Option<Seq<char>> {
    match step {
        PairStep::Save { cfg, .. } => Some(cfg.device_name@),
        PairStep::Welcome { paired, .. } => Some(paired.device_name@),
        PairStep::Done(Ok(paired)) => Some(paired.device_name@),
        _ => match request_of(step) {
            Some(request) => Some(request.device_name@),
            None => None,
        },
    }
}

/// What a step registers the device with.
pub open spec fn request_of(step: PairStep) -> Option<Registration> {
    match step {
        PairStep::Verify { request, .. } => Some(request),
        PairStep::RegisterSignedIn { request, .. } => Some(request),
        PairStep::RegisterByCode { request, .. } => Some(request),
        PairStep::StoreToken { request, .. } => Some(request),
        _ => None,
    }
}

/// The device was registered as this one before step `k`.
pub open spec fn was_registered(
    steps: Seq<PairStep>,
    events: Seq<PairEvent>,
    k: int,
    d: Registered,
) -> bool {
    exists|i: int|
        0 <= i < k && (steps[i] is RegisterSignedIn || steps[i] is RegisterByCode)
            && #[trigger] events[i] == PairEvent::Registered(Ok::<Registered, SupabaseError>(d))
}

/// The code was accepted and gave this session before step `k`.
pub open spec fn was_verified(
    steps: Seq<PairStep>,
    events: Seq<PairEvent>,
    k: int,
    s: AuthSession,
) -> bool {
    exists|i: int|
        0 <= i < k && steps[i] is Verify && #[trigger] events[i] == PairEvent::Verified(
            Ok::<AuthSession, AuthError>(s),
        )
}

proof fn lemma_name_is_kept(steps: Seq<PairStep>, events: Seq<PairEvent>, k: int)
    requires
        pairs(steps, events),
        0 <= k < steps.len(),
    ensures
        name_of(steps[k]) is Some ==> name_of(steps[k]) == name_of(steps[0]),
        request_of(steps[k]) is Some ==> request_of(steps[k]) == request_of(steps[0]),
        request_of(steps[k]) is Some || name_of(steps[k]) is Some ==> name_of(steps[0]) is Some,
    decreases k,
{
    if k > 0 {
        lemma_name_is_kept(steps, events, k - 1);
        assert(pairing_leads(steps[k - 1], events[k - 1], steps[k - 1 + 1]));
    }
}

/// Over every pairing by a code, from its first step to its success, the device is saved and reported
/// under the name that the user gave, without the white space around it; under the system's name
/// where that is empty or none was given.
pub proof fn lemma_code_pairing_keeps_the_name(
    steps: Seq<PairStep>,
    events: Seq<PairEvent>,
    k: int,
    code: Seq<char>,
    given: Option<Seq<char>>,
    host: Host,
)
    requires
        pairs(steps, events),
        opens_by_code(steps[0], code, given, host),
        0 <= k < steps.len(),
    ensures
        ({
            let name = if given is Some && text::trimmed(given->0).len() > 0 {
                text::trimmed(given->0)
            } else {
                device::system_label_of(text::opt(host.host), host.os@)
            };
            &&& steps[k] matches PairStep::RegisterByCode { request, .. } ==> request.device_name@
                == name
            &&& steps[k] matches PairStep::Save { cfg, .. } ==> cfg.device_name@ == name
            &&& steps[k] matches PairStep::Welcome { paired, .. } ==> paired.device_name@ == name
            &&& steps[k] matches PairStep::Done(Ok(paired)) ==> paired.device_name@ == name
        }),
{
    lemma_name_is_kept(steps, events, k);
}

/// Over every sign-in, from its first step to its success, the device is saved and reported under the
/// name that the user gave, without the white space around it; under its own name where that is
/// empty or none was given.
pub proof fn lemma_sign_in_keeps_the_name(
    steps: Seq<PairStep>,
    events: Seq<PairEvent>,
    k: int,
    email: Seq<char>,
    code: Seq<char>,
    given: Option<Seq<char>>,
    own: Seq<char>,
    host: Host,
)
    requires
        pairs(steps, events),
        opens_by_sign_in(steps[0], email, code, given, own, host),
        0 <= k < steps.len(),
    ensures
        ({
            let name = if given is Some && text::trimmed(given->0).len() > 0 {
                text::trimmed(given->0)
            } else {
                own
            };
            &&& steps[k] matches PairStep::RegisterSignedIn { request, .. } ==> request.device_name@
                == name
            &&& steps[k] matches PairStep::Save { cfg, .. } ==> cfg.device_name@ == name
            &&& steps[k] matches PairStep::Welcome { paired, .. } ==> paired.device_name@ == name
            &&& steps[k] matches PairStep::Done(Ok(paired)) ==> paired.device_name@ == name
        }),
{
    lemma_name_is_kept(steps, events, k);
}

/// Over every pairing, what is stored, saved and reported is of the device that the server registered
/// and of the user who signed in: the session whose token is stored is the one that the code gave;
/// the configuration carries the identifiers and the secret of that registration, the version of the
/// request, the default limits and the address of the session, or none where a code paired; and the
/// result carries what was saved.
pub proof fn lemma_pairing_keeps_what_the_server_gave(
    steps: Seq<PairStep>,
    events: Seq<PairEvent>,
    k: int,
)
    requires
        pairs(steps, events),
        steps[0] is Verify || steps[0] is RegisterByCode || steps[0] is Done,
        steps[0] is Done ==> steps[0]->Done_0 is Err,
        0 <= k < steps.len(),
    ensures
        steps[k] matches PairStep::RegisterSignedIn { session, .. } ==> was_verified(
            steps,
            events,
            k,
            session,
        ),
        steps[k] matches PairStep::StoreToken { session, device, .. } ==> was_verified(
            steps,
            events,
            k,
            session,
        ) && was_registered(steps, events, k, device),
        steps[k] matches PairStep::Unregister { device, .. } ==> was_registered(
            steps,
            events,
            k,
            device,
        ),
        steps[k] matches PairStep::Save { cfg, signed_in } ==> {
            &&& exists|d: Registered| #[trigger]
                was_registered(steps, events, k, d) && cfg.device_id == d.device_id && cfg.user_id
                    == d.user_id && cfg.helper_secret == d.helper_secret
            &&& cfg.thresholds.is_default()
            &&& signed_in ==> exists|s: AuthSession| #[trigger]
                was_verified(steps, events, k, s) && cfg.email@ == s.email@
            &&& !signed_in ==> cfg.email@ == ""@
            &&& request_of(steps[0]) is Some && cfg.helper_version
                == request_of(steps[0])->0.helper_version
        },
        steps[k] matches PairStep::Welcome { paired, .. } ==> exists|d: Registered| #[trigger]
            was_registered(steps, events, k, d) && paired.device_id == d.device_id && paired.user_id
                == d.user_id,
        steps[k] matches PairStep::Done(Ok(paired)) ==> exists|d: Registered| #[trigger]
            was_registered(steps, events, k, d) && paired.device_id == d.device_id && paired.user_id
                == d.user_id,
    decreases k,
{
    if k > 0 {
        lemma_pairing_keeps_what_the_server_gave(steps, events, k - 1);
        lemma_name_is_kept(steps, events, k - 1);
        let (before, event, after) = (steps[k - 1], events[k - 1], steps[k]);
        assert(pairing_leads(before, event, steps[k - 1 + 1]));
        assert(events[k - 1] == event);
        assert forall|d: Registered| #[trigger]
            was_registered(steps, events, k - 1, d) implies was_registered(steps, events, k, d) by {
            let i = choose|i: int|
                0 <= i < k - 1 && (steps[i] is RegisterSignedIn || steps[i] is RegisterByCode)
                    && #[trigger] events[i] == PairEvent::Registered(
                    Ok::<Registered, SupabaseError>(d),
                );
            assert(events[i] == PairEvent::Registered(Ok::<Registered, SupabaseError>(d)));
        }
        assert forall|s: AuthSession| #[trigger]
            was_verified(steps, events, k - 1, s) implies was_verified(steps, events, k, s) by {
            let i = choose|i: int|
                0 <= i < k - 1 && steps[i] is Verify && #[trigger] events[i] == PairEvent::Verified(
                    Ok::<AuthSession, AuthError>(s),
                );
            assert(events[i] == PairEvent::Verified(Ok::<AuthSession, AuthError>(s)));
        }
        if (before is RegisterByCode || before is RegisterSignedIn) && event is Registered
            && event->Registered_0 is Ok {
            assert(was_registered(steps, events, k, event->Registered_0->Ok_0));
        }
        if before is StoreToken {
            assert(was_registered(steps, events, k, before->StoreToken_device));
            assert(was_verified(steps, events, k, before->StoreToken_session));
        }
    }
}

/// The device is registered as what it is: under its name, its kind of system, its label and the
/// version of the app.
pub proof fn lemma_registration_says_what_the_device_is(r: Registration, name: Seq<char>, host: Host)
    requires
        registers(r, name, host),
    ensures
        r.device_name@ == name,
        r.helper_version@ == host.version@,
        host.os@ == "windows"@ ==> r.device_type@ == "Windows"@,
        host.os@ == "linux"@ ==> r.device_type@ == "Linux"@,
        host.os@ == "macos"@ ==> r.device_type@ == "macOS"@,
        host.host is Some ==> r.system@ == host.host->0@ + " ("@ + r.device_type@ + ")"@,
        host.host is None ==> r.system@ == "desktop"@ + " ("@ + r.device_type@ + ")"@,
{
    device::lemma_kinds_of_device(host.os@);
}

/// A name that is given counts without the white space around it, and only where something is left.
pub proof fn lemma_given_name_counts(given: Seq<char>, fallback: Seq<char>)
    ensures
        text::trimmed(given).len() > 0 ==> given_or(Some(given), fallback) == text::trimmed(given),
        text::trimmed(given).len() == 0 ==> given_or(Some(given), fallback) == fallback,
        given_or(None, fallback) == fallback,
{
}

/// A pairing begins only with what the user typed, without the white space around it, and not at all
/// where that is empty.
pub proof fn lemma_pairing_begins_with_what_was_typed(
    by_code: PairStep,
    by_sign_in: PairStep,
    email: Seq<char>,
    code: Seq<char>,
    given: Option<Seq<char>>,
    own: Seq<char>,
    host: Host,
)
    requires
        opens_by_code(by_code, code, given, host),
        opens_by_sign_in(by_sign_in, email, code, given, own, host),
    ensures
        text::trimmed(code).len() == 0 ==> pairing_failed(by_code, "Pairing code is empty"@)
            && pairing_failed(by_sign_in, "Email or code is empty"@),
        text::trimmed(email).len() == 0 ==> pairing_failed(by_sign_in, "Email or code is empty"@),
        text::trimmed(code).len() > 0 ==> by_code is RegisterByCode && by_code->RegisterByCode_code@
            == text::trimmed(code),
        text::trimmed(code).len() > 0 && text::trimmed(email).len() > 0 ==> by_sign_in is Verify
            && by_sign_in->Verify_code@ == text::trimmed(code) && by_sign_in->email@
            == text::trimmed(email),
{
}

/// A pairing goes on from each step to the next where its action succeeds, and fails in the words of
/// what failed otherwise.
pub proof fn lemma_pairing_goes_on(before: PairStep, event: PairEvent, after: PairStep)
    requires
        pairing_leads(before, event, after),
    ensures
        before is Verify && event is Verified && event->Verified_0 is Ok ==> after is RegisterSignedIn,
        before is Verify && event is Verified && event->Verified_0 is Err ==> pairing_failed(
            after,
            server::auth_friendly_of(event->Verified_0->Err_0),
        ),
        before is RegisterSignedIn && event is Registered && event->Registered_0 is Ok
            ==> after is StoreToken,
        before is RegisterByCode && event is Registered && event->Registered_0 is Ok ==> after is Save
            && !after->Save_signed_in,
        (before is RegisterSignedIn || before is RegisterByCode) && event is Registered
            && event->Registered_0 is Err ==> pairing_failed(
            after,
            server::friendly_of(event->Registered_0->Err_0),
        ),
        before is StoreToken && event is Stored && event->Stored_0 is Ok ==> after is Save
            && after->Save_signed_in,
        before is StoreToken && event is Stored && event->Stored_0 is Err ==> after is Unregister
            && after->Unregister_words@ == server::keychain_friendly_of(event->Stored_0->Err_0),
        before is Unregister && event is Unregistered ==> after is DropToken
            && after->DropToken_words == before->Unregister_words,
        before is DropToken && event is Dropped ==> pairing_failed(after, before->DropToken_words@),
        before is Save && event is Saved && event->Saved_0 is Ok ==> after is Welcome
            && after->Welcome_signed_in == before->Save_signed_in,
        before is Save && event is Saved && event->Saved_0 is Err ==> pairing_failed(
            after,
            "Failed to save config: "@ + event->Saved_0->Err_0@,
        ),
        before is Welcome && event is Welcomed ==> after is Done && after->Done_0 is Ok,
{
}

/// A call on behalf of the user goes on from each step to the next: with the token that was read, the
/// session that it was traded for and the access token of that session; and it ends with what the
/// server answered.
pub proof fn lemma_call_goes_on<T>(before: JwtStep<T>, event: JwtEvent<T>, after: JwtStep<T>)
    requires
        call_leads(before, event, after),
    ensures
        before is ReadToken && event is Token && event->Token_0 is Ok && event->Token_0->Ok_0 is Some
            ==> after is Refresh && after->token == event->Token_0->Ok_0->0,
        before is ReadToken && event is Token && event->Token_0 is Ok && event->Token_0->Ok_0 is None
            ==> call_failed(after, "Sign in required to view dashboard data."@),
        before is ReadToken && event is Token && event->Token_0 is Err ==> call_failed(
            after,
            "Keychain unavailable: "@ + event->Token_0->Err_0@,
        ),
        before is Refresh && event is Refreshed && event->Refreshed_0 is Ok ==> after is Store
            && after->Store_session == event->Refreshed_0->Ok_0,
        before is Refresh && event is Refreshed && event->Refreshed_0 is Err
            && !(event->Refreshed_0->Err_0 is RefreshFailed) ==> call_failed(
            after,
            server::auth_friendly_of(event->Refreshed_0->Err_0),
        ),
        before is Refresh && event is Refreshed && event->Refreshed_0 is Err
            && event->Refreshed_0->Err_0 is RefreshFailed ==> after is Forget,
        before is Forget && event is Forgotten ==> call_failed(
            after,
            "Session expired — sign in again to view dashboard."@,
        ),
        before is Store && event is Stored ==> after is Call && after->access_token
            == before->Store_session.access_token,
        before is Call && event is Called && event->Called_0 is Ok ==> after == JwtStep::Done(
            Ok::<T, String>(event->Called_0->Ok_0),
        ),
        before is Call && event is Called && event->Called_0 is Err ==> call_failed(
            after,
            server::friendly_of(event->Called_0->Err_0),
        ),
{
}

/// Unpairing tells what the server said: that the device is deleted, that it was gone already, why it
/// could not be asked, or that there was nothing to ask; and it hands on why the device's own state
/// could not be cleared.
pub proof fn lemma_unpairing_tells_what_the_server_said(
    before: UnpairStep,
    event: UnpairEvent,
    after: UnpairStep,
)
    requires
        unpairing_leads(before, event, after),
    ensures
        before is Load && event is Loaded && event->Loaded_0 is Ok && event->Loaded_0->Ok_0 is Some
            ==> after is Unregister && after->cfg == event->Loaded_0->Ok_0->0,
        before is Load && event is Loaded && (event->Loaded_0 is Err || event->Loaded_0->Ok_0 is None)
            ==> after is Clear && after->status is Skipped,
        before is Unregister && event == UnpairEvent::Unregistered(Ok::<bool, SupabaseError>(true))
            ==> after is Clear && after->status is Deleted,
        before is Unregister && event == UnpairEvent::Unregistered(Ok::<bool, SupabaseError>(false))
            ==> after is Clear && after->status is AlreadyGone,
        before is Unregister && event is Unregistered && event->Unregistered_0 is Err
            ==> after is Clear && after->status is Transient && after->status->detail@
            == server::friendly_of(event->Unregistered_0->Err_0),
        before is Clear && event is Cleared && event->Cleared_0 is Ok ==> after is Done
            && after->Done_0 == Ok::<UnpairServerStatus, String>(before->status),
        before is Clear && event is Cleared && event->Cleared_0 is Err ==> after is Done
            && after->Done_0 == Err::<UnpairServerStatus, String>(event->Cleared_0->Err_0),
{
}

/// What is shown of the sign-in: the pairing's address, and a token only where the keychain could be
/// read and holds one.
pub proof fn lemma_status_shows_the_sign_in(
    s: AuthStatus,
    cfg: Option<HelperConfig>,
    token: Result<Option<String>, KeychainError>,
)
    requires
        s.shows(cfg, token),
    ensures
        s.paired <==> cfg is Some,
        cfg matches Some(c) ==> s.email@ == c.email@,
        cfg is None ==> s.email@.len() == 0,
        s.has_refresh_token <==> token is Ok && token->Ok_0 is Some,
{
    reveal_strlit("");
}

/// A sign-in code is sent to the address that was typed, without the white space around it, and to
/// none where nothing is left.
pub proof fn lemma_code_is_sent_to_the_address(
    r: Result<String, String>,
    before: Seq<char>,
    core: Seq<char>,
    after: Seq<char>,
)
    requires
        addresses(r, before + core + after),
        forall|i: int| 0 <= i < before.len() ==> text::white(#[trigger] before[i]),
        forall|i: int| 0 <= i < after.len() ==> text::white(#[trigger] after[i]),
        core.len() == 0 || (!text::white(core[0]) && !text::white(core.last())),
    ensures
        core.len() > 0 ==> r is Ok && r->Ok_0@ == core,
        core.len() == 0 ==> r is Err && r->Err_0@ == "Email is empty"@,
{
    text::lemma_trimmed_core(before, core, after);
}

/// The words for the three states of a device.
pub proof fn lemma_status_words()
    ensures
        status_word_of(DeviceStatus::Healthy) == "healthy"@,
        status_word_of(DeviceStatus::DeviceMissing) == "device_missing"@,
        status_word_of(DeviceStatus::AccountMissing) == "account_missing"@,
{
}

/// A pairing that is required is the one that there is, and what is told without one is what was to
/// be told; a reading asks for the user of the pairing, and answers with nothing where there is none.
pub proof fn lemma_reading_is_for_the_paired_user(
    r: Result<HelperConfig, String>,
    cfg: Option<HelperConfig>,
    words: Seq<char>,
    c: HelperConfig,
    e: String,
)
    requires
        requires_pairing(r, cfg, words),
    ensures
        r is Ok <==> cfg is Some,
        cfg is Some ==> r->Ok_0 == cfg->0,
        cfg is None ==> r->Err_0@ == words,
        plan_of(Ok(Some(c))) == (FetchPlan::Fetch { user_id: c.user_id }),
        plan_of(Ok(None)) == FetchPlan::Empty,
        plan_of(Err(e)) == FetchPlan::Fail(e),
{
}

/// Deleting the account succeeds exactly where the server deleted it, and says otherwise what the
/// server said; clearing the caches succeeds exactly where the scan cache was wiped, and says
/// otherwise why it was not.
pub proof fn lemma_results_of_clearing(
    deleted: Result<(), String>,
    answer: Result<(), String>,
    cleared: Result<(), String>,
    wiped: Result<(), String>,
)
    requires
        hands_on(deleted, answer),
        tells_of_wiping(cleared, wiped),
    ensures
        deleted is Ok <==> answer is Ok,
        answer is Err ==> deleted->Err_0 == answer->Err_0,
        cleared is Ok <==> wiped is Ok,
        wiped is Err ==> cleared->Err_0@ == "Failed to wipe scan cache: "@ + wiped->Err_0@,
{
}

/// A device that stands is left alone; one that is gone, or whose account is, is cleared of its
/// token, its configuration and its cached dashboard, and the user is told which it was.
pub proof fn lemma_gone_device_is_cleared(
    s: DeviceStatus,
    steps: Seq<LocalStep>,
    notice: Option<Seq<char>>,
)
    requires
        settles(s, steps, notice),
    ensures
        s is Healthy ==> steps.len() == 0 && notice is None,
        !(s is Healthy) ==> steps.len() == 3 && steps.contains(LocalStep::DeleteToken)
            && steps.contains(LocalStep::ClearConfig) && steps.contains(LocalStep::DropCache)
            && notice is Some,
        s is DeviceMissing ==> notice->0 == "device_missing"@,
        s is AccountMissing ==> notice->0 == "account_missing"@,
{
    lemma_signed_out_leaves_nothing();
}

/// A pairing that failed is over, and its result is the words it failed with.
pub proof fn lemma_failed_pairing_is_over(step: PairStep, words: Seq<char>)
    requires
        pairing_failed(step, words),
    ensures
        step is Done,
        step->Done_0 is Err,
        step->Done_0->Err_0@ == words,
{
}

/// A call that failed is over, and its result is the words it failed with.
pub proof fn lemma_failed_call_is_over<T>(step: JwtStep<T>, words: Seq<char>)
    requires
        call_failed(step, words),
    ensures
        step is Done,
        step->Done_0 is Err,
        step->Done_0->Err_0@ == words,
{
}

} // verus!
