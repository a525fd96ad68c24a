//! Remote control: deciding approvals, commanding sessions and starting them.

use crate::device::HelperConfig;
use crate::text;
use crate::usage;
use vstd::prelude::*;
use vstd::string::*;

verus! {

/// Told where an approval is decided without a sign-in.
pub const SIGN_IN_TO_DECIDE: &'static str = "Sign in required to decide remote approvals.";

/// Told where a session is commanded without a sign-in.
pub const SIGN_IN_TO_COMMAND: &'static str = "Sign in required to send remote commands.";

/// Told where a session is started without a sign-in.
pub const SIGN_IN_TO_START: &'static str = "Sign in required to start a remote session.";

/// Told where a risky request is to be approved from here.
pub const HIGH_RISK: &'static str = "High-risk requests can only be approved on the originating device — never from the desktop app.";

/// Told where the request is not pending any more.
pub const ALREADY_DECIDED: &'static str = "ALREADY_DECIDED";

/// At most this many characters of a directory's name are sent.
pub const BASENAME_MAX: usize = 255;

/// A request that waits for a decision, as far as the decision reads it.
pub struct PendingRequest {
    pub id: String,
    pub risk: String,
}

/// A decision on a request, as it is sent.
pub struct Decision {
    pub request_id: String,
    pub decision: String,
    pub scope: String,
    pub device_id: String,
}

/// What deciding an approval does next.
pub enum ApprovalStep {
    /// List the pending requests, before this decision is sent.
    List { decision: Decision },
    /// Send the decision.
    Send { decision: Decision },
    /// The deciding is over.
    Done(Result<(), String>),
}

/// What became of the last action of deciding an approval; failures come in the words that the
/// user is told.
pub enum ApprovalEvent {
    Listed(Result<Vec<PendingRequest>, String>),
    Sent(Result<(), String>),
}

/// The deciding failed with these words.
pub open spec fn deciding_failed(step: ApprovalStep, words: Seq<char>) -> bool {
    step matches ApprovalStep::Done(Err(e)) && e@ == words
}

/// The position of the first request with this identifier, or the number of requests.
pub open spec fn found_at(pending: Seq<PendingRequest>, id: Seq<char>) -> int
    decreases pending.len(),
{
    if pending.len() == 0 {
        0
    } else if found_at(pending.drop_last(), id) < pending.len() - 1 {
        found_at(pending.drop_last(), id)
    } else if pending.last().id@ == id {
        pending.len() - 1
    } else {
        pending.len() as int
    }
}

/// What is wrong with a decision or a scope, if anything.
pub open spec fn input_fault(decision: Seq<char>, scope: Seq<char>) -> Option<Seq<char>> {
    if decision != "approve"@ && decision != "deny"@ {
        Some("Invalid decision `"@ + decision + "` — must be `approve` or `deny`."@)
    } else if scope != "once"@ && scope != "alwaysSession"@ {
        Some("Invalid scope `"@ + scope + "` — must be `once` or `alwaysSession`."@)
    } else {
        None
    }
}

/// `after` is what the event makes of the deciding at `before`. An event that its action cannot
/// bring changes nothing.
pub open spec fn deciding_leads(before: ApprovalStep, event: ApprovalEvent, after: ApprovalStep) -> bool {
    match (before, event) {
        (ApprovalStep::List { decision }, ApprovalEvent::Listed(r)) => match r {
            Ok(pending) => {
                let i = found_at(pending@, decision.request_id@);
                if i == pending@.len() {
                    deciding_failed(after, ALREADY_DECIDED@)
                } else if pending@[i].risk@ == "high"@ {
                    deciding_failed(after, HIGH_RISK@)
                } else {
                    after == (ApprovalStep::Send { decision })
                }
            },
            Err(e) => deciding_failed(after, e@),
        },
        (ApprovalStep::Send { .. }, ApprovalEvent::Sent(r)) => after == ApprovalStep::Done(r),
        _ => after == before,
    }
}

fn quoted(before: &str, what: &str, after: &str) -> (r: String)
    ensures
        r@ == before@ + what@ + after@,
{
    let mut r = text::join(before, what);
    r.append(after);
    r
}

fn find(pending: &Vec<PendingRequest>, id: &str) -> (r: usize)
    ensures
        r == found_at(pending@, id@),
        r <= pending@.len(),
{
    let mut i: usize = 0;
    let total: usize = pending.len();
    assert(pending@.take(0) =~= Seq::empty());
    while i < total
        invariant
            i <= total == pending@.len(),
            found_at(pending@.take(i as int), id@) == i,
        decreases total - i,
    {
        assert(pending@.take(i + 1).drop_last() =~= pending@.take(i as int));
        if text::same(pending[i].id.as_str(), id) {
            proof {
                lemma_found_stays(pending@, id@, i as int);
            }
            return i;
        }
        i = i + 1;
    }
    assert(pending@.take(i as int) =~= pending@);
    i
}

proof fn lemma_found_stays(pending: Seq<PendingRequest>, id: Seq<char>, i: int)
    requires
        0 <= i < pending.len(),
        found_at(pending.take(i + 1), id) == i,
    ensures
        found_at(pending, id) == i,
    decreases pending.len(),
{
    if i + 1 == pending.len() {
        assert(pending.take(i + 1) =~= pending);
    } else {
        assert(pending.drop_last().take(i + 1) =~= pending.take(i + 1));
        lemma_found_stays(pending.drop_last(), id, i);
    }
}

/// The step begins the deciding of this request.
pub open spec fn opens_decision(
    r: ApprovalStep,
    cfg: Option<HelperConfig>,
    request_id: String,
    decision: String,
    scope: String,
) -> bool {
    match cfg {
        None => deciding_failed(r, SIGN_IN_TO_DECIDE@),
        Some(c) => match input_fault(decision@, scope@) {
            Some(words) => deciding_failed(r, words),
            None => {
                let d = Decision { request_id, decision, scope, device_id: c.device_id };
                r == if decision@ == "approve"@ {
                    ApprovalStep::List { decision: d }
                } else {
                    ApprovalStep::Send { decision: d }
                }
            },
        },
    }
}

/// The first step of deciding an approval. An approval is checked against the pending requests
/// before it is sent; a denial is always safe and sent at once.
pub fn decide_remote_approval(
    cfg: Option<HelperConfig>,
    request_id: String,
    decision: String,
    scope: String,
) -> (r: ApprovalStep)
    ensures
        cfg is None ==> deciding_failed(r, SIGN_IN_TO_DECIDE@),
        cfg matches Some(c) ==> match input_fault(decision@, scope@) {
            Some(words) => deciding_failed(r, words),
            None => {
                let d = Decision { request_id, decision, scope, device_id: c.device_id };
                r == if decision@ == "approve"@ {
                    ApprovalStep::List { decision: d }
                } else {
                    ApprovalStep::Send { decision: d }
                }
            },
        },
        opens_decision(r, cfg, request_id, decision, scope),
{
    let cfg = match cfg {
        Some(c) => c,
        None => {
            return ApprovalStep::Done(Err(text::owned(SIGN_IN_TO_DECIDE)));
        },
    };
    let approve = text::same(decision.as_str(), "approve");
    if !approve && !text::same(decision.as_str(), "deny") {
        return ApprovalStep::Done(
            Err(
                quoted(
                    "Invalid decision `",
                    decision.as_str(),
                    "` — must be `approve` or `deny`.",
                ),
            ),
        );
    }
    if !text::same(scope.as_str(), "once") && !text::same(scope.as_str(), "alwaysSession") {
        return ApprovalStep::Done(
            Err(quoted("Invalid scope `", scope.as_str(), "` — must be `once` or `alwaysSession`.")),
        );
    }
    let decision = Decision { request_id, decision, scope, device_id: cfg.device_id };
    if approve {
        ApprovalStep::List { decision }
    } else {
        ApprovalStep::Send { decision }
    }
}

impl ApprovalStep {
    /// What the event makes of deciding an approval.
    pub fn step(self, event: ApprovalEvent) -> (r: ApprovalStep)
        ensures
            deciding_leads(self, event, r),
    {
        match (self, event) {
            (ApprovalStep::List { decision }, ApprovalEvent::Listed(r)) => match r {
                Ok(pending) => {
                    let i: usize = find(&pending, decision.request_id.as_str());
                    if i == pending.len() {
                        ApprovalStep::Done(Err(text::owned(ALREADY_DECIDED)))
                    } else if text::same(pending[i].risk.as_str(), "high") {
                        ApprovalStep::Done(Err(text::owned(HIGH_RISK)))
                    } else {
                        ApprovalStep::Send { decision }
                    }
                },
                Err(e) => ApprovalStep::Done(Err(e)),
            },
            (ApprovalStep::Send { .. }, ApprovalEvent::Sent(r)) => ApprovalStep::Done(r),
            (step, _) => step,
        }
    }
}

/// The position that is found holds the identifier, and no earlier one does; where none is found,
/// none holds it.
pub proof fn lemma_found(pending: Seq<PendingRequest>, id: Seq<char>)
    ensures
        0 <= found_at(pending, id) <= pending.len(),
        found_at(pending, id) < pending.len() ==> pending[found_at(pending, id)].id@ == id,
        forall|j: int|
            0 <= j < found_at(pending, id) ==> (#[trigger] pending[j]).id@ != id,
    decreases pending.len(),
{
    if pending.len() > 0 {
        lemma_found(pending.drop_last(), id);
        assert forall|j: int| 0 <= j < found_at(pending, id) implies (#[trigger] pending[j]).id@
            != id by {
            if j < pending.len() - 1 {
                assert(pending.drop_last()[j] == pending[j]);
            }
        }
    }
}

/// An approval that was listed first is sent only where its request is pending and its risk is not
/// high.
pub proof fn lemma_no_risky_approval_is_sent(
    decision: Decision,
    pending: Vec<PendingRequest>,
    after: ApprovalStep,
)
    requires
        deciding_leads(ApprovalStep::List { decision }, ApprovalEvent::Listed(Ok(pending)), after),
        after is Send,
    ensures
        exists|i: int|
            0 <= i < pending@.len() && (#[trigger] pending@[i]).id@ == decision.request_id@
                && pending@[i].risk@ != "high"@ && (forall|j: int|
                0 <= j < i ==> (#[trigger] pending@[j]).id@ != decision.request_id@),
        after->Send_decision == decision,
{
    lemma_found(pending@, decision.request_id@);
    let i = found_at(pending@, decision.request_id@);
    assert(pending@[i].id@ == decision.request_id@);
}

/// The only way from an approval to its being sent is the list of pending requests.
pub proof fn lemma_approval_is_checked_first(
    before: ApprovalStep,
    event: ApprovalEvent,
    after: ApprovalStep,
)
    requires
        deciding_leads(before, event, after),
        after is Send,
    ensures
        before == after || (before is List && event is Listed && event->Listed_0 is Ok),
{
}

/// What is wrong with a command to a session, if anything.
pub open spec fn command_fault(kind: Seq<char>, payload: Option<Seq<char>>) -> Option<Seq<char>> {
    if kind != "prompt"@ && kind != "stop"@ && kind != "interrupt"@ {
        Some("Invalid command kind `"@ + kind + "` — must be `prompt`, `stop`, or `interrupt`."@)
    } else if kind == "prompt"@ && (payload is None || text::trimmed(payload->0).len() == 0) {
        Some("Prompt command requires non-empty payload."@)
    } else {
        None
    }
}

/// The command may be sent, or this is why not.
pub open spec fn commands(
    r: Result<(), String>,
    kind: Seq<char>,
    payload: Option<Seq<char>>,
    paired: Result<bool, String>,
) -> bool {
    match command_fault(kind, payload) {
        Some(words) => r is Err && r->Err_0@ == words,
        None => match paired {
            Ok(true) => r is Ok,
            Ok(false) => r is Err && r->Err_0@ == SIGN_IN_TO_COMMAND@,
            Err(e) => r is Err && r->Err_0 == e,
        },
    }
}

/// Whether a command to a session may be sent, given whether the device is paired or why that could
/// not be read; the command's own faults are told first.
pub fn send_remote_session_command(
    kind: &str,
    payload: Option<&str>,
    paired: Result<bool, String>,
) -> (r: Result<(), String>)
    ensures
        match command_fault(kind@, text::opt_str(payload)) {
            Some(words) => r is Err && r->Err_0@ == words,
            None => match paired {
                Ok(true) => r is Ok,
                Ok(false) => r is Err && r->Err_0@ == SIGN_IN_TO_COMMAND@,
                Err(e) => r is Err && r->Err_0 == e,
            },
        },
        commands(r, kind@, text::opt_str(payload), paired),
{
    let prompt = text::same(kind, "prompt");
    if !prompt && !text::same(kind, "stop") && !text::same(kind, "interrupt") {
        return Err(
            quoted(
                "Invalid command kind `",
                kind,
                "` — must be `prompt`, `stop`, or `interrupt`.",
            ),
        );
    }
    if prompt {
        let empty = match payload {
            Some(p) => text::trim(p).as_str().unicode_len() == 0,
            None => true,
        };
        if empty {
            return Err(text::owned("Prompt command requires non-empty payload."));
        }
    }
    match paired {
        Ok(true) => Ok(()),
        Ok(false) => Err(text::owned(SIGN_IN_TO_COMMAND)),
        Err(e) => Err(e),
    }
}

/// What a session is started with.
pub struct StartSessionArgs {
    pub cwd: String,
    pub cwd_basename: Option<String>,
    pub client_label: Option<String>,
    pub provider: String,
}

/// The provider of a session where none is named, the only one whose sessions are hosted here.
pub fn default_provider_args() -> (r: String)
    ensures
        r@ == usage::message_provider_of(),
{
    usage::message_provider()
}

/// Told where a session of another provider is started.
pub open spec fn not_hosted_of(provider: Seq<char>) -> Seq<char> {
    "Provider `"@ + provider + "` is not yet supported. v0.9.1a hosts "@
        + usage::message_provider_title_of() + " sessions only."@
}

fn not_hosted(provider: &str) -> (r: String)
    ensures
        r@ == not_hosted_of(provider@),
{
    let title = usage::message_provider_title();
    let mut r = quoted("Provider `", provider, "` is not yet supported. v0.9.1a hosts ");
    r.append(title.as_str());
    r.append(" sessions only.");
    r
}

/// A session to start, as it is sent. What the path of its directory hashes to comes from
/// elsewhere.
pub struct SessionStart {
    pub device_id: String,
    pub provider: String,
    pub basename: String,
    pub client_label: Option<String>,
}

/// The name of the session's directory: the one that is given, or the start of the path's last
/// component.
pub open spec fn basename_of(args: StartSessionArgs) -> Seq<char> {
    match args.cwd_basename {
        Some(b) => b@,
        None => text::first(text::last_component(args.cwd@), BASENAME_MAX as nat),
    }
}

/// This session is to be started, or this is why not.
pub open spec fn starts(
    r: Result<SessionStart, String>,
    cfg: Result<Option<HelperConfig>, String>,
    args: StartSessionArgs,
) -> bool {
    if args.provider@ != usage::message_provider_of() {
        r is Err && r->Err_0@ == not_hosted_of(args.provider@)
    } else {
        match cfg {
            Ok(Some(c)) => r is Ok && r->Ok_0.device_id == c.device_id && r->Ok_0.provider
                == args.provider && r->Ok_0.basename@ == basename_of(args) && r->Ok_0.client_label
                == args.client_label,
            Ok(None) => r is Err && r->Err_0@ == SIGN_IN_TO_START@,
            Err(e) => r is Err && r->Err_0 == e,
        }
    }
}

/// The session to start: one of the hosted provider, on this device, where it is paired. Another
/// provider is told of before a pairing that could not be read.
pub fn request_remote_session_start(
    cfg: Result<Option<HelperConfig>, String>,
    args: StartSessionArgs,
) -> (r: Result<SessionStart, String>)
    ensures
        args.provider@ != usage::message_provider_of() ==> r is Err && r->Err_0@ == not_hosted_of(
            args.provider@,
        ),
        args.provider@ == usage::message_provider_of() ==> match cfg {
            Ok(Some(c)) => r is Ok && r->Ok_0.device_id == c.device_id && r->Ok_0.provider
                == args.provider && r->Ok_0.basename@ == basename_of(args) && r->Ok_0.client_label
                == args.client_label,
            Ok(None) => r is Err && r->Err_0@ == SIGN_IN_TO_START@,
            Err(e) => r is Err && r->Err_0 == e,
        },
        starts(r, cfg, args),
{
    if !text::same(args.provider.as_str(), usage::message_provider().as_str()) {
        return Err(not_hosted(args.provider.as_str()));
    }
    let cfg = match cfg {
        Ok(Some(c)) => c,
        Ok(None) => {
            return Err(text::owned(SIGN_IN_TO_START));
        },
        Err(e) => {
            return Err(e);
        },
    };
    let basename = match args.cwd_basename {
        Some(b) => b,
        None => {
            let last = text::basename(args.cwd.as_str());
            text::take(last.as_str(), BASENAME_MAX)
        },
    };
    Ok(
        SessionStart {
            device_id: cfg.device_id,
            provider: args.provider,
            basename,
            client_label: args.client_label,
        },
    )
}

/// A denial is sent at once and an approval is checked first; either carries the request, the scope
/// and this device, as they are given. Nothing is sent without a sign-in.
pub proof fn lemma_decision_is_sent_as_given(
    r: ApprovalStep,
    cfg: Option<HelperConfig>,
    request_id: String,
    decision: String,
    scope: String,
)
    requires
        opens_decision(r, cfg, request_id, decision, scope),
    ensures
        cfg is None ==> deciding_failed(r, "Sign in required to decide remote approvals."@),
        cfg is Some && decision@ == "deny"@ && (scope@ == "once"@ || scope@ == "alwaysSession"@)
            ==> r is Send && r->Send_decision.request_id == request_id && r->Send_decision.decision
            == decision && r->Send_decision.scope == scope && r->Send_decision.device_id
            == cfg->0.device_id,
        cfg is Some && decision@ == "approve"@ && (scope@ == "once"@ || scope@ == "alwaysSession"@)
            ==> r is List && r->List_decision.request_id == request_id && r->List_decision.decision
            == decision && r->List_decision.scope == scope && r->List_decision.device_id
            == cfg->0.device_id,
        cfg is Some && decision@ != "approve"@ && decision@ != "deny"@ ==> deciding_failed(
            r,
            "Invalid decision `"@ + decision@ + "` — must be `approve` or `deny`."@,
        ),
        cfg is Some && (decision@ == "approve"@ || decision@ == "deny"@) && scope@ != "once"@
            && scope@ != "alwaysSession"@ ==> deciding_failed(
            r,
            "Invalid scope `"@ + scope@ + "` — must be `once` or `alwaysSession`."@,
        ),
{
    reveal_strlit("approve");
    reveal_strlit("deny");
    assert("approve"@.len() != "deny"@.len());
}

/// A checked approval is sent where the first pending request of its name is not risky, is refused
/// where it is, and is told to be decided already where there is none.
pub proof fn lemma_checked_approval(
    decision: Decision,
    pending: Vec<PendingRequest>,
    after: ApprovalStep,
    i: int,
)
    requires
        deciding_leads(ApprovalStep::List { decision }, ApprovalEvent::Listed(Ok(pending)), after),
    ensures
        (forall|j: int|
            0 <= j < pending@.len() ==> (#[trigger] pending@[j]).id@ != decision.request_id@)
            ==> deciding_failed(after, "ALREADY_DECIDED"@),
        0 <= i < pending@.len() && pending@[i].id@ == decision.request_id@ && (forall|j: int|
            0 <= j < i ==> (#[trigger] pending@[j]).id@ != decision.request_id@) ==> {
            &&& pending@[i].risk@ == "high"@ ==> deciding_failed(
                after,
                "High-risk requests can only be approved on the originating device — never from the desktop app."@,
            )
            &&& pending@[i].risk@ != "high"@ ==> after == (ApprovalStep::Send { decision })
        },
{
    lemma_found(pending@, decision.request_id@);
    let f = found_at(pending@, decision.request_id@);
    if f < pending@.len() {
        assert(pending@[f].id@ == decision.request_id@);
    }
}

/// What became of a decision that is sent is what the deciding ends with; a list that could not be
/// read ends it in its own words.
pub proof fn lemma_deciding_ends(
    decision: Decision,
    sent: Result<(), String>,
    e: String,
    after_sent: ApprovalStep,
    after_list: ApprovalStep,
)
    requires
        deciding_leads(ApprovalStep::Send { decision }, ApprovalEvent::Sent(sent), after_sent),
        deciding_leads(ApprovalStep::List { decision }, ApprovalEvent::Listed(Err(e)), after_list),
    ensures
        after_sent == ApprovalStep::Done(sent),
        deciding_failed(after_list, e@),
{
}

/// A command is sent where it is one of three, a prompt says something, and the device is paired.
pub proof fn lemma_command_is_sent(
    r: Result<(), String>,
    kind: Seq<char>,
    payload: Option<Seq<char>>,
    paired: Result<bool, String>,
)
    requires
        commands(r, kind, payload, paired),
    ensures
        r is Ok <==> paired == Ok::<bool, String>(true) && (kind == "stop"@ || kind == "interrupt"@
            || (kind == "prompt"@ && payload is Some && text::trimmed(payload->0).len() > 0)),
        kind != "prompt"@ && kind != "stop"@ && kind != "interrupt"@ ==> r is Err && r->Err_0@
            == "Invalid command kind `"@ + kind + "` — must be `prompt`, `stop`, or `interrupt`."@,
        kind == "prompt"@ && (payload is None || text::trimmed(payload->0).len() == 0) ==> r is Err
            && r->Err_0@ == "Prompt command requires non-empty payload."@,
        (kind == "stop"@ || kind == "interrupt"@) && paired == Ok::<bool, String>(false)
            ==> r is Err && r->Err_0@ == "Sign in required to send remote commands."@,
        (kind == "stop"@ || kind == "interrupt"@) && paired is Err ==> r is Err && r->Err_0
            == paired->Err_0,
{
    reveal_strlit("prompt");
    reveal_strlit("stop");
    reveal_strlit("interrupt");
    assert("prompt"@.len() == 6 && "stop"@.len() == 4 && "interrupt"@.len() == 9);
}

/// A session that is started is started on this device, for the provider, directory and label that
/// are given; another provider's is not, nor one without a sign-in.
pub proof fn lemma_session_starts_as_given(
    r: Result<SessionStart, String>,
    cfg: Result<Option<HelperConfig>, String>,
    args: StartSessionArgs,
)
    requires
        starts(r, cfg, args),
    ensures
        r is Ok ==> cfg is Ok && cfg->Ok_0 is Some && r->Ok_0.device_id == (cfg->Ok_0->0).device_id
            && r->Ok_0.provider == args.provider && r->Ok_0.client_label == args.client_label,
        r is Ok && args.cwd_basename is Some ==> r->Ok_0.basename@ == args.cwd_basename->0@,
        r is Ok && args.cwd_basename is None ==> r->Ok_0.basename@ == text::first(
            text::last_component(args.cwd@),
            255,
        ),
        args.provider@ == usage::message_provider_of() && cfg is Ok && cfg->Ok_0 is Some
            ==> r is Ok,
        args.provider@ == usage::message_provider_of() && cfg is Ok && cfg->Ok_0 is None
            ==> r is Err && r->Err_0@ == "Sign in required to start a remote session."@,
        args.provider@ == usage::message_provider_of() && cfg is Err ==> r is Err && r->Err_0
            == cfg->Err_0,
        args.provider@ != usage::message_provider_of() ==> r is Err && r->Err_0@ == "Provider `"@
            + args.provider@ + "` is not yet supported. v0.9.1a hosts "@
            + usage::message_provider_title_of() + " sessions only."@,
{
}

/// A deciding that failed is over, and its result is the words it failed with.
pub proof fn lemma_failed_deciding_is_over(step: ApprovalStep, words: Seq<char>)
    requires
        deciding_failed(step, words),
    ensures
        step is Done,
        step->Done_0 is Err,
        step->Done_0->Err_0@ == words,
{
}

} // verus!
