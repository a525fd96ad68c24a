//! What a local scan and a look at the running sessions report.

use crate::notify;
use crate::number::Double;
use crate::text;
use vstd::prelude::*;
use vstd::string::*;

verus! {

/// The model name under which a scan counts messages; its rows carry no cost.
pub const CLAUDE_MSG_BUCKET_MODEL: &'static str = "__claude_msg__";

/// The provider whose messages a scan counts: the model name under which it counts them, without
/// the marks around the provider's name.
pub open spec fn message_provider_of() -> Seq<char> {
    CLAUDE_MSG_BUCKET_MODEL@.subrange(2, 8)
}

/// That provider as it is written for people, with a capital letter.
pub open spec fn message_provider_title_of() -> Seq<char> {
    seq!['C'] + CLAUDE_MSG_BUCKET_MODEL@.subrange(3, 8)
}

/// The provider whose messages a scan counts.
pub fn message_provider() -> (r: String)
    ensures
        r@ == message_provider_of(),
{
    proof {
        reveal_strlit("__claude_msg__");
    }
    text::slice_text(&text::chars_of(CLAUDE_MSG_BUCKET_MODEL), 2, 8)
}

/// That provider as it is written for people.
pub fn message_provider_title() -> (r: String)
    ensures
        r@ == message_provider_title_of(),
{
    proof {
        reveal_strlit("__claude_msg__");
    }
    let mut r = String::new();
    r.push('C');
    let rest = text::slice_text(&text::chars_of(CLAUDE_MSG_BUCKET_MODEL), 3, 8);
    r.append(rest.as_str());
    assert(r@ =~= seq!['C'] + rest@);
    r
}

/// One day of one model's usage on this device.
pub struct DailyEntry {
    pub date: String,
    pub provider: String,
    pub model: String,
    pub input_tokens: i64,
    pub cached_tokens: i64,
    pub output_tokens: i64,
    pub cost_usd: Option<Double>,
}

/// The outcome of a local scan.
pub struct ScanResult {
    pub entries: Vec<DailyEntry>,
    pub today_key: String,
    pub total_cost_usd: Double,
    pub total_tokens: i64,
    pub files_scanned: u32,
}

/// A number and the text in which it is shown.
pub struct Measured {
    pub value: Double,
    pub text: String,
}

impl Measured {
    /// The text is one that a number is printed as.
    pub open spec fn wf(self) -> bool {
        notify::printed(self.text@)
    }

    /// A number with its text, nothing where no number is printed so.
    pub fn new(value: Double, text: String) -> (r: Option<Measured>)
        ensures
            notify::printed(text@) ==> r == Some(Measured { value, text }) && (r->0).wf(),
            !notify::printed(text@) ==> r is None,
    {
        if notify::is_printed(text.as_str()) {
            Some(Measured { value, text })
        } else {
            None
        }
    }
}

/// A session that runs on this device; its CPU share is shown with one decimal.
pub struct LiveSession {
    pub id: String,
    pub name: String,
    pub provider: String,
    pub project: String,
    pub cpu_usage: Measured,
}

/// The sessions seen at one time.
pub struct SessionsSnapshot {
    pub sessions: Vec<LiveSession>,
    pub total_processes_seen: usize,
}

impl DailyEntry {
    /// The entry counts messages and no usage.
    pub open spec fn is_bucket(self) -> bool {
        self.model@ == CLAUDE_MSG_BUCKET_MODEL@
    }

    /// Whether the entry counts messages and no usage.
    pub fn counts_messages(&self) -> (r: bool)
        ensures
            r == self.is_bucket(),
    {
        text::same(self.model.as_str(), CLAUDE_MSG_BUCKET_MODEL)
    }
}

} // verus!
