//! The texts of native notifications, in the language of the user interface.

use crate::alerts;
use crate::alerts::{Alert, AlertThresholds, AlertView, Figures};
use crate::text;
use crate::usage::{ScanResult, SessionsSnapshot};
use vstd::prelude::*;
use vstd::string::*;

verus! {

/// Amounts in a budget alert's message: a dollar sign, then digits and commas, then perhaps a
/// point and digits.
pub const AMOUNT_PATTERN: &'static str = "\\$([0-9][0-9,]*(?:\\.[0-9]+)?)";

/// Notification texts with placeholders: `{device}`, `{count}`, `{amount}`, `{spend}`, `{limit}`.
#[derive(Debug, Clone, PartialEq)]
pub struct NotificationCopy {
    pub pair_title: String,
    pub pair_body: String,
    pub sync_paused_title: String,
    pub sync_paused_lead: String,
    pub signed_out_title: String,
    pub signed_out_device_missing: String,
    pub signed_out_account_missing: String,
    pub signed_out_expired: String,
    pub budget_daily_title: String,
    pub budget_daily_body: String,
    pub budget_weekly_title: String,
    pub budget_weekly_body: String,
}

/// A notification to show.
pub struct Notification {
    pub title: String,
    pub body: String,
}

impl NotificationCopy {
    /// The texts are the English ones.
    pub open spec fn is_english(self) -> bool {
        &&& self.pair_title@ == "CLI Pulse — Paired"@
        &&& self.pair_body@ == "Device “{device}” is now syncing with your phone."@
        &&& self.sync_paused_title@ == "CLI Pulse — Sync paused"@
        &&& self.sync_paused_lead@ == "{count} consecutive sync failures."@
        &&& self.signed_out_title@ == "CLI Pulse — Sign in again"@
        &&& self.signed_out_device_missing@
            == "This device was removed from your account. Sign in again to re-pair."@
        &&& self.signed_out_account_missing@
            == "Your CLI Pulse account is no longer accessible. Sign in again to continue."@
        &&& self.signed_out_expired@
            == "Your sign-in expired. Please sign in again to keep syncing."@
        &&& self.budget_daily_title@ == "Daily budget exceeded — {amount}"@
        &&& self.budget_daily_body@
            == "Today's spend of {spend} is above your daily budget of {limit}."@
        &&& self.budget_weekly_title@ == "Weekly budget exceeded — {amount}"@
        &&& self.budget_weekly_body@
            == "Last 7 days of spend totals {spend}, above your weekly budget of {limit}."@
    }

    /// The same texts once more.
    pub fn duplicate(&self) -> (r: NotificationCopy)
        ensures
            r == *self,
    {
        NotificationCopy {
            pair_title: self.pair_title.clone(),
            pair_body: self.pair_body.clone(),
            sync_paused_title: self.sync_paused_title.clone(),
            sync_paused_lead: self.sync_paused_lead.clone(),
            signed_out_title: self.signed_out_title.clone(),
            signed_out_device_missing: self.signed_out_device_missing.clone(),
            signed_out_account_missing: self.signed_out_account_missing.clone(),
            signed_out_expired: self.signed_out_expired.clone(),
            budget_daily_title: self.budget_daily_title.clone(),
            budget_daily_body: self.budget_daily_body.clone(),
            budget_weekly_title: self.budget_weekly_title.clone(),
            budget_weekly_body: self.budget_weekly_body.clone(),
        }
    }
}

impl Default for NotificationCopy {
    fn default() -> (r: Self)
        ensures
            r.is_english(),
    {
        NotificationCopy {
            pair_title: text::owned("CLI Pulse — Paired"),
            pair_body: text::owned("Device “{device}” is now syncing with your phone."),
            sync_paused_title: text::owned("CLI Pulse — Sync paused"),
            sync_paused_lead: text::owned("{count} consecutive sync failures."),
            signed_out_title: text::owned("CLI Pulse — Sign in again"),
            signed_out_device_missing: text::owned(
                "This device was removed from your account. Sign in again to re-pair.",
            ),
            signed_out_account_missing: text::owned(
                "Your CLI Pulse account is no longer accessible. Sign in again to continue.",
            ),
            signed_out_expired: text::owned(
                "Your sign-in expired. Please sign in again to keep syncing.",
            ),
            budget_daily_title: text::owned("Daily budget exceeded — {amount}"),
            budget_daily_body: text::owned(
                "Today's spend of {spend} is above your daily budget of {limit}.",
            ),
            budget_weekly_title: text::owned("Weekly budget exceeded — {amount}"),
            budget_weekly_body: text::owned(
                "Last 7 days of spend totals {spend}, above your weekly budget of {limit}.",
            ),
        }
    }
}

/// Notification texts as the user interface sends them.
pub struct NotificationCopyPayload {
    pub pair_title: String,
    pub pair_body: String,
    pub sync_paused_title: String,
    pub sync_paused_lead: String,
    pub signed_out_title: String,
    pub signed_out_device_missing: String,
    pub signed_out_account_missing: String,
    pub signed_out_expired: String,
    pub budget_daily_title: String,
    pub budget_daily_body: String,
    pub budget_weekly_title: String,
    pub budget_weekly_body: String,
}

impl NotificationCopyPayload {
    /// The payload sends these texts.
    pub open spec fn sends(self, c: NotificationCopy) -> bool {
        c == (NotificationCopy {
            pair_title: self.pair_title,
            pair_body: self.pair_body,
            sync_paused_title: self.sync_paused_title,
            sync_paused_lead: self.sync_paused_lead,
            signed_out_title: self.signed_out_title,
            signed_out_device_missing: self.signed_out_device_missing,
            signed_out_account_missing: self.signed_out_account_missing,
            signed_out_expired: self.signed_out_expired,
            budget_daily_title: self.budget_daily_title,
            budget_daily_body: self.budget_daily_body,
            budget_weekly_title: self.budget_weekly_title,
            budget_weekly_body: self.budget_weekly_body,
        })
    }
}

impl vstd::std_specs::convert::FromSpecImpl<NotificationCopyPayload> for NotificationCopy {
    open spec fn obeys_from_spec() -> bool {
        true
    }

    open spec fn from_spec(p: NotificationCopyPayload) -> Self {
        NotificationCopy {
            pair_title: p.pair_title,
            pair_body: p.pair_body,
            sync_paused_title: p.sync_paused_title,
            sync_paused_lead: p.sync_paused_lead,
            signed_out_title: p.signed_out_title,
            signed_out_device_missing: p.signed_out_device_missing,
            signed_out_account_missing: p.signed_out_account_missing,
            signed_out_expired: p.signed_out_expired,
            budget_daily_title: p.budget_daily_title,
            budget_daily_body: p.budget_daily_body,
            budget_weekly_title: p.budget_weekly_title,
            budget_weekly_body: p.budget_weekly_body,
        }
    }
}

impl From<NotificationCopyPayload> for NotificationCopy {
    fn from(p: NotificationCopyPayload) -> (r: Self) {
        NotificationCopy {
            pair_title: p.pair_title,
            pair_body: p.pair_body,
            sync_paused_title: p.sync_paused_title,
            sync_paused_lead: p.sync_paused_lead,
            signed_out_title: p.signed_out_title,
            signed_out_device_missing: p.signed_out_device_missing,
            signed_out_account_missing: p.signed_out_account_missing,
            signed_out_expired: p.signed_out_expired,
            budget_daily_title: p.budget_daily_title,
            budget_daily_body: p.budget_daily_body,
            budget_weekly_title: p.budget_weekly_title,
            budget_weekly_body: p.budget_weekly_body,
        }
    }
}

/// Puts new texts in the place of the current ones.
pub fn set_copy(current: &mut NotificationCopy, copy: NotificationCopy)
    ensures
        *final(current) == copy,
{
    *current = copy;
}

/// The texts to use: the current ones, the English ones where the current ones cannot be read.
pub fn copy(current: Option<&NotificationCopy>) -> (r: NotificationCopy)
    ensures
        current is Some ==> r == *current->0,
        current is None ==> r.is_english(),
{
    match current {
        Some(c) => c.duplicate(),
        None => NotificationCopy::default(),
    }
}

/// The notification says that the device of this name is paired.
pub open spec fn welcomes(n: Notification, c: NotificationCopy, name: Seq<char>) -> bool {
    &&& n.title@ == c.pair_title@
    &&& n.body@ == text::replaced(c.pair_body@, "{device}"@, name)
}

/// The notification that this device is paired.
pub fn pair_success(c: &NotificationCopy, device_name: &str) -> (r: Notification)
    ensures
        r.title@ == c.pair_title@,
        r.body@ == text::replaced(c.pair_body@, "{device}"@, device_name@),
        welcomes(r, *c, device_name@),
{
    proof {
        reveal_strlit("{device}");
    }
    Notification {
        title: c.pair_title.clone(),
        body: text::replace(c.pair_body.as_str(), "{device}", device_name),
    }
}

/// The body of the notification that syncing fails: the lead with the count, then the first 140
/// characters of the error on a line of their own.
pub open spec fn sync_paused_body_of(c: NotificationCopy, consecutive: u32, err: Seq<char>) -> Seq<
    char,
> {
    text::replaced(c.sync_paused_lead@, "{count}"@, text::decimal_of(consecutive as nat)) + "\n"@
        + text::first(err, 140)
}

/// The body of the notification that syncing fails.
pub fn sync_paused_body(c: &NotificationCopy, consecutive: u32, err: &str) -> (r: String)
    ensures
        r@ == sync_paused_body_of(*c, consecutive, err@),
{
    proof {
        reveal_strlit("{count}");
    }
    let lead = text::replace(
        c.sync_paused_lead.as_str(),
        "{count}",
        text::decimal(consecutive as u64).as_str(),
    );
    text::join(text::join(lead.as_str(), "\n").as_str(), text::take(err, 140).as_str())
}

/// The notification says that syncing failed this often in a row, last with this error.
pub open spec fn warns(
    n: Notification,
    c: NotificationCopy,
    consecutive: u32,
    err: Seq<char>,
) -> bool {
    n.title@ == c.sync_paused_title@ && n.body@ == sync_paused_body_of(c, consecutive, err)
}

/// The notification that syncing has failed several times in a row.
pub fn sync_failure_streak(c: &NotificationCopy, consecutive: u32, err: &str) -> (r: Notification)
    ensures
        r.title@ == c.sync_paused_title@,
        r.body@ == sync_paused_body_of(*c, consecutive, err@),
        warns(r, *c, consecutive, err@),
{
    Notification {
        title: c.sync_paused_title.clone(),
        body: sync_paused_body(c, consecutive, err),
    }
}

/// The body of the notification that the user is signed out, by what the server said.
pub open spec fn signed_out_body_of(c: NotificationCopy, kind: Seq<char>) -> Seq<char> {
    if kind == "device_missing"@ {
        c.signed_out_device_missing@
    } else if kind == "account_missing"@ {
        c.signed_out_account_missing@
    } else {
        c.signed_out_expired@
    }
}

/// The notification says that the user is signed out, and why.
pub open spec fn signs_out(n: Notification, c: NotificationCopy, kind: Seq<char>) -> bool {
    n.title@ == c.signed_out_title@ && n.body@ == signed_out_body_of(c, kind)
}

/// The notification that the user is signed out.
pub fn session_expired(c: &NotificationCopy, kind: &str) -> (r: Notification)
    ensures
        r.title@ == c.signed_out_title@,
        r.body@ == signed_out_body_of(*c, kind@),
        signs_out(r, *c, kind@),
{
    let body = if text::same(kind, "device_missing") {
        c.signed_out_device_missing.clone()
    } else if text::same(kind, "account_missing") {
        c.signed_out_account_missing.clone()
    } else {
        c.signed_out_expired.clone()
    };
    Notification { title: c.signed_out_title.clone(), body }
}

/// A decimal digit.
pub open spec fn digit() -> spec_fn(char) -> bool {
    |c: char| '0' <= c <= '9'
}

/// A decimal digit or a comma.
pub open spec fn digit_or_comma() -> spec_fn(char) -> bool {
    |c: char| '0' <= c <= '9' || c == ','
}

/// Where the run of characters like `p` that starts at `i` ends.
pub open spec fn run_end(s: Seq<char>, i: int, p: spec_fn(char) -> bool) -> int
    decreases s.len() - i,
{
    if 0 <= i < s.len() && p(s[i]) {
        run_end(s, i + 1, p)
    } else {
        i
    }
}

/// Where the number that starts at `i` ends: behind its digits and commas, and behind a point and
/// digits where these follow.
pub open spec fn number_end(s: Seq<char>, i: int) -> int {
    let j = run_end(s, i, digit_or_comma());
    if j + 1 < s.len() && s[j] == '.' && digit()(s[j + 1]) {
        run_end(s, j + 1, digit())
    } else {
        j
    }
}

proof fn lemma_run_end_bounds(s: Seq<char>, i: int, p: spec_fn(char) -> bool)
    requires
        0 <= i <= s.len(),
    ensures
        i <= run_end(s, i, p) <= s.len(),
    decreases s.len() - i,
{
    if i < s.len() && p(s[i]) {
        lemma_run_end_bounds(s, i + 1, p);
    }
}

/// The end of a number lies behind its start, within the text.
pub proof fn lemma_number_end_bounds(s: Seq<char>, i: int)
    requires
        0 <= i <= s.len(),
    ensures
        i <= number_end(s, i) <= s.len(),
{
    lemma_run_end_bounds(s, i, digit_or_comma());
    let j = run_end(s, i, digit_or_comma());
    if j + 1 < s.len() {
        lemma_run_end_bounds(s, j + 1, digit());
    }
}

/// The numbers that stand behind a dollar sign in `s`, from position `i` on.
pub open spec fn amounts_from(s: Seq<char>, i: int) -> Seq<Seq<char>>
    decreases s.len() - i,
{
    if i < 0 || i >= s.len() {
        Seq::empty()
    } else if s[i] == '$' && i + 1 < s.len() && digit()(s[i + 1]) {
        let j = number_end(s, i + 1);
        proof {
            lemma_number_end_bounds(s, i + 1);
        }
        seq![s.subrange(i + 1, j)] + amounts_from(s, j)
    } else {
        amounts_from(s, i + 1)
    }
}

/// The numbers that stand behind a dollar sign in `s`.
pub open spec fn amounts(s: Seq<char>) -> Seq<Seq<char>> {
    amounts_from(s, 0)
}

/// The texts of a list.
pub open spec fn texts(v: Seq<String>) -> Seq<Seq<char>> {
    v.map_values(|t: String| t@)
}

/// `regex::Regex::captures_iter`, the first group of every match, for the pattern of amounts:
/// matches are found from the left, none overlaps another, and each part of the pattern takes as
/// many characters as it can.
#[verifier::external_body]
fn captured(pattern: &str, message: &str) -> (r: Vec<String>)
    requires
        pattern@ == AMOUNT_PATTERN@,
    ensures
        texts(r@) == amounts(message@),
{
    let re = regex::Regex::new(pattern).expect("static regex");
    re.captures_iter(message).map(|m| m[1].to_string()).collect()
}

/// Title and body for a budget alert: the templates of its kind filled with the two amounts in its
/// message; the alert's own English where its identifier or message is another's.
pub open spec fn budget_text_of(c: NotificationCopy, a: AlertView) -> (Seq<char>, Seq<char>) {
    let found = amounts(a.message);
    let daily = text::begins(a.id, "budget-daily-"@);
    let weekly = text::begins(a.id, "budget-weekly-"@);
    if (daily || weekly) && found.len() == 2 {
        let (title, body) = if daily {
            (c.budget_daily_title@, c.budget_daily_body@)
        } else {
            (c.budget_weekly_title@, c.budget_weekly_body@)
        };
        let (spend, limit) = ("$"@ + found[0], "$"@ + found[1]);
        (
            text::replaced(title, "{amount}"@, spend),
            text::replaced(text::replaced(body, "{spend}"@, spend), "{limit}"@, limit),
        )
    } else {
        (a.title, a.message)
    }
}

/// Title and body for a budget alert.
pub fn budget_text(c: &NotificationCopy, alert: &Alert) -> (r: (String, String))
    ensures
        (r.0@, r.1@) == budget_text_of(*c, alert@),
{
    proof {
        reveal_strlit("{amount}");
        reveal_strlit("{spend}");
        reveal_strlit("{limit}");
    }
    let found: Vec<String> = captured(AMOUNT_PATTERN, alert.message.as_str());
    assert(texts(found@).len() == found@.len());
    let daily = text::starts_with(alert.id.as_str(), "budget-daily-");
    let weekly = text::starts_with(alert.id.as_str(), "budget-weekly-");
    if (daily || weekly) && found.len() == 2 {
        let spend = text::join("$", found[0].as_str());
        let limit = text::join("$", found[1].as_str());
        assert(texts(found@)[0] == found@[0]@ && texts(found@)[1] == found@[1]@);
        let (title, body) = if daily {
            (&c.budget_daily_title, &c.budget_daily_body)
        } else {
            (&c.budget_weekly_title, &c.budget_weekly_body)
        };
        let half = text::replace(body.as_str(), "{spend}", spend.as_str());
        (
            text::replace(title.as_str(), "{amount}", spend.as_str()),
            text::replace(half.as_str(), "{limit}", limit.as_str()),
        )
    } else {
        (alert.title.clone(), alert.message.clone())
    }
}

/// The notification of a budget alert, its body cut to 280 characters.
pub fn budget_breach(c: &NotificationCopy, alert: &Alert) -> (r: Notification)
    ensures
        r.title@ == budget_text_of(*c, alert@).0,
        r.body@ == text::first(budget_text_of(*c, alert@).1, 280),
{
    let (title, body) = budget_text(c, alert);
    Notification { title, body: text::take(body.as_str(), 280) }
}

/// A number with decimals: digits, a point at `k`, digits.
pub open spec fn point_at(t: Seq<char>, k: int) -> bool {
    &&& 0 < k < t.len() - 1
    &&& t[k] == '.'
    &&& forall|i: int| 0 <= i < t.len() && i != k ==> digit()(#[trigger] t[i])
}

/// A number with decimals.
pub open spec fn fixed_point(t: Seq<char>) -> bool {
    exists|k: int| point_at(t, k)
}

/// How an amount is printed: a number with decimals; below zero, or where it is no finite number, a
/// text that begins with no digit and holds no dollar sign.
pub open spec fn printed(t: Seq<char>) -> bool {
    fixed_point(t) || {
        &&& t.len() > 0
        &&& !digit()(t[0])
        &&& forall|i: int| 0 <= i < t.len() ==> #[trigger] t[i] != '$'
    }
}

/// Whether a number is printed so.
pub fn is_printed(t: &str) -> (r: bool)
    ensures
        r == printed(t@),
{
    let v: Vec<char> = text::chars_of(t);
    let n: usize = v.len();
    let mut k: usize = 0;
    while k < n && '0' <= v[k] && v[k] <= '9'
        invariant
            n == v@.len(),
            v@ == t@,
            k <= n,
            forall|i: int| 0 <= i < k ==> digit()(#[trigger] t@[i]),
        decreases n - k,
    {
        k = k + 1;
    }
    if k == 0 {
        assert(!fixed_point(t@)) by {
            if fixed_point(t@) {
                let p = choose|p: int| point_at(t@, p);
                assert(digit()(t@[0]));
            }
        }
        let mut i: usize = 0;
        while i < n
            invariant
                n == v@.len(),
                v@ == t@,
                i <= n,
                !fixed_point(t@),
                forall|j: int| 0 <= j < i ==> #[trigger] t@[j] != '$',
            decreases n - i,
        {
            if v[i] == '$' {
                return false;
            }
            i = i + 1;
        }
        return n > 0;
    }
    assert(digit()(t@[0]));
    if k == n || v[k] != '.' || k == n - 1 {
        assert(!fixed_point(t@)) by {
            if fixed_point(t@) {
                let p = choose|p: int| point_at(t@, p);
                assert(!digit()(t@[p]));
                if p > k {
                    assert(digit()(t@[k as int]));
                }
            }
        }
        return false;
    }
    let mut i: usize = k + 1;
    while i < n
        invariant
            n == v@.len(),
            v@ == t@,
            0 < k < i <= n,
            k < n - 1,
            t@[k as int] == '.',
            digit()(t@[0]),
            forall|j: int| 0 <= j < i && j != k ==> digit()(#[trigger] t@[j]),
        decreases n - i,
    {
        if !('0' <= v[i] && v[i] <= '9') {
            assert(!fixed_point(t@)) by {
                if fixed_point(t@) {
                    let p = choose|p: int| point_at(t@, p);
                    assert(!digit()(t@[k as int]));
                    assert(p == k);
                    assert(digit()(t@[i as int]));
                }
            }
            return false;
        }
        i = i + 1;
    }
    assert(point_at(t@, k as int));
    true
}

/// What is found of an amount behind a dollar sign.
spec fn found_of(t: Seq<char>) -> Seq<Seq<char>> {
    if fixed_point(t) {
        seq![t]
    } else {
        Seq::empty()
    }
}

proof fn lemma_run_end_is(s: Seq<char>, i: int, j: int, p: spec_fn(char) -> bool)
    requires
        0 <= i <= j <= s.len(),
        forall|k: int| i <= k < j ==> p(#[trigger] s[k]),
        j == s.len() || !p(s[j]),
    ensures
        run_end(s, i, p) == j,
    decreases j - i,
{
    if i < j {
        lemma_run_end_is(s, i + 1, j, p);
    }
}

proof fn lemma_number_end_is(s: Seq<char>, i: int, t: Seq<char>)
    requires
        0 <= i,
        i + t.len() <= s.len(),
        s.subrange(i, i + t.len()) == t,
        fixed_point(t),
        i + t.len() == s.len() || !digit()(s[i + t.len()]),
    ensures
        number_end(s, i) == i + t.len(),
        digit()(s[i]),
{
    let k = choose|k: int| point_at(t, k);
    assert forall|m: int| 0 <= m < t.len() implies #[trigger] t[m] == s[i + m] by {}
    assert(t[0] == s[i + 0]);
    assert forall|m: int| i <= m < i + k implies digit_or_comma()(#[trigger] s[m]) by {
        assert(digit()(t[m - i]));
    }
    assert(t[k] == s[i + k]);
    assert(digit()(t[0]));
    lemma_run_end_is(s, i, i + k, digit_or_comma());
    assert(digit()(t[k + 1]));
    assert(t[k + 1] == s[i + (k + 1)]);
    assert forall|m: int| i + k + 1 <= m < i + t.len() implies digit()(#[trigger] s[m]) by {
        assert(digit()(t[m - i]));
    }
    lemma_run_end_is(s, i + k + 1, i + t.len(), digit());
}

proof fn lemma_amounts_pass(s: Seq<char>, i: int, j: int)
    requires
        0 <= i <= j <= s.len(),
        forall|k: int| i <= k < j ==> #[trigger] s[k] != '$',
    ensures
        amounts_from(s, i) == amounts_from(s, j),
    decreases j - i,
{
    if i < j {
        lemma_amounts_pass(s, i + 1, j);
    }
}

/// The amount printed between `from` and `to`, behind a dollar sign, is found where it is a number
/// with decimals; the search goes on behind it.
proof fn lemma_amount_found(s: Seq<char>, from: int, to: int)
    requires
        0 < from <= to <= s.len(),
        s[from - 1] == '$',
        printed(s.subrange(from, to)),
        to < s.len() ==> !digit()(s[to]),
    ensures
        amounts_from(s, from - 1) == found_of(s.subrange(from, to)) + amounts_from(s, to),
{
    let t = s.subrange(from, to);
    if fixed_point(t) {
        lemma_number_end_is(s, from, t);
    } else {
        assert(t[0] == s[from]);
        assert forall|k: int| from <= k < to implies #[trigger] s[k] != '$' by {
            assert(t[k - from] == s[k]);
        }
        lemma_amounts_pass(s, from, to);
        assert(found_of(t) + amounts_from(s, to) =~= amounts_from(s, to));
    }
}

/// Of a message with two printed amounts behind the only two dollar signs outside them, those that
/// are numbers with decimals are found, in their order.
proof fn lemma_two_amounts(
    lead: Seq<char>,
    spend: Seq<char>,
    link: Seq<char>,
    limit: Seq<char>,
    end: Seq<char>,
)
    requires
        printed(spend),
        printed(limit),
        lead.len() > 0,
        link.len() > 1,
        lead.last() == '$',
        link.last() == '$',
        forall|i: int| 0 <= i < lead.len() - 1 ==> #[trigger] lead[i] != '$',
        forall|i: int| 0 <= i < link.len() - 1 ==> #[trigger] link[i] != '$',
        forall|i: int| 0 <= i < end.len() ==> #[trigger] end[i] != '$',
        !digit()(link[0]),
        end.len() > 0 ==> !digit()(end[0]),
    ensures
        amounts(lead + spend + link + limit + end) == found_of(spend) + found_of(limit),
{
    let s = lead + spend + link + limit + end;
    let a = lead.len() as int;
    let b = a + spend.len();
    let c = b + link.len();
    let d = c + limit.len();
    assert(s.subrange(a, b) =~= spend);
    assert(s.subrange(c, d) =~= limit);
    assert(s[b] == link[0]);
    assert(d < s.len() ==> s[d] == end[0]);
    assert forall|k: int| 0 <= k < a - 1 implies #[trigger] s[k] != '$' by {
        assert(s[k] == lead[k]);
    }
    lemma_amounts_pass(s, 0, a - 1);
    assert(s[a - 1] == lead[a - 1]);
    lemma_amount_found(s, a, b);
    assert forall|k: int| b <= k < c - 1 implies #[trigger] s[k] != '$' by {
        assert(s[k] == link[k - b]);
    }
    lemma_amounts_pass(s, b, c - 1);
    assert(s[c - 1] == link[c - 1 - b]);
    lemma_amount_found(s, c, d);
    assert forall|k: int| d <= k < s.len() implies #[trigger] s[k] != '$' by {
        assert(s[k] == end[k - d]);
    }
    lemma_amounts_pass(s, d, s.len() as int);
    assert(found_of(spend) + (found_of(limit) + Seq::<Seq<char>>::empty()) =~= found_of(spend)
        + found_of(limit));
}

/// The notification of a daily budget alert is built from the two amounts that the alert was made
/// with, in the language of the copy.
pub proof fn lemma_daily_alert_is_read_back(
    c: NotificationCopy,
    today_key: Seq<char>,
    spend: Seq<char>,
    limit: Seq<char>,
    now_iso: Seq<char>,
    device: Option<Seq<char>>,
)
    requires
        fixed_point(spend),
        fixed_point(limit),
    ensures
        budget_text_of(c, alerts::daily_alert(today_key, spend, limit, now_iso, device)) == (
            text::replaced(c.budget_daily_title@, "{amount}"@, "$"@ + spend),
            text::replaced(
                text::replaced(c.budget_daily_body@, "{spend}"@, "$"@ + spend),
                "{limit}"@,
                "$"@ + limit,
            ),
        ),
{
    let a = alerts::daily_alert(today_key, spend, limit, now_iso, device);
    reveal_strlit("Today's spend of $");
    reveal_strlit(" is above your daily budget of $");
    reveal_strlit(".");
    lemma_two_amounts(
        "Today's spend of $"@,
        spend,
        " is above your daily budget of $"@,
        limit,
        "."@,
    );
    assert(a.id.subrange(0, "budget-daily-"@.len() as int) =~= "budget-daily-"@);
}

/// The notification of a weekly budget alert is built from the two amounts that the alert was made
/// with, in the language of the copy.
pub proof fn lemma_weekly_alert_is_read_back(
    c: NotificationCopy,
    week_label: Seq<char>,
    spend: Seq<char>,
    limit: Seq<char>,
    now_iso: Seq<char>,
    device: Option<Seq<char>>,
)
    requires
        fixed_point(spend),
        fixed_point(limit),
    ensures
        budget_text_of(c, alerts::weekly_alert(week_label, spend, limit, now_iso, device)) == (
            text::replaced(c.budget_weekly_title@, "{amount}"@, "$"@ + spend),
            text::replaced(
                text::replaced(c.budget_weekly_body@, "{spend}"@, "$"@ + spend),
                "{limit}"@,
                "$"@ + limit,
            ),
        ),
{
    let a = alerts::weekly_alert(week_label, spend, limit, now_iso, device);
    reveal_strlit("Last 7 days of spend totals $");
    reveal_strlit(", above your weekly budget of $");
    reveal_strlit(".");
    lemma_two_amounts(
        "Last 7 days of spend totals $"@,
        spend,
        ", above your weekly budget of $"@,
        limit,
        "."@,
    );
    reveal_strlit("budget-weekly-");
    reveal_strlit("budget-daily-");
    assert(a.id.subrange(0, 14) =~= "budget-weekly-"@);
    assert(a.id.subrange(0, 13)[7] == 'w');
}

/// `t` holds no opening brace.
pub open spec fn braceless(t: Seq<char>) -> bool {
    forall|i: int| 0 <= i < t.len() ==> t[i] != '{'
}

proof fn lemma_amount_braceless(t: Seq<char>)
    requires
        fixed_point(t),
    ensures
        braceless("$"@ + t),
{
    reveal_strlit("$");
    let k = choose|k: int| point_at(t, k);
    let u = "$"@ + t;
    assert forall|i: int| 0 <= i < u.len() implies u[i] != '{' by {
        if i > 0 {
            assert(u[i] == t[i - 1]);
            if i - 1 != k {
                assert(digit()(t[i - 1]));
            }
        }
    }
}

/// A template with the two placeholders, once each, is filled with the two amounts.
proof fn lemma_body_filled(
    lead: Seq<char>,
    link: Seq<char>,
    end: Seq<char>,
    spend: Seq<char>,
    limit: Seq<char>,
)
    requires
        braceless(lead),
        braceless(link),
        braceless(end),
        braceless(spend),
    ensures
        text::replaced(
            text::replaced(
                lead + "{spend}"@ + link + "{limit}"@ + end,
                "{spend}"@,
                spend,
            ),
            "{limit}"@,
            limit,
        ) == lead + spend + link + limit + end,
{
    reveal_strlit("{spend}");
    reveal_strlit("{limit}");
    let (sp, lp) = ("{spend}"@, "{limit}"@);
    let tail = link + lp + end;
    assert(lead + sp + link + lp + end =~= lead + (sp + tail));
    text::lemma_replaced_passes(lead, sp + tail, sp, spend);
    text::lemma_replaced_hits(sp, tail, spend);
    assert(tail =~= link + (lp + end));
    text::lemma_replaced_passes(link, lp + end, sp, spend);
    let other = lp.skip(1) + end;
    assert(lp + end =~= seq!['{'] + other);
    let none = Seq::<char>::empty();
    assert(other + none =~= other);
    text::lemma_replaced_passes(other, none, sp, spend);
    let whole = lp + end;
    assert(!text::begins(whole, sp)) by {
        if text::begins(whole, sp) {
            assert(whole.subrange(0, 7)[1] == sp[1]);
        }
    }
    assert(whole.skip(1) =~= other);
    assert(text::replaced(whole, sp, spend) == seq!['{'] + other);
    assert(lead + (spend + (link + whole)) =~= (lead + spend + link) + lp + end);
    text::lemma_replaced_once(lead + spend + link, end, lp, limit);
}

/// With the English copy, the notification of a daily budget alert reads as the alert itself.
pub proof fn lemma_english_daily_notification_is_the_alert(
    c: NotificationCopy,
    today_key: Seq<char>,
    spend: Seq<char>,
    limit: Seq<char>,
    now_iso: Seq<char>,
    device: Option<Seq<char>>,
)
    requires
        c.is_english(),
        printed(spend),
        printed(limit),
    ensures
        budget_text_of(c, alerts::daily_alert(today_key, spend, limit, now_iso, device)) == (
            alerts::daily_alert(today_key, spend, limit, now_iso, device).title,
            alerts::daily_alert(today_key, spend, limit, now_iso, device).message,
        ),
{
    let a = alerts::daily_alert(today_key, spend, limit, now_iso, device);
    if !fixed_point(spend) || !fixed_point(limit) {
        reveal_strlit("Today's spend of $");
        reveal_strlit(" is above your daily budget of $");
        reveal_strlit(".");
        lemma_two_amounts(
            "Today's spend of $"@,
            spend,
            " is above your daily budget of $"@,
            limit,
            "."@,
        );
        assert(amounts(a.message).len() < 2);
    } else {
        lemma_daily_alert_is_read_back(c, today_key, spend, limit, now_iso, device);
        lemma_amount_braceless(spend);
        let amount = "$"@ + spend;
        reveal_strlit("Daily budget exceeded — {amount}");
        reveal_strlit("Daily budget exceeded — $");
        reveal_strlit("{amount}");
        reveal_strlit("$");
        let lead = "Daily budget exceeded — $"@.drop_last();
        let none = Seq::<char>::empty();
        assert(c.budget_daily_title@ =~= lead + "{amount}"@ + none);
        text::lemma_replaced_once(lead, none, "{amount}"@, amount);
        assert(lead + amount + none =~= a.title);
        reveal_strlit("Today's spend of {spend} is above your daily budget of {limit}.");
        reveal_strlit("Today's spend of $");
        reveal_strlit(" is above your daily budget of $");
        reveal_strlit(".");
        reveal_strlit("{spend}");
        reveal_strlit("{limit}");
        let start = "Today's spend of $"@.drop_last();
        let link = " is above your daily budget of $"@.drop_last();
        assert(c.budget_daily_body@ =~= start + "{spend}"@ + link + "{limit}"@ + "."@);
        lemma_body_filled(start, link, "."@, amount, "$"@ + limit);
        assert(start + amount + link + ("$"@ + limit) + "."@ =~= a.message);
    }
}

/// With the English copy, the notification of a weekly budget alert reads as the alert itself.
pub proof fn lemma_english_weekly_notification_is_the_alert(
    c: NotificationCopy,
    week_label: Seq<char>,
    spend: Seq<char>,
    limit: Seq<char>,
    now_iso: Seq<char>,
    device: Option<Seq<char>>,
)
    requires
        c.is_english(),
        printed(spend),
        printed(limit),
    ensures
        budget_text_of(c, alerts::weekly_alert(week_label, spend, limit, now_iso, device)) == (
            alerts::weekly_alert(week_label, spend, limit, now_iso, device).title,
            alerts::weekly_alert(week_label, spend, limit, now_iso, device).message,
        ),
{
    let a = alerts::weekly_alert(week_label, spend, limit, now_iso, device);
    if !fixed_point(spend) || !fixed_point(limit) {
        reveal_strlit("Last 7 days of spend totals $");
        reveal_strlit(", above your weekly budget of $");
        reveal_strlit(".");
        lemma_two_amounts(
            "Last 7 days of spend totals $"@,
            spend,
            ", above your weekly budget of $"@,
            limit,
            "."@,
        );
        assert(amounts(a.message).len() < 2);
    } else {
        lemma_weekly_alert_is_read_back(c, week_label, spend, limit, now_iso, device);
        lemma_amount_braceless(spend);
        let amount = "$"@ + spend;
        reveal_strlit("Weekly budget exceeded — {amount}");
        reveal_strlit("Weekly budget exceeded — $");
        reveal_strlit("{amount}");
        reveal_strlit("$");
        let lead = "Weekly budget exceeded — $"@.drop_last();
        let none = Seq::<char>::empty();
        assert(c.budget_weekly_title@ =~= lead + "{amount}"@ + none);
        text::lemma_replaced_once(lead, none, "{amount}"@, amount);
        assert(lead + amount + none =~= a.title);
        reveal_strlit("Last 7 days of spend totals {spend}, above your weekly budget of {limit}.");
        reveal_strlit("Last 7 days of spend totals $");
        reveal_strlit(", above your weekly budget of $");
        reveal_strlit(".");
        reveal_strlit("{spend}");
        reveal_strlit("{limit}");
        let start = "Last 7 days of spend totals $"@.drop_last();
        let link = ", above your weekly budget of $"@.drop_last();
        assert(c.budget_weekly_body@ =~= start + "{spend}"@ + link + "{limit}"@ + "."@);
        lemma_body_filled(start, link, "."@, amount, "$"@ + limit);
        assert(start + amount + link + ("$"@ + limit) + "."@ =~= a.message);
    }
}

/// With the English copy, the notification of every budget alert that is computed reads as the
/// alert itself.
pub proof fn lemma_english_notifications_are_the_alerts(
    c: NotificationCopy,
    scan: ScanResult,
    sessions: SessionsSnapshot,
    thresholds: AlertThresholds,
    device: Option<Seq<char>>,
    figures: Figures,
)
    requires
        c.is_english(),
        figures.wf(),
        thresholds.wf(),
    ensures
        ({
            let due = alerts::capped(
                alerts::due_alerts(scan, sessions, thresholds, device, figures),
            );
            forall|i: int|
                0 <= i < due.len() && (#[trigger] due[i]).source_kind == Some("budget"@)
                    ==> budget_text_of(c, due[i]) == (due[i].title, due[i].message)
        }),
{
    let all = alerts::due_alerts(scan, sessions, thresholds, device, figures);
    let due = alerts::capped(all);
    let now = figures.now_iso@;
    let (today, week) = (figures.today.text@, figures.week.text@);
    let day_limit = (thresholds.daily_budget_usd->0).text@;
    let week_limit = (thresholds.weekly_budget_usd->0).text@;
    let daily = alerts::daily_alert(scan.today_key@, today, day_limit, now, device);
    let weekly = alerts::weekly_alert(figures.week_label@, week, week_limit, now, device);
    if thresholds.daily_budget_usd is Some {
        lemma_english_daily_notification_is_the_alert(
            c,
            scan.today_key@,
            today,
            day_limit,
            now,
            device,
        );
    }
    if thresholds.weekly_budget_usd is Some {
        lemma_english_weekly_notification_is_the_alert(
            c,
            figures.week_label@,
            week,
            week_limit,
            now,
            device,
        );
    }
    reveal_strlit("budget");
    reveal_strlit("session");
    assert("budget"@.len() != "session"@.len());
    assert forall|i: int|
        0 <= i < due.len() && (#[trigger] due[i]).source_kind == Some(
            "budget"@,
        ) implies budget_text_of(c, due[i]) == (due[i].title, due[i].message) by {
        assert(due[i] == all[i]);
        assert(all[i].source_kind == Some("session"@) || (all[i] == daily
            && thresholds.daily_budget_usd is Some) || (all[i] == weekly
            && thresholds.weekly_budget_usd is Some));
    }
}

/// The texts that are sent are the texts that are used, each in its place.
pub proof fn lemma_sent_notification_texts_are_used(p: NotificationCopyPayload, c: NotificationCopy)
    requires
        p.sends(c),
    ensures
        c.pair_title == p.pair_title,
        c.pair_body == p.pair_body,
        c.sync_paused_title == p.sync_paused_title,
        c.sync_paused_lead == p.sync_paused_lead,
        c.signed_out_title == p.signed_out_title,
        c.signed_out_device_missing == p.signed_out_device_missing,
        c.signed_out_account_missing == p.signed_out_account_missing,
        c.signed_out_expired == p.signed_out_expired,
        c.budget_daily_title == p.budget_daily_title,
        c.budget_daily_body == p.budget_daily_body,
        c.budget_weekly_title == p.budget_weekly_title,
        c.budget_weekly_body == p.budget_weekly_body,
{
}

/// The notification of a new pairing names the device in the place that the text gives it.
pub proof fn lemma_welcome_names_the_device(
    n: Notification,
    c: NotificationCopy,
    name: Seq<char>,
    head: Seq<char>,
    tail: Seq<char>,
)
    requires
        welcomes(n, c, name),
        c.pair_body@ == head + "{device}"@ + tail,
        braceless(head),
        braceless(tail),
    ensures
        n.title@ == c.pair_title@,
        n.body@ == head + name + tail,
{
    reveal_strlit("{device}");
    text::lemma_replaced_once(head, tail, "{device}"@, name);
}

/// The notification of a streak of failures says how many there are, then the start of the last
/// error, 140 characters at most, on a line of its own.
pub proof fn lemma_warning_counts_the_failures(
    n: Notification,
    c: NotificationCopy,
    consecutive: u32,
    err: Seq<char>,
    head: Seq<char>,
    tail: Seq<char>,
)
    requires
        warns(n, c, consecutive, err),
        c.sync_paused_lead@ == head + "{count}"@ + tail,
        braceless(head),
        braceless(tail),
    ensures
        n.title@ == c.sync_paused_title@,
        err.len() <= 140 ==> n.body@ == head + text::decimal_of(consecutive as nat) + tail + "\n"@
            + err,
        err.len() > 140 ==> n.body@ == head + text::decimal_of(consecutive as nat) + tail + "\n"@
            + err.take(140),
{
    reveal_strlit("{count}");
    text::lemma_replaced_once(head, tail, "{count}"@, text::decimal_of(consecutive as nat));
}

/// The notification of a sign-out says why: the device is missing, the account is missing, or, for
/// anything else, the sign-in is over.
pub proof fn lemma_sign_out_says_why(n: Notification, c: NotificationCopy, kind: Seq<char>)
    requires
        signs_out(n, c, kind),
    ensures
        n.title@ == c.signed_out_title@,
        kind == "device_missing"@ ==> n.body@ == c.signed_out_device_missing@,
        kind == "account_missing"@ ==> n.body@ == c.signed_out_account_missing@,
        kind != "device_missing"@ && kind != "account_missing"@ ==> n.body@ == c.signed_out_expired@,
{
    reveal_strlit("device_missing");
    reveal_strlit("account_missing");
    assert("device_missing"@.len() == 14 && "account_missing"@.len() == 15);
}

/// An alert that is no budget's, or whose message does not hold two amounts, is told in its own
/// words, whatever the texts are.
pub proof fn lemma_other_alerts_keep_their_words(c: NotificationCopy, a: AlertView)
    requires
        amounts(a.message).len() != 2 || (!text::begins(a.id, "budget-daily-"@) && !text::begins(
            a.id,
            "budget-weekly-"@,
        )),
    ensures
        budget_text_of(c, a) == (a.title, a.message),
{
}

/// A dollar sign and digits around other text make an amount: up to the first character that is no
/// part of the number.
pub proof fn lemma_amount_behind_a_dollar_sign(lead: Seq<char>, number: Seq<char>, end: Seq<char>)
    requires
        fixed_point(number),
        forall|i: int| 0 <= i < lead.len() ==> #[trigger] lead[i] != '$',
        forall|i: int| 0 <= i < end.len() ==> #[trigger] end[i] != '$',
        end.len() > 0 ==> !('0' <= end[0] <= '9'),
    ensures
        amounts(lead + seq!['$'] + number + end) == seq![number],
        amounts(lead).len() == 0,
{
    let s = lead + seq!['$'] + number + end;
    let from = lead.len() + 1;
    let to = from + number.len();
    assert(s.subrange(from as int, to as int) =~= number);
    assert(to < s.len() ==> s[to as int] == end[0]);
    assert forall|k: int| 0 <= k < lead.len() implies #[trigger] s[k] != '$' by {
        assert(s[k] == lead[k]);
    }
    lemma_amounts_pass(s, 0, lead.len() as int);
    lemma_amount_found(s, from as int, to as int);
    assert forall|k: int| to <= k < s.len() implies #[trigger] s[k] != '$' by {
        assert(s[k] == end[k - to]);
    }
    lemma_amounts_pass(s, to as int, s.len() as int);
    assert(seq![number] + Seq::<Seq<char>>::empty() =~= seq![number]);
    lemma_amounts_pass(lead, 0, lead.len() as int);
}

/// The English texts that are used until others are sent.
pub proof fn lemma_english_notifications(
    c: NotificationCopy,
    name: Seq<char>,
    err: Seq<char>,
    failures: u32,
    paired: Notification,
    warning: Notification,
)
    requires
        c.is_english(),
        welcomes(paired, c, name),
        warns(warning, c, failures, err),
    ensures
        paired.title@ == "CLI Pulse — Paired"@,
        paired.body@ == "Device “"@ + name + "” is now syncing with your phone."@,
        warning.title@ == "CLI Pulse — Sync paused"@,
        err.len() <= 140 ==> warning.body@ == text::decimal_of(failures as nat)
            + " consecutive sync failures.\n"@ + err,
{
    reveal_strlit("Device “{device}” is now syncing with your phone.");
    reveal_strlit("{device}");
    reveal_strlit("Device “");
    reveal_strlit("” is now syncing with your phone.");
    let (head, tail) = ("Device “"@, "” is now syncing with your phone."@);
    assert("Device “{device}” is now syncing with your phone."@ =~= head + "{device}"@ + tail);
    lemma_welcome_names_the_device(paired, c, name, head, tail);
    reveal_strlit("{count} consecutive sync failures.");
    reveal_strlit("{count}");
    reveal_strlit(" consecutive sync failures.\n");
    reveal_strlit("\n");
    let none = Seq::<char>::empty();
    let rest = "{count} consecutive sync failures."@.skip(7);
    assert("{count} consecutive sync failures."@ =~= none + "{count}"@ + rest);
    lemma_warning_counts_the_failures(warning, c, failures, err, none, rest);
    let dec = text::decimal_of(failures as nat);
    assert(none + dec + rest + "\n"@ + err =~= dec + " consecutive sync failures.\n"@ + err);
}

/// A number may hold commas: digits and commas behind a dollar sign make one amount, up to the first
/// character that is neither. A point behind them is part of the amount only before a digit.
pub proof fn lemma_amount_may_hold_commas(lead: Seq<char>, number: Seq<char>, end: Seq<char>)
    requires
        number.len() > 0,
        '0' <= number[0] <= '9',
        forall|i: int|
            0 <= i < number.len() ==> '0' <= #[trigger] number[i] <= '9' || number[i] == ',',
        forall|i: int| 0 <= i < lead.len() ==> #[trigger] lead[i] != '$',
        forall|i: int| 0 <= i < end.len() ==> #[trigger] end[i] != '$',
        end.len() > 0 ==> !('0' <= end[0] <= '9') && end[0] != ',',
        end.len() > 1 && end[0] == '.' ==> !('0' <= end[1] <= '9'),
    ensures
        amounts(lead + seq!['$'] + number + end) == seq![number],
{
    let s = lead + seq!['$'] + number + end;
    let from = (lead.len() + 1) as int;
    let to = (from + number.len()) as int;
    assert(s.subrange(from, to) =~= number);
    assert forall|k: int| 0 <= k < lead.len() implies #[trigger] s[k] != '$' by {
        assert(s[k] == lead[k]);
    }
    lemma_amounts_pass(s, 0, from - 1);
    assert forall|k: int| from <= k < to implies digit_or_comma()(#[trigger] s[k]) by {
        assert(s[k] == number[k - from]);
    }
    assert(to < s.len() ==> s[to] == end[0]);
    assert(to + 1 < s.len() ==> s[to + 1] == end[1]);
    lemma_run_end_is(s, from, to, digit_or_comma());
    assert(s[from] == number[0]);
    assert(number_end(s, from) == to);
    assert(amounts_from(s, from - 1) == seq![number] + amounts_from(s, to));
    assert forall|k: int| to <= k < s.len() implies #[trigger] s[k] != '$' by {
        assert(s[k] == end[k - to]);
    }
    lemma_amounts_pass(s, to, s.len() as int);
    assert(seq![number] + Seq::<Seq<char>>::empty() =~= seq![number]);
}

/// Digits, a point and digits are a number with decimals, and so how an amount is printed; nothing at
/// all, and a text that begins with a dollar sign, are not.
pub proof fn lemma_what_is_printed(whole: Seq<char>, decimals: Seq<char>, rest: Seq<char>)
    requires
        whole.len() > 0,
        decimals.len() > 0,
        forall|i: int| 0 <= i < whole.len() ==> '0' <= #[trigger] whole[i] <= '9',
        forall|i: int| 0 <= i < decimals.len() ==> '0' <= #[trigger] decimals[i] <= '9',
    ensures
        fixed_point(whole + seq!['.'] + decimals),
        printed(whole + seq!['.'] + decimals),
        !printed(Seq::<char>::empty()),
        !printed(seq!['$'] + rest),
        !printed(whole),
{
    let t = whole + seq!['.'] + decimals;
    let k = whole.len() as int;
    assert forall|i: int| 0 <= i < t.len() && i != k implies digit()(#[trigger] t[i]) by {
        if i < k {
            assert(t[i] == whole[i]);
        } else {
            assert(t[i] == decimals[i - k - 1]);
        }
    }
    assert(point_at(t, k));
    let u = seq!['$'] + rest;
    assert(u[0] == '$');
    if fixed_point(u) {
        let p = choose|p: int| point_at(u, p);
        assert(digit()(u[0]));
    }
    if fixed_point(whole) {
        let p = choose|p: int| point_at(whole, p);
        assert(whole[p] == '.');
    }
    assert('0' <= whole[0] <= '9');
    if fixed_point(Seq::<char>::empty()) {
        let p = choose|p: int| point_at(Seq::<char>::empty(), p);
    }
}

/// A dollar sign with no digit behind it makes no amount, be it the last character or not.
pub proof fn lemma_dollar_sign_alone_is_no_amount(lead: Seq<char>, end: Seq<char>)
    requires
        forall|i: int| 0 <= i < lead.len() ==> #[trigger] lead[i] != '$',
        forall|i: int| 0 <= i < end.len() ==> #[trigger] end[i] != '$',
        end.len() > 0 ==> !('0' <= end[0] <= '9'),
    ensures
        amounts(lead + seq!['$'] + end).len() == 0,
{
    let s = lead + seq!['$'] + end;
    let at = lead.len() as int;
    assert forall|k: int| 0 <= k < at implies #[trigger] s[k] != '$' by {
        assert(s[k] == lead[k]);
    }
    lemma_amounts_pass(s, 0, at);
    assert(s[at] == '$');
    assert(at + 1 < s.len() ==> s[at + 1] == end[0]);
    assert(amounts_from(s, at) == amounts_from(s, at + 1));
    assert forall|k: int| at + 1 <= k < s.len() implies #[trigger] s[k] != '$' by {
        assert(s[k] == end[k - at - 1]);
    }
    lemma_amounts_pass(s, at + 1, s.len() as int);
}

} // verus!
