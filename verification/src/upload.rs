//! One round of syncing: what is read, what is sent, and what of it may fail.

use crate::alerts;
use crate::alerts::{Alert, AlertThresholds, AlertView, Figures};
use crate::device::HelperConfig;
use crate::notify;
use crate::notify::{Notification, NotificationCopy};
use crate::number::Double;
use crate::quota;
use crate::quota::CollectorOutcome;
use crate::server;
use crate::server::SupabaseError;
use crate::sync::TickOutcome;
use crate::text;
use crate::usage::{ScanResult, SessionsSnapshot};
use serde_json::Value;
use vstd::prelude::*;

verus! {

/// Days that a sync looks back.
pub const SYNC_DAYS: u32 = 30;

/// A budget that the user was told of, and the day.
pub struct ToldBudget {
    pub key: String,
    pub day: String,
}

impl View for ToldBudget {
    type V = (Seq<char>, Seq<char>);

    open spec fn view(&self) -> (Seq<char>, Seq<char>) {
        (self.key@, self.day@)
    }
}

/// The budgets that the user was told of since the start, by key and day, each once.
pub struct ToldBudgets {
    pub budgets: Vec<ToldBudget>,
}

impl View for ToldBudgets {
    type V = Set<(Seq<char>, Seq<char>)>;

    open spec fn view(&self) -> Set<(Seq<char>, Seq<char>)> {
        Set::new(
            |k: (Seq<char>, Seq<char>)|
                exists|i: int| 0 <= i < self.budgets@.len() && #[trigger] self.budgets@[i]@ == k,
        )
    }
}

impl ToldBudgets {
    /// No budget stands twice for one day.
    pub open spec fn wf(self) -> bool {
        forall|i: int, j: int|
            0 <= i < j < self.budgets@.len() ==> #[trigger] self.budgets@[i]@
                != #[trigger] self.budgets@[j]@
    }

    /// Nothing told yet.
    pub fn new() -> (r: ToldBudgets)
        ensures
            r.wf(),
            r@ == Set::<(Seq<char>, Seq<char>)>::empty(),
    {
        let r = ToldBudgets { budgets: Vec::new() };
        assert(r@ =~= Set::empty());
        r
    }

    /// Adds a budget for a day; whether it was new.
    pub fn insert(&mut self, key: String, day: String) -> (r: bool)
        requires
            old(self).wf(),
        ensures
            final(self).wf(),
            final(self)@ == old(self)@.insert((key@, day@)),
            r == !old(self)@.contains((key@, day@)),
    {
        let ghost new = (key@, day@);
        let mut i: usize = 0;
        while i < self.budgets.len()
            invariant
                i <= self.budgets@.len(),
                *self == *old(self),
                self.wf(),
                new == (key@, day@),
                forall|k: int| 0 <= k < i ==> #[trigger] self.budgets@[k]@ != new,
            decreases self.budgets@.len() - i,
        {
            let b = &self.budgets[i];
            if text::same(b.key.as_str(), key.as_str()) && text::same(
                b.day.as_str(),
                day.as_str(),
            ) {
                assert(self.budgets@[i as int]@ == new);
                assert(self@.contains(new));
                assert(self@.insert(new) =~= self@);
                return false;
            }
            i = i + 1;
        }
        let ghost before = self.budgets@;
        let ghost had = self@;
        self.budgets.push(ToldBudget { key, day });
        proof {
            assert forall|k: (Seq<char>, Seq<char>)|
                self@.contains(k) <==> had.insert(new).contains(k) by {
                if had.contains(k) {
                    let i = choose|i: int| 0 <= i < before.len() && #[trigger] before[i]@ == k;
                    assert(self.budgets@[i]@ == k);
                }
                if k == new {
                    assert(self.budgets@[before.len() as int]@ == k);
                }
                if self@.contains(k) {
                    let i = choose|i: int|
                        0 <= i < self.budgets@.len() && #[trigger] self.budgets@[i]@ == k;
                    if i < before.len() {
                        assert(before[i]@ == k);
                    }
                }
            }
            assert(self@ =~= had.insert(new));
        }
        true
    }
}

/// An alert and the day on which it is seen.
pub struct Sighting {
    pub alert: AlertView,
    pub day: Seq<char>,
}

/// The alert speaks of a budget.
pub open spec fn is_budget(a: AlertView) -> bool {
    a.source_kind == Some("budget"@)
}

/// The key of an alert: its suppression key, or its identifier where it has none.
pub open spec fn key_of(a: AlertView) -> Seq<char> {
    match a.suppression_key {
        Some(k) => k,
        None => a.id,
    }
}

/// The key and day under which the user is told of an alert once.
pub open spec fn told_key(s: Sighting) -> (Seq<char>, Seq<char>) {
    (key_of(s.alert), s.day)
}

/// The alerts of one call, all seen on one day.
pub open spec fn sightings(alerts: Seq<AlertView>, day: Seq<char>) -> Seq<Sighting> {
    alerts.map_values(|a: AlertView| Sighting { alert: a, day })
}

/// What the user was told of once these alerts are gone through.
pub open spec fn told_after(told: Set<(Seq<char>, Seq<char>)>, seen: Seq<Sighting>) -> Set<
    (Seq<char>, Seq<char>),
>
    decreases seen.len(),
{
    if seen.len() == 0 {
        told
    } else {
        let before = told_after(told, seen.drop_last());
        if is_budget(seen.last().alert) {
            before.insert(told_key(seen.last()))
        } else {
            before
        }
    }
}

/// The alerts that the user is told of: those of budgets that are new for their day.
pub open spec fn to_tell(told: Set<(Seq<char>, Seq<char>)>, seen: Seq<Sighting>) -> Seq<Sighting>
    decreases seen.len(),
{
    if seen.len() == 0 {
        Seq::empty()
    } else {
        let rest = seen.drop_last();
        let s = seen.last();
        if is_budget(s.alert) && !told_after(told, rest).contains(told_key(s)) {
            to_tell(told, rest).push(s)
        } else {
            to_tell(told, rest)
        }
    }
}

/// The notification says this budget alert in these texts.
pub open spec fn tells(n: Notification, c: NotificationCopy, a: AlertView) -> bool {
    &&& n.title@ == notify::budget_text_of(c, a).0
    &&& n.body@ == text::first(notify::budget_text_of(c, a).1, 280)
}

/// The notifications say these budget alerts, in their order.
pub open spec fn all_told(ns: Seq<Notification>, c: NotificationCopy, seen: Seq<Sighting>) -> bool {
    &&& ns.len() == seen.len()
    &&& forall|i: int| 0 <= i < ns.len() ==> tells(#[trigger] ns[i], c, seen[i].alert)
}

fn of_budget(a: &Alert) -> (r: bool)
    ensures
        r == is_budget(a@),
{
    match &a.source_kind {
        Some(k) => text::same(k.as_str(), "budget"),
        None => false,
    }
}

/// The notifications that are due for these alerts on this day: one for every budget that the user
/// was not told of on that day yet.
pub fn maybe_notify_budget_breach(
    told: &mut ToldBudgets,
    c: &NotificationCopy,
    list: &Vec<Alert>,
    day: &str,
) -> (r: Vec<Notification>)
    requires
        old(told).wf(),
    ensures
        final(told).wf(),
        final(told)@ == told_after(old(told)@, sightings(alerts::views(list@), day@)),
        all_told(r@, *c, to_tell(old(told)@, sightings(alerts::views(list@), day@))),
{
    let mut r: Vec<Notification> = Vec::new();
    let mut i: usize = 0;
    let ghost first = told@;
    let ghost all = sightings(alerts::views(list@), day@);
    assert(all.take(0) =~= Seq::empty());
    while i < list.len()
        invariant
            i <= list@.len(),
            all == sightings(alerts::views(list@), day@),
            told.wf(),
            told@ == told_after(first, all.take(i as int)),
            all_told(r@, *c, to_tell(first, all.take(i as int))),
        decreases list@.len() - i,
    {
        let a = &list[i];
        proof {
            assert(all.take(i + 1).drop_last() =~= all.take(i as int));
            assert(all.take(i + 1).last() == (Sighting { alert: a@, day: day@ }));
        }
        if of_budget(a) {
            let key = match &a.suppression_key {
                Some(k) => k.clone(),
                None => a.id.clone(),
            };
            assert(key@ == key_of(a@));
            if told.insert(key, text::owned(day)) {
                r.push(notify::budget_breach(c, a));
            }
        }
        i = i + 1;
    }
    assert(all.take(i as int) =~= all);
    r
}

/// What the user was told of afterwards: what they were told of before, and every budget seen.
pub proof fn lemma_told_after(
    told: Set<(Seq<char>, Seq<char>)>,
    seen: Seq<Sighting>,
    key: (Seq<char>, Seq<char>),
)
    ensures
        told_after(told, seen).contains(key) <==> told.contains(key) || exists|i: int|
            0 <= i < seen.len() && is_budget(seen[i].alert) && told_key(#[trigger] seen[i]) == key,
    decreases seen.len(),
{
    if seen.len() > 0 {
        let rest = seen.drop_last();
        lemma_told_after(told, rest, key);
        let n = seen.len() - 1;
        assert(seen[n] == seen.last());
        if exists|i: int|
            0 <= i < rest.len() && is_budget(rest[i].alert) && told_key(#[trigger] rest[i]) == key {
            let i = choose|i: int|
                0 <= i < rest.len() && is_budget(rest[i].alert) && told_key(#[trigger] rest[i])
                    == key;
            assert(seen[i] == rest[i]);
        }
        if exists|i: int|
            0 <= i < seen.len() && is_budget(seen[i].alert) && told_key(#[trigger] seen[i]) == key {
            let i = choose|i: int|
                0 <= i < seen.len() && is_budget(seen[i].alert) && told_key(#[trigger] seen[i])
                    == key;
            if i < n {
                assert(rest[i] == seen[i]);
            }
        }
    }
}

/// The alert at `i` is the first of a budget that is new for its day.
pub open spec fn is_first(told: Set<(Seq<char>, Seq<char>)>, seen: Seq<Sighting>, i: int) -> bool {
    &&& 0 <= i < seen.len()
    &&& is_budget(seen[i].alert)
    &&& !told.contains(told_key(seen[i]))
    &&& forall|j: int|
        0 <= j < i && is_budget(seen[j].alert) ==> told_key(#[trigger] seen[j]) != told_key(seen[i])
}

/// The sighting is such a first one.
pub open spec fn comes_first(
    told: Set<(Seq<char>, Seq<char>)>,
    seen: Seq<Sighting>,
    s: Sighting,
) -> bool {
    exists|i: int| #[trigger] is_first(told, seen, i) && seen[i] == s
}

/// The user is told of a budget once for each day, at its first alert: every alert that is told of
/// is the first of its budget and day, every first alert is told of, and no two of them share key
/// and day.
pub proof fn lemma_told_once(told: Set<(Seq<char>, Seq<char>)>, seen: Seq<Sighting>)
    ensures
        forall|k: int|
            0 <= k < to_tell(told, seen).len() ==> comes_first(
                told,
                seen,
                #[trigger] to_tell(told, seen)[k],
            ),
        forall|i: int| #[trigger] is_first(told, seen, i) ==> to_tell(told, seen).contains(seen[i]),
        forall|k: int, m: int|
            0 <= k < m < to_tell(told, seen).len() ==> told_key(#[trigger] to_tell(told, seen)[k])
                != told_key(#[trigger] to_tell(told, seen)[m]),
    decreases seen.len(),
{
    if seen.len() > 0 {
        let rest = seen.drop_last();
        let n = seen.len() - 1;
        let before = to_tell(told, rest);
        let now = to_tell(told, seen);
        lemma_told_once(told, rest);
        lemma_told_after(told, rest, told_key(seen[n]));
        assert forall|i: int| i < n implies is_first(told, seen, i) == #[trigger] is_first(
            told,
            rest,
            i,
        ) by {
            assert forall|j: int| 0 <= j <= i && i >= 0 implies rest[j] == seen[j] by {}
            if is_first(told, rest, i) {
                assert forall|j: int| 0 <= j < i && is_budget(seen[j].alert) implies told_key(
                    #[trigger] seen[j],
                ) != told_key(seen[i]) by {
                    assert(rest[j] == seen[j]);
                }
            }
            if is_first(told, seen, i) {
                assert forall|j: int| 0 <= j < i && is_budget(rest[j].alert) implies told_key(
                    #[trigger] rest[j],
                ) != told_key(rest[i]) by {
                    assert(rest[j] == seen[j]);
                }
            }
        }
        let new = is_budget(seen[n].alert) && !told_after(told, rest).contains(told_key(seen[n]));
        assert(new == is_first(told, seen, n)) by {
            if new {
                assert forall|j: int| 0 <= j < n && is_budget(seen[j].alert) implies told_key(
                    #[trigger] seen[j],
                ) != told_key(seen[n]) by {
                    assert(rest[j] == seen[j]);
                }
            }
            if is_first(told, seen, n) && told_after(told, rest).contains(told_key(seen[n])) {
                let j = choose|j: int|
                    0 <= j < rest.len() && is_budget(rest[j].alert) && told_key(#[trigger] rest[j])
                        == told_key(seen[n]);
                assert(seen[j] == rest[j]);
            }
        }
        assert forall|k: int| 0 <= k < now.len() implies comes_first(
            told,
            seen,
            #[trigger] now[k],
        ) by {
            if k < before.len() {
                assert(now[k] == before[k]);
                let i = choose|i: int| #[trigger]
                    is_first(told, rest, i) && rest[i] == before[k];
                assert(is_first(told, seen, i));
            } else {
                assert(is_first(told, seen, n));
            }
        }
        assert forall|i: int| #[trigger] is_first(told, seen, i) implies now.contains(seen[i]) by {
            if i < n {
                assert(is_first(told, rest, i));
                let k = choose|k: int| 0 <= k < before.len() && before[k] == rest[i];
                assert(now[k] == seen[i]);
            } else {
                assert(now[before.len() as int] == seen[n]);
            }
        }
        assert forall|k: int, m: int| 0 <= k < m < now.len() implies told_key(#[trigger] now[k])
            != told_key(#[trigger] now[m]) by {
            assert(now[k] == before[k]);
            if m < before.len() {
                assert(now[m] == before[m]);
            } else {
                assert(comes_first(told, rest, before[k]));
                let i = choose|i: int| #[trigger] is_first(told, rest, i) && rest[i] == before[k];
                assert(is_budget(rest[i].alert));
            }
        }
    }
}

/// One call: its alerts and its day.
pub struct Call {
    pub alerts: Seq<AlertView>,
    pub day: Seq<char>,
}

/// All the alerts of a series of calls, in order.
pub open spec fn all_seen(calls: Seq<Call>) -> Seq<Sighting>
    decreases calls.len(),
{
    if calls.len() == 0 {
        Seq::empty()
    } else {
        all_seen(calls.drop_last()) + sightings(calls.last().alerts, calls.last().day)
    }
}

/// What the user was told of once a series of calls was made, each with what the last one left.
pub open spec fn told_over(told: Set<(Seq<char>, Seq<char>)>, calls: Seq<Call>) -> Set<
    (Seq<char>, Seq<char>),
>
    decreases calls.len(),
{
    if calls.len() == 0 {
        told
    } else {
        told_after(
            told_over(told, calls.drop_last()),
            sightings(calls.last().alerts, calls.last().day),
        )
    }
}

/// The alerts that the user is told of by a series of calls.
pub open spec fn tell_over(told: Set<(Seq<char>, Seq<char>)>, calls: Seq<Call>) -> Seq<Sighting>
    decreases calls.len(),
{
    if calls.len() == 0 {
        Seq::empty()
    } else {
        tell_over(told, calls.drop_last()) + to_tell(
            told_over(told, calls.drop_last()),
            sightings(calls.last().alerts, calls.last().day),
        )
    }
}

proof fn lemma_seen_in_parts(
    told: Set<(Seq<char>, Seq<char>)>,
    a: Seq<Sighting>,
    b: Seq<Sighting>,
)
    ensures
        told_after(told, a + b) == told_after(told_after(told, a), b),
        to_tell(told, a + b) == to_tell(told, a) + to_tell(told_after(told, a), b),
    decreases b.len(),
{
    if b.len() == 0 {
        assert(a + b =~= a);
        assert(to_tell(told, a) + Seq::<Sighting>::empty() =~= to_tell(told, a));
    } else {
        lemma_seen_in_parts(told, a, b.drop_last());
        assert((a + b).drop_last() =~= a + b.drop_last());
        assert((a + b).last() == b.last());
        assert(to_tell(told, a + b) =~= to_tell(told, a) + to_tell(told_after(told, a), b));
    }
}

proof fn lemma_calls_are_one(told: Set<(Seq<char>, Seq<char>)>, calls: Seq<Call>)
    ensures
        told_over(told, calls) == told_after(told, all_seen(calls)),
        tell_over(told, calls) == to_tell(told, all_seen(calls)),
    decreases calls.len(),
{
    if calls.len() > 0 {
        lemma_calls_are_one(told, calls.drop_last());
        lemma_seen_in_parts(
            told,
            all_seen(calls.drop_last()),
            sightings(calls.last().alerts, calls.last().day),
        );
    }
}

/// Over any series of calls from the start of the process, the user is told of each budget exactly
/// once for each day on which it is seen, at its first alert, and of nothing that is no budget.
pub proof fn lemma_one_notification_per_budget_and_day(calls: Seq<Call>)
    ensures
        ({
            let none = Set::<(Seq<char>, Seq<char>)>::empty();
            let seen = all_seen(calls);
            let shown = tell_over(none, calls);
            &&& forall|k: int|
                0 <= k < shown.len() ==> comes_first(none, seen, #[trigger] shown[k])
            &&& forall|i: int| #[trigger] is_first(none, seen, i) ==> shown.contains(seen[i])
            &&& forall|k: int, m: int|
                0 <= k < m < shown.len() ==> told_key(#[trigger] shown[k]) != told_key(
                    #[trigger] shown[m],
                )
        }),
{
    let none = Set::<(Seq<char>, Seq<char>)>::empty();
    lemma_calls_are_one(none, calls);
    lemma_told_once(none, all_seen(calls));
}

/// A budget that is seen under the same key on another day is told of once more.
pub proof fn lemma_new_day_tells_again(
    told: Set<(Seq<char>, Seq<char>)>,
    a: AlertView,
    day: Seq<char>,
)
    requires
        is_budget(a),
        !told.contains((key_of(a), day)),
    ensures
        to_tell(told, sightings(seq![a], day)) == sightings(seq![a], day),
{
    let seen = sightings(seq![a], day);
    assert(seen.drop_last() =~= Seq::empty());
    assert(seen.last() == (Sighting { alert: a, day }));
    assert(to_tell(told, seen.drop_last()) =~= Seq::empty());
    assert(to_tell(told, seen) =~= seen);
}

/// The same alerts once more on the same day tell the user nothing.
pub proof fn lemma_repeated_alerts_are_silent(
    told: Set<(Seq<char>, Seq<char>)>,
    seen: Seq<Sighting>,
)
    ensures
        to_tell(told_after(told, seen), seen).len() == 0,
        told_after(told_after(told, seen), seen) == told_after(told, seen),
{
    let then = told_after(told, seen);
    lemma_told_once(then, seen);
    if to_tell(then, seen).len() > 0 {
        let first = to_tell(then, seen)[0];
        let i = choose|i: int| #[trigger] is_first(then, seen, i) && seen[i] == first;
        lemma_told_after(told, seen, told_key(seen[i]));
    }
    assert forall|k: (Seq<char>, Seq<char>)| told_after(then, seen).contains(k) <==> then.contains(
        k,
    ) by {
        lemma_told_after(then, seen, k);
        lemma_told_after(told, seen, k);
    }
    assert(told_after(then, seen) =~= then);
}

/// What a round has read: the pairing, the local scan, the running sessions and their alerts.
pub struct Round {
    pub cfg: HelperConfig,
    pub scan: ScanResult,
    pub snapshot: SessionsSnapshot,
    pub alerts: Vec<Alert>,
}

/// What the server took of the sessions and alerts.
#[derive(Clone, Copy, Debug, PartialEq, Eq, Structural)]
pub struct Taken {
    pub sessions_synced: i64,
    pub alerts_synced: i64,
}

/// What the server took of the daily usage, and what it turned down.
#[derive(Clone, Copy, Debug, PartialEq, Eq, Structural)]
pub struct UsageTaken {
    pub metrics_synced: i64,
    pub metrics_errored: i64,
}

/// The device's load, in percent.
#[derive(Clone, Copy, Debug, PartialEq, Eq, Structural)]
pub struct MachineLoad {
    pub cpu: i32,
    pub memory: i32,
}

/// What a round reports.
pub struct SyncReport {
    pub sessions_synced: i64,
    pub alerts_synced: i64,
    pub metrics_synced: i64,
    pub metrics_errored: i64,
    pub total_cost_usd: Double,
    pub total_tokens: i64,
    pub files_scanned: u32,
    pub live_sessions_sent: usize,
    pub live_processes_seen: usize,
    pub alerts_computed: usize,
}

/// Why a local task gave no result: it did not run to its end, or it failed.
pub enum TaskError {
    Join(String),
    Failed(String),
}

/// What a round does next.
pub enum SyncStep {
    /// Load the configuration.
    LoadConfig,
    /// Scan the local usage.
    Scan { cfg: HelperConfig },
    /// Look at the running sessions.
    Sessions { cfg: HelperConfig, scan: ScanResult },
    /// Sum up the spend.
    Measure { cfg: HelperConfig, scan: ScanResult, snapshot: SessionsSnapshot },
    /// Show these notifications.
    Toast { round: Round, toasts: Vec<Notification> },
    /// Run the collectors of the providers' quotas.
    Collect { round: Round },
    /// Send the sessions, the alerts and these two objects.
    Send { round: Round, remaining: Value, tiers: Value },
    /// Send the daily usage.
    SendUsage { round: Round, taken: Taken },
    /// Keep the time of this sync and the figures for the menu.
    Record { round: Round, taken: Taken, usage: UsageTaken },
    /// Keep the figures for the menu only: the daily usage was not taken.
    KeepFigures { round: Round, taken: Taken },
    /// Read the device's load.
    ReadLoad { round: Round, taken: Taken, usage: UsageTaken },
    /// Read the device's sensors.
    ReadSensors { round: Round, taken: Taken, usage: UsageTaken, load: MachineLoad },
    /// Send a sign of life with this many active sessions.
    Heartbeat {
        round: Round,
        taken: Taken,
        usage: UsageTaken,
        load: MachineLoad,
        sensors: Option<Value>,
        active: i32,
    },
    /// The round is over.
    Done(Result<SyncReport, String>),
}

/// What became of a round's last action.
pub enum SyncEvent {
    Config(Result<Option<HelperConfig>, String>),
    Scanned(Result<ScanResult, TaskError>),
    /// The sessions, or why the look at them did not run to its end.
    Seen(Result<SessionsSnapshot, String>),
    Measured(Figures),
    Toasted,
    Collected(Vec<CollectorOutcome>),
    /// What the server took, and how many rows of daily usage there are to send.
    Sent { taken: Result<Taken, SupabaseError>, rows: usize },
    UsageSent(Result<UsageTaken, SupabaseError>),
    Recorded,
    /// The load, nothing where it could not be read.
    LoadRead(Option<MachineLoad>),
    SensorsRead(Option<Value>),
    /// Whether the sign of life was taken makes no difference.
    Beaten,
}

/// The round failed with these words.
pub open spec fn failed_with(step: SyncStep, words: Seq<char>) -> bool {
    step matches SyncStep::Done(Err(e)) && e@ == words
}

/// How a failed local task is told.
pub open spec fn task_failure_of(what: Seq<char>, e: TaskError) -> Seq<char> {
    match e {
        TaskError::Join(words) => what + " join error: "@ + words@,
        TaskError::Failed(words) => words@,
    }
}

/// The report of a round.
pub open spec fn report_of(round: Round, taken: Taken, usage: UsageTaken) -> SyncReport {
    SyncReport {
        sessions_synced: taken.sessions_synced,
        alerts_synced: taken.alerts_synced,
        metrics_synced: usage.metrics_synced,
        metrics_errored: usage.metrics_errored,
        total_cost_usd: round.scan.total_cost_usd,
        total_tokens: round.scan.total_tokens,
        files_scanned: round.scan.files_scanned,
        live_sessions_sent: round.snapshot.sessions.len(),
        live_processes_seen: round.snapshot.total_processes_seen,
        alerts_computed: round.alerts.len(),
    }
}

/// No rows of daily usage taken.
pub open spec fn none_taken() -> UsageTaken {
    UsageTaken { metrics_synced: 0, metrics_errored: 0 }
}

/// `after` is what the event makes of the round at `before`, in these notification texts, where the
/// user was told of the budgets `told`, by key and day, before the event and of `told_then` after it. An event that
/// the round's action cannot bring changes nothing.
pub open spec fn leads(
    before: SyncStep,
    event: SyncEvent,
    c: NotificationCopy,
    told: Set<(Seq<char>, Seq<char>)>,
    after: SyncStep,
    told_then: Set<(Seq<char>, Seq<char>)>,
) -> bool {
    match (before, event) {
        (SyncStep::LoadConfig, SyncEvent::Config(loaded)) => told_then == told && match loaded {
            Ok(Some(cfg)) => after == (SyncStep::Scan { cfg }),
            Ok(None) => failed_with(after, "Device not paired yet"@),
            Err(e) => failed_with(after, e@),
        },
        (SyncStep::Scan { cfg }, SyncEvent::Scanned(r)) => told_then == told && match r {
            Ok(scan) => after == (SyncStep::Sessions { cfg, scan }),
            Err(e) => failed_with(after, task_failure_of("scanner"@, e)),
        },
        (SyncStep::Sessions { cfg, scan }, SyncEvent::Seen(r)) => told_then == told && match r {
            Ok(snapshot) => after == (SyncStep::Measure { cfg, scan, snapshot }),
            Err(e) => failed_with(after, task_failure_of("sessions"@, TaskError::Join(e))),
        },
        (SyncStep::Measure { cfg, scan, snapshot }, SyncEvent::Measured(figures)) => {
            let due = alerts::capped(
                alerts::due_alerts(
                    scan,
                    snapshot,
                    cfg.thresholds,
                    Some(cfg.device_name@),
                    figures,
                ),
            );
            &&& after matches SyncStep::Toast { round, toasts }
            &&& round.cfg == cfg && round.scan == scan && round.snapshot == snapshot
            &&& alerts::views(round.alerts@) == due
            &&& all_told(toasts@, c, to_tell(told, sightings(due, scan.today_key@)))
            &&& told_then == told_after(told, sightings(due, scan.today_key@))
        },
        (SyncStep::Toast { round, .. }, SyncEvent::Toasted) => told_then == told && after == (
        SyncStep::Collect { round }),
        (SyncStep::Collect { round }, SyncEvent::Collected(outcomes)) => told_then == told && after
            == (SyncStep::Send {
            round,
            remaining: quota::object_of(quota::remaining_sent(outcomes@)),
            tiers: quota::object_of(quota::tiers_sent(outcomes@)),
        }),
        (SyncStep::Send { round, .. }, SyncEvent::Sent { taken, rows }) => told_then == told
            && match taken {
            Ok(taken) => after == if rows == 0 {
                SyncStep::Record { round, taken, usage: none_taken() }
            } else {
                SyncStep::SendUsage { round, taken }
            },
            Err(e) => failed_with(after, server::friendly_of(e)),
        },
        (SyncStep::SendUsage { round, taken }, SyncEvent::UsageSent(r)) => told_then == told
            && after == match r {
            Ok(usage) => SyncStep::Record { round, taken, usage },
            Err(_) => SyncStep::KeepFigures { round, taken },
        },
        (SyncStep::KeepFigures { round, taken }, SyncEvent::Recorded) => told_then == told
            && after == (SyncStep::ReadLoad { round, taken, usage: none_taken() }),
        (SyncStep::Record { round, taken, usage }, SyncEvent::Recorded) => told_then == told
            && after == (SyncStep::ReadLoad { round, taken, usage }),
        (SyncStep::ReadLoad { round, taken, usage }, SyncEvent::LoadRead(read)) => told_then == told
            && after == (SyncStep::ReadSensors {
            round,
            taken,
            usage,
            load: match read {
                Some(load) => load,
                None => MachineLoad { cpu: 0, memory: 0 },
            },
        }),
        (SyncStep::ReadSensors { round, taken, usage, load }, SyncEvent::SensorsRead(sensors)) =>
            told_then == told && after == (SyncStep::Heartbeat {
            round,
            taken,
            usage,
            load,
            sensors,
            active: round.snapshot.sessions.len() as i32,
        }),
        (SyncStep::Heartbeat { round, taken, usage, .. }, SyncEvent::Beaten) => told_then == told
            && after == SyncStep::Done(Ok(report_of(round, taken, usage))),
        _ => told_then == told && after == before,
    }
}

fn fail(words: String) -> (r: SyncStep)
    ensures
        failed_with(r, words@),
{
    SyncStep::Done(Err(words))
}

/// How a failed local task is told.
pub fn task_failure(what: &str, e: TaskError) -> (r: String)
    ensures
        r@ == task_failure_of(what@, e),
{
    match e {
        TaskError::Join(words) => {
            let mut r = text::join(what, " join error: ");
            r.append(words.as_str());
            r
        },
        TaskError::Failed(words) => words,
    }
}

fn report(round: &Round, taken: Taken, usage: UsageTaken) -> (r: SyncReport)
    ensures
        r == report_of(*round, taken, usage),
{
    SyncReport {
        sessions_synced: taken.sessions_synced,
        alerts_synced: taken.alerts_synced,
        metrics_synced: usage.metrics_synced,
        metrics_errored: usage.metrics_errored,
        total_cost_usd: round.scan.total_cost_usd,
        total_tokens: round.scan.total_tokens,
        files_scanned: round.scan.files_scanned,
        live_sessions_sent: round.snapshot.sessions.len(),
        live_processes_seen: round.snapshot.total_processes_seen,
        alerts_computed: round.alerts.len(),
    }
}

impl SyncStep {
    /// What the event makes of the round; budgets that the user is told of are kept in `told`.
    pub fn perform_sync(
        self,
        event: SyncEvent,
        c: &NotificationCopy,
        told: &mut ToldBudgets,
    ) -> (r: SyncStep)
        requires
            old(told).wf(),
        ensures
            final(told).wf(),
            leads(self, event, *c, old(told)@, r, final(told)@),
    {
        match (self, event) {
            (SyncStep::LoadConfig, SyncEvent::Config(loaded)) => match loaded {
                Ok(Some(cfg)) => SyncStep::Scan { cfg },
                Ok(None) => fail(text::owned("Device not paired yet")),
                Err(e) => fail(e),
            },
            (SyncStep::Scan { cfg }, SyncEvent::Scanned(r)) => match r {
                Ok(scan) => SyncStep::Sessions { cfg, scan },
                Err(e) => fail(task_failure("scanner", e)),
            },
            (SyncStep::Sessions { cfg, scan }, SyncEvent::Seen(r)) => match r {
                Ok(snapshot) => SyncStep::Measure { cfg, scan, snapshot },
                Err(e) => fail(task_failure("sessions", TaskError::Join(e))),
            },
            (SyncStep::Measure { cfg, scan, snapshot }, SyncEvent::Measured(figures)) => {
                let list = alerts::compute(
                    &scan,
                    &snapshot,
                    &cfg.thresholds,
                    Some(cfg.device_name.as_str()),
                    &figures,
                );
                let toasts = maybe_notify_budget_breach(told, c, &list, scan.today_key.as_str());
                SyncStep::Toast { round: Round { cfg, scan, snapshot, alerts: list }, toasts }
            },
            (SyncStep::Toast { round, .. }, SyncEvent::Toasted) => SyncStep::Collect { round },
            (SyncStep::Collect { round }, SyncEvent::Collected(outcomes)) => {
                let (remaining, tiers) = quota::provider_payloads(&outcomes);
                SyncStep::Send { round, remaining, tiers }
            },
            (SyncStep::Send { round, .. }, SyncEvent::Sent { taken, rows }) => match taken {
                Ok(taken) => {
                    if rows == 0 {
                        let usage = UsageTaken { metrics_synced: 0, metrics_errored: 0 };
                        SyncStep::Record { round, taken, usage }
                    } else {
                        SyncStep::SendUsage { round, taken }
                    }
                },
                Err(e) => fail(server::friendly(&e)),
            },
            (SyncStep::SendUsage { round, taken }, SyncEvent::UsageSent(r)) => match r {
                Ok(usage) => SyncStep::Record { round, taken, usage },
                Err(_) => SyncStep::KeepFigures { round, taken },
            },
            (SyncStep::KeepFigures { round, taken }, SyncEvent::Recorded) => SyncStep::ReadLoad {
                round,
                taken,
                usage: UsageTaken { metrics_synced: 0, metrics_errored: 0 },
            },
            (SyncStep::Record { round, taken, usage }, SyncEvent::Recorded) => SyncStep::ReadLoad {
                round,
                taken,
                usage,
            },
            (SyncStep::ReadLoad { round, taken, usage }, SyncEvent::LoadRead(read)) => {
                let load = match read {
                    Some(load) => load,
                    None => MachineLoad { cpu: 0, memory: 0 },
                };
                SyncStep::ReadSensors { round, taken, usage, load }
            },
            (
                SyncStep::ReadSensors { round, taken, usage, load },
                SyncEvent::SensorsRead(sensors),
            ) => {
                let active: i32 = round.snapshot.sessions.len() as i32;
                SyncStep::Heartbeat { round, taken, usage, load, sensors, active }
            },
            (SyncStep::Heartbeat { round, taken, usage, .. }, SyncEvent::Beaten) => SyncStep::Done(
                Ok(report(&round, taken, usage)),
            ),
            (step, _) => step,
        }
    }
}

/// The server has taken the sessions and alerts of the round.
pub open spec fn landed(step: SyncStep) -> bool {
    ||| step is SendUsage
    ||| step is Record
    ||| step is KeepFigures
    ||| step is ReadLoad
    ||| step is ReadSensors
    ||| step is Heartbeat
}

/// Once the server has taken the sessions and alerts, nothing fails the round: not the daily usage,
/// not the load, not the sensors, not the sign of life.
pub proof fn lemma_landed_round_succeeds(
    before: SyncStep,
    event: SyncEvent,
    c: NotificationCopy,
    told: Set<(Seq<char>, Seq<char>)>,
    after: SyncStep,
    told_then: Set<(Seq<char>, Seq<char>)>,
)
    requires
        leads(before, event, c, told, after, told_then),
        landed(before),
    ensures
        landed(after) || (after is Done && after->Done_0 is Ok),
{
}

/// A sync is kept as successful only when the server has taken the sessions and alerts, and the
/// daily usage too where there is any.
pub proof fn lemma_only_taken_syncs_are_kept(
    before: SyncStep,
    event: SyncEvent,
    c: NotificationCopy,
    told: Set<(Seq<char>, Seq<char>)>,
    after: SyncStep,
    told_then: Set<(Seq<char>, Seq<char>)>,
)
    requires
        leads(before, event, c, told, after, told_then),
        after is Record,
    ensures
        before == after || (before is SendUsage && event is UsageSent && event->UsageSent_0 is Ok)
            || (before is Send && event is Sent && event->taken is Ok && event->rows == 0),
{
}

/// The user is told of budgets in one step of a round only, and of no budget twice.
pub proof fn lemma_round_tells_once(
    before: SyncStep,
    event: SyncEvent,
    c: NotificationCopy,
    told: Set<(Seq<char>, Seq<char>)>,
    after: SyncStep,
    told_then: Set<(Seq<char>, Seq<char>)>,
)
    requires
        leads(before, event, c, told, after, told_then),
    ensures
        told.subset_of(told_then),
        told_then != told ==> before is Measure && after is Toast,
{
    if before is Measure && event is Measured {
        let due = alerts::capped(
            alerts::due_alerts(
                before->Measure_scan,
                before->Measure_snapshot,
                before->Measure_cfg.thresholds,
                Some(before->Measure_cfg.device_name@),
                event->Measured_0,
            ),
        );
        let seen = sightings(due, before->Measure_scan.today_key@);
        assert forall|k: (Seq<char>, Seq<char>)| told.contains(k) implies told_then.contains(k) by {
            lemma_told_after(told, seen, k);
        }
    }
}

/// Some event makes the one step of the other, in some texts, whatever the user was told of.
pub open spec fn follows(before: SyncStep, after: SyncStep) -> bool {
    exists|
        event: SyncEvent,
        c: NotificationCopy,
        told: Set<(Seq<char>, Seq<char>)>,
        told_then: Set<(Seq<char>, Seq<char>)>,
    | #[trigger] leads(before, event, c, told, after, told_then)
}

/// The steps of a round from its beginning, each made of the one before.
pub open spec fn is_round(steps: Seq<SyncStep>) -> bool {
    &&& steps.len() > 0
    &&& steps[0] is LoadConfig
    &&& forall|i: int| 0 <= i < steps.len() - 1 ==> follows(#[trigger] steps[i], steps[i + 1])
}

/// The step keeps the figures for the menu.
pub open spec fn keeps_figures(step: SyncStep) -> bool {
    step is Record || step is KeepFigures
}

/// The round has kept its figures already, or has succeeded.
spec fn past_keeping(step: SyncStep) -> bool {
    ||| step is ReadLoad
    ||| step is ReadSensors
    ||| step is Heartbeat
    ||| (step is Done && step->Done_0 is Ok)
}

proof fn lemma_keeping_is_passed(steps: Seq<SyncStep>, k: int)
    requires
        is_round(steps),
        0 <= k < steps.len(),
        past_keeping(steps[k]),
    ensures
        exists|i: int| 0 <= i < k && keeps_figures(#[trigger] steps[i]),
    decreases k,
{
    if k > 0 {
        let (before, after) = (steps[k - 1], steps[k]);
        assert(follows(before, steps[k - 1 + 1]));
        let (event, c, told, told_then) = choose|
            event: SyncEvent,
            c: NotificationCopy,
            told: Set<(Seq<char>, Seq<char>)>,
            told_then: Set<(Seq<char>, Seq<char>)>,
        | #[trigger] leads(before, event, c, told, after, told_then);
        if keeps_figures(before) {
            assert(keeps_figures(steps[k - 1]));
        } else {
            assert(past_keeping(before));
            lemma_keeping_is_passed(steps, k - 1);
        }
    }
}

/// A round that succeeds has kept the figures for the menu on the way; it kept its time too unless
/// the daily usage was not taken.
pub proof fn lemma_successful_round_is_kept(steps: Seq<SyncStep>)
    requires
        is_round(steps),
        steps.last() is Done && steps.last()->Done_0 is Ok,
    ensures
        exists|i: int| 0 <= i < steps.len() && keeps_figures(#[trigger] steps[i]),
        (forall|i: int| 0 <= i < steps.len() ==> !(#[trigger] steps[i] is KeepFigures)) ==> exists|
            i: int,
        | 0 <= i < steps.len() && #[trigger] steps[i] is Record,
{
    lemma_keeping_is_passed(steps, steps.len() - 1);
    let i = choose|i: int| 0 <= i < steps.len() - 1 && keeps_figures(#[trigger] steps[i]);
    assert(steps[i] is Record || steps[i] is KeepFigures);
}

/// How far a round has come.
pub open spec fn stage(step: SyncStep) -> int {
    match step {
        SyncStep::LoadConfig => 0,
        SyncStep::Scan { .. } => 1,
        SyncStep::Sessions { .. } => 2,
        SyncStep::Measure { .. } => 3,
        SyncStep::Toast { .. } => 4,
        SyncStep::Collect { .. } => 5,
        SyncStep::Send { .. } => 6,
        SyncStep::SendUsage { .. } => 7,
        SyncStep::Record { .. } => 8,
        SyncStep::KeepFigures { .. } => 8,
        SyncStep::ReadLoad { .. } => 9,
        SyncStep::ReadSensors { .. } => 10,
        SyncStep::Heartbeat { .. } => 11,
        SyncStep::Done(_) => 12,
    }
}

/// A round never goes back: each step stays or leads to a later stage.
pub proof fn lemma_round_goes_forward(steps: Seq<SyncStep>, i: int, j: int)
    requires
        is_round(steps),
        0 <= i <= j < steps.len(),
    ensures
        steps[i] == steps[j] || stage(steps[i]) < stage(steps[j]),
    decreases j - i,
{
    if i < j {
        lemma_round_goes_forward(steps, i, j - 1);
        assert(follows(steps[j - 1], steps[j - 1 + 1]));
    }
}

/// A round that keeps the figures for the menu only, because its daily usage was not taken, never
/// keeps its time.
pub proof fn lemma_untaken_round_keeps_no_time(steps: Seq<SyncStep>, i: int, j: int)
    requires
        is_round(steps),
        0 <= i < steps.len(),
        0 <= j < steps.len(),
        steps[i] is KeepFigures,
    ensures
        !(steps[j] is Record),
{
    if i <= j {
        lemma_round_goes_forward(steps, i, j);
    } else {
        lemma_round_goes_forward(steps, j, i);
    }
}

/// Daily usage that the server did not take leaves the time of the last sync as it is, and the
/// report counts none of it.
pub proof fn lemma_untaken_usage_is_not_kept(
    round: Round,
    taken: Taken,
    e: SupabaseError,
    c: NotificationCopy,
    told: Set<(Seq<char>, Seq<char>)>,
    after: SyncStep,
    told_then: Set<(Seq<char>, Seq<char>)>,
    then: SyncStep,
    told_last: Set<(Seq<char>, Seq<char>)>,
)
    requires
        leads(
            SyncStep::SendUsage { round, taken },
            SyncEvent::UsageSent(Err(e)),
            c,
            told,
            after,
            told_then,
        ),
        leads(after, SyncEvent::Recorded, c, told_then, then, told_last),
    ensures
        after == (SyncStep::KeepFigures { round, taken }),
        then == (SyncStep::ReadLoad { round, taken, usage: none_taken() }),
{
}

/// The alerts are those that the user interface shows before anything is sent.
pub open spec fn previews(
    shown: Seq<AlertView>,
    cfg: Option<HelperConfig>,
    scan: ScanResult,
    snapshot: SessionsSnapshot,
    figures: Figures,
) -> bool {
    match cfg {
        Some(c) => shown == alerts::capped(
            alerts::due_alerts(scan, snapshot, c.thresholds, Some(c.device_name@), figures),
        ),
        None => exists|t: AlertThresholds| #[trigger]
            t.is_default() && shown == alerts::capped(
                alerts::due_alerts(scan, snapshot, t, None, figures),
            ),
    }
}

/// The alerts that the user interface shows before anything is sent: those of the pairing's limits,
/// or of the default limits where there is none.
pub fn preview_alerts(
    cfg: &Option<HelperConfig>,
    scan: &ScanResult,
    snapshot: &SessionsSnapshot,
    figures: &Figures,
) -> (r: Vec<Alert>)
    ensures
        cfg matches Some(c) ==> alerts::views(r@) == alerts::capped(
            alerts::due_alerts(*scan, *snapshot, c.thresholds, Some(c.device_name@), *figures),
        ),
        cfg is None ==> exists|t: AlertThresholds| #[trigger]
            t.is_default() && alerts::views(r@) == alerts::capped(
                alerts::due_alerts(*scan, *snapshot, t, None, *figures),
            ),
        previews(alerts::views(r@), *cfg, *scan, *snapshot, *figures),
{
    match cfg {
        Some(c) => alerts::compute(
            scan,
            snapshot,
            &c.thresholds,
            Some(c.device_name.as_str()),
            figures,
        ),
        None => {
            let limits = AlertThresholds::default();
            alerts::compute(scan, snapshot, &limits, None, figures)
        },
    }
}

/// How a background tick ends before it syncs, if it does.
pub open spec fn tick_before(paired: Result<bool, String>) -> Option<TickOutcome> {
    match paired {
        Ok(true) => None,
        Ok(false) => Some(TickOutcome::NotPaired),
        Err(e) => Some(TickOutcome::Failed(e)),
    }
}

/// How a background tick ends once its round is over.
pub open spec fn tick_after(report: Result<SyncReport, String>) -> TickOutcome {
    match report {
        Ok(_) => TickOutcome::Synced,
        Err(e) => TickOutcome::Failed(e),
    }
}

/// How a background tick ends before it syncs: where the configuration cannot be loaded, and where
/// there is none. Nothing where a round of syncing is to be run.
pub fn background_tick(paired: Result<bool, String>) -> (r: Option<TickOutcome>)
    ensures
        r == match paired {
            Ok(true) => None,
            Ok(false) => Some(TickOutcome::NotPaired),
            Err(e) => Some(TickOutcome::Failed(e)),
        },
        r == tick_before(paired),
{
    match paired {
        Ok(true) => None,
        Ok(false) => Some(TickOutcome::NotPaired),
        Err(e) => Some(TickOutcome::Failed(e)),
    }
}

/// How a background tick ends once its round of syncing is over.
pub fn tick_outcome(report: Result<SyncReport, String>) -> (r: TickOutcome)
    ensures
        r == match report {
            Ok(_) => TickOutcome::Synced,
            Err(e) => TickOutcome::Failed(e),
        },
        r == tick_after(report),
{
    match report {
        Ok(_) => TickOutcome::Synced,
        Err(e) => TickOutcome::Failed(e),
    }
}

/// The event makes the one step of the other, in some texts, whatever the user was told of.
pub open spec fn makes(before: SyncStep, event: SyncEvent, after: SyncStep) -> bool {
    exists|
        c: NotificationCopy,
        told: Set<(Seq<char>, Seq<char>)>,
        told_then: Set<(Seq<char>, Seq<char>)>,
    | #[trigger] leads(before, event, c, told, after, told_then)
}

/// The steps of a round from its beginning, and the events that made each of the one before.
pub open spec fn runs(steps: Seq<SyncStep>, events: Seq<SyncEvent>) -> bool {
    &&& steps.len() == events.len() + 1
    &&& steps[0] is LoadConfig
    &&& forall|i: int|
        0 <= i < events.len() ==> makes(#[trigger] steps[i], events[i], steps[i + 1])
}

/// The pairing that a step works with.
pub open spec fn cfg_of(step: SyncStep) -> Option<HelperConfig> {
    match step {
        SyncStep::LoadConfig => None,
        SyncStep::Scan { cfg } => Some(cfg),
        SyncStep::Sessions { cfg, .. } => Some(cfg),
        SyncStep::Measure { cfg, .. } => Some(cfg),
        _ => match round_of(step) {
            Some(round) => Some(round.cfg),
            None => None,
        },
    }
}

/// The scan that a step works with.
pub open spec fn scan_of(step: SyncStep) -> Option<ScanResult> {
    match step {
        SyncStep::Sessions { scan, .. } => Some(scan),
        SyncStep::Measure { scan, .. } => Some(scan),
        _ => match round_of(step) {
            Some(round) => Some(round.scan),
            None => None,
        },
    }
}

/// The running sessions that a step works with.
pub open spec fn sessions_of(step: SyncStep) -> Option<SessionsSnapshot> {
    match step {
        SyncStep::Measure { snapshot, .. } => Some(snapshot),
        _ => match round_of(step) {
            Some(round) => Some(round.snapshot),
            None => None,
        },
    }
}

/// What a step has of the round once all is read.
pub open spec fn round_of(step: SyncStep) -> Option<Round> {
    match step {
        SyncStep::Toast { round, .. } => Some(round),
        SyncStep::Collect { round } => Some(round),
        SyncStep::Send { round, .. } => Some(round),
        SyncStep::SendUsage { round, .. } => Some(round),
        SyncStep::Record { round, .. } => Some(round),
        SyncStep::KeepFigures { round, .. } => Some(round),
        SyncStep::ReadLoad { round, .. } => Some(round),
        SyncStep::ReadSensors { round, .. } => Some(round),
        SyncStep::Heartbeat { round, .. } => Some(round),
        _ => None,
    }
}

/// What a step knows that the server took.
pub open spec fn taken_of(step: SyncStep) -> Option<Taken> {
    match step {
        SyncStep::SendUsage { taken, .. } => Some(taken),
        SyncStep::Record { taken, .. } => Some(taken),
        SyncStep::KeepFigures { taken, .. } => Some(taken),
        SyncStep::ReadLoad { taken, .. } => Some(taken),
        SyncStep::ReadSensors { taken, .. } => Some(taken),
        SyncStep::Heartbeat { taken, .. } => Some(taken),
        _ => None,
    }
}

/// What a step knows that the server took of the daily usage.
pub open spec fn usage_of(step: SyncStep) -> Option<UsageTaken> {
    match step {
        SyncStep::Record { usage, .. } => Some(usage),
        SyncStep::ReadLoad { usage, .. } => Some(usage),
        SyncStep::ReadSensors { usage, .. } => Some(usage),
        SyncStep::Heartbeat { usage, .. } => Some(usage),
        _ => None,
    }
}

/// The load that a step works with.
pub open spec fn load_of(step: SyncStep) -> Option<MachineLoad> {
    match step {
        SyncStep::ReadSensors { load, .. } => Some(load),
        SyncStep::Heartbeat { load, .. } => Some(load),
        _ => None,
    }
}

/// What a round learns at one step it keeps, as it is, through all that follow; what is new at a step
/// is what the event before it brought.
pub proof fn lemma_step_keeps_what_is_known(
    before: SyncStep,
    event: SyncEvent,
    c: NotificationCopy,
    told: Set<(Seq<char>, Seq<char>)>,
    after: SyncStep,
    told_then: Set<(Seq<char>, Seq<char>)>,
)
    requires
        leads(before, event, c, told, after, told_then),
        after != before,
        !(after is Done),
    ensures
        cfg_of(before) is Some ==> cfg_of(after) == cfg_of(before),
        cfg_of(before) is None ==> event == SyncEvent::Config(
            Ok::<Option<HelperConfig>, String>(cfg_of(after)),
        ) && cfg_of(after) is Some,
        scan_of(before) is Some ==> scan_of(after) == scan_of(before),
        scan_of(before) is None && scan_of(after) is Some ==> event == SyncEvent::Scanned(
            Ok::<ScanResult, TaskError>(scan_of(after)->0),
        ),
        sessions_of(before) is Some ==> sessions_of(after) == sessions_of(before),
        sessions_of(before) is None && sessions_of(after) is Some ==> event == SyncEvent::Seen(
            Ok::<SessionsSnapshot, String>(sessions_of(after)->0),
        ),
        round_of(before) is Some ==> round_of(after) == round_of(before),
        taken_of(before) is Some ==> taken_of(after) == taken_of(before),
        taken_of(before) is None && taken_of(after) is Some ==> event is Sent && event->taken == Ok::<
            Taken,
            SupabaseError,
        >(taken_of(after)->0),
        usage_of(before) is Some ==> usage_of(after) == usage_of(before),
        usage_of(before) is None && usage_of(after) is Some ==> event == SyncEvent::UsageSent(
            Ok::<UsageTaken, SupabaseError>(usage_of(after)->0),
        ) || (usage_of(after)->0.metrics_synced == 0 && usage_of(after)->0.metrics_errored == 0 && (
        before is KeepFigures || (event is Sent && event->rows == 0))),
        load_of(before) is Some ==> load_of(after) == load_of(before),
        load_of(before) is None && load_of(after) is Some ==> event == SyncEvent::LoadRead(
            Some(load_of(after)->0),
        ) || (event == SyncEvent::LoadRead(None) && load_of(after)->0.cpu == 0
            && load_of(after)->0.memory == 0),
        after is Heartbeat ==> event == SyncEvent::SensorsRead(after->sensors),
{
}

/// The look at the running sessions gave these sessions before step `k`.
pub open spec fn saw(
    steps: Seq<SyncStep>,
    events: Seq<SyncEvent>,
    k: int,
    s: SessionsSnapshot,
) -> bool {
    exists|i: int|
        0 <= i < k && steps[i] is Sessions && #[trigger] events[i] == SyncEvent::Seen(
            Ok::<SessionsSnapshot, String>(s),
        )
}

/// The scan gave this result before step `k`.
pub open spec fn scanned(
    steps: Seq<SyncStep>,
    events: Seq<SyncEvent>,
    k: int,
    s: ScanResult,
) -> bool {
    exists|i: int|
        0 <= i < k && steps[i] is Scan && #[trigger] events[i] == SyncEvent::Scanned(
            Ok::<ScanResult, TaskError>(s),
        )
}

/// This pairing was loaded before step `k`.
pub open spec fn loaded(
    steps: Seq<SyncStep>,
    events: Seq<SyncEvent>,
    k: int,
    c: HelperConfig,
) -> bool {
    exists|i: int|
        0 <= i < k && steps[i] is LoadConfig && #[trigger] events[i] == SyncEvent::Config(
            Ok::<Option<HelperConfig>, String>(Some(c)),
        )
}

/// The server took this before step `k`.
pub open spec fn was_taken(
    steps: Seq<SyncStep>,
    events: Seq<SyncEvent>,
    k: int,
    t: Taken,
) -> bool {
    exists|i: int|
        0 <= i < k && steps[i] is Send && #[trigger] events[i] is Sent && events[i]->taken == Ok::<
            Taken,
            SupabaseError,
        >(t)
}

/// The alerts of the round are those that are due for its scan, its sessions and the limits and name
/// of its pairing, by the figures that were measured before step `k`.
pub open spec fn measured(
    steps: Seq<SyncStep>,
    events: Seq<SyncEvent>,
    k: int,
    r: Round,
) -> bool {
    exists|i: int|
        0 <= i < k && steps[i] is Measure && #[trigger] events[i] is Measured && alerts::views(
            r.alerts@,
        ) == alerts::capped(
            alerts::due_alerts(
                r.scan,
                r.snapshot,
                r.cfg.thresholds,
                Some(r.cfg.device_name@),
                events[i]->Measured_0,
            ),
        )
}

proof fn lemma_made(steps: Seq<SyncStep>, events: Seq<SyncEvent>, k: int) -> (r: (
    NotificationCopy,
    Set<(Seq<char>, Seq<char>)>,
    Set<(Seq<char>, Seq<char>)>,
))
    requires
        runs(steps, events),
        0 < k < steps.len(),
    ensures
        leads(steps[k - 1], events[k - 1], r.0, r.1, steps[k], r.2),
{
    assert(makes(steps[k - 1], events[k - 1], steps[k - 1 + 1]));
    choose|
        c: NotificationCopy,
        told: Set<(Seq<char>, Seq<char>)>,
        told_then: Set<(Seq<char>, Seq<char>)>,
    | #[trigger] leads(steps[k - 1], events[k - 1], c, told, steps[k], told_then)
}

/// At every step of every round, the pairing, the scan, the sessions and what the server took are
/// those that the round itself loaded, scanned, saw and was told; its alerts are computed from them.
pub proof fn lemma_round_works_with_what_it_read(
    steps: Seq<SyncStep>,
    events: Seq<SyncEvent>,
    k: int,
)
    requires
        runs(steps, events),
        0 <= k < steps.len(),
    ensures
        cfg_of(steps[k]) matches Some(c) ==> loaded(steps, events, k, c),
        scan_of(steps[k]) matches Some(s) ==> scanned(steps, events, k, s),
        sessions_of(steps[k]) matches Some(s) ==> saw(steps, events, k, s),
        taken_of(steps[k]) matches Some(t) ==> was_taken(steps, events, k, t),
        round_of(steps[k]) matches Some(r) ==> measured(steps, events, k, r),
    decreases k,
{
    if k > 0 {
        lemma_round_works_with_what_it_read(steps, events, k - 1);
        let (c, told, told_then) = lemma_made(steps, events, k);
        let (before, event, after) = (steps[k - 1], events[k - 1], steps[k]);
        assert(events[k - 1] == event);
        if after != before && !(after is Done) {
            lemma_step_keeps_what_is_known(before, event, c, told, after, told_then);
        }
    }
}

/// Over every round, the sign of life counts the sessions that the look at the running sessions gave
/// in that round, whatever alerts were computed; it carries the load and sensors that were read.
pub proof fn lemma_heartbeat_counts_the_sessions(
    steps: Seq<SyncStep>,
    events: Seq<SyncEvent>,
    k: int,
)
    requires
        runs(steps, events),
        0 <= k < steps.len(),
        steps[k] is Heartbeat,
    ensures
        exists|s: SessionsSnapshot| #[trigger]
            saw(steps, events, k, s) && sessions_of(steps[k]) == Some(s) && steps[k]->active
                == s.sessions@.len() as i32,
    decreases k,
{
    lemma_round_works_with_what_it_read(steps, events, k);
    let s = sessions_of(steps[k])->0;
    assert(saw(steps, events, k, s));
    let (c, told, told_then) = lemma_made(steps, events, k);
    if steps[k - 1] == steps[k] {
        lemma_heartbeat_counts_the_sessions(steps, events, k - 1);
    }
    assert(s.sessions@.len() == s.sessions.len());
}

/// Over every round that succeeds, the report counts what the round itself did: the sessions and
/// processes that it saw, the cost, tokens and files that it scanned, the alerts that it computed and
/// what the server took.
pub proof fn lemma_report_tells_the_round(steps: Seq<SyncStep>, events: Seq<SyncEvent>, k: int)
    requires
        runs(steps, events),
        0 < k < steps.len(),
        steps[k] is Done,
        steps[k]->Done_0 is Ok,
        steps[k - 1] != steps[k],
    ensures
        ({
            let (before, r) = (steps[k - 1], steps[k]->Done_0->Ok_0);
            let (scan, seen) = (scan_of(before)->0, sessions_of(before)->0);
            &&& before is Heartbeat
            &&& scanned(steps, events, k, scan)
            &&& saw(steps, events, k, seen)
            &&& was_taken(steps, events, k, taken_of(before)->0)
            &&& r.live_sessions_sent == seen.sessions@.len()
            &&& r.live_sessions_sent as i32 == before->active
            &&& r.live_processes_seen == seen.total_processes_seen
            &&& r.total_cost_usd == scan.total_cost_usd
            &&& r.total_tokens == scan.total_tokens
            &&& r.files_scanned == scan.files_scanned
            &&& r.alerts_computed == round_of(before)->0.alerts@.len()
            &&& r.sessions_synced == (taken_of(before)->0).sessions_synced
            &&& r.alerts_synced == (taken_of(before)->0).alerts_synced
            &&& r.metrics_synced == (usage_of(before)->0).metrics_synced
            &&& r.metrics_errored == (usage_of(before)->0).metrics_errored
        }),
{
    let (c, told, told_then) = lemma_made(steps, events, k);
    lemma_round_works_with_what_it_read(steps, events, k - 1);
    lemma_heartbeat_counts_the_sessions(steps, events, k - 1);
    let seen = sessions_of(steps[k - 1])->0;
    assert(seen.sessions@.len() == seen.sessions.len());
}

/// What is sent of the quotas is what the collectors of the round gave.
pub proof fn lemma_collected_quotas_are_sent(
    round: Round,
    outcomes: Vec<CollectorOutcome>,
    c: NotificationCopy,
    told: Set<(Seq<char>, Seq<char>)>,
    after: SyncStep,
    told_then: Set<(Seq<char>, Seq<char>)>,
)
    requires
        leads(
            SyncStep::Collect { round },
            SyncEvent::Collected(outcomes),
            c,
            told,
            after,
            told_then,
        ),
    ensures
        after is Send,
        after->remaining == quota::object_of(quota::remaining_sent(outcomes@)),
        after->tiers == quota::object_of(quota::tiers_sent(outcomes@)),
{
}

/// What fails a round, in the words that are told: a pairing that is missing or cannot be loaded, a
/// scan or a look at the sessions that fails, and a server that does not take the sessions. Nothing
/// else does.
pub proof fn lemma_what_fails_a_round(
    before: SyncStep,
    event: SyncEvent,
    c: NotificationCopy,
    told: Set<(Seq<char>, Seq<char>)>,
    after: SyncStep,
    told_then: Set<(Seq<char>, Seq<char>)>,
)
    requires
        leads(before, event, c, told, after, told_then),
    ensures
        before is LoadConfig && event == SyncEvent::Config(
            Ok::<Option<HelperConfig>, String>(None),
        ) ==> failed_with(after, "Device not paired yet"@),
        before is LoadConfig && event is Config && event->Config_0 is Err ==> failed_with(
            after,
            event->Config_0->Err_0@,
        ),
        before is Scan ==> (event matches SyncEvent::Scanned(Err(TaskError::Failed(e)))
            ==> failed_with(after, e@)),
        before is Scan ==> (event matches SyncEvent::Scanned(Err(TaskError::Join(e)))
            ==> failed_with(after, "scanner"@ + " join error: "@ + e@)),
        before is Sessions ==> (event matches SyncEvent::Seen(Err(e)) ==> failed_with(
            after,
            "sessions"@ + " join error: "@ + e@,
        )),
        before is Send && event is Sent && event->taken is Err ==> failed_with(
            after,
            server::friendly_of(event->taken->Err_0),
        ),
        after is Done && after->Done_0 is Err && after != before ==> before is LoadConfig
            || before is Scan || before is Sessions || before is Send,
{
}

/// A round goes on from each step to the next where its action succeeds, and asks for the daily usage
/// only where there is any.
pub proof fn lemma_round_goes_on(
    before: SyncStep,
    event: SyncEvent,
    c: NotificationCopy,
    told: Set<(Seq<char>, Seq<char>)>,
    after: SyncStep,
    told_then: Set<(Seq<char>, Seq<char>)>,
)
    requires
        leads(before, event, c, told, after, told_then),
    ensures
        before is LoadConfig && event is Config && event->Config_0 is Ok && event->Config_0->Ok_0 is Some
            ==> after is Scan,
        before is Scan && event is Scanned && event->Scanned_0 is Ok ==> after is Sessions,
        before is Sessions && event is Seen && event->Seen_0 is Ok ==> after is Measure,
        before is Measure && event is Measured ==> after is Toast,
        before is Toast && event is Toasted ==> after is Collect,
        before is Collect && event is Collected ==> after is Send,
        before is Send && event is Sent && event->taken is Ok && event->rows > 0 ==> after is SendUsage,
        before is Send && event is Sent && event->taken is Ok && event->rows == 0 ==> after is Record,
        before is SendUsage && event is UsageSent && event->UsageSent_0 is Ok ==> after is Record,
        before is SendUsage && event is UsageSent && event->UsageSent_0 is Err
            ==> after is KeepFigures,
        before is Record && event is Recorded ==> after is ReadLoad,
        before is KeepFigures && event is Recorded ==> after is ReadLoad,
        before is ReadLoad && event is LoadRead ==> after is ReadSensors,
        before is ReadSensors && event is SensorsRead ==> after is Heartbeat,
        before is Heartbeat && event is Beaten ==> after is Done && after->Done_0 is Ok,
{
}

/// The notifications of a round are those of its budgets that are new for the scan's day, each in the
/// words of its alert, cut to 280 characters.
pub proof fn lemma_round_shows_the_new_budgets(
    before: SyncStep,
    event: SyncEvent,
    c: NotificationCopy,
    told: Set<(Seq<char>, Seq<char>)>,
    after: SyncStep,
    told_then: Set<(Seq<char>, Seq<char>)>,
)
    requires
        leads(before, event, c, told, after, told_then),
        before is Measure,
        event is Measured,
    ensures
        ({
            let seen = sightings(
                alerts::views(after->Toast_round.alerts@),
                before->Measure_scan.today_key@,
            );
            let shown = to_tell(told, seen);
            &&& after->toasts@.len() == shown.len()
            &&& told_then == told_after(told, seen)
            &&& forall|i: int|
                0 <= i < shown.len() ==> {
                    let n = #[trigger] after->toasts@[i];
                    let words = notify::budget_text_of(c, shown[i].alert);
                    &&& n.title@ == words.0
                    &&& n.body@.len() <= 280
                    &&& words.1.len() <= 280 ==> n.body@ == words.1
                    &&& words.1.len() > 280 ==> n.body@ == words.1.take(280)
                }
        }),
{
}

/// An alert is told of under its suppression key, or its own identifier where it has none, and under
/// the day; it is one of a budget exactly where its source says so.
pub proof fn lemma_what_an_alert_is_told_under(a: AlertView, day: Seq<char>)
    ensures
        a.suppression_key matches Some(k) ==> told_key(Sighting { alert: a, day }) == (k, day),
        a.suppression_key is None ==> told_key(Sighting { alert: a, day }) == (a.id, day),
        is_budget(a) <==> a.source_kind == Some("budget"@),
{
}

/// A call sees each of its alerts once, in order, on its day.
pub proof fn lemma_call_sees_its_alerts(alerts: Seq<AlertView>, day: Seq<char>)
    ensures
        sightings(alerts, day).len() == alerts.len(),
        forall|i: int|
            0 <= i < alerts.len() ==> (#[trigger] sightings(alerts, day)[i]).alert == alerts[i]
                && sightings(alerts, day)[i].day == day,
{
}

/// A tick syncs exactly where the device is paired; one that does not sync, and one whose round
/// fails, says why.
pub proof fn lemma_ticks_end(
    paired: Result<bool, String>,
    report: Result<SyncReport, String>,
    e: String,
)
    ensures
        tick_before(paired) is None <==> paired == Ok::<bool, String>(true),
        tick_before(Ok(false)) == Some(TickOutcome::NotPaired),
        tick_before(Err(e)) == Some(TickOutcome::Failed(e)),
        tick_after(report) == TickOutcome::Synced <==> report is Ok,
        tick_after(Err(e)) == TickOutcome::Failed(e),
{
}

/// A preview shows a paired device the alerts that a round would send, and one that is not paired
/// none of a budget.
pub proof fn lemma_preview_shows_what_would_be_sent(
    shown: Seq<AlertView>,
    cfg: Option<HelperConfig>,
    scan: ScanResult,
    snapshot: SessionsSnapshot,
    figures: Figures,
    c: NotificationCopy,
    told: Set<(Seq<char>, Seq<char>)>,
    after: SyncStep,
    told_then: Set<(Seq<char>, Seq<char>)>,
)
    requires
        previews(shown, cfg, scan, snapshot, figures),
        cfg is Some ==> leads(
            SyncStep::Measure { cfg: cfg->0, scan, snapshot },
            SyncEvent::Measured(figures),
            c,
            told,
            after,
            told_then,
        ),
    ensures
        cfg is Some ==> alerts::views(after->Toast_round.alerts@) == shown,
        cfg is None ==> forall|i: int|
            0 <= i < shown.len() ==> (#[trigger] shown[i]).source_kind == Some("session"@),
{
    if cfg is None {
        let t = choose|t: AlertThresholds| #[trigger]
            t.is_default() && shown == alerts::capped(
                alerts::due_alerts(scan, snapshot, t, None, figures),
            );
        alerts::lemma_no_budget_no_budget_alert(scan, snapshot, t, None, figures);
        let due = alerts::due_alerts(scan, snapshot, t, None, figures);
        assert forall|i: int| 0 <= i < shown.len() implies (#[trigger] shown[i]).source_kind == Some(
            "session"@,
        ) by {
            assert(shown[i] == due[i]);
        }
    }
}

/// A round that failed is over, and its result is the words it failed with.
pub proof fn lemma_failed_round_is_over(step: SyncStep, words: Seq<char>)
    requires
        failed_with(step, words),
    ensures
        step is Done,
        step->Done_0 is Err,
        step->Done_0->Err_0@ == words,
{
}

/// The user was told of a budget on a day where an entry with that key and that day stands among
/// those kept, and only there.
pub proof fn lemma_told_is_what_is_listed(told: ToldBudgets, key: Seq<char>, day: Seq<char>)
    ensures
        told@.contains((key, day)) <==> exists|i: int|
            0 <= i < told.budgets@.len() && (#[trigger] told.budgets@[i]).key@ == key
                && told.budgets@[i].day@ == day,
        told.budgets@.len() == 0 ==> !told@.contains((key, day)),
{
    if told@.contains((key, day)) {
        let i = choose|i: int|
            0 <= i < told.budgets@.len() && #[trigger] told.budgets@[i]@ == (key, day);
        assert(told.budgets@[i].key@ == key);
    }
    if exists|i: int|
        0 <= i < told.budgets@.len() && (#[trigger] told.budgets@[i]).key@ == key
            && told.budgets@[i].day@ == day {
        let i = choose|i: int|
            0 <= i < told.budgets@.len() && (#[trigger] told.budgets@[i]).key@ == key
                && told.budgets@[i].day@ == day;
        assert(told.budgets@[i]@ == (key, day));
    }
}

} // verus!
