//! When this device syncs: the cadence, the wait between ticks and the loops around them.

use crate::clock::Moment;
use crate::number::Single;
use crate::text;
use vstd::prelude::*;

verus! {

/// Seconds between ticks on mains power.
pub const SYNC_INTERVAL: u64 = 120;

/// Seconds between ticks on battery.
pub const BATTERY_INTERVAL: u64 = 300;

/// Seconds between ticks when the battery is low.
pub const LOW_BATTERY_INTERVAL: u64 = 900;

/// Seconds before the first tick.
pub const WARM_UP: u64 = 20;

/// Seconds before a transient failure is tried again.
pub const RETRY_PAUSE: u64 = 5;

/// Milliseconds between two looks at the stop flag.
pub const STOP_POLL: u64 = 100;

/// The user is told of the failure that makes the streak this long.
pub const SYNC_FAILURE_NOTIFY_THRESHOLD: u32 = 3;

/// Seconds before the menu's live rows are first written.
pub const TRAY_WARM_UP: u64 = 30;

/// Seconds between two writings of the menu's live rows.
pub const TRAY_REFRESH_INTERVAL: u64 = 120;

/// What the power supply says about the cadence.
#[derive(Clone, Copy, Debug, PartialEq, Eq, Structural)]
pub enum PowerHint {
    /// On mains, charging, full, without a battery, or unreadable.
    Plugged,
    /// Discharging, above the low threshold.
    OnBattery,
    /// Discharging and low.
    LowBattery,
}

/// What a battery does.
#[derive(Clone, Copy, Debug, PartialEq, Eq, Structural)]
pub enum BatteryState {
    Unknown,
    Charging,
    Discharging,
    Empty,
    Full,
}

/// What the first battery reports; a full charge is one.
#[derive(Clone, Copy, Debug, PartialEq, Eq, Structural)]
pub struct BatteryReading {
    pub state: BatteryState,
    pub charge: Single,
}

/// The hint that a reading gives: only a battery that discharges slows the cadence, and it is low
/// at twenty percent and below.
pub open spec fn hint_of(reading: Option<BatteryReading>) -> PowerHint {
    match reading {
        Some(b) => if b.state != BatteryState::Discharging {
            PowerHint::Plugged
        } else if b.charge.at_most_percent(20) {
            PowerHint::LowBattery
        } else {
            PowerHint::OnBattery
        },
        None => PowerHint::Plugged,
    }
}

/// The hint that a reading gives.
pub fn power_hint_from(reading: Option<BatteryReading>) -> (r: PowerHint)
    ensures
        r == hint_of(reading),
{
    match reading {
        Some(b) => {
            if b.state != BatteryState::Discharging {
                PowerHint::Plugged
            } else if b.charge.at_most_twenty_percent() {
                PowerHint::LowBattery
            } else {
                PowerHint::OnBattery
            }
        },
        None => PowerHint::Plugged,
    }
}

/// The hint that the first battery gives at this time, whatever it reports.
pub fn power_hint() -> (r: PowerHint)
    ensures
        exists|reading: Option<BatteryReading>| r == #[trigger] hint_of(reading),
{
    let reading = battery_reading();
    power_hint_from(reading)
}

/// The first battery of `starship_battery::Manager::batteries`, its `state` and the bits of its
/// `state_of_charge`; nothing where the manager, the list or the battery cannot be read. What comes
/// back rests on the machine, so nothing is said of it.
#[verifier::external_body]
fn battery_reading() -> (r: Option<BatteryReading>) {
    let manager = starship_battery::Manager::new().ok()?;
    let battery = manager.batteries().ok()?.next()?.ok()?;
    let state = match battery.state() {
        starship_battery::State::Unknown => BatteryState::Unknown,
        starship_battery::State::Charging => BatteryState::Charging,
        starship_battery::State::Discharging => BatteryState::Discharging,
        starship_battery::State::Empty => BatteryState::Empty,
        starship_battery::State::Full => BatteryState::Full,
    };
    Some(BatteryReading { state, charge: Single { bits: battery.state_of_charge().value.to_bits() } })
}

/// Seconds between ticks.
pub open spec fn interval_of(hint: PowerHint) -> u64 {
    match hint {
        PowerHint::Plugged => SYNC_INTERVAL,
        PowerHint::OnBattery => BATTERY_INTERVAL,
        PowerHint::LowBattery => LOW_BATTERY_INTERVAL,
    }
}

/// Seconds between ticks: the scarcer the power, the longer.
pub fn adaptive_sync_interval(hint: PowerHint) -> (r: u64)
    ensures
        r == interval_of(hint),
{
    match hint {
        PowerHint::Plugged => SYNC_INTERVAL,
        PowerHint::OnBattery => BATTERY_INTERVAL,
        PowerHint::LowBattery => LOW_BATTERY_INTERVAL,
    }
}

/// The message says that the server turned the device's credentials down.
pub open spec fn auth_failure(msg: Seq<char>) -> bool {
    ||| text::has(msg, "HTTP 401"@)
    ||| text::has(msg, "HTTP 403"@)
    ||| text::has(msg, "Device not found or unauthorized"@)
}

/// Whether the message says that the server turned the device's credentials down.
pub fn looks_like_auth_failure(msg: &str) -> (r: bool)
    ensures
        r == auth_failure(msg@),
{
    text::contains(msg, "HTTP 401") || text::contains(msg, "HTTP 403") || text::contains(
        msg,
        "Device not found or unauthorized",
    )
}

/// The lower-case message names a fault that tends to pass within seconds.
pub open spec fn passing_fault(lower: Seq<char>) -> bool {
    ||| text::has(lower, "http 500"@)
    ||| text::has(lower, "http 502"@)
    ||| text::has(lower, "http 503"@)
    ||| text::has(lower, "http 504"@)
    ||| text::has(lower, "http 429"@)
    ||| text::has(lower, "connection reset"@)
    ||| text::has(lower, "connection refused"@)
    ||| text::has(lower, "timed out"@)
    ||| text::has(lower, "network is unreachable"@)
    ||| text::has(lower, "temporary failure in name resolution"@)
}

/// The message names a fault that tends to pass within seconds, in whatever case it is written.
pub open spec fn transient(msg: Seq<char>) -> bool {
    passing_fault(text::lowercase_of(msg))
}

/// Two messages with one lower-case form name a passing fault both, or neither does.
pub proof fn lemma_transient_by_lower_case(a: Seq<char>, b: Seq<char>)
    requires
        text::lowercase_of(a) == text::lowercase_of(b),
    ensures
        transient(a) == transient(b),
{
}

/// The case in which an ASCII message is written does not matter: letter by letter, either case
/// gives the same answer.
pub proof fn lemma_transient_in_any_case(a: Seq<char>, b: Seq<char>)
    requires
        text::ascii(a),
        text::ascii(b),
        a.len() == b.len(),
        forall|i: int|
            0 <= i < a.len() ==> text::lower_letter(#[trigger] a[i]) == text::lower_letter(b[i]),
    ensures
        transient(a) == transient(b),
        transient(text::lowercase_of(a)) == transient(a),
{
    assert(text::lowered(a) =~= text::lowered(b));
    text::lemma_lowercase_is_kept(a);
}

/// An ASCII message in capitals or in lower case is judged as it is.
pub proof fn lemma_transient_in_capitals(msg: Seq<char>)
    requires
        text::ascii(msg),
    ensures
        transient(text::uppered(msg)) == transient(msg),
        transient(text::lowercase_of(msg)) == transient(msg),
{
    let high = text::uppered(msg);
    assert forall|i: int| 0 <= i < high.len() implies (#[trigger] high[i]) as u32 <= 127
        && text::lower_letter(high[i]) == text::lower_letter(msg[i]) by {
        assert(msg[i] as u32 <= 127);
    }
    lemma_transient_in_any_case(high, msg);
    lemma_transient_in_any_case(msg, msg);
}

/// Whether the lower-case message names a fault that tends to pass within seconds.
pub fn names_passing_fault(lower: &str) -> (r: bool)
    ensures
        r == passing_fault(lower@),
{
    text::contains(lower, "http 500") || text::contains(lower, "http 502") || text::contains(
        lower,
        "http 503",
    ) || text::contains(lower, "http 504") || text::contains(lower, "http 429") || text::contains(
        lower,
        "connection reset",
    ) || text::contains(lower, "connection refused") || text::contains(lower, "timed out")
        || text::contains(lower, "network is unreachable") || text::contains(
        lower,
        "temporary failure in name resolution",
    )
}

/// Whether the message names a fault that tends to pass within seconds.
pub fn looks_like_transient_5xx(msg: &str) -> (r: bool)
    ensures
        r == transient(msg@),
{
    let lower = text::lowercase(msg);
    names_passing_fault(lower.as_str())
}

/// How a wait between two ticks ended.
#[derive(Clone, Copy, Debug, PartialEq, Eq, Structural)]
pub enum WaitOutcome {
    /// The interval is over: a tick is due.
    Elapsed,
    /// A manual refresh has just synced: no tick is due, the wait starts over.
    Reset,
    /// The stop flag is up.
    Stopped,
}

/// Where a wait between two ticks stands.
#[derive(Clone, Copy, Debug, PartialEq, Eq, Structural)]
pub enum WaitStep {
    /// Take the next signal of a manual refresh that came before the wait.
    Drain,
    /// Look at the stop flag.
    Check,
    /// Idle until the timer, the stop flag or, while the channel is open, a manual refresh.
    Idle { open: bool },
    /// The wait is over.
    Over(WaitOutcome),
}

/// What can happen during a wait.
#[derive(Clone, Copy, Debug, PartialEq, Eq, Structural)]
pub enum WaitEvent {
    /// An earlier signal was taken.
    Taken,
    /// No earlier signal is left.
    Empty,
    /// The stop flag, up or not.
    Flag(bool),
    /// The timer ran out.
    Timer,
    /// A manual refresh signalled.
    Signal,
    /// The channel of manual refreshes has no sender any more.
    Closed,
    /// The stop flag was seen up.
    Stop,
}

/// What an event makes of a wait: earlier signals are dropped, a flag that is up already ends the
/// wait at once, a closed channel is listened to no longer. An event out of turn changes nothing.
pub open spec fn wait_next(step: WaitStep, event: WaitEvent) -> WaitStep {
    match (step, event) {
        (WaitStep::Drain, WaitEvent::Empty) => WaitStep::Check,
        (WaitStep::Check, WaitEvent::Flag(up)) => if up {
            WaitStep::Over(WaitOutcome::Stopped)
        } else {
            WaitStep::Idle { open: true }
        },
        (WaitStep::Idle { .. }, WaitEvent::Timer) => WaitStep::Over(WaitOutcome::Elapsed),
        (WaitStep::Idle { open }, WaitEvent::Signal) => if open {
            WaitStep::Over(WaitOutcome::Reset)
        } else {
            step
        },
        (WaitStep::Idle { .. }, WaitEvent::Closed) => WaitStep::Idle { open: false },
        (WaitStep::Idle { .. }, WaitEvent::Stop) => WaitStep::Over(WaitOutcome::Stopped),
        _ => step,
    }
}

/// What an event makes of a wait.
pub fn wait_for_next_tick(step: WaitStep, event: WaitEvent) -> (r: WaitStep)
    ensures
        r == wait_next(step, event),
{
    match (step, event) {
        (WaitStep::Drain, WaitEvent::Empty) => WaitStep::Check,
        (WaitStep::Check, WaitEvent::Flag(true)) => WaitStep::Over(WaitOutcome::Stopped),
        (WaitStep::Check, WaitEvent::Flag(false)) => WaitStep::Idle { open: true },
        (WaitStep::Idle { .. }, WaitEvent::Timer) => WaitStep::Over(WaitOutcome::Elapsed),
        (WaitStep::Idle { open: true }, WaitEvent::Signal) => WaitStep::Over(WaitOutcome::Reset),
        (WaitStep::Idle { .. }, WaitEvent::Closed) => WaitStep::Idle { open: false },
        (WaitStep::Idle { .. }, WaitEvent::Stop) => WaitStep::Over(WaitOutcome::Stopped),
        (step, _) => step,
    }
}

/// What a series of events makes of a wait.
pub open spec fn wait_after(step: WaitStep, events: Seq<WaitEvent>) -> WaitStep
    decreases events.len(),
{
    if events.len() == 0 {
        step
    } else {
        wait_next(wait_after(step, events.drop_last()), events.last())
    }
}

/// Signals that came before a wait never end it: however many are taken first, what follows makes
/// of the wait what it makes of one without them.
pub proof fn lemma_earlier_signals_are_dropped(signals: nat, events: Seq<WaitEvent>)
    ensures
        wait_after(
            WaitStep::Drain,
            Seq::new(signals, |i: int| WaitEvent::Taken) + events,
        ) == wait_after(WaitStep::Drain, events),
    decreases events.len(), signals,
{
    let taken = Seq::new(signals, |i: int| WaitEvent::Taken);
    let all = taken + events;
    if events.len() > 0 {
        lemma_earlier_signals_are_dropped(signals, events.drop_last());
        assert(all.drop_last() =~= taken + events.drop_last());
        assert(all.last() == events.last());
    } else if signals > 0 {
        let fewer = Seq::new((signals - 1) as nat, |i: int| WaitEvent::Taken);
        lemma_earlier_signals_are_dropped((signals - 1) as nat, events);
        assert(all.drop_last() =~= fewer + events);
        assert(all.last() == WaitEvent::Taken);
    } else {
        assert(all =~= events);
    }
}

/// A wait ends in one of four ways only: the flag was up already, the timer ran out, a manual
/// refresh signalled while it idled with the channel open, or the flag went up. Once over it stays
/// over.
pub proof fn lemma_wait_ends(step: WaitStep, event: WaitEvent)
    ensures
        step is Over ==> wait_next(step, event) == step,
        !(step is Over) && wait_next(step, event) == WaitStep::Over(WaitOutcome::Elapsed)
            <==> step is Idle && event == WaitEvent::Timer,
        !(step is Over) && wait_next(step, event) == WaitStep::Over(WaitOutcome::Reset)
            <==> step == (WaitStep::Idle { open: true }) && event == WaitEvent::Signal,
        !(step is Over) && wait_next(step, event) == WaitStep::Over(WaitOutcome::Stopped) <==> (step
            == WaitStep::Check && event == WaitEvent::Flag(true)) || (step is Idle && event
            == WaitEvent::Stop),
{
}

/// What the background sync does next.
pub enum LoopState {
    /// Sleep for the warm-up.
    WarmUp,
    /// Read the stop flag.
    Gate,
    /// Run one tick.
    Tick,
    /// Sleep for the retry pause, or until the stop flag is up.
    RetryPause,
    /// Ask the server whether the device and the account still stand.
    Probe { error: String },
    /// Tell the user about the streak of failures.
    Notify { error: String },
    /// Read the power supply.
    Power,
    /// Wait for this many seconds, a manual refresh or the stop flag.
    Idle { secs: u64 },
    /// The loop is over.
    Done,
}

/// How a tick ended.
pub enum TickOutcome {
    Synced,
    NotPaired,
    Failed(String),
}

/// What became of the background sync's last action.
pub enum LoopEvent {
    Slept,
    Flag(bool),
    Ticked(TickOutcome),
    /// Whether the local pairing was cleared, or why the server could not be asked.
    Probed(Result<bool, String>),
    Notified,
    Read(PowerHint),
    /// How the wait ended and what the stop flag read after it.
    Waited { outcome: WaitOutcome, stop: bool },
}

/// The background sync: its next action, the streak of counted failures, and whether the failure of
/// this cycle was tried again already.
pub struct SyncLoop {
    pub state: LoopState,
    pub failures: u32,
    pub retried: bool,
}

/// A failure that counts, told of where it makes the streak long enough.
pub open spec fn counted(l: SyncLoop, error: String) -> SyncLoop {
    SyncLoop {
        state: if l.failures == SYNC_FAILURE_NOTIFY_THRESHOLD {
            LoopState::Notify { error }
        } else {
            LoopState::Power
        },
        ..l
    }
}

/// What a tick makes of the loop.
pub open spec fn after_tick(l: SyncLoop, outcome: TickOutcome) -> SyncLoop {
    match outcome {
        TickOutcome::Synced => SyncLoop { state: LoopState::Power, failures: 0, retried: false },
        TickOutcome::NotPaired => SyncLoop { state: LoopState::Power, retried: false, ..l },
        TickOutcome::Failed(e) => if !l.retried && transient(e@) {
            SyncLoop { state: LoopState::RetryPause, retried: true, ..l }
        } else {
            let n = SyncLoop { retried: false, failures: (l.failures + 1) as u32, ..l };
            if auth_failure(e@) {
                SyncLoop { state: LoopState::Probe { error: e }, ..n }
            } else {
                counted(n, e)
            }
        },
    }
}

/// The loop after an event; an event that its action cannot bring changes nothing.
pub open spec fn next(l: SyncLoop, event: LoopEvent) -> SyncLoop {
    match (l.state, event) {
        (LoopState::WarmUp, LoopEvent::Slept) => SyncLoop { state: LoopState::Gate, ..l },
        (LoopState::Gate, LoopEvent::Flag(stop)) => SyncLoop {
            state: if stop {
                LoopState::Done
            } else {
                LoopState::Tick
            },
            ..l
        },
        (LoopState::Tick, LoopEvent::Ticked(outcome)) => after_tick(l, outcome),
        (LoopState::RetryPause, LoopEvent::Slept) => SyncLoop { state: LoopState::Gate, ..l },
        (LoopState::Probe { error }, LoopEvent::Probed(cleared)) => if cleared == Ok::<
            bool,
            String,
        >(true) {
            SyncLoop { state: LoopState::Power, failures: 0, ..l }
        } else {
            counted(l, error)
        },
        (LoopState::Notify { .. }, LoopEvent::Notified) => SyncLoop { state: LoopState::Power, ..l },
        (LoopState::Power, LoopEvent::Read(hint)) => SyncLoop {
            state: LoopState::Idle { secs: interval_of(hint) },
            ..l
        },
        (LoopState::Idle { secs }, LoopEvent::Waited { outcome, stop }) => if outcome
            == WaitOutcome::Reset && !stop {
            l
        } else {
            SyncLoop { state: LoopState::Gate, ..l }
        },
        _ => l,
    }
}

impl SyncLoop {
    /// The background sync at its start.
    pub fn start() -> (r: SyncLoop)
        ensures
            r == (SyncLoop { state: LoopState::WarmUp, failures: 0, retried: false }),
            fresh(r),
    {
        SyncLoop { state: LoopState::WarmUp, failures: 0, retried: false }
    }

    fn count(self, error: String) -> (r: SyncLoop)
        ensures
            r == counted(self, error),
    {
        let state = if self.failures == SYNC_FAILURE_NOTIFY_THRESHOLD {
            LoopState::Notify { error }
        } else {
            LoopState::Power
        };
        SyncLoop { state, failures: self.failures, retried: self.retried }
    }

    fn tick_done(self, outcome: TickOutcome) -> (r: SyncLoop)
        requires
            self.failures < u32::MAX,
        ensures
            r == after_tick(self, outcome),
    {
        match outcome {
            TickOutcome::Synced => SyncLoop { state: LoopState::Power, failures: 0, retried: false },
            TickOutcome::NotPaired => SyncLoop {
                state: LoopState::Power,
                failures: self.failures,
                retried: false,
            },
            TickOutcome::Failed(e) => {
                if !self.retried && looks_like_transient_5xx(e.as_str()) {
                    SyncLoop {
                        state: LoopState::RetryPause,
                        failures: self.failures,
                        retried: true,
                    }
                } else {
                    let failures: u32 = self.failures + 1;
                    if looks_like_auth_failure(e.as_str()) {
                        SyncLoop { state: LoopState::Probe { error: e }, failures, retried: false }
                    } else {
                        SyncLoop { state: self.state, failures, retried: false }.count(e)
                    }
                }
            },
        }
    }

    /// The loop after an event.
    pub fn step(self, event: LoopEvent) -> (r: SyncLoop)
        requires
            self.failures < u32::MAX,
        ensures
            r == next(self, event),
    {
        let (failures, retried) = (self.failures, self.retried);
        match (self.state, event) {
            (LoopState::WarmUp, LoopEvent::Slept) => SyncLoop {
                state: LoopState::Gate,
                failures,
                retried,
            },
            (LoopState::Gate, LoopEvent::Flag(stop)) => {
                let state = if stop {
                    LoopState::Done
                } else {
                    LoopState::Tick
                };
                SyncLoop { state, failures, retried }
            },
            (LoopState::Tick, LoopEvent::Ticked(outcome)) => {
                SyncLoop { state: LoopState::Tick, failures, retried }.tick_done(outcome)
            },
            (LoopState::RetryPause, LoopEvent::Slept) => SyncLoop {
                state: LoopState::Gate,
                failures,
                retried,
            },
            (LoopState::Probe { error }, LoopEvent::Probed(cleared)) => {
                match cleared {
                    Ok(true) => SyncLoop { state: LoopState::Power, failures: 0, retried },
                    _ => SyncLoop { state: LoopState::Power, failures, retried }.count(error),
                }
            },
            (LoopState::Notify { .. }, LoopEvent::Notified) => SyncLoop {
                state: LoopState::Power,
                failures,
                retried,
            },
            (LoopState::Power, LoopEvent::Read(hint)) => SyncLoop {
                state: LoopState::Idle { secs: adaptive_sync_interval(hint) },
                failures,
                retried,
            },
            (LoopState::Idle { secs }, LoopEvent::Waited { outcome, stop }) => {
                if outcome == WaitOutcome::Reset && !stop {
                    SyncLoop { state: LoopState::Idle { secs }, failures, retried }
                } else {
                    SyncLoop { state: LoopState::Gate, failures, retried }
                }
            },
            (state, _) => SyncLoop { state, failures, retried },
        }
    }
}

/// The loop after a series of events.
pub open spec fn after(l: SyncLoop, events: Seq<LoopEvent>) -> SyncLoop
    decreases events.len(),
{
    if events.len() == 0 {
        l
    } else {
        next(after(l, events.drop_last()), events.last())
    }
}

/// How often the series of events makes the loop go from a state in `from` to one in `to`.
pub open spec fn moves(
    l: SyncLoop,
    events: Seq<LoopEvent>,
    from: spec_fn(LoopState) -> bool,
    to: spec_fn(LoopState) -> bool,
) -> nat
    decreases events.len(),
{
    if events.len() == 0 {
        0
    } else {
        let before = after(l, events.drop_last());
        let step = from(before.state) && to(next(before, events.last()).state);
        moves(l, events.drop_last(), from, to) + if step {
            1nat
        } else {
            0
        }
    }
}

/// How often a tick was started.
pub open spec fn ticks(l: SyncLoop, events: Seq<LoopEvent>) -> nat {
    moves(l, events, |s: LoopState| s is Gate, |s: LoopState| s is Tick)
}

/// How often a failure was put off to be tried again.
pub open spec fn retries(l: SyncLoop, events: Seq<LoopEvent>) -> nat {
    moves(l, events, |s: LoopState| s is Tick, |s: LoopState| s is RetryPause)
}

/// How often a wait was over.
pub open spec fn waits_over(l: SyncLoop, events: Seq<LoopEvent>) -> nat {
    moves(l, events, |s: LoopState| s is Idle, |s: LoopState| s is Gate)
}

/// The loop is at its start.
pub open spec fn fresh(l: SyncLoop) -> bool {
    l.state is WarmUp && l.failures == 0 && !l.retried
}

/// The loop stands before the end of a cycle's last attempt.
spec fn attempting(s: LoopState) -> bool {
    s is WarmUp || s is Gate || s is Tick || s is RetryPause
}

proof fn lemma_cycle_counts(l: SyncLoop, events: Seq<LoopEvent>)
    requires
        fresh(l),
    ensures
        ({
            let at = after(l, events);
            let (t, r, w) = (ticks(l, events), retries(l, events), waits_over(l, events));
            &&& attempting(at.state) && !(at.state is Tick) ==> t < 1 + w + r
            &&& t <= 1 + w + r
            &&& attempting(at.state) && !at.retried ==> r <= w
            &&& at.state is RetryPause ==> at.retried
            &&& !attempting(at.state) && !(at.state is Done) ==> !at.retried
            &&& r <= w + 1
        }),
    decreases events.len(),
{
    if events.len() > 0 {
        lemma_cycle_counts(l, events.drop_last());
    }
}

/// A manual refresh that ends a wait starts no tick: the loop waits once more, as long as before,
/// with its streak unchanged.
pub proof fn lemma_manual_refresh_starts_no_tick(l: SyncLoop)
    requires
        l.state is Idle,
    ensures
        next(l, LoopEvent::Waited { outcome: WaitOutcome::Reset, stop: false }) == l,
{
}

/// Whatever happens, ticks start only at the beginning, at the end of a wait or as the second
/// attempt of a cycle, and there is one second attempt at most in each cycle.
pub proof fn lemma_ticks_are_bounded(l: SyncLoop, events: Seq<LoopEvent>)
    requires
        fresh(l),
    ensures
        ticks(l, events) <= 1 + waits_over(l, events) + retries(l, events),
        retries(l, events) <= 1 + waits_over(l, events),
{
    lemma_cycle_counts(l, events);
}

/// The first transient failure of a cycle is tried again and does not count; the second counts.
pub proof fn lemma_transient_failure_is_tried_again(l: SyncLoop, error: String)
    requires
        l.state is Tick,
        l.failures < u32::MAX,
        transient(error@),
    ensures
        ({
            let n = next(l, LoopEvent::Ticked(TickOutcome::Failed(error)));
            &&& !l.retried ==> n.state is RetryPause && n.failures == l.failures
            &&& l.retried ==> n.failures == l.failures + 1 && !(n.state is RetryPause)
        }),
{
}

/// The user is told of a streak of failures exactly when it reaches the threshold, and a streak
/// that goes on past it is not told of again.
pub proof fn lemma_streak_is_told_once(l: SyncLoop, event: LoopEvent)
    requires
        !(l.state is Notify),
        l.failures < u32::MAX,
    ensures
        next(l, event).state is Notify ==> next(l, event).failures
            == SYNC_FAILURE_NOTIFY_THRESHOLD && (l.state is Tick || l.state is Probe),
        l.state is Tick && next(l, event).failures > SYNC_FAILURE_NOTIFY_THRESHOLD ==> !(next(
            l,
            event,
        ).state is Notify),
        next(l, event).failures > l.failures ==> l.state is Tick && next(l, event).failures
            == l.failures + 1 && (next(l, event).failures == SYNC_FAILURE_NOTIFY_THRESHOLD ==> (
        next(l, event).state is Notify || next(l, event).state is Probe)),
{
}

/// A sync that succeeds, and a pairing that was cleared, end the streak.
pub proof fn lemma_streak_ends(l: SyncLoop)
    ensures
        l.state is Tick ==> next(l, LoopEvent::Ticked(TickOutcome::Synced)).failures == 0,
        l.state is Probe ==> next(l, LoopEvent::Probed(Ok(true))).failures == 0,
{
}

/// Once the stop flag is read as up, the loop is over and stays over; a wait that ends because of
/// the flag leads straight to the reading.
pub proof fn lemma_stop_ends_the_loop(l: SyncLoop, events: Seq<LoopEvent>)
    ensures
        l.state is Gate ==> next(l, LoopEvent::Flag(true)).state is Done,
        l.state is Idle ==> forall|stop: bool| #[trigger]
            next(l, LoopEvent::Waited { outcome: WaitOutcome::Stopped, stop }).state is Gate,
        l.state is Done ==> after(l, events).state is Done,
    decreases events.len(),
{
    if events.len() > 0 {
        lemma_stop_ends_the_loop(l, events.drop_last());
    }
}

/// The scarcer the power, the longer the interval.
pub proof fn lemma_interval_grows()
    ensures
        interval_of(PowerHint::Plugged) <= interval_of(PowerHint::OnBattery) <= interval_of(
            PowerHint::LowBattery,
        ),
{
}

/// What the loop that writes the menu's live rows does next.
#[derive(Clone, Copy, Debug, PartialEq, Eq, Structural)]
pub enum TrayLoop {
    /// Sleep for the warm-up, or until the stop flag is up.
    WarmUp,
    /// Read the stop flag.
    Gate,
    /// Write the live rows.
    Apply,
    /// Sleep for the interval, or until the stop flag is up.
    Pause,
    /// The loop is over.
    Done,
}

/// What became of that loop's last action.
#[derive(Clone, Copy, Debug, PartialEq, Eq, Structural)]
pub enum TrayEvent {
    /// The sleep is over; `stopped` where the stop flag ended it.
    Slept { stopped: bool },
    Flag(bool),
    Applied,
}

/// That loop after an event; an event that its action cannot bring changes nothing.
pub open spec fn tray_next(l: TrayLoop, event: TrayEvent) -> TrayLoop {
    match (l, event) {
        (TrayLoop::WarmUp, TrayEvent::Slept { stopped }) | (
            TrayLoop::Pause,
            TrayEvent::Slept { stopped },
        ) => if stopped {
            TrayLoop::Done
        } else {
            TrayLoop::Gate
        },
        (TrayLoop::Gate, TrayEvent::Flag(stop)) => if stop {
            TrayLoop::Done
        } else {
            TrayLoop::Apply
        },
        (TrayLoop::Apply, TrayEvent::Applied) => TrayLoop::Pause,
        _ => l,
    }
}

/// Seconds that the next sleep of that loop lasts.
pub open spec fn sleep_of(l: TrayLoop) -> u64 {
    match l {
        TrayLoop::WarmUp => TRAY_WARM_UP,
        TrayLoop::Pause => TRAY_REFRESH_INTERVAL,
        _ => 0,
    }
}

impl TrayLoop {
    /// The loop after an event.
    pub fn step(self, event: TrayEvent) -> (r: TrayLoop)
        ensures
            r == tray_next(self, event),
    {
        match (self, event) {
            (TrayLoop::WarmUp, TrayEvent::Slept { stopped }) | (
                TrayLoop::Pause,
                TrayEvent::Slept { stopped },
            ) => {
                if stopped {
                    TrayLoop::Done
                } else {
                    TrayLoop::Gate
                }
            },
            (TrayLoop::Gate, TrayEvent::Flag(stop)) => {
                if stop {
                    TrayLoop::Done
                } else {
                    TrayLoop::Apply
                }
            },
            (TrayLoop::Apply, TrayEvent::Applied) => TrayLoop::Pause,
            (l, _) => l,
        }
    }

    /// Seconds that the loop's next sleep lasts.
    pub fn sleep_secs(&self) -> (r: u64)
        ensures
            r == match *self {
                TrayLoop::WarmUp => TRAY_WARM_UP,
                TrayLoop::Pause => TRAY_REFRESH_INTERVAL,
                _ => 0,
            },
            r == sleep_of(*self),
    {
        match self {
            TrayLoop::WarmUp => TRAY_WARM_UP,
            TrayLoop::Pause => TRAY_REFRESH_INTERVAL,
            _ => 0,
        }
    }
}

/// The live rows are written only behind a stop flag that read as down, and every way that the flag
/// is seen up ends the loop.
pub proof fn lemma_tray_loop_stops(l: TrayLoop, event: TrayEvent)
    ensures
        tray_next(l, event) == TrayLoop::Apply ==> l == TrayLoop::Apply || event == TrayEvent::Flag(
            false,
        ),
        (l == TrayLoop::WarmUp || l == TrayLoop::Pause) ==> tray_next(
            l,
            TrayEvent::Slept { stopped: true },
        ) == TrayLoop::Done,
        l == TrayLoop::Gate ==> tray_next(l, TrayEvent::Flag(true)) == TrayLoop::Done,
        l == TrayLoop::Done ==> tray_next(l, event) == TrayLoop::Done,
{
}

/// The time kept as that of the last sync: it never goes back.
pub open spec fn latest(last: Option<Moment>, now: Moment) -> Option<Moment> {
    match last {
        Some(t) => if t.total_nanos() > now.total_nanos() {
            last
        } else {
            Some(now)
        },
        None => Some(now),
    }
}

/// Keeps the time of the last sync that succeeded; a clock that went back since does not take it
/// back.
pub fn record_successful_sync(last: &mut Option<Moment>, now: Moment)
    requires
        now.wf(),
        *old(last) is Some ==> (*old(last))->0.wf(),
    ensures
        *final(last) == latest(*old(last), now),
{
    let later = match last {
        Some(t) => t.secs > now.secs || (t.secs == now.secs && t.nanos > now.nanos),
        None => false,
    };
    if !later {
        *last = Some(now);
    }
}

/// Whatever times are recorded, the one that is kept is not before any recorded earlier.
pub proof fn lemma_last_sync_never_goes_back(last: Option<Moment>, now: Moment)
    ensures
        latest(last, now) is Some,
        latest(last, now)->0.total_nanos() >= now.total_nanos(),
        last is Some ==> latest(last, now)->0.total_nanos() >= last->0.total_nanos(),
{
}

/// The age is the time from the last sync to now, in whole seconds.
pub open spec fn is_age(age: Option<u64>, last: Option<Moment>, now: Moment) -> bool {
    match last {
        Some(t) => age is Some && age->0 == if t.total_nanos() <= now.total_nanos() {
            (now.total_nanos() - t.total_nanos()) / 1_000_000_000
        } else {
            0
        },
        None => age is None,
    }
}

/// Whole seconds since the last sync that succeeded, zero where the clock went back since.
pub fn last_successful_sync_seconds_ago(last: &Option<Moment>, now: &Moment) -> (r: Option<u64>)
    requires
        now.wf(),
        last is Some ==> (last->0).wf(),
    ensures
        r is Some <==> last is Some,
        r is Some && (last->0).total_nanos() <= now.total_nanos() ==> r->0 == (now.total_nanos() - (
        last->0).total_nanos()) / 1_000_000_000,
        r is Some && (last->0).total_nanos() > now.total_nanos() ==> r->0 == 0,
        is_age(r, *last, *now),
{
    match last {
        Some(t) => Some(now.seconds_since(t)),
        None => None,
    }
}

/// Only a battery that discharges slows the cadence; it is low where a hundred times its charge is
/// not above twenty. The seconds between two ticks follow from that.
pub proof fn lemma_power_slows_the_cadence(b: BatteryReading)
    ensures
        interval_of(hint_of(None)) == 120,
        !(b.state is Discharging) ==> interval_of(hint_of(Some(b))) == 120,
        b.state is Discharging && !b.charge.is_nan() && 100 * b.charge.value()
            <= 20 * vstd::arithmetic::power2::pow2(149) ==> interval_of(hint_of(Some(b))) == 900,
        b.state is Discharging && (b.charge.is_nan() || 100 * b.charge.value()
            > 20 * vstd::arithmetic::power2::pow2(149)) ==> interval_of(hint_of(Some(b))) == 300,
{
}

/// The words that tell of a fault that tends to pass.
pub open spec fn tells_of_passing_fault(words: Seq<char>) -> bool {
    ||| words == "http 500"@
    ||| words == "http 502"@
    ||| words == "http 503"@
    ||| words == "http 504"@
    ||| words == "http 429"@
    ||| words == "connection reset"@
    ||| words == "connection refused"@
    ||| words == "timed out"@
    ||| words == "network is unreachable"@
    ||| words == "temporary failure in name resolution"@
}

/// An ASCII message that holds such words, in any case and with anything around them, tells of a
/// passing fault.
pub proof fn lemma_passing_fault_is_recognised(a: Seq<char>, words: Seq<char>, b: Seq<char>)
    requires
        text::ascii(a),
        text::ascii(words),
        text::ascii(b),
        tells_of_passing_fault(text::lowered(words)),
    ensures
        transient(a + words + b),
{
    let msg = a + words + b;
    assert(text::ascii(msg)) by {
        assert forall|i: int| 0 <= i < msg.len() implies (#[trigger] msg[i]) as u32 <= 127 by {
            if i < a.len() {
                assert(msg[i] == a[i]);
            } else if i < a.len() + words.len() {
                assert(msg[i] == words[i - a.len()]);
            } else {
                assert(msg[i] == b[i - a.len() - words.len()]);
            }
        }
    }
    assert(text::lowered(msg) =~= text::lowered(a) + text::lowered(words) + text::lowered(b));
    text::lemma_parts_are_found(text::lowered(a), text::lowered(words), text::lowered(b));
}

/// A message tells of a passing fault only where its lower-case form holds such words.
pub proof fn lemma_passing_fault_has_its_words(msg: Seq<char>)
    requires
        transient(msg),
    ensures
        exists|words: Seq<char>| #[trigger]
            tells_of_passing_fault(words) && text::has(text::lowercase_of(msg), words),
{
    let low = text::lowercase_of(msg);
    if text::has(low, "http 500"@) {
        assert(tells_of_passing_fault("http 500"@));
    } else if text::has(low, "http 502"@) {
        assert(tells_of_passing_fault("http 502"@));
    } else if text::has(low, "http 503"@) {
        assert(tells_of_passing_fault("http 503"@));
    } else if text::has(low, "http 504"@) {
        assert(tells_of_passing_fault("http 504"@));
    } else if text::has(low, "http 429"@) {
        assert(tells_of_passing_fault("http 429"@));
    } else if text::has(low, "connection reset"@) {
        assert(tells_of_passing_fault("connection reset"@));
    } else if text::has(low, "connection refused"@) {
        assert(tells_of_passing_fault("connection refused"@));
    } else if text::has(low, "timed out"@) {
        assert(tells_of_passing_fault("timed out"@));
    } else if text::has(low, "network is unreachable"@) {
        assert(tells_of_passing_fault("network is unreachable"@));
    } else if text::has(low, "temporary failure in name resolution"@) {
        assert(tells_of_passing_fault("temporary failure in name resolution"@));
    }
}

/// A message says that the device was turned down exactly where it names one of the two statuses, or
/// says so outright, as it is written.
pub proof fn lemma_refusal_has_its_words(a: Seq<char>, b: Seq<char>, msg: Seq<char>)
    ensures
        auth_failure(a + "HTTP 401"@ + b),
        auth_failure(a + "HTTP 403"@ + b),
        auth_failure(a + "Device not found or unauthorized"@ + b),
        auth_failure(msg) ==> text::has(msg, "HTTP 401"@) || text::has(msg, "HTTP 403"@)
            || text::has(msg, "Device not found or unauthorized"@),
{
    text::lemma_parts_are_found(a, "HTTP 401"@, b);
    text::lemma_parts_are_found(a, "HTTP 403"@, b);
    text::lemma_parts_are_found(a, "Device not found or unauthorized"@, b);
}

/// The background sync goes round: it warms up, looks at the flag, ticks, reads the power supply,
/// waits, and looks at the flag again.
pub proof fn lemma_loop_goes_round(l: SyncLoop, event: LoopEvent)
    ensures
        l.state is WarmUp && event is Slept ==> next(l, event).state is Gate,
        l.state is Gate && event == LoopEvent::Flag(false) ==> next(l, event).state is Tick,
        l.state is Tick && event == LoopEvent::Ticked(TickOutcome::Synced) ==> next(
            l,
            event,
        ).state is Power,
        l.state is Tick && event == LoopEvent::Ticked(TickOutcome::NotPaired) ==> next(
            l,
            event,
        ).state is Power && next(l, event).failures == l.failures,
        l.state is RetryPause && event is Slept ==> next(l, event).state is Gate,
        l.state is Notify && event is Notified ==> next(l, event).state is Power,
        l.state is Power && event == LoopEvent::Read(PowerHint::Plugged) ==> next(l, event).state
            == (LoopState::Idle { secs: 120 }),
        l.state is Power && event == LoopEvent::Read(PowerHint::OnBattery) ==> next(l, event).state
            == (LoopState::Idle { secs: 300 }),
        l.state is Power && event == LoopEvent::Read(PowerHint::LowBattery) ==> next(l, event).state
            == (LoopState::Idle { secs: 900 }),
        l.state is Idle && event is Waited && (event->outcome is Elapsed || event->outcome is Stopped
            || event->Waited_stop) ==> next(l, event).state is Gate,
        !(l.state is Tick) && !(l.state is Probe) ==> next(l, event).failures == l.failures
            && next(l, event).retried == l.retried,
{
}

/// A failure that is not tried again counts one more and carries its own words on: to the question
/// whether the device still stands, where the server turned it down; to the user, where it makes the
/// streak three. What was tried once in a cycle is not tried again in it.
pub proof fn lemma_failure_is_carried_on(l: SyncLoop, error: String)
    requires
        l.state is Tick,
        l.failures < u32::MAX,
        l.retried || !transient(error@),
    ensures
        ({
            let n = next(l, LoopEvent::Ticked(TickOutcome::Failed(error)));
            &&& n.failures == l.failures + 1
            &&& !n.retried
            &&& auth_failure(error@) ==> n.state == (LoopState::Probe { error })
            &&& !auth_failure(error@) && l.failures == 2 ==> n.state == (LoopState::Notify { error })
            &&& !auth_failure(error@) && l.failures != 2 ==> n.state is Power
        }),
{
}

/// Where the server still knows the device, or could not be asked, the failure stays counted and is
/// told of where it makes the streak three; where the pairing was cleared, the streak is over.
pub proof fn lemma_probe_settles_the_failure(l: SyncLoop, why: String)
    requires
        l.state is Probe,
    ensures
        next(l, LoopEvent::Probed(Ok(true))).state is Power,
        next(l, LoopEvent::Probed(Ok(true))).failures == 0,
        ({
            let (n, m) = (
                next(l, LoopEvent::Probed(Ok(false))),
                next(l, LoopEvent::Probed(Err(why))),
            );
            &&& n == m
            &&& n.failures == l.failures
            &&& l.failures == 3 ==> n.state == (LoopState::Notify { error: l.state->Probe_error })
            &&& l.failures != 3 ==> n.state is Power
        }),
{
}

/// A wait goes from the earlier signals to the flag and from the flag to idling, with the channel
/// open until it is closed.
pub proof fn lemma_wait_goes_on(open: bool)
    ensures
        wait_next(WaitStep::Drain, WaitEvent::Taken) == WaitStep::Drain,
        wait_next(WaitStep::Drain, WaitEvent::Empty) == WaitStep::Check,
        wait_next(WaitStep::Check, WaitEvent::Flag(false)) == (WaitStep::Idle { open: true }),
        wait_next(WaitStep::Idle { open }, WaitEvent::Closed) == (WaitStep::Idle { open: false }),
        wait_next(WaitStep::Idle { open: false }, WaitEvent::Signal) == (WaitStep::Idle {
            open: false,
        }),
{
}

/// The loop behind the menu goes round: it warms up for half a minute, looks at the flag, writes the
/// rows, pauses for two minutes and looks at the flag again.
pub proof fn lemma_tray_loop_goes_round(l: TrayLoop)
    ensures
        tray_next(TrayLoop::WarmUp, TrayEvent::Slept { stopped: false }) == TrayLoop::Gate,
        tray_next(TrayLoop::Gate, TrayEvent::Flag(false)) == TrayLoop::Apply,
        tray_next(TrayLoop::Apply, TrayEvent::Applied) == TrayLoop::Pause,
        tray_next(TrayLoop::Pause, TrayEvent::Slept { stopped: false }) == TrayLoop::Gate,
        sleep_of(TrayLoop::WarmUp) == 30,
        sleep_of(TrayLoop::Pause) == 120,
{
}

/// The time that is kept is the later of the one before and the new one, and one of the two.
pub proof fn lemma_later_time_is_kept(last: Moment, now: Moment)
    ensures
        now.total_nanos() >= last.total_nanos() ==> latest(Some(last), now) == Some(now),
        now.total_nanos() < last.total_nanos() ==> latest(Some(last), now) == Some(last),
        latest(None, now) == Some(now),
{
}

/// The age of a sync is less than a second off, zero where the clock went back, and none where there
/// was no sync.
pub proof fn lemma_age_of_a_sync(age: Option<u64>, last: Option<Moment>, now: Moment)
    requires
        is_age(age, last, now),
    ensures
        age is Some <==> last is Some,
        last matches Some(t) ==> {
            let passed = now.total_nanos() - t.total_nanos();
            &&& passed >= 0 ==> age->0 * 1_000_000_000 <= passed < (age->0 + 1) * 1_000_000_000
            &&& passed < 0 ==> age->0 == 0
        },
{
}

/// At its start the loop warms up, has counted no failure and has repeated no attempt.
pub proof fn lemma_loop_starts_afresh(l: SyncLoop)
    requires
        fresh(l),
    ensures
        l.state is WarmUp,
        l.failures == 0,
        !l.retried,
{
}

} // verus!
