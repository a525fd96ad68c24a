use cli_pulse::clock::Moment;
use cli_pulse::number::Single;
use cli_pulse::sync::{
    adaptive_sync_interval, last_successful_sync_seconds_ago, looks_like_auth_failure,
    looks_like_transient_5xx, power_hint, power_hint_from, record_successful_sync,
    wait_for_next_tick, BatteryReading, BatteryState, LoopEvent, LoopState, PowerHint, SyncLoop,
    TickOutcome, TrayEvent, TrayLoop, WaitEvent, WaitOutcome, WaitStep, SYNC_INTERVAL,
};

#[test]
fn adaptive_sync_interval_backs_off_on_battery() {
    assert_eq!(adaptive_sync_interval(PowerHint::Plugged), SYNC_INTERVAL);
    assert_eq!(adaptive_sync_interval(PowerHint::Plugged), 120);
    assert_eq!(adaptive_sync_interval(PowerHint::OnBattery), 300);
    assert_eq!(adaptive_sync_interval(PowerHint::LowBattery), 900);
    // Cadence must be monotonically non-decreasing as power gets scarcer.
    assert!(
        adaptive_sync_interval(PowerHint::Plugged) <= adaptive_sync_interval(PowerHint::OnBattery)
    );
    assert!(
        adaptive_sync_interval(PowerHint::OnBattery)
            <= adaptive_sync_interval(PowerHint::LowBattery)
    );
}

#[test]
fn looks_like_transient_5xx_matches_common_shapes() {
    assert!(looks_like_transient_5xx(
        "Supabase HTTP 503: service temporarily unavailable"
    ));
    assert!(looks_like_transient_5xx("Anthropic API HTTP 502: bad gateway"));
    assert!(looks_like_transient_5xx("HTTP 504 Gateway Timeout from upstream"));
    assert!(looks_like_transient_5xx("HTTP 500 internal server error"));
    assert!(looks_like_transient_5xx(
        "HTTP 429: Too many requests, retry-after 5s"
    ));
    assert!(looks_like_transient_5xx("Connection reset by peer (os error 54)"));
    assert!(looks_like_transient_5xx("connection refused"));
    assert!(looks_like_transient_5xx("Operation timed out after 30 seconds"));
    assert!(looks_like_transient_5xx("Network is unreachable (os error 51)"));
    assert!(looks_like_transient_5xx("Temporary failure in name resolution"));
}

#[test]
fn looks_like_transient_5xx_rejects_4xx_and_local() {
    // 4xx is real, user-actionable — don't retry.
    assert!(!looks_like_transient_5xx("HTTP 401 Unauthorized"));
    assert!(!looks_like_transient_5xx("HTTP 403 Forbidden"));
    assert!(!looks_like_transient_5xx("HTTP 404 Not Found"));
    assert!(!looks_like_transient_5xx("Device not found or unauthorized"));
    // Local issues — JSON parse, file IO, panic — also not retried.
    assert!(!looks_like_transient_5xx(
        "JSON: key must be a string at line 1 column 3"
    ));
    assert!(!looks_like_transient_5xx(
        "atomic write to /Users/x/.gemini/oauth_creds.json failed"
    ));
    assert!(!looks_like_transient_5xx(
        "collector panicked: thread 'tokio-runtime-worker' panicked"
    ));
    // Generic non-error message must not match.
    assert!(!looks_like_transient_5xx(
        "background sync ok — 12 sessions, 0 alerts"
    ));
}

#[test]
fn the_case_of_a_message_does_not_matter() {
    let messages = [
        "HTTP 503: Service Unavailable",
        "Connection Reset by peer",
        "Temporary failure in name resolution",
        "HTTP 404 Not Found",
        "all is well",
    ];
    for m in messages {
        let expected = looks_like_transient_5xx(m);
        assert_eq!(looks_like_transient_5xx(&m.to_ascii_uppercase()), expected, "{m}");
        assert_eq!(looks_like_transient_5xx(&m.to_ascii_lowercase()), expected, "{m}");
    }
    assert!(looks_like_transient_5xx("TIMED OUT"));
    assert!(looks_like_transient_5xx("Délai: TIMED OUT"));
}

#[test]
fn auth_failures_are_recognised() {
    assert!(looks_like_auth_failure("Supabase HTTP 401: nope"));
    assert!(looks_like_auth_failure("Supabase HTTP 403: nope"));
    assert!(looks_like_auth_failure("x: Device not found or unauthorized [P0001]"));
    assert!(!looks_like_auth_failure("Supabase HTTP 500: nope"));
    assert!(!looks_like_auth_failure("http 401"));
}

fn reading(state: BatteryState, charge: f32) -> Option<BatteryReading> {
    Some(BatteryReading { state, charge: Single { bits: charge.to_bits() } })
}

#[test]
fn only_a_discharging_battery_slows_the_cadence() {
    assert_eq!(power_hint_from(None), PowerHint::Plugged);
    for s in [BatteryState::Charging, BatteryState::Full, BatteryState::Empty, BatteryState::Unknown] {
        assert_eq!(power_hint_from(reading(s, 0.01)), PowerHint::Plugged);
    }
    assert_eq!(power_hint_from(reading(BatteryState::Discharging, 0.5)), PowerHint::OnBattery);
    assert_eq!(power_hint_from(reading(BatteryState::Discharging, 0.19)), PowerHint::LowBattery);
}

#[test]
fn the_low_threshold_is_exact() {
    let charges = [
        0.0f32, -0.0, -1.0, 0.1, 0.199_999_99, 0.2, 0.200_000_02, 0.21, 1.0, f32::INFINITY,
        f32::NEG_INFINITY, f32::NAN, f32::MIN_POSITIVE, 1e-45,
    ];
    for c in charges {
        let low = f64::from(c) * 100.0 <= 20.0;
        let hint = power_hint_from(reading(BatteryState::Discharging, c));
        assert_eq!(hint == PowerHint::LowBattery, low, "{c}");
    }
    for bits in 0x3e4c_cc00u32..0x3e4c_cdffu32 {
        let c = f32::from_bits(bits);
        let low = f64::from(c) * 100.0 <= 20.0;
        let hint = power_hint_from(reading(BatteryState::Discharging, c));
        assert_eq!(hint == PowerHint::LowBattery, low, "{bits:x}");
    }
}

#[test]
fn this_machine_gives_a_hint() {
    let hint = power_hint();
    assert!([120, 300, 900].contains(&adaptive_sync_interval(hint)));
}

/// One wait on a clock of milliseconds: the first of the timer, the clicks and the stop flag, which
/// is looked at every hundred milliseconds.
fn wait(pending: usize, interval: u64, clicks: &[u64], stop_at: Option<u64>) -> (u64, WaitOutcome) {
    let mut step = WaitStep::Drain;
    for _ in 0..pending {
        step = wait_for_next_tick(step, WaitEvent::Taken);
    }
    step = wait_for_next_tick(step, WaitEvent::Empty);
    step = wait_for_next_tick(step, WaitEvent::Flag(stop_at == Some(0)));
    if let WaitStep::Over(outcome) = step {
        return (0, outcome);
    }
    let seen_at = stop_at.map(|t| t.div_ceil(100) * 100);
    for now in 0..=interval {
        let event = if seen_at == Some(now) {
            WaitEvent::Stop
        } else if clicks.contains(&now) {
            WaitEvent::Signal
        } else if now == interval {
            WaitEvent::Timer
        } else {
            continue;
        };
        step = wait_for_next_tick(step, event);
        if let WaitStep::Over(outcome) = step {
            return (now, outcome);
        }
    }
    unreachable!()
}

#[test]
fn drained_signal_does_not_interrupt_idle_sleep() {
    assert_eq!(wait(1, 120_000, &[], None), (120_000, WaitOutcome::Elapsed));
}

#[test]
fn signal_during_idle_window_wakes_sleep_early() {
    assert_eq!(wait(0, 120_000, &[30_000], None), (30_000, WaitOutcome::Reset));
}

#[test]
fn stop_signal_during_idle_returns_stopped_promptly() {
    let (elapsed, outcome) = wait(0, 120_000, &[], Some(30_000));
    assert_eq!(outcome, WaitOutcome::Stopped);
    assert!((30_000..=30_150).contains(&elapsed), "{elapsed}");
}

#[test]
fn stop_already_set_at_entry_returns_stopped_immediately() {
    let (elapsed, outcome) = wait(0, 120_000, &[], Some(0));
    assert_eq!(outcome, WaitOutcome::Stopped);
    assert!(elapsed < 50, "{elapsed}");
}

#[test]
fn a_closed_channel_keeps_waiting() {
    let idle = WaitStep::Idle { open: true };
    let deaf = wait_for_next_tick(idle, WaitEvent::Closed);
    assert_eq!(deaf, WaitStep::Idle { open: false });
    assert_eq!(wait_for_next_tick(deaf, WaitEvent::Signal), deaf);
    assert_eq!(wait_for_next_tick(deaf, WaitEvent::Timer), WaitStep::Over(WaitOutcome::Elapsed));
    assert_eq!(wait_for_next_tick(deaf, WaitEvent::Stop), WaitStep::Over(WaitOutcome::Stopped));
}

#[test]
fn earlier_signals_never_end_a_wait() {
    for pending in [0, 1, 2, 7] {
        assert_eq!(wait(pending, 500, &[], None), (500, WaitOutcome::Elapsed));
        assert_eq!(wait(pending, 500, &[200], None), (200, WaitOutcome::Reset));
        assert_eq!(wait(pending, 500, &[200], Some(150)), (200, WaitOutcome::Stopped));
    }
    assert_eq!(wait_for_next_tick(WaitStep::Drain, WaitEvent::Signal), WaitStep::Drain);
    let over = WaitStep::Over(WaitOutcome::Reset);
    assert_eq!(wait_for_next_tick(over, WaitEvent::Timer), over);
}

fn ticked(l: SyncLoop, outcome: TickOutcome) -> SyncLoop {
    assert!(matches!(l.state, LoopState::Tick));
    l.step(LoopEvent::Ticked(outcome))
}

fn failed(e: &str) -> TickOutcome {
    TickOutcome::Failed(e.into())
}

fn at_tick() -> SyncLoop {
    SyncLoop::start().step(LoopEvent::Slept).step(LoopEvent::Flag(false))
}

/// From the power reading through a full wait to the next tick.
fn to_next_tick(l: SyncLoop) -> SyncLoop {
    assert!(matches!(l.state, LoopState::Power));
    l.step(LoopEvent::Read(PowerHint::Plugged))
        .step(LoopEvent::Waited { outcome: WaitOutcome::Elapsed, stop: false })
        .step(LoopEvent::Flag(false))
}

#[test]
fn manual_refresh_does_not_cause_extra_tick() {
    let interval = 120_000;
    let mut clock = 0u64;
    let mut ticks = vec![];
    let mut l = SyncLoop { state: LoopState::Gate, failures: 0, retried: false };
    let clicks = [60_000u64];
    while ticks.len() < 2 {
        l = match l.state {
            LoopState::Gate => l.step(LoopEvent::Flag(false)),
            LoopState::Tick => {
                ticks.push(clock);
                l.step(LoopEvent::Ticked(TickOutcome::Synced))
            }
            LoopState::Power => l.step(LoopEvent::Read(PowerHint::Plugged)),
            LoopState::Idle { secs } => {
                assert_eq!(secs * 1000, interval);
                let ahead: Vec<u64> =
                    clicks.iter().filter(|c| **c > clock).map(|c| c - clock).collect();
                let (passed, outcome) = wait(0, interval, &ahead, None);
                clock += passed;
                l.step(LoopEvent::Waited { outcome, stop: false })
            }
            _ => unreachable!(),
        };
    }
    assert_eq!(ticks, vec![0, 60_000 + interval]);
    let done = l.step(LoopEvent::Read(PowerHint::Plugged))
        .step(LoopEvent::Waited { outcome: WaitOutcome::Stopped, stop: true })
        .step(LoopEvent::Flag(true));
    assert!(matches!(done.state, LoopState::Done), "loop task should exit cleanly");
}

#[test]
fn a_transient_failure_is_tried_once_more() {
    let l = ticked(at_tick(), failed("HTTP 503"));
    assert!(matches!(l.state, LoopState::RetryPause));
    assert_eq!((l.failures, l.retried), (0, true));
    let l = l.step(LoopEvent::Slept).step(LoopEvent::Flag(false));
    let l = ticked(l, failed("HTTP 503"));
    assert!(matches!(l.state, LoopState::Power));
    assert_eq!((l.failures, l.retried), (1, false));
}

#[test]
fn the_third_failure_in_a_row_is_told() {
    let mut l = at_tick();
    for n in 1..=4u32 {
        l = ticked(l, failed("disk full"));
        assert_eq!(l.failures, n);
        if n == 3 {
            match &l.state {
                LoopState::Notify { error } => assert_eq!(error, "disk full"),
                _ => panic!("not told"),
            }
            l = l.step(LoopEvent::Notified);
        }
        l = to_next_tick(l);
    }
    let l = ticked(l, TickOutcome::Synced);
    assert_eq!(l.failures, 0);
}

#[test]
fn an_unpaired_tick_keeps_the_streak() {
    let l = ticked(at_tick(), failed("x"));
    let l = ticked(to_next_tick(l), TickOutcome::NotPaired);
    assert_eq!(l.failures, 1);
}

#[test]
fn a_refused_device_is_asked_about() {
    let l = ticked(at_tick(), failed("Supabase HTTP 401: x"));
    assert!(matches!(l.state, LoopState::Probe { .. }));
    assert_eq!(l.failures, 1);
    let cleared = l.step(LoopEvent::Probed(Ok(true)));
    assert!(matches!(cleared.state, LoopState::Power));
    assert_eq!(cleared.failures, 0);

    let two = SyncLoop { state: LoopState::Tick, failures: 2, retried: false };
    let l = two.step(LoopEvent::Ticked(failed("Supabase HTTP 403: x")));
    let l = l.step(LoopEvent::Probed(Err("offline".into())));
    assert!(matches!(l.state, LoopState::Notify { .. }));
    assert_eq!(l.failures, 3);
}

#[test]
fn a_stop_ends_the_loop() {
    let l = SyncLoop::start().step(LoopEvent::Slept).step(LoopEvent::Flag(true));
    assert!(matches!(l.state, LoopState::Done));
    let l = l.step(LoopEvent::Slept).step(LoopEvent::Flag(false));
    assert!(matches!(l.state, LoopState::Done));
    let reset_while_stopping = SyncLoop {
        state: LoopState::Idle { secs: 120 },
        failures: 0,
        retried: false,
    }
    .step(LoopEvent::Waited { outcome: WaitOutcome::Reset, stop: true });
    assert!(matches!(reset_while_stopping.state, LoopState::Gate));
}

#[test]
fn an_unexpected_event_changes_nothing() {
    let l = SyncLoop::start().step(LoopEvent::Notified);
    assert!(matches!(l.state, LoopState::WarmUp));
}

#[test]
fn the_tray_loop_writes_until_stopped() {
    let l = TrayLoop::WarmUp;
    assert_eq!(l.sleep_secs(), 30);
    let l = l.step(TrayEvent::Slept { stopped: false }).step(TrayEvent::Flag(false));
    assert_eq!(l, TrayLoop::Apply);
    let l = l.step(TrayEvent::Applied);
    assert_eq!((l, l.sleep_secs()), (TrayLoop::Pause, 120));
    assert_eq!(l.step(TrayEvent::Slept { stopped: true }), TrayLoop::Done);
    assert_eq!(TrayLoop::WarmUp.step(TrayEvent::Slept { stopped: true }), TrayLoop::Done);
    assert_eq!(TrayLoop::Gate.step(TrayEvent::Flag(true)), TrayLoop::Done);
    assert_eq!(TrayLoop::Done.step(TrayEvent::Applied), TrayLoop::Done);
}

#[test]
fn the_age_of_a_sync_is_told() {
    let mut last = None;
    let now = Moment { secs: 1000, nanos: 500 };
    assert_eq!(last_successful_sync_seconds_ago(&last, &now), None);
    record_successful_sync(&mut last, Moment { secs: 990, nanos: 600 });
    assert_eq!(last_successful_sync_seconds_ago(&last, &now), Some(9));
    record_successful_sync(&mut last, Moment { secs: 2000, nanos: 0 });
    assert_eq!(last_successful_sync_seconds_ago(&last, &now), Some(0));
}

#[test]
fn a_clock_that_goes_back_takes_no_sync_back() {
    let kept = Moment { secs: 2000, nanos: 5 };
    let mut last = Some(kept);
    record_successful_sync(&mut last, Moment { secs: 1999, nanos: 999 });
    assert_eq!(last, Some(kept));
    record_successful_sync(&mut last, Moment { secs: 2000, nanos: 4 });
    assert_eq!(last, Some(kept));
    let later = Moment { secs: 2000, nanos: 6 };
    record_successful_sync(&mut last, later);
    assert_eq!(last, Some(later));
}
