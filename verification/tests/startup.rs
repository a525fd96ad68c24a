use cli_pulse::startup::{
    log_targets, run, second_launch, service_steps, setup_rest_steps, setup_steps, AgentOff,
    LifeStep, LogTarget, Pairing, Plugin, LOG_FILE_MAX,
};
use cli_pulse::tray::WindowStep;

#[test]
fn a_launch_is_noted_first() {
    let steps = run();
    assert_eq!(
        steps[..4],
        [
            LifeStep::RecordStartup,
            LifeStep::AssessRecovery,
            LifeStep::InstallReporter,
            LifeStep::AddPlugin(Plugin::SingleInstance),
        ]
    );
    assert_eq!(steps.len(), 9);
}

#[test]
fn a_paired_device_starts_its_agent() {
    assert_eq!(
        setup_steps(Pairing::Paired, false, false),
        vec![
            LifeStep::ManageTerminals,
            LifeStep::InitCreds,
            LifeStep::SpawnSync,
            LifeStep::SpawnAgent,
            LifeStep::InstallTray,
        ]
    );
}

#[test]
fn the_agent_stays_off_for_a_reason() {
    let agent = |p, r, k| setup_steps(p, r, k)[3];
    assert_eq!(
        agent(Pairing::NotPaired, false, false),
        LifeStep::AgentStaysOff(AgentOff::NotPaired)
    );
    assert_eq!(
        agent(Pairing::Unreadable, true, true),
        LifeStep::AgentStaysOff(AgentOff::Unreadable)
    );
    assert_eq!(agent(Pairing::Paired, true, true), LifeStep::AgentStaysOff(AgentOff::Recovery));
    assert_eq!(
        agent(Pairing::Paired, false, true),
        LifeStep::AgentStaysOff(AgentOff::SwitchedOff)
    );
}

#[test]
fn the_menu_is_kept_fresh_outside_recovery() {
    let fresh = vec![LifeStep::SpawnTrayLoop, LifeStep::RecordSetupComplete];
    let bare = vec![LifeStep::RecordSetupComplete];
    assert_eq!(setup_rest_steps(false, true), fresh);
    assert_eq!(setup_rest_steps(false, false), bare);
    assert_eq!(setup_rest_steps(true, true), bare);
}

#[test]
fn a_clean_exit_is_noted_last() {
    assert_eq!(
        service_steps(),
        vec![LifeStep::Serve, LifeStep::RaiseStop, LifeStep::Drain, LifeStep::RecordCleanExit]
    );
}

#[test]
fn a_second_launch_raises_the_first() {
    assert_eq!(
        second_launch(),
        vec![WindowStep::Show, WindowStep::Unminimize, WindowStep::Focus]
    );
}

#[test]
fn only_debug_builds_log_to_stdout() {
    assert_eq!(log_targets(false), vec![LogTarget::LogDir]);
    assert_eq!(log_targets(true), vec![LogTarget::LogDir, LogTarget::Stdout]);
    assert_eq!(LOG_FILE_MAX, 5 * 1024 * 1024);
}

#[test]
fn terminals_need_their_registry() {
    assert_eq!(cli_pulse::terminal::terminal_manager(Some(3)), Ok(3));
    assert_eq!(
        cli_pulse::terminal::terminal_manager::<u8>(None),
        Err("local terminal manager not initialised".to_string())
    );
    let env = cli_pulse::terminal::terminal_start();
    assert_eq!((env[0].name.as_str(), env[0].value.as_str()), ("TERM", "xterm-256color"));
}
