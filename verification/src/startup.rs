//! The life of the app: what runs at its start, what a second launch does, and how it ends.

use crate::tray::WindowStep;
use vstd::prelude::*;

verus! {

/// Seconds that the remote agent is given to finish once the stop flag is up.
pub const DRAIN: u64 = 2;

/// Log files grow to this many bytes.
pub const LOG_FILE_MAX: u64 = 5_242_880;

/// The name of the log file.
pub const LOG_FILE: &'static str = "cli-pulse";

/// What was found of a pairing.
#[derive(Clone, Copy, Debug, PartialEq, Eq, Structural)]
pub enum Pairing {
    Paired,
    NotPaired,
    Unreadable,
}

/// Why the remote agent was not started.
#[derive(Clone, Copy, Debug, PartialEq, Eq, Structural)]
pub enum AgentOff {
    NotPaired,
    Unreadable,
    Recovery,
    SwitchedOff,
}

/// An extension of the window system.
#[derive(Clone, Copy, Debug, PartialEq, Eq, Structural)]
pub enum Plugin {
    SingleInstance,
    Log,
    Opener,
    Notification,
    Updater,
    Process,
}

/// A step in the life of the app.
#[derive(Clone, Copy, Debug, PartialEq, Eq, Structural)]
pub enum LifeStep {
    /// Note the launch in the crash history.
    RecordStartup,
    /// Read the crash history for a crash loop.
    AssessRecovery,
    /// Install the crash reporter.
    InstallReporter,
    /// Add an extension.
    AddPlugin(Plugin),
    /// Make the registry of local terminals.
    ManageTerminals,
    /// Choose where credentials are kept.
    InitCreds,
    /// Start the background sync.
    SpawnSync,
    /// Start the remote agent.
    SpawnAgent,
    /// Note why the remote agent stays off.
    AgentStaysOff(AgentOff),
    /// Install the tray menu.
    InstallTray,
    /// Start the loop that writes the menu's live rows.
    SpawnTrayLoop,
    /// Note in the crash history that the start was complete.
    RecordSetupComplete,
    /// Serve the user until the app is closed.
    Serve,
    /// Raise the stop flag.
    RaiseStop,
    /// Give the remote agent time to finish.
    Drain,
    /// Note the clean exit in the crash history.
    RecordCleanExit,
}

/// Why the remote agent stays off, if it does: it needs a pairing, and runs neither in recovery nor
/// where it is switched off.
pub open spec fn agent_off_reason(pairing: Pairing, recovery: bool, switched_off: bool) -> Option<AgentOff> {
    match pairing {
        Pairing::NotPaired => Some(AgentOff::NotPaired),
        Pairing::Unreadable => Some(AgentOff::Unreadable),
        Pairing::Paired => if recovery {
            Some(AgentOff::Recovery)
        } else if switched_off {
            Some(AgentOff::SwitchedOff)
        } else {
            None
        },
    }
}

/// The step that comes of the remote agent.
pub open spec fn agent_step_of(off: Option<AgentOff>) -> LifeStep {
    match off {
        Some(why) => LifeStep::AgentStaysOff(why),
        None => LifeStep::SpawnAgent,
    }
}

/// What the launch does before the window system is up, in order.
pub open spec fn launch() -> Seq<LifeStep> {
    seq![
        LifeStep::RecordStartup,
        LifeStep::AssessRecovery,
        LifeStep::InstallReporter,
        LifeStep::AddPlugin(Plugin::SingleInstance),
        LifeStep::AddPlugin(Plugin::Log),
        LifeStep::AddPlugin(Plugin::Opener),
        LifeStep::AddPlugin(Plugin::Notification),
        LifeStep::AddPlugin(Plugin::Updater),
        LifeStep::AddPlugin(Plugin::Process),
    ]
}

/// What the start does once the window system is up, until the tray menu was tried, in order.
pub open spec fn setup(pairing: Pairing, recovery: bool, switched_off: bool) -> Seq<LifeStep> {
    seq![
        LifeStep::ManageTerminals,
        LifeStep::InitCreds,
        LifeStep::SpawnSync,
        agent_step_of(agent_off_reason(pairing, recovery, switched_off)),
        LifeStep::InstallTray,
    ]
}

/// What the start does once the tray menu was tried, in order.
pub open spec fn setup_rest(recovery: bool, tray_installed: bool) -> Seq<LifeStep> {
    if !recovery && tray_installed {
        seq![LifeStep::SpawnTrayLoop, LifeStep::RecordSetupComplete]
    } else {
        seq![LifeStep::RecordSetupComplete]
    }
}

/// What remains once the start is complete, in order.
pub open spec fn service() -> Seq<LifeStep> {
    seq![LifeStep::Serve, LifeStep::RaiseStop, LifeStep::Drain, LifeStep::RecordCleanExit]
}

/// The whole life of the app.
pub open spec fn life(
    pairing: Pairing,
    recovery: bool,
    switched_off: bool,
    tray_installed: bool,
) -> Seq<LifeStep> {
    launch() + setup(pairing, recovery, switched_off) + setup_rest(recovery, tray_installed)
        + service()
}

/// What the launch does before the window system is up.
pub fn run() -> (r: Vec<LifeStep>)
    ensures
        r@ == launch(),
{
    let mut r: Vec<LifeStep> = Vec::new();
    r.push(LifeStep::RecordStartup);
    r.push(LifeStep::AssessRecovery);
    r.push(LifeStep::InstallReporter);
    r.push(LifeStep::AddPlugin(Plugin::SingleInstance));
    r.push(LifeStep::AddPlugin(Plugin::Log));
    r.push(LifeStep::AddPlugin(Plugin::Opener));
    r.push(LifeStep::AddPlugin(Plugin::Notification));
    r.push(LifeStep::AddPlugin(Plugin::Updater));
    r.push(LifeStep::AddPlugin(Plugin::Process));
    r
}

/// What the start does once the window system is up, until the tray menu was tried.
pub fn setup_steps(pairing: Pairing, recovery: bool, switched_off: bool) -> (r: Vec<LifeStep>)
    ensures
        r@ == setup(pairing, recovery, switched_off),
{
    let agent = match pairing {
        Pairing::NotPaired => LifeStep::AgentStaysOff(AgentOff::NotPaired),
        Pairing::Unreadable => LifeStep::AgentStaysOff(AgentOff::Unreadable),
        Pairing::Paired => {
            if recovery {
                LifeStep::AgentStaysOff(AgentOff::Recovery)
            } else if switched_off {
                LifeStep::AgentStaysOff(AgentOff::SwitchedOff)
            } else {
                LifeStep::SpawnAgent
            }
        },
    };
    let mut r: Vec<LifeStep> = Vec::new();
    r.push(LifeStep::ManageTerminals);
    r.push(LifeStep::InitCreds);
    r.push(LifeStep::SpawnSync);
    r.push(agent);
    r.push(LifeStep::InstallTray);
    r
}

/// What the start does once the tray menu was tried.
pub fn setup_rest_steps(recovery: bool, tray_installed: bool) -> (r: Vec<LifeStep>)
    ensures
        r@ == setup_rest(recovery, tray_installed),
{
    let mut r: Vec<LifeStep> = Vec::new();
    if !recovery && tray_installed {
        r.push(LifeStep::SpawnTrayLoop);
    }
    r.push(LifeStep::RecordSetupComplete);
    r
}

/// What remains once the start is complete.
pub fn service_steps() -> (r: Vec<LifeStep>)
    ensures
        r@ == service(),
{
    let mut r: Vec<LifeStep> = Vec::new();
    r.push(LifeStep::Serve);
    r.push(LifeStep::RaiseStop);
    r.push(LifeStep::Drain);
    r.push(LifeStep::RecordCleanExit);
    r
}

/// What a second launch does to the main window of the first, in order.
pub fn second_launch() -> (r: Vec<WindowStep>)
    ensures
        r@ == seq![WindowStep::Show, WindowStep::Unminimize, WindowStep::Focus],
{
    let mut r: Vec<WindowStep> = Vec::new();
    r.push(WindowStep::Show);
    r.push(WindowStep::Unminimize);
    r.push(WindowStep::Focus);
    r
}

/// Where log lines go.
#[derive(Clone, Copy, Debug, PartialEq, Eq, Structural)]
pub enum LogTarget {
    /// The log file in the system's log directory.
    LogDir,
    /// The standard output.
    Stdout,
}

/// Where log lines go, in order: the standard output may be closed in a released build, so only a
/// debug build writes to it.
pub fn log_targets(debug_build: bool) -> (r: Vec<LogTarget>)
    ensures
        debug_build ==> r@ == seq![LogTarget::LogDir, LogTarget::Stdout],
        !debug_build ==> r@ == seq![LogTarget::LogDir],
{
    let mut r: Vec<LogTarget> = Vec::new();
    r.push(LogTarget::LogDir);
    if debug_build {
        r.push(LogTarget::Stdout);
    }
    r
}

/// In recovery neither the remote agent nor the loop behind the menu runs; the crash reporter, the
/// background sync and the tray menu still do.
pub proof fn lemma_recovery_cuts_off(pairing: Pairing, switched_off: bool, tray_installed: bool)
    ensures
        ({
            let steps = life(pairing, true, switched_off, tray_installed);
            &&& !steps.contains(LifeStep::SpawnAgent)
            &&& !steps.contains(LifeStep::SpawnTrayLoop)
            &&& steps.contains(LifeStep::InstallReporter)
            &&& steps.contains(LifeStep::SpawnSync)
            &&& steps.contains(LifeStep::InstallTray)
        }),
{
    let steps = life(pairing, true, switched_off, tray_installed);
    assert(steps[2] == LifeStep::InstallReporter);
    assert(steps[11] == LifeStep::SpawnSync);
    assert(steps[13] == LifeStep::InstallTray);
}

/// The remote agent starts exactly where the device is paired, in no recovery, and not switched
/// off; the loop behind the menu exactly where there is a menu and no recovery.
pub proof fn lemma_what_starts(
    pairing: Pairing,
    recovery: bool,
    switched_off: bool,
    tray_installed: bool,
)
    ensures
        ({
            let steps = life(pairing, recovery, switched_off, tray_installed);
            &&& steps.contains(LifeStep::SpawnAgent) <==> pairing == Pairing::Paired && !recovery
                && !switched_off
            &&& steps.contains(LifeStep::SpawnTrayLoop) <==> !recovery && tray_installed
        }),
{
    let steps = life(pairing, recovery, switched_off, tray_installed);
    if pairing == Pairing::Paired && !recovery && !switched_off {
        assert(steps[12] == LifeStep::SpawnAgent);
    }
    if !recovery && tray_installed {
        assert(steps[14] == LifeStep::SpawnTrayLoop);
    }
}

/// The launch is noted before anything else, a complete start after everything that starts and
/// before the app serves, a clean exit last.
pub proof fn lemma_crash_history_brackets(
    pairing: Pairing,
    recovery: bool,
    switched_off: bool,
    tray_installed: bool,
)
    ensures
        ({
            let steps = life(pairing, recovery, switched_off, tray_installed);
            &&& steps[0] == LifeStep::RecordStartup
            &&& steps.last() == LifeStep::RecordCleanExit
            &&& steps[steps.len() - 5] == LifeStep::RecordSetupComplete
            &&& steps[steps.len() - 4] == LifeStep::Serve
            &&& forall|i: int|
                0 <= i < steps.len() && (#[trigger] steps[i] == LifeStep::SpawnSync || steps[i]
                    == LifeStep::SpawnAgent || steps[i] == LifeStep::InstallTray || steps[i]
                    == LifeStep::SpawnTrayLoop) ==> 0 < i < steps.len() - 5
        }),
{
}

/// The start goes in order: the crash history and the reporter before any extension, the single
/// instance before the others, the place of the credentials before the sync that reads them, and the
/// menu before its loop.
pub proof fn lemma_start_goes_in_order(
    pairing: Pairing,
    recovery: bool,
    switched_off: bool,
    tray_installed: bool,
)
    ensures
        ({
            let steps = life(pairing, recovery, switched_off, tray_installed);
            &&& steps[0] == LifeStep::RecordStartup
            &&& steps[1] == LifeStep::AssessRecovery
            &&& steps[2] == LifeStep::InstallReporter
            &&& steps[3] == LifeStep::AddPlugin(Plugin::SingleInstance)
            &&& steps[4] == LifeStep::AddPlugin(Plugin::Log)
            &&& steps[5] == LifeStep::AddPlugin(Plugin::Opener)
            &&& steps[6] == LifeStep::AddPlugin(Plugin::Notification)
            &&& steps[7] == LifeStep::AddPlugin(Plugin::Updater)
            &&& steps[8] == LifeStep::AddPlugin(Plugin::Process)
            &&& steps[9] == LifeStep::ManageTerminals
            &&& steps[10] == LifeStep::InitCreds
            &&& steps[11] == LifeStep::SpawnSync
            &&& steps[12] is SpawnAgent || steps[12] is AgentStaysOff
            &&& steps[13] == LifeStep::InstallTray
            &&& !recovery && tray_installed ==> steps[14] == LifeStep::SpawnTrayLoop && steps.len()
                == 20
            &&& recovery || !tray_installed ==> steps[14] == LifeStep::RecordSetupComplete
                && steps.len() == 19
        }),
{
}

/// The agent stays off for the first reason that holds: no pairing, one that cannot be read,
/// recovery, or the switch.
pub proof fn lemma_why_the_agent_stays_off(pairing: Pairing, recovery: bool, switched_off: bool)
    ensures
        ({
            let step = setup(pairing, recovery, switched_off)[3];
            &&& pairing is NotPaired ==> step == LifeStep::AgentStaysOff(AgentOff::NotPaired)
            &&& pairing is Unreadable ==> step == LifeStep::AgentStaysOff(AgentOff::Unreadable)
            &&& pairing is Paired && recovery ==> step == LifeStep::AgentStaysOff(AgentOff::Recovery)
            &&& pairing is Paired && !recovery && switched_off ==> step == LifeStep::AgentStaysOff(
                AgentOff::SwitchedOff,
            )
            &&& pairing is Paired && !recovery && !switched_off ==> step == LifeStep::SpawnAgent
        }),
{
}

/// The app ends in order: the stop flag goes up, the agent is given time, and the clean exit is noted
/// last.
pub proof fn lemma_end_goes_in_order(
    pairing: Pairing,
    recovery: bool,
    switched_off: bool,
    tray_installed: bool,
)
    ensures
        ({
            let steps = life(pairing, recovery, switched_off, tray_installed);
            &&& steps[steps.len() - 4] == LifeStep::Serve
            &&& steps[steps.len() - 3] == LifeStep::RaiseStop
            &&& steps[steps.len() - 2] == LifeStep::Drain
            &&& steps[steps.len() - 1] == LifeStep::RecordCleanExit
        }),
{
}

} // verus!
