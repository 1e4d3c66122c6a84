//! The launcher's session as a state machine: from the command line to the
//! exit code, through either one `check` or a served MCP session.
//!
//! The program around the library performs each [`Action`] and answers with
//! the [`Event`] it produced; [`step`] decides what comes next.

use crate::command::{CheckCommand, Launch};
use crate::payload::{is_incomplete, leaves_work_open};
use vstd::prelude::*;

verus! {

/// Seconds the runtime is given to wind down after the session has exited:
/// the blocking thread that reads stdin never returns on its own, so an
/// unbounded shutdown would wait for it forever.
pub const RUNTIME_SHUTDOWN_SECS: u64 = 2;

/// How loudly a notice is reported.
#[derive(Clone, Copy, Debug, PartialEq, Eq)]
pub enum Severity {
    Info,
    Warning,
    Error,
}

/// Something the session reports while it runs.
#[derive(Clone, Debug, PartialEq, Eq)]
pub enum Notice {
    /// `--socket` was given with this value, which is ignored.
    DeprecatedSocket(String),
    /// The server is starting; Frama-C is spawned on first use, not now.
    ServerStarting,
    /// The server serves MCP on stdio.
    ServerRunning,
    /// The service stopped, for the reason it gave.
    ServiceExited(String),
    /// The service stopped with this error.
    ServiceFailed(String),
}

/// Why the launcher exits with a failure.
#[derive(Clone, Debug, PartialEq, Eq)]
pub enum ExitError {
    /// A shutdown signal arrived before the check finished.
    Interrupted,
    /// The check failed, with its message.
    CheckFailed(String),
    /// The payload could not be written out, with the reason.
    Output(String),
    /// `--require-complete` was given and the payload lists open work.
    CheckIncomplete,
    /// The MCP service could not be started, with the reason.
    ServiceStart(String),
}

/// Where the session stands.
#[derive(Clone, Debug, PartialEq, Eq)]
pub enum Phase {
    /// Nothing has happened yet.
    Start,
    /// The socket notice is out; the launch goes on from here.
    Dispatching { launch: Launch },
    /// The check runs, raced against a shutdown signal.
    Checking { require_complete: bool },
    /// The check's payload is being written out.
    Printing { require_complete: bool, incomplete: Option<usize> },
    /// The start notice is out; the service comes next.
    Announcing { frama_c: String, max_sandboxes: usize },
    /// The service is being started.
    Starting,
    /// The running notice is out; the wait comes next.
    Running,
    /// The service serves until it stops.
    Serving,
    /// The service's end has been reported; the drain comes next.
    Stopped,
    /// The live sandboxes are being killed.
    DrainingSandboxes,
    /// The main Frama-C instance is being killed.
    DrainingMain,
    /// The session has exited.
    Finished,
}

/// What the program around the library reports back.
#[derive(Clone, Debug, PartialEq, Eq)]
pub enum Event {
    /// The command line was read.
    Launched(Launch),
    /// The notice asked for was reported.
    Notified,
    /// A shutdown signal ended the check first.
    CheckInterrupted,
    /// The check failed with this message.
    CheckFailed(String),
    /// The check returned a payload with this many `incomplete` entries
    /// (`None` when it has no such list).
    CheckReturned { incomplete: Option<usize> },
    /// The payload was written out.
    Printed,
    /// The payload could not be written out.
    PrintFailed(String),
    /// The service is up on stdio.
    ServiceStarted,
    /// The service could not be started.
    ServiceStartFailed(String),
    /// The service stopped, for this reason.
    ServiceStopped(String),
    /// The service stopped with this error.
    ServiceFailed(String),
    /// Every live sandbox was killed, by process group.
    SandboxesKilled,
    /// The main Frama-C instance was killed, with the provers it started.
    MainKilled,
}

/// What the program around the library is to do next.
#[derive(Debug, PartialEq, Eq)]
pub enum Action {
    /// Report a notice, at [`notice_severity`].
    Notify(Notice),
    /// Run `check` for this command, racing it against a shutdown signal.
    RunCheck { frama_c: String, max_sandboxes: usize, command: CheckCommand },
    /// Write the check's payload to standard output.
    PrintPayload,
    /// Start the MCP service on stdio, with Frama-C spawned lazily.
    StartService { frama_c: String, max_sandboxes: usize },
    /// Cancel the service on a shutdown signal, and wait for it to stop.
    AwaitService,
    /// Kill every live sandbox by process group.
    KillSandboxes,
    /// Kill the main Frama-C instance and the provers it started.
    KillMain,
    /// Exit with this outcome.
    Exit(Result<(), ExitError>),
}

/// The next phase and the action that leads there.
#[derive(Debug, PartialEq, Eq)]
pub struct Transition {
    pub phase: Phase,
    pub action: Action,
}

/// The severity each notice is reported at: the ignored socket and a service
/// that stopped with an error are warnings, the rest is information.
pub open spec fn notice_severity(notice: Notice) -> Severity {
    match notice {
        Notice::DeprecatedSocket(_) => Severity::Warning,
        Notice::ServiceFailed(_) => Severity::Warning,
        _ => Severity::Info,
    }
}

/// The severity `notice` is reported at.
pub fn severity(notice: &Notice) -> (level: Severity)
    ensures
        level == notice_severity(*notice),
        notice is DeprecatedSocket || notice is ServiceFailed ==> level == Severity::Warning,
        notice is ServerStarting || notice is ServerRunning || notice is ServiceExited ==> level == Severity::Info,
{
    match notice {
        Notice::DeprecatedSocket(_) => Severity::Warning,
        Notice::ServiceFailed(_) => Severity::Warning,
        _ => Severity::Info,
    }
}

/// The outcome of a check that returned its payload and had it written out:
/// a failure exactly when completeness was required and the payload lists
/// open work.
pub open spec fn check_outcome(require_complete: bool, incomplete: Option<usize>) -> Result<(), ExitError> {
    if require_complete && leaves_work_open(incomplete) {
        Err(ExitError::CheckIncomplete)
    } else {
        Ok(())
    }
}

/// The outcome of a check that returned its payload with `incomplete`
/// entries, once the payload is written out.
pub fn check_verdict(require_complete: bool, incomplete: Option<usize>) -> (outcome: Result<(), ExitError>)
    ensures
        outcome == check_outcome(require_complete, incomplete),
        outcome is Err <==> require_complete && leaves_work_open(incomplete),
        outcome is Err <==> require_complete && incomplete is Some && incomplete.unwrap() != 0,
        outcome is Err ==> outcome == Err::<(), ExitError>(ExitError::CheckIncomplete),
{
    if require_complete && is_incomplete(incomplete) {
        Err(ExitError::CheckIncomplete)
    } else {
        Ok(())
    }
}

/// Where a launch goes once any socket notice is out: a `check` command runs
/// the check; no command announces the server.
pub open spec fn dispatch(launch: Launch) -> Transition {
    match launch.command {
        Some(command) => Transition {
            phase: Phase::Checking { require_complete: command.require_complete },
            action: Action::RunCheck {
                frama_c: launch.frama_c,
                max_sandboxes: launch.max_sandboxes,
                command,
            },
        },
        None => Transition {
            phase: Phase::Announcing { frama_c: launch.frama_c, max_sandboxes: launch.max_sandboxes },
            action: Action::Notify(Notice::ServerStarting),
        },
    }
}

/// The session's transition table; `None` for an event the phase does not
/// wait for.
pub open spec fn transition(phase: Phase, event: Event) -> Option<Transition> {
    match phase {
        Phase::Start => match event {
            Event::Launched(launch) => Some(
                match launch.socket {
                    Some(socket) => Transition {
                        phase: Phase::Dispatching { launch },
                        action: Action::Notify(Notice::DeprecatedSocket(socket)),
                    },
                    None => dispatch(launch),
                },
            ),
            _ => None,
        },
        Phase::Dispatching { launch } => match event {
            Event::Notified => Some(dispatch(launch)),
            _ => None,
        },
        Phase::Checking { require_complete } => match event {
            Event::CheckInterrupted => Some(
                Transition { phase: Phase::Finished, action: Action::Exit(Err(ExitError::Interrupted)) },
            ),
            Event::CheckFailed(message) => Some(
                Transition {
                    phase: Phase::Finished,
                    action: Action::Exit(Err(ExitError::CheckFailed(message))),
                },
            ),
            Event::CheckReturned { incomplete } => Some(
                Transition {
                    phase: Phase::Printing { require_complete, incomplete },
                    action: Action::PrintPayload,
                },
            ),
            _ => None,
        },
        Phase::Printing { require_complete, incomplete } => match event {
            Event::Printed => Some(
                Transition {
                    phase: Phase::Finished,
                    action: Action::Exit(check_outcome(require_complete, incomplete)),
                },
            ),
            Event::PrintFailed(reason) => Some(
                Transition { phase: Phase::Finished, action: Action::Exit(Err(ExitError::Output(reason))) },
            ),
            _ => None,
        },
        Phase::Announcing { frama_c, max_sandboxes } => match event {
            Event::Notified => Some(
                Transition { phase: Phase::Starting, action: Action::StartService { frama_c, max_sandboxes } },
            ),
            _ => None,
        },
        Phase::Starting => match event {
            Event::ServiceStarted => Some(
                Transition { phase: Phase::Running, action: Action::Notify(Notice::ServerRunning) },
            ),
            Event::ServiceStartFailed(reason) => Some(
                Transition {
                    phase: Phase::Finished,
                    action: Action::Exit(Err(ExitError::ServiceStart(reason))),
                },
            ),
            _ => None,
        },
        Phase::Running => match event {
            Event::Notified => Some(Transition { phase: Phase::Serving, action: Action::AwaitService }),
            _ => None,
        },
        Phase::Serving => match event {
            Event::ServiceStopped(reason) => Some(
                Transition { phase: Phase::Stopped, action: Action::Notify(Notice::ServiceExited(reason)) },
            ),
            Event::ServiceFailed(error) => Some(
                Transition { phase: Phase::Stopped, action: Action::Notify(Notice::ServiceFailed(error)) },
            ),
            _ => None,
        },
        Phase::Stopped => match event {
            Event::Notified => Some(
                Transition { phase: Phase::DrainingSandboxes, action: Action::KillSandboxes },
            ),
            _ => None,
        },
        Phase::DrainingSandboxes => match event {
            Event::SandboxesKilled => Some(
                Transition { phase: Phase::DrainingMain, action: Action::KillMain },
            ),
            _ => None,
        },
        Phase::DrainingMain => match event {
            Event::MainKilled => Some(
                Transition { phase: Phase::Finished, action: Action::Exit(Ok(())) },
            ),
            _ => None,
        },
        Phase::Finished => None,
    }
}

fn dispatch_launch(launch: Launch) -> (next: Transition)
    ensures
        next == dispatch(launch),
{
    match launch.command {
        Some(command) => {
            let require_complete = command.require_complete;
            Transition {
                phase: Phase::Checking { require_complete },
                action: Action::RunCheck {
                    frama_c: launch.frama_c,
                    max_sandboxes: launch.max_sandboxes,
                    command,
                },
            }
        },
        None => Transition {
            phase: Phase::Announcing { frama_c: launch.frama_c, max_sandboxes: launch.max_sandboxes },
            action: Action::Notify(Notice::ServerStarting),
        },
    }
}

/// The session's next phase and action after `event` in `phase`, or `None`
/// when `phase` does not wait for `event`.
pub fn step(phase: Phase, event: Event) -> (next: Option<Transition>)
    ensures
        next == transition(phase, event),
{
    match phase {
        Phase::Start => match event {
            Event::Launched(launch) => {
                let socket = launch.socket.clone();
                match socket {
                    Some(socket) => Some(
                        Transition {
                            phase: Phase::Dispatching { launch },
                            action: Action::Notify(Notice::DeprecatedSocket(socket)),
                        },
                    ),
                    None => Some(dispatch_launch(launch)),
                }
            },
            _ => None,
        },
        Phase::Dispatching { launch } => match event {
            Event::Notified => Some(dispatch_launch(launch)),
            _ => None,
        },
        Phase::Checking { require_complete } => match event {
            Event::CheckInterrupted => Some(
                Transition { phase: Phase::Finished, action: Action::Exit(Err(ExitError::Interrupted)) },
            ),
            Event::CheckFailed(message) => Some(
                Transition {
                    phase: Phase::Finished,
                    action: Action::Exit(Err(ExitError::CheckFailed(message))),
                },
            ),
            Event::CheckReturned { incomplete } => Some(
                Transition {
                    phase: Phase::Printing { require_complete, incomplete },
                    action: Action::PrintPayload,
                },
            ),
            _ => None,
        },
        Phase::Printing { require_complete, incomplete } => match event {
            Event::Printed => Some(
                Transition {
                    phase: Phase::Finished,
                    action: Action::Exit(check_verdict(require_complete, incomplete)),
                },
            ),
            Event::PrintFailed(reason) => Some(
                Transition { phase: Phase::Finished, action: Action::Exit(Err(ExitError::Output(reason))) },
            ),
            _ => None,
        },
        Phase::Announcing { frama_c, max_sandboxes } => match event {
            Event::Notified => Some(
                Transition { phase: Phase::Starting, action: Action::StartService { frama_c, max_sandboxes } },
            ),
            _ => None,
        },
        Phase::Starting => match event {
            Event::ServiceStarted => Some(
                Transition { phase: Phase::Running, action: Action::Notify(Notice::ServerRunning) },
            ),
            Event::ServiceStartFailed(reason) => Some(
                Transition {
                    phase: Phase::Finished,
                    action: Action::Exit(Err(ExitError::ServiceStart(reason))),
                },
            ),
            _ => None,
        },
        Phase::Running => match event {
            Event::Notified => Some(Transition { phase: Phase::Serving, action: Action::AwaitService }),
            _ => None,
        },
        Phase::Serving => match event {
            Event::ServiceStopped(reason) => Some(
                Transition { phase: Phase::Stopped, action: Action::Notify(Notice::ServiceExited(reason)) },
            ),
            Event::ServiceFailed(error) => Some(
                Transition { phase: Phase::Stopped, action: Action::Notify(Notice::ServiceFailed(error)) },
            ),
            _ => None,
        },
        Phase::Stopped => match event {
            Event::Notified => Some(
                Transition { phase: Phase::DrainingSandboxes, action: Action::KillSandboxes },
            ),
            _ => None,
        },
        Phase::DrainingSandboxes => match event {
            Event::SandboxesKilled => Some(
                Transition { phase: Phase::DrainingMain, action: Action::KillMain },
            ),
            _ => None,
        },
        Phase::DrainingMain => match event {
            Event::MainKilled => Some(
                Transition { phase: Phase::Finished, action: Action::Exit(Ok(())) },
            ),
            _ => None,
        },
        Phase::Finished => None,
    }
}


/// The phase reached and the actions taken when the events arrive one by one
/// from `phase`; `None` when one of them is not waited for.
pub open spec fn replay(phase: Phase, events: Seq<Event>) -> Option<(Phase, Seq<Action>)>
    decreases events.len(),
{
    if events.len() == 0 {
        Some((phase, Seq::empty()))
    } else {
        match transition(phase, events[0]) {
            None => None,
            Some(next) => match replay(next.phase, events.drop_first()) {
                None => None,
                Some((last, actions)) => Some((last, seq![next.action] + actions)),
            },
        }
    }
}

/// The events that open a session: the command line, then the report of the
/// socket notice when `--socket` was given.
pub open spec fn opening(launch: Launch) -> Seq<Event> {
    if launch.socket is Some {
        seq![Event::Launched(launch), Event::Notified]
    } else {
        seq![Event::Launched(launch)]
    }
}

/// The same command line without `--socket`.
pub open spec fn without_socket(launch: Launch) -> Launch {
    Launch { socket: None, ..launch }
}

/// Replaying one event and then the rest.
proof fn lemma_replay_first(phase: Phase, first: Event, rest: Seq<Event>)
    ensures
        replay(phase, seq![first] + rest) == match transition(phase, first) {
            None => None,
            Some(next) => match replay(next.phase, rest) {
                None => None,
                Some((last, actions)) => Some((last, seq![next.action] + actions)),
            },
        },
{
    assert((seq![first] + rest).drop_first() =~= rest);
    assert((seq![first] + rest)[0] == first);
}

/// Replaying the opening of a launch: the socket notice, if any, then the
/// launch's dispatch.
proof fn lemma_replay_opening(launch: Launch, rest: Seq<Event>)
    ensures
        replay(Phase::Start, opening(launch) + rest) == match replay(dispatch(launch).phase, rest) {
            None => None,
            Some((last, actions)) => Some(
                (
                    last,
                    match launch.socket {
                        Some(socket) => seq![Action::Notify(Notice::DeprecatedSocket(socket))],
                        None => Seq::<Action>::empty(),
                    } + seq![dispatch(launch).action] + actions,
                ),
            ),
        },
{
    match launch.socket {
        Some(socket) => {
            assert(opening(launch) + rest =~= seq![Event::Launched(launch)] + (seq![Event::Notified] + rest));
            lemma_replay_first(Phase::Start, Event::Launched(launch), seq![Event::Notified] + rest);
            lemma_replay_first(Phase::Dispatching { launch }, Event::Notified, rest);
            match replay(dispatch(launch).phase, rest) {
                None => {},
                Some((last, actions)) => {
                    assert(seq![Action::Notify(Notice::DeprecatedSocket(socket))] + (seq![dispatch(launch).action] + actions)
                        =~= seq![Action::Notify(Notice::DeprecatedSocket(socket))] + seq![dispatch(launch).action] + actions);
                },
            }
        },
        None => {
            lemma_replay_first(Phase::Start, Event::Launched(launch), rest);
            match replay(dispatch(launch).phase, rest) {
                None => {},
                Some((last, actions)) => {
                    assert(Seq::<Action>::empty() + seq![dispatch(launch).action] + actions
                        =~= seq![dispatch(launch).action] + actions);
                },
            }
        },
    }
}

/// A check that returned its payload and had it written out ends the session
/// with [`check_outcome`]: a failure exactly when `--require-complete` was
/// given and the payload lists open work. The check ran with the command as
/// given, and the payload was written before the exit.
pub proof fn law_check_exit_follows_the_payload(launch: Launch, incomplete: Option<usize>)
    requires
        launch.command is Some,
    ensures
        replay(Phase::Start, opening(launch) + seq![Event::CheckReturned { incomplete }, Event::Printed])
            matches Some((last, actions)) && {
            let command = launch.command.unwrap();
            &&& last == Phase::Finished
            &&& actions.len() >= 3
            &&& actions[actions.len() - 3] == Action::RunCheck {
                frama_c: launch.frama_c,
                max_sandboxes: launch.max_sandboxes,
                command,
            }
            &&& actions[actions.len() - 2] == Action::PrintPayload
            &&& actions[actions.len() - 1] == Action::Exit(check_outcome(command.require_complete, incomplete))
        },
{
    reveal_with_fuel(replay, 3);
    let rest = seq![Event::CheckReturned { incomplete }, Event::Printed];
    lemma_replay_opening(launch, rest);
    lemma_replay_first(dispatch(launch).phase, Event::CheckReturned { incomplete }, seq![Event::Printed]);
}

/// A shutdown signal during the check ends the session as interrupted, and
/// nothing is written out.
pub proof fn law_interrupted_check_prints_nothing(launch: Launch)
    requires
        launch.command is Some,
    ensures
        replay(Phase::Start, opening(launch) + seq![Event::CheckInterrupted]) matches Some((last, actions))
            && last == Phase::Finished
            && actions.last() == Action::Exit(Err(ExitError::Interrupted))
            && forall|i: int| 0 <= i < actions.len() ==> actions[i] != Action::PrintPayload,
{
    reveal_with_fuel(replay, 2);
    lemma_replay_opening(launch, seq![Event::CheckInterrupted]);
}

/// A check that failed ends the session with its message, and nothing is
/// written out.
pub proof fn law_failed_check_reports_its_error(launch: Launch, message: String)
    requires
        launch.command is Some,
    ensures
        replay(Phase::Start, opening(launch) + seq![Event::CheckFailed(message)]) matches Some((last, actions))
            && last == Phase::Finished
            && actions.last() == Action::Exit(Err(ExitError::CheckFailed(message)))
            && forall|i: int| 0 <= i < actions.len() ==> actions[i] != Action::PrintPayload,
{
    reveal_with_fuel(replay, 2);
    lemma_replay_opening(launch, seq![Event::CheckFailed(message)]);
}

/// A payload that cannot be written out fails the session with that reason,
/// whether or not completeness was required and whatever the payload lists.
pub proof fn law_output_failure_wins(launch: Launch, incomplete: Option<usize>, reason: String)
    requires
        launch.command is Some,
    ensures
        replay(Phase::Start, opening(launch) + seq![Event::CheckReturned { incomplete }, Event::PrintFailed(reason)])
            matches Some((last, actions))
            && last == Phase::Finished
            && actions.last() == Action::Exit(Err(ExitError::Output(reason))),
{
    reveal_with_fuel(replay, 3);
    let rest = seq![Event::CheckReturned { incomplete }, Event::PrintFailed(reason)];
    lemma_replay_opening(launch, rest);
    lemma_replay_first(dispatch(launch).phase, Event::CheckReturned { incomplete }, seq![Event::PrintFailed(reason)]);
}

/// A served session, once its service has stopped for whatever reason, kills
/// the live sandboxes, then the main instance, and only then exits, with
/// success.
pub proof fn law_served_session_drains_before_exit(launch: Launch, end: Event)
    requires
        launch.command is None,
        end is ServiceStopped || end is ServiceFailed,
    ensures
        replay(
            Phase::Start,
            opening(launch) + seq![
                Event::Notified,
                Event::ServiceStarted,
                Event::Notified,
                end,
                Event::Notified,
                Event::SandboxesKilled,
                Event::MainKilled,
            ],
        ) matches Some((last, actions)) && {
            &&& last == Phase::Finished
            &&& actions.len() >= 3
            &&& actions[actions.len() - 3] == Action::KillSandboxes
            &&& actions[actions.len() - 2] == Action::KillMain
            &&& actions[actions.len() - 1] == Action::Exit(Ok(()))
        },
{
    let tail6 = seq![Event::MainKilled];
    let tail5 = seq![Event::SandboxesKilled] + tail6;
    let tail4 = seq![Event::Notified] + tail5;
    let tail3 = seq![end] + tail4;
    let tail2 = seq![Event::Notified] + tail3;
    let tail1 = seq![Event::ServiceStarted] + tail2;
    let rest = seq![Event::Notified] + tail1;
    assert(rest =~= seq![
        Event::Notified,
        Event::ServiceStarted,
        Event::Notified,
        end,
        Event::Notified,
        Event::SandboxesKilled,
        Event::MainKilled,
    ]);
    lemma_replay_opening(launch, rest);
    lemma_replay_first(dispatch(launch).phase, Event::Notified, tail1);
    lemma_replay_first(Phase::Starting, Event::ServiceStarted, tail2);
    lemma_replay_first(Phase::Running, Event::Notified, tail3);
    lemma_replay_first(Phase::Serving, end, tail4);
    lemma_replay_first(Phase::Stopped, Event::Notified, tail5);
    lemma_replay_first(Phase::DrainingSandboxes, Event::SandboxesKilled, tail6);
    reveal_with_fuel(replay, 2);
    assert(tail6 =~= seq![Event::MainKilled] + Seq::<Event>::empty());
    lemma_replay_first(Phase::DrainingMain, Event::MainKilled, Seq::empty());
}

/// A service that could not start ends the session with that reason, and
/// nothing is drained: no sandbox or main instance exists yet.
pub proof fn law_failed_start_drains_nothing(launch: Launch, reason: String)
    requires
        launch.command is None,
    ensures
        replay(Phase::Start, opening(launch) + seq![Event::Notified, Event::ServiceStartFailed(reason)])
            matches Some((last, actions))
            && last == Phase::Finished
            && actions.last() == Action::Exit(Err(ExitError::ServiceStart(reason)))
            && forall|i: int|
                0 <= i < actions.len() ==> actions[i] != Action::KillSandboxes && actions[i] != Action::KillMain,
{
    reveal_with_fuel(replay, 3);
    let rest = seq![Event::Notified, Event::ServiceStartFailed(reason)];
    lemma_replay_opening(launch, rest);
    lemma_replay_first(dispatch(launch).phase, Event::Notified, seq![Event::ServiceStartFailed(reason)]);
}

/// `--socket` is deprecated and ignored: a launch that gives it reports the
/// notice first and then goes exactly where the same launch without it goes.
pub proof fn law_socket_is_only_reported(launch: Launch, socket: String)
    ensures
        ({
            let with = Launch { socket: Some(socket), ..launch };
            match (
                replay(Phase::Start, seq![Event::Launched(with), Event::Notified]),
                replay(Phase::Start, seq![Event::Launched(without_socket(launch))]),
            ) {
                (Some((last_with, actions_with)), Some((last_without, actions_without))) => {
                    &&& last_with == last_without
                    &&& actions_with == seq![Action::Notify(Notice::DeprecatedSocket(socket))] + actions_without
                },
                _ => false,
            }
        }),
{
    reveal_with_fuel(replay, 3);
    let with = Launch { socket: Some(socket), ..launch };
    assert(dispatch(with) == dispatch(without_socket(launch)));
    assert(seq![Action::Notify(Notice::DeprecatedSocket(socket)), dispatch(with).action]
        =~= seq![Action::Notify(Notice::DeprecatedSocket(socket))] + seq![dispatch(with).action]);
}

/// The session exits exactly when it reaches `Finished`, and once finished it
/// waits for nothing more.
pub proof fn law_exit_is_final(phase: Phase, event: Event)
    ensures
        transition(phase, event) matches Some(next) ==> (next.action is Exit <==> next.phase is Finished),
        transition(Phase::Finished, event) is None,
{
}

/// A served launch starts its service with the launch's own Frama-C binary
/// and sandbox ceiling, whatever they are and whether or not `--socket` was
/// given.
pub proof fn law_service_uses_the_launch_settings(launch: Launch)
    requires
        launch.command is None,
    ensures
        replay(Phase::Start, opening(launch) + seq![Event::Notified]) matches Some((last, actions))
            && last == Phase::Starting
            && actions.last() == (Action::StartService {
                frama_c: launch.frama_c,
                max_sandboxes: launch.max_sandboxes,
            }),
{
    reveal_with_fuel(replay, 2);
    lemma_replay_opening(launch, seq![Event::Notified]);
}

/// A check runs with the launch's own Frama-C binary, sandbox ceiling and
/// command, whether or not `--socket` was given.
pub proof fn law_check_uses_the_launch_settings(launch: Launch)
    requires
        launch.command is Some,
    ensures
        replay(Phase::Start, opening(launch)) matches Some((last, actions))
            && last == (Phase::Checking { require_complete: launch.command.unwrap().require_complete })
            && actions.last() == (Action::RunCheck {
                frama_c: launch.frama_c,
                max_sandboxes: launch.max_sandboxes,
                command: launch.command.unwrap(),
            }),
{
    reveal_with_fuel(replay, 1);
    lemma_replay_opening(launch, Seq::empty());
    assert(opening(launch) + Seq::<Event>::empty() =~= opening(launch));
}

/// A notice's severity depends on its kind alone, never on the text it
/// carries: the ignored socket and a service error are warnings for every
/// value, the start, the running server and a service's ordinary end are
/// information for every reason.
pub proof fn law_severity_follows_the_kind(text: String)
    ensures
        notice_severity(Notice::DeprecatedSocket(text)) == Severity::Warning,
        notice_severity(Notice::ServiceFailed(text)) == Severity::Warning,
        notice_severity(Notice::ServiceExited(text)) == Severity::Info,
        notice_severity(Notice::ServerStarting) == Severity::Info,
        notice_severity(Notice::ServerRunning) == Severity::Info,
{
}

/// With completeness required, the check fails on any positive number of
/// open entries, and on nothing else; without it, it never fails.
pub proof fn law_require_complete_fails_on_any_open_entry(require_complete: bool, incomplete: Option<usize>)
    ensures
        check_outcome(require_complete, incomplete) is Err
            <==> require_complete && incomplete is Some && incomplete.unwrap() != 0,
        check_outcome(require_complete, incomplete) is Err
            ==> check_outcome(require_complete, incomplete) == Err::<(), ExitError>(ExitError::CheckIncomplete),
        !require_complete ==> check_outcome(require_complete, incomplete) == Ok::<(), ExitError>(()),
{
}

} // verus!
