//! Waiting for the signal that ends a session: SIGINT, SIGTERM or SIGHUP,
//! the last because a closing terminal pane sends it and a server left
//! running after it would be orphaned.
//!
//! Installing a handler can fail; the wait then ends at once, so that the
//! session shuts down rather than run on with no way to stop it cleanly.

use crate::session::Severity;
use vstd::prelude::*;

verus! {

/// A signal that ends the session.
#[derive(Clone, Copy, Debug, PartialEq, Eq)]
pub enum Signal {
    /// SIGINT, through Ctrl-C; it needs no handler of its own.
    Interrupt,
    /// SIGTERM.
    Terminate,
    /// SIGHUP.
    Hangup,
}

/// What the wait reports.
#[derive(Clone, Debug, PartialEq, Eq)]
pub enum WatchNotice {
    /// The handler for `signal` could not be installed.
    InstallFailed { signal: Signal, error: String },
    /// `signal` arrived.
    Received(Signal),
}

/// Where the wait stands.
#[derive(Clone, Copy, Debug, PartialEq, Eq)]
pub enum WatchPhase {
    /// The SIGTERM handler is being installed.
    InstallingTerminate,
    /// The SIGHUP handler is being installed.
    InstallingHangup,
    /// Both handlers are in place; waiting for any of the three signals.
    Waiting,
    /// The end of the wait is being reported.
    Reporting,
    /// The wait is over.
    Done,
}

/// What the program around the library reports back.
#[derive(Clone, Debug, PartialEq, Eq)]
pub enum WatchEvent {
    /// The handler asked for is installed.
    Installed,
    /// The handler asked for could not be installed, with the error.
    InstallFailed(String),
    /// A signal arrived.
    Received(Signal),
    /// The notice was reported.
    Reported,
}

/// What the program around the library is to do next.
#[derive(Clone, Debug, PartialEq, Eq)]
pub enum WatchAction {
    /// Install the handler for this signal.
    Install(Signal),
    /// Wait for SIGINT, SIGTERM or SIGHUP, whichever comes first.
    WaitForAny,
    /// Report this notice, at [`watch_severity`].
    Report(WatchNotice),
    /// The wait is over: the session is to shut down.
    Finish,
}

/// The next phase of the wait and the action that leads there.
#[derive(Clone, Debug, PartialEq, Eq)]
pub struct WatchTransition {
    pub phase: WatchPhase,
    pub action: WatchAction,
}

/// The severity of each notice: a missing handler is an error, a signal is
/// information.
pub open spec fn watch_severity(notice: WatchNotice) -> Severity {
    match notice {
        WatchNotice::InstallFailed { .. } => Severity::Error,
        WatchNotice::Received(_) => Severity::Info,
    }
}

/// The severity `notice` is reported at.
pub fn notice_level(notice: &WatchNotice) -> (level: Severity)
    ensures
        level == watch_severity(*notice),
        notice is Received ==> level == Severity::Info,
        notice is InstallFailed ==> level == Severity::Error,
{
    match notice {
        WatchNotice::InstallFailed { .. } => Severity::Error,
        WatchNotice::Received(_) => Severity::Info,
    }
}

/// The wait starts by installing the SIGTERM handler.
pub open spec fn watch_start() -> WatchTransition {
    WatchTransition {
        phase: WatchPhase::InstallingTerminate,
        action: WatchAction::Install(Signal::Terminate),
    }
}

/// The first phase and action of a wait.
pub fn begin_watch() -> (first: WatchTransition)
    ensures
        first == watch_start(),
{
    WatchTransition {
        phase: WatchPhase::InstallingTerminate,
        action: WatchAction::Install(Signal::Terminate),
    }
}

/// The reporting phase for `notice`.
pub open spec fn report(notice: WatchNotice) -> WatchTransition {
    WatchTransition { phase: WatchPhase::Reporting, action: WatchAction::Report(notice) }
}

/// The wait's transition table; `None` for an event the phase does not wait
/// for.
pub open spec fn watch_transition(phase: WatchPhase, event: WatchEvent) -> Option<WatchTransition> {
    match phase {
        WatchPhase::InstallingTerminate => match event {
            WatchEvent::Installed => Some(
                WatchTransition {
                    phase: WatchPhase::InstallingHangup,
                    action: WatchAction::Install(Signal::Hangup),
                },
            ),
            WatchEvent::InstallFailed(error) => Some(
                report(WatchNotice::InstallFailed { signal: Signal::Terminate, error }),
            ),
            _ => None,
        },
        WatchPhase::InstallingHangup => match event {
            WatchEvent::Installed => Some(
                WatchTransition { phase: WatchPhase::Waiting, action: WatchAction::WaitForAny },
            ),
            WatchEvent::InstallFailed(error) => Some(
                report(WatchNotice::InstallFailed { signal: Signal::Hangup, error }),
            ),
            _ => None,
        },
        WatchPhase::Waiting => match event {
            WatchEvent::Received(signal) => Some(report(WatchNotice::Received(signal))),
            _ => None,
        },
        WatchPhase::Reporting => match event {
            WatchEvent::Reported => Some(
                WatchTransition { phase: WatchPhase::Done, action: WatchAction::Finish },
            ),
            _ => None,
        },
        WatchPhase::Done => None,
    }
}

/// The wait's next phase and action after `event` in `phase`, or `None` when
/// `phase` does not wait for `event`.
pub fn watch_step(phase: WatchPhase, event: WatchEvent) -> (next: Option<WatchTransition>)
    ensures
        next == watch_transition(phase, event),
{
    match phase {
        WatchPhase::InstallingTerminate => match event {
            WatchEvent::Installed => Some(
                WatchTransition {
                    phase: WatchPhase::InstallingHangup,
                    action: WatchAction::Install(Signal::Hangup),
                },
            ),
            WatchEvent::InstallFailed(error) => Some(
                WatchTransition {
                    phase: WatchPhase::Reporting,
                    action: WatchAction::Report(
                        WatchNotice::InstallFailed { signal: Signal::Terminate, error },
                    ),
                },
            ),
            _ => None,
        },
        WatchPhase::InstallingHangup => match event {
            WatchEvent::Installed => Some(
                WatchTransition { phase: WatchPhase::Waiting, action: WatchAction::WaitForAny },
            ),
            WatchEvent::InstallFailed(error) => Some(
                WatchTransition {
                    phase: WatchPhase::Reporting,
                    action: WatchAction::Report(
                        WatchNotice::InstallFailed { signal: Signal::Hangup, error },
                    ),
                },
            ),
            _ => None,
        },
        WatchPhase::Waiting => match event {
            WatchEvent::Received(signal) => Some(
                WatchTransition {
                    phase: WatchPhase::Reporting,
                    action: WatchAction::Report(WatchNotice::Received(signal)),
                },
            ),
            _ => None,
        },
        WatchPhase::Reporting => match event {
            WatchEvent::Reported => Some(
                WatchTransition { phase: WatchPhase::Done, action: WatchAction::Finish },
            ),
            _ => None,
        },
        WatchPhase::Done => None,
    }
}

/// The phase reached and the actions taken when the events arrive one by one
/// from `phase`; `None` when one of them is not waited for.
pub open spec fn watch_replay(phase: WatchPhase, events: Seq<WatchEvent>) -> Option<(WatchPhase, Seq<WatchAction>)>
    decreases events.len(),
{
    if events.len() == 0 {
        Some((phase, Seq::empty()))
    } else {
        match watch_transition(phase, events[0]) {
            None => None,
            Some(next) => match watch_replay(next.phase, events.drop_first()) {
                None => None,
                Some((last, actions)) => Some((last, seq![next.action] + actions)),
            },
        }
    }
}

/// With both handlers installed, the wait waits for any of the three
/// signals, reports the one that came, and ends.
pub proof fn law_signal_ends_the_wait(signal: Signal)
    ensures
        watch_replay(
            watch_start().phase,
            seq![
                WatchEvent::Installed,
                WatchEvent::Installed,
                WatchEvent::Received(signal),
                WatchEvent::Reported,
            ],
        ) == Some(
            (
                WatchPhase::Done,
                seq![
                    WatchAction::Install(Signal::Hangup),
                    WatchAction::WaitForAny,
                    WatchAction::Report(WatchNotice::Received(signal)),
                    WatchAction::Finish,
                ],
            ),
        ),
{
    reveal_with_fuel(watch_replay, 5);
    let events = seq![
        WatchEvent::Installed,
        WatchEvent::Installed,
        WatchEvent::Received(signal),
        WatchEvent::Reported,
    ];
    assert(events.drop_first() =~= seq![WatchEvent::Installed, WatchEvent::Received(signal), WatchEvent::Reported]);
    assert(events.drop_first().drop_first() =~= seq![WatchEvent::Received(signal), WatchEvent::Reported]);
    assert(events.drop_first().drop_first().drop_first() =~= seq![WatchEvent::Reported]);
    assert(events.drop_first().drop_first().drop_first().drop_first() =~= Seq::<WatchEvent>::empty());
    assert(seq![WatchAction::Install(Signal::Hangup)] + (seq![WatchAction::WaitForAny] + (seq![
        WatchAction::Report(WatchNotice::Received(signal)),
    ] + (seq![WatchAction::Finish] + Seq::<WatchAction>::empty()))) =~= seq![
        WatchAction::Install(Signal::Hangup),
        WatchAction::WaitForAny,
        WatchAction::Report(WatchNotice::Received(signal)),
        WatchAction::Finish,
    ]);
}

/// A SIGTERM handler that cannot be installed ends the wait at once, with an
/// error reported and no signal waited for.
pub proof fn law_terminate_handler_failure_ends_the_wait(error: String)
    ensures
        watch_replay(watch_start().phase, seq![WatchEvent::InstallFailed(error), WatchEvent::Reported]) == Some(
            (
                WatchPhase::Done,
                seq![
                    WatchAction::Report(WatchNotice::InstallFailed { signal: Signal::Terminate, error }),
                    WatchAction::Finish,
                ],
            ),
        ),
{
    reveal_with_fuel(watch_replay, 3);
    let events = seq![WatchEvent::InstallFailed(error), WatchEvent::Reported];
    assert(events.drop_first() =~= seq![WatchEvent::Reported]);
    assert(events.drop_first().drop_first() =~= Seq::<WatchEvent>::empty());
    assert(seq![WatchAction::Report(WatchNotice::InstallFailed { signal: Signal::Terminate, error })] + (seq![
        WatchAction::Finish,
    ] + Seq::<WatchAction>::empty()) =~= seq![
        WatchAction::Report(WatchNotice::InstallFailed { signal: Signal::Terminate, error }),
        WatchAction::Finish,
    ]);
}

/// A SIGHUP handler that cannot be installed ends the wait in the same way,
/// though the SIGTERM handler is in place.
pub proof fn law_hangup_handler_failure_ends_the_wait(error: String)
    ensures
        watch_replay(
            watch_start().phase,
            seq![WatchEvent::Installed, WatchEvent::InstallFailed(error), WatchEvent::Reported],
        ) == Some(
            (
                WatchPhase::Done,
                seq![
                    WatchAction::Install(Signal::Hangup),
                    WatchAction::Report(WatchNotice::InstallFailed { signal: Signal::Hangup, error }),
                    WatchAction::Finish,
                ],
            ),
        ),
{
    reveal_with_fuel(watch_replay, 4);
    let events = seq![WatchEvent::Installed, WatchEvent::InstallFailed(error), WatchEvent::Reported];
    assert(events.drop_first() =~= seq![WatchEvent::InstallFailed(error), WatchEvent::Reported]);
    assert(events.drop_first().drop_first() =~= seq![WatchEvent::Reported]);
    assert(events.drop_first().drop_first().drop_first() =~= Seq::<WatchEvent>::empty());
    assert(seq![WatchAction::Install(Signal::Hangup)] + (seq![
        WatchAction::Report(WatchNotice::InstallFailed { signal: Signal::Hangup, error }),
    ] + (seq![WatchAction::Finish] + Seq::<WatchAction>::empty())) =~= seq![
        WatchAction::Install(Signal::Hangup),
        WatchAction::Report(WatchNotice::InstallFailed { signal: Signal::Hangup, error }),
        WatchAction::Finish,
    ]);
}

/// The wait waits for signals only once both handlers are installed, it ends
/// exactly when it reaches `Done`, and once done it waits for nothing more.
pub proof fn law_wait_needs_both_handlers(phase: WatchPhase, event: WatchEvent)
    ensures
        watch_transition(phase, event) matches Some(next) ==> {
            &&& next.action is WaitForAny ==> phase == WatchPhase::InstallingHangup && event is Installed
            &&& next.action is Finish <==> next.phase == WatchPhase::Done
        },
        watch_transition(WatchPhase::Done, event) is None,
{
}

/// Every signal that arrives is reported as information, and every handler
/// that cannot be installed as an error, whichever signal and error it is.
pub proof fn law_watch_severity_follows_the_kind(signal: Signal, error: String)
    ensures
        watch_severity(WatchNotice::Received(signal)) == Severity::Info,
        watch_severity(WatchNotice::InstallFailed { signal, error }) == Severity::Error,
{
}

} // verus!
