use frama_c_mcp_cli::session::Severity;
use frama_c_mcp_cli::shutdown::{
    begin_watch, notice_level, watch_step, Signal, WatchAction, WatchEvent, WatchNotice, WatchPhase,
};

fn run(events: Vec<WatchEvent>) -> (Vec<WatchAction>, WatchPhase) {
    let first = begin_watch();
    let mut actions = vec![first.action];
    let mut phase = first.phase;
    for event in events {
        let next = watch_step(phase, event).expect("an event the phase waits for");
        actions.push(next.action);
        phase = next.phase;
    }
    (actions, phase)
}

#[test]
fn each_signal_ends_the_wait() {
    for signal in [Signal::Interrupt, Signal::Terminate, Signal::Hangup] {
        let (actions, phase) = run(vec![
            WatchEvent::Installed,
            WatchEvent::Installed,
            WatchEvent::Received(signal),
            WatchEvent::Reported,
        ]);
        assert_eq!(phase, WatchPhase::Done);
        assert_eq!(
            actions,
            vec![
                WatchAction::Install(Signal::Terminate),
                WatchAction::Install(Signal::Hangup),
                WatchAction::WaitForAny,
                WatchAction::Report(WatchNotice::Received(signal)),
                WatchAction::Finish,
            ]
        );
    }
}

#[test]
fn a_missing_terminate_handler_ends_the_wait_at_once() {
    let (actions, phase) = run(vec![
        WatchEvent::InstallFailed("EPERM".to_string()),
        WatchEvent::Reported,
    ]);
    assert_eq!(phase, WatchPhase::Done);
    assert_eq!(
        actions[1],
        WatchAction::Report(WatchNotice::InstallFailed { signal: Signal::Terminate, error: "EPERM".to_string() })
    );
    assert!(!actions.contains(&WatchAction::WaitForAny));
}

#[test]
fn a_missing_hangup_handler_ends_the_wait_at_once() {
    let (actions, phase) = run(vec![
        WatchEvent::Installed,
        WatchEvent::InstallFailed("EINVAL".to_string()),
        WatchEvent::Reported,
    ]);
    assert_eq!(phase, WatchPhase::Done);
    assert_eq!(
        actions[2],
        WatchAction::Report(WatchNotice::InstallFailed { signal: Signal::Hangup, error: "EINVAL".to_string() })
    );
    assert_eq!(actions[3], WatchAction::Finish);
}

#[test]
fn a_signal_is_not_awaited_before_the_handlers() {
    assert!(watch_step(WatchPhase::InstallingTerminate, WatchEvent::Received(Signal::Interrupt)).is_none());
    assert!(watch_step(WatchPhase::Done, WatchEvent::Reported).is_none());
}

#[test]
fn a_failed_install_is_an_error_and_a_signal_is_information() {
    let failed = WatchNotice::InstallFailed { signal: Signal::Hangup, error: "x".to_string() };
    assert_eq!(notice_level(&failed), Severity::Error);
    assert_eq!(notice_level(&WatchNotice::Received(Signal::Terminate)), Severity::Info);
}
