use frama_c_mcp_cli::command::{CheckCommand, Launch};
use frama_c_mcp_cli::session::{
    check_verdict, severity, step, Action, Event, ExitError, Notice, Phase, Severity,
};

fn check_command(require_complete: bool) -> CheckCommand {
    CheckCommand {
        file: "loop.c".to_string(),
        json: false,
        require_complete,
        function: None,
        smoke: false,
        detail: None,
        include_paths: vec![],
        defines: vec![],
        force_includes: vec![],
    }
}

fn launch(socket: Option<&str>, command: Option<CheckCommand>) -> Launch {
    Launch {
        socket: socket.map(|s| s.to_string()),
        frama_c: "frama-c".to_string(),
        max_sandboxes: 32,
        command,
    }
}

/// Runs the session over `events` and returns the actions and the last phase.
fn run(events: Vec<Event>) -> (Vec<Action>, Phase) {
    let mut phase = Phase::Start;
    let mut actions = Vec::new();
    for event in events {
        let next = step(phase, event).expect("an event the phase waits for");
        actions.push(next.action);
        phase = next.phase;
    }
    (actions, phase)
}

#[test]
fn require_complete_fails_only_on_open_work() {
    assert_eq!(check_verdict(true, Some(1)), Err(ExitError::CheckIncomplete));
    assert_eq!(check_verdict(true, Some(0)), Ok(()));
    assert_eq!(check_verdict(true, None), Ok(()));
    assert_eq!(check_verdict(false, Some(3)), Ok(()));
    assert_eq!(check_verdict(false, None), Ok(()));
}

#[test]
fn a_complete_check_prints_then_succeeds() {
    let (actions, phase) = run(vec![
        Event::Launched(launch(None, Some(check_command(true)))),
        Event::CheckReturned { incomplete: Some(0) },
        Event::Printed,
    ]);
    assert_eq!(phase, Phase::Finished);
    assert_eq!(
        actions,
        vec![
            Action::RunCheck {
                frama_c: "frama-c".to_string(),
                max_sandboxes: 32,
                command: check_command(true),
            },
            Action::PrintPayload,
            Action::Exit(Ok(())),
        ]
    );
}

#[test]
fn require_complete_fails_after_printing_an_incomplete_payload() {
    let (actions, _) = run(vec![
        Event::Launched(launch(None, Some(check_command(true)))),
        Event::CheckReturned { incomplete: Some(2) },
        Event::Printed,
    ]);
    assert_eq!(actions[1], Action::PrintPayload);
    assert_eq!(actions[2], Action::Exit(Err(ExitError::CheckIncomplete)));
}

#[test]
fn without_require_complete_an_incomplete_payload_still_succeeds() {
    let (actions, _) = run(vec![
        Event::Launched(launch(None, Some(check_command(false)))),
        Event::CheckReturned { incomplete: Some(2) },
        Event::Printed,
    ]);
    assert_eq!(actions[2], Action::Exit(Ok(())));
}

#[test]
fn an_interrupted_check_exits_without_printing() {
    let (actions, phase) = run(vec![
        Event::Launched(launch(None, Some(check_command(true)))),
        Event::CheckInterrupted,
    ]);
    assert_eq!(phase, Phase::Finished);
    assert_eq!(actions[1], Action::Exit(Err(ExitError::Interrupted)));
    assert!(!actions.contains(&Action::PrintPayload));
}

#[test]
fn a_failed_check_exits_with_its_message() {
    let (actions, _) = run(vec![
        Event::Launched(launch(None, Some(check_command(false)))),
        Event::CheckFailed("frama-c not found".to_string()),
    ]);
    assert_eq!(actions[1], Action::Exit(Err(ExitError::CheckFailed("frama-c not found".to_string()))));
}

#[test]
fn an_unwritable_payload_fails_before_completeness_is_read() {
    let (actions, _) = run(vec![
        Event::Launched(launch(None, Some(check_command(true)))),
        Event::CheckReturned { incomplete: Some(0) },
        Event::PrintFailed("broken pipe".to_string()),
    ]);
    assert_eq!(actions[2], Action::Exit(Err(ExitError::Output("broken pipe".to_string()))));
}

#[test]
fn a_socket_is_reported_and_otherwise_ignored() {
    let (with, phase_with) = run(vec![
        Event::Launched(launch(Some("/tmp/old.sock"), None)),
        Event::Notified,
    ]);
    let (without, phase_without) = run(vec![Event::Launched(launch(None, None))]);
    assert_eq!(with[0], Action::Notify(Notice::DeprecatedSocket("/tmp/old.sock".to_string())));
    assert_eq!(with[1], without[0]);
    assert_eq!(phase_with, phase_without);
}

#[test]
fn a_served_session_drains_sandboxes_then_main_then_exits() {
    let (actions, phase) = run(vec![
        Event::Launched(launch(None, None)),
        Event::Notified,
        Event::ServiceStarted,
        Event::Notified,
        Event::ServiceStopped("Cancelled".to_string()),
        Event::Notified,
        Event::SandboxesKilled,
        Event::MainKilled,
    ]);
    assert_eq!(phase, Phase::Finished);
    assert_eq!(
        actions,
        vec![
            Action::Notify(Notice::ServerStarting),
            Action::StartService { frama_c: "frama-c".to_string(), max_sandboxes: 32 },
            Action::Notify(Notice::ServerRunning),
            Action::AwaitService,
            Action::Notify(Notice::ServiceExited("Cancelled".to_string())),
            Action::KillSandboxes,
            Action::KillMain,
            Action::Exit(Ok(())),
        ]
    );
}

#[test]
fn a_service_error_is_a_warning_and_still_drains() {
    let (actions, _) = run(vec![
        Event::Launched(launch(None, None)),
        Event::Notified,
        Event::ServiceStarted,
        Event::Notified,
        Event::ServiceFailed("task panicked".to_string()),
        Event::Notified,
        Event::SandboxesKilled,
        Event::MainKilled,
    ]);
    assert_eq!(actions[4], Action::Notify(Notice::ServiceFailed("task panicked".to_string())));
    assert_eq!(severity(&Notice::ServiceFailed("task panicked".to_string())), Severity::Warning);
    assert_eq!(actions[7], Action::Exit(Ok(())));
}

#[test]
fn a_service_that_cannot_start_drains_nothing() {
    let (actions, phase) = run(vec![
        Event::Launched(launch(None, None)),
        Event::Notified,
        Event::ServiceStartFailed("stdin closed".to_string()),
    ]);
    assert_eq!(phase, Phase::Finished);
    assert_eq!(actions[2], Action::Exit(Err(ExitError::ServiceStart("stdin closed".to_string()))));
    assert!(!actions.contains(&Action::KillSandboxes));
    assert!(!actions.contains(&Action::KillMain));
}

#[test]
fn an_unexpected_event_is_refused() {
    assert!(step(Phase::Start, Event::Printed).is_none());
    assert!(step(Phase::Serving, Event::CheckInterrupted).is_none());
    assert!(step(Phase::Finished, Event::Notified).is_none());
}

#[test]
fn notices_have_their_severity() {
    assert_eq!(severity(&Notice::DeprecatedSocket("s".to_string())), Severity::Warning);
    assert_eq!(severity(&Notice::ServerStarting), Severity::Info);
    assert_eq!(severity(&Notice::ServerRunning), Severity::Info);
    assert_eq!(severity(&Notice::ServiceExited("Closed".to_string())), Severity::Info);
}

#[test]
fn the_runtime_gets_two_seconds_to_wind_down() {
    assert_eq!(frama_c_mcp_cli::session::RUNTIME_SHUTDOWN_SECS, 2);
}
