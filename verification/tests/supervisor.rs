use db_toolkit_shell::supervisor::Phase;
use db_toolkit_shell::supervisor::Supervisor;
use db_toolkit_shell::supervisor::SupervisorError;

#[test]
fn port_is_unavailable_before_any_launch() {
    let s = Supervisor::new();
    assert_eq!(s.get_port(), Err(SupervisorError::PublishedPortUnavailable));
    assert_eq!(
        SupervisorError::PublishedPortUnavailable.message(),
        "Backend not started".to_string()
    );
}

#[test]
fn successful_launch_publishes_the_announced_port() {
    let mut s = Supervisor::new();
    assert_eq!(s.begin_launch(), Ok(()));
    let lines: Vec<String> = vec![
        "starting up".to_string(),
        "BACKEND_PORT: 54231".to_string(),
        "request log follows".to_string(),
    ];
    assert_eq!(s.launch_from_lines(7, &lines), Ok(54231));
    assert_eq!(s.phase, Phase::Running);
    assert_eq!(s.get_port(), Ok(54231));
    assert_eq!(s.get_port(), Ok(54231));
    assert_eq!(s.get_port(), Ok(54231));
}

#[test]
fn launch_without_handshake_times_out_with_no_port() {
    let mut s = Supervisor::new();
    assert_eq!(s.begin_launch(), Ok(()));
    let lines: Vec<String> = vec!["BACKEND_PORT: notanumber".to_string()];
    assert_eq!(s.launch_from_lines(7, &lines), Err(SupervisorError::HandshakeTimeout));
    assert_eq!(s.phase, Phase::Terminated);
    assert_eq!(s.port, None);
    assert_eq!(s.get_port(), Err(SupervisorError::PublishedPortUnavailable));
    assert_eq!(
        SupervisorError::HandshakeTimeout.message(),
        "Backend startup timeout".to_string()
    );
}

#[test]
fn second_launch_in_a_session_is_rejected() {
    let mut s = Supervisor::new();
    assert_eq!(s.begin_launch(), Ok(()));
    assert_eq!(s.begin_launch(), Err(SupervisorError::AlreadyLaunched));
    assert_eq!(s.phase, Phase::Launching);
}

#[test]
fn spawn_failure_terminates_the_session() {
    let mut s = Supervisor::new();
    assert_eq!(s.begin_launch(), Ok(()));
    let e = s.on_spawn_failure("Failed to start backend: no such file".to_string());
    assert_eq!(
        e,
        SupervisorError::SpawnFailure("Failed to start backend: no such file".to_string())
    );
    assert_eq!(e.message(), "Failed to start backend: no such file".to_string());
    assert_eq!(s.phase, Phase::Terminated);
    assert_eq!(s.get_port(), Err(SupervisorError::PublishedPortUnavailable));
}

#[test]
fn shutdown_with_nothing_recorded_is_a_no_op() {
    let mut s = Supervisor::new();
    assert_eq!(s.shutdown(), None);
    assert_eq!(s.phase, Phase::NotStarted);
    assert_eq!(s.process, None);
    assert_eq!(s.port, None);
}

#[test]
fn shutdown_after_launch_clears_the_recorded_process() {
    let mut s = Supervisor::new();
    assert_eq!(s.begin_launch(), Ok(()));
    let lines: Vec<String> = vec!["BACKEND_PORT: 4100".to_string()];
    assert_eq!(s.launch_from_lines(42, &lines), Ok(4100));
    assert_eq!(s.process, Some(42));
    assert_eq!(s.shutdown(), Some(42));
    assert_eq!(s.phase, Phase::Terminated);
    assert_eq!(s.process, None);
    assert_eq!(s.get_port(), Ok(4100));
    assert_eq!(s.shutdown(), None);
}
