use pi_desktop::endpoint::{endpoint_script, BACKEND_ENDPOINT, ENDPOINT_GLOBAL};
use pi_desktop::supervisor::{Supervisor, SupervisorState};

#[test]
fn endpoint_script_assigns_the_fixed_endpoint() {
    assert_eq!(endpoint_script(), "window.__PI_API_BASE = 'http://127.0.0.1:8787';");
    assert_eq!(BACKEND_ENDPOINT, "http://127.0.0.1:8787");
    assert_eq!(ENDPOINT_GLOBAL, "window.__PI_API_BASE");
}

#[test]
fn packaged_sidecar_present_spawn_succeeds_running() {
    let s = Supervisor::launched(Some(41u32));
    assert_eq!(s.current_state(), SupervisorState::Running);
    assert!(s.has_handle());
}

#[test]
fn packaged_sidecar_absent_spawn_fails_not_started() {
    let s: Supervisor<u32> = Supervisor::launched(None);
    assert_eq!(s.current_state(), SupervisorState::NotStarted);
    assert!(!s.has_handle());
}

#[test]
fn shutdown_while_running_terminates_exactly_once() {
    let mut s = Supervisor::launched(Some(41u32));
    let mut requests = 0;
    if let Some(h) = s.shutdown() {
        assert_eq!(h, 41);
        requests += 1;
    }
    assert_eq!(s.current_state(), SupervisorState::Terminated);
    assert_eq!(requests, 1);
}

#[test]
fn repeated_shutdown_hands_out_nothing_more() {
    let mut s = Supervisor::launched(Some(7u32));
    let handed: Vec<Option<u32>> = (0..4).map(|_| s.shutdown()).collect();
    assert_eq!(handed, vec![Some(7), None, None, None]);
    assert_eq!(s.current_state(), SupervisorState::Terminated);
    assert!(!s.has_handle());
}

#[test]
fn shutdown_without_handle_terminates_nothing() {
    let mut s: Supervisor<u32> = Supervisor::launched(None);
    assert_eq!(s.shutdown(), None);
    assert_eq!(s.current_state(), SupervisorState::Terminated);
    assert_eq!(s.shutdown(), None);
    assert_eq!(s.current_state(), SupervisorState::Terminated);
}

#[test]
fn publication_is_the_same_whether_or_not_spawned() {
    let mut up = Supervisor::launched(Some(3u32));
    let mut down: Supervisor<u32> = Supervisor::launched(None);
    let a = up.on_window_ready();
    let b = down.on_window_ready();
    assert_eq!(a, b);
    assert_eq!(a, Some("window.__PI_API_BASE = 'http://127.0.0.1:8787';".to_string()));
}

#[test]
fn publication_happens_once() {
    let mut s = Supervisor::launched(Some(3u32));
    assert!(s.on_window_ready().is_some());
    assert_eq!(s.on_window_ready(), None);
    assert_eq!(s.current_state(), SupervisorState::Running);
    assert!(s.has_handle());
}

#[test]
fn publication_after_shutdown_leaves_state_terminated() {
    let mut s = Supervisor::launched(Some(3u32));
    assert_eq!(s.shutdown(), Some(3));
    assert!(s.on_window_ready().is_some());
    assert_eq!(s.current_state(), SupervisorState::Terminated);
}
