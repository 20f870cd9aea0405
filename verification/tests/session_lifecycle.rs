//! The session manager's lifecycle: acquire, bounded retries, teardown.

use actionloop::errors::AppError;
use actionloop::session::{
    EnsureStep, FailureDecision, ProbeStep, SessionManager, SessionState,
};

#[test]
fn ensure_launches_and_connects_when_driver_absent() {
    // Absent, driver not running: probe, launch with settle, connect.
    let mut mgr = SessionManager::new();
    assert_eq!(mgr.state(), SessionState::Absent);
    assert_eq!(mgr.ensure_begin(), EnsureStep::ProbeDriver);
    assert_eq!(mgr.state(), SessionState::Starting);
    assert_eq!(mgr.on_probe(false), ProbeStep::LaunchThenSettle);
    mgr.on_connect_success();
    assert_eq!(mgr.state(), SessionState::Connected);
}

#[test]
fn ensure_while_connected_is_a_noop() {
    let mut mgr = SessionManager::new();
    mgr.ensure_begin();
    mgr.on_probe(true);
    mgr.on_connect_success();
    assert_eq!(mgr.ensure_begin(), EnsureStep::AlreadyConnected);
    assert_eq!(mgr.state(), SessionState::Connected);
}

#[test]
fn ensure_connects_directly_when_driver_already_running() {
    let mut mgr = SessionManager::new();
    assert_eq!(mgr.ensure_begin(), EnsureStep::ProbeDriver);
    assert_eq!(mgr.on_probe(true), ProbeStep::Connect);
    mgr.on_connect_success();
    assert_eq!(mgr.state(), SessionState::Connected);
}

#[test]
fn ensure_after_teardown_is_refused() {
    let mut mgr = SessionManager::new();
    mgr.teardown();
    assert_eq!(mgr.state(), SessionState::Closed);
    assert_eq!(mgr.ensure_begin(), EnsureStep::Unavailable);
    assert_eq!(mgr.state(), SessionState::Closed);
}

#[test]
fn teardown_is_idempotent() {
    // A connected session: the first teardown closes and kills; the second
    // ends in the same state and requests no redundant side effect.
    let mut mgr = SessionManager::new();
    mgr.ensure_begin();
    mgr.on_probe(true);
    mgr.on_connect_success();
    let first = mgr.teardown();
    assert!(first.close_handle);
    assert!(first.kill_process);
    assert_eq!(mgr.state(), SessionState::Closed);
    let second = mgr.teardown();
    assert!(!second.close_handle);
    assert!(!second.kill_process);
    assert_eq!(mgr.state(), SessionState::Closed);
}

#[test]
fn teardown_of_absent_session_requests_nothing() {
    let mut mgr = SessionManager::new();
    let plan = mgr.teardown();
    assert!(!plan.close_handle);
    assert!(!plan.kill_process);
    assert_eq!(mgr.state(), SessionState::Closed);
}

#[test]
fn teardown_while_starting_kills_but_does_not_close() {
    let mut mgr = SessionManager::new();
    mgr.ensure_begin();
    let plan = mgr.teardown();
    assert!(!plan.close_handle);
    assert!(plan.kill_process);
    assert_eq!(mgr.state(), SessionState::Closed);
}

#[test]
fn launch_failures_retry_then_give_up() {
    let mut mgr = SessionManager::new();
    mgr.ensure_begin();
    assert!(matches!(mgr.on_launch_failure(), FailureDecision::RetryAfterBackoff));
    assert!(matches!(mgr.on_launch_failure(), FailureDecision::RetryAfterBackoff));
    assert!(matches!(
        mgr.on_launch_failure(),
        FailureDecision::Fatal(AppError::ProcessLaunch)
    ));
}

#[test]
fn connect_failures_retry_then_give_up() {
    let mut mgr = SessionManager::new();
    mgr.ensure_begin();
    assert!(matches!(mgr.on_connect_failure(), FailureDecision::RetryAfterBackoff));
    assert!(matches!(mgr.on_connect_failure(), FailureDecision::RetryAfterBackoff));
    assert!(matches!(
        mgr.on_connect_failure(),
        FailureDecision::Fatal(AppError::SessionConnect)
    ));
}
