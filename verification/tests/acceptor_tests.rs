use tcp_over_quic::acceptor::{
    handler_on_event, AcceptBackoff, BackoffDecision, HandlerAction, HandlerEvent,
};
use tcp_over_quic::shutdown::Shutdown;

// The backoff schedule doubles from one second; the seventh consecutive
// failure terminates the acceptor.
#[test]
fn backoff_cap_on_seventh_failure() {
    let mut b = AcceptBackoff::new();
    assert_eq!(BackoffDecision::Retry(1), b.on_failure());
    assert_eq!(BackoffDecision::Retry(2), b.on_failure());
    assert_eq!(BackoffDecision::Retry(4), b.on_failure());
    assert_eq!(BackoffDecision::Retry(8), b.on_failure());
    assert_eq!(BackoffDecision::Retry(16), b.on_failure());
    assert_eq!(BackoffDecision::Retry(32), b.on_failure());
    assert_eq!(BackoffDecision::Abort, b.on_failure());
    // and it stays aborted while failures continue
    assert_eq!(BackoffDecision::Abort, b.on_failure());
}

#[test]
fn backoff_resets_on_success() {
    let mut b = AcceptBackoff::new();
    let _ = b.on_failure();
    let _ = b.on_failure();
    b.on_success();
    assert_eq!(BackoffDecision::Retry(1), b.on_failure());
}

#[test]
fn handler_event_rules() {
    assert_eq!(HandlerAction::SpawnSession, handler_on_event(HandlerEvent::StreamOpened));
    assert_eq!(HandlerAction::KeepWaiting, handler_on_event(HandlerEvent::NothingYielded));
    assert_eq!(HandlerAction::StopClean, handler_on_event(HandlerEvent::ApplicationClosed));
    assert_eq!(HandlerAction::StopWithError, handler_on_event(HandlerEvent::ConnectionError));
    assert_eq!(HandlerAction::StopClean, handler_on_event(HandlerEvent::ShutdownSignal));
}

#[test]
fn shutdown_flag_lifecycle() {
    let (_tx, rx) = tokio::sync::broadcast::channel::<()>(1);
    let mut s = Shutdown::new(rx);
    assert!(!s.is_shutdown());
    s.mark_shutdown();
    assert!(s.is_shutdown());
}
