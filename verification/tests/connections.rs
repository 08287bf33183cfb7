use impulse_client_kit::back::BackStack;
use impulse_client_kit::reconnect::{ReconnectTimings, RetryPolicy};
use impulse_client_kit::ws::{ready_state, ProviderVerdict, WebSocketReadyState, WsController};
use impulse_client_kit::wt::{DatagramReader, WebTransportState, WtNext, WtSupervisor};

#[test]
fn retry_policy_caps_attempts() {
    let p = RetryPolicy::unbounded().with_max_attempts(Some(2));
    assert!(p.should_retry(0));
    assert!(p.should_retry(1));
    assert!(!p.should_retry(2));
    assert!(!RetryPolicy::disabled().should_retry(0));
    assert!(RetryPolicy::unbounded().should_retry(u32::MAX));
    let t = ReconnectTimings::reconnecting();
    assert_eq!(t.connect_timeout_ms, Some(5000));
    assert_eq!(t.liveness_timeout_ms, Some(3000));
    assert_eq!(ReconnectTimings::one_shot().connect_timeout_ms, None);
    assert_eq!(ReconnectTimings::one_shot().with_max_delay(2000).max_delay_ms, 2000);
    assert_eq!(ReconnectTimings::one_shot().with_initial_delay(250).initial_delay_ms, 250);
}

#[test]
fn default_waits_are_at_most_five_seconds() {
    for t in [ReconnectTimings::one_shot(), ReconnectTimings::reconnecting()] {
        assert!(t.initial_delay_ms <= 5000 && t.max_delay_ms <= 5000);
        assert!(t.connect_timeout_ms.unwrap_or(0) <= 5000);
        assert!(t.liveness_timeout_ms.unwrap_or(0) <= 5000);
        assert!(t.initial_delay_ms < 2000);
    }
}

#[test]
fn ready_state_codes() {
    assert_eq!(ready_state(Some(0)), WebSocketReadyState::Connecting);
    assert_eq!(ready_state(Some(1)), WebSocketReadyState::Open);
    assert_eq!(ready_state(Some(2)), WebSocketReadyState::Closing);
    assert_eq!(ready_state(Some(3)), WebSocketReadyState::Closed);
    assert_eq!(ready_state(None), WebSocketReadyState::Closed);
}

#[test]
fn websocket_reconnects_with_growing_backoff() {
    let mut c = WsController::new(RetryPolicy::unbounded().with_max_attempts(Some(2)), true);
    let d = c.begin();
    assert_eq!(d.start_attempt, Some(0));
    assert_eq!(d.state, Some(WebSocketReadyState::Connecting));
    assert_eq!(c.begin().start_attempt, None);
    assert_eq!(c.provider_resolved(0), ProviderVerdict::Proceed);
    let d = c.connection_lost();
    assert_eq!(d.schedule_retry, Some(0));
    c.retry_due();
    c.provider_resolved(0);
    assert_eq!(c.connection_lost().schedule_retry, Some(1));
    c.retry_due();
    c.provider_resolved(0);
    let d = c.connection_lost();
    assert_eq!(d.schedule_retry, None);
    assert_eq!(d.state, Some(WebSocketReadyState::Closed));
}

#[test]
fn websocket_open_resets_backoff() {
    let mut c = WsController::new(RetryPolicy::unbounded(), false);
    c.begin();
    c.provider_resolved(0);
    c.connection_lost();
    c.retry_due();
    c.provider_resolved(0);
    let d = c.socket_opened();
    assert_eq!(d.state, Some(WebSocketReadyState::Open));
    assert_eq!(c.failures, 0);
    assert_eq!(c.connection_lost().schedule_retry, Some(0));
}

#[test]
fn websocket_manual_close_is_final() {
    let mut c = WsController::new(RetryPolicy::unbounded(), true);
    c.begin();
    let d = c.close_requested();
    assert!(d.cancel_retry && d.cancel_watchdog);
    assert_eq!(c.provider_resolved(0), ProviderVerdict::Abandoned);
    assert_eq!(c.connection_lost().schedule_retry, None);
    assert_eq!(c.retry_due().start_attempt, None);
    assert_eq!(c.revalidate(true, false).start_attempt, None);
}

#[test]
fn websocket_watchdog_and_revalidation() {
    let mut c = WsController::new(RetryPolicy::unbounded(), true);
    c.begin();
    let d = c.watchdog_fired(0, false);
    assert!(d.drop_socket);
    assert_eq!(d.schedule_retry, Some(0));
    assert_eq!(c.provider_resolved(0), ProviderVerdict::Stale);
    let mut c = WsController::new(RetryPolicy::unbounded(), true);
    c.begin();
    c.provider_resolved(0);
    c.socket_opened();
    assert_eq!(c.revalidate(false, true).start_attempt, None);
    let d = c.revalidate(true, true);
    assert!(d.drop_socket);
    assert_eq!(d.start_attempt, Some(1));
}

#[test]
fn webtransport_supervision() {
    let mut s = WtSupervisor::new(RetryPolicy::unbounded().with_max_attempts(Some(1)));
    assert_eq!(s.attempt_begins().next, WtNext::Continue);
    let d = s.build_failed();
    assert_eq!(d.next, WtNext::Wait(0));
    assert_eq!(d.state, Some(WebTransportState::Failed));
    assert_eq!(s.backoff_finished(false).next, WtNext::Restart);
    s.attempt_begins();
    assert_eq!(s.ready_failed().next, WtNext::Stop);
    let mut s = WtSupervisor::new(RetryPolicy::unbounded());
    s.attempt_begins();
    let d = s.ready_succeeded();
    assert!(d.ensure_reader);
    assert!(!s.wake_if_dead());
    assert_eq!(s.closed(true).next, WtNext::Stop);
    assert!(s.wake_if_dead());
    let d = s.woken();
    assert_eq!(d.next, WtNext::Restart);
    assert!(d.close_transport);
    s.close_requested();
    assert_eq!(s.attempt_begins().next, WtNext::Stop);
    assert!(!s.wake_on_pageshow(true));
}

#[test]
fn datagram_reader_registration() {
    let mut r = DatagramReader::new();
    assert_eq!(r.register(WebTransportState::Connecting), Ok(false));
    assert_eq!(r.register(WebTransportState::Open), Err(()));
    assert!(r.ensure());
    assert!(!r.ensure());
    r.finished();
    assert!(r.ensure());
}

#[test]
fn back_gestures_close_layers_from_the_top() {
    let mut s = BackStack::new();
    assert!(s.listen_once());
    assert!(!s.listen_once());
    let (a, da) = s.register(false);
    let (b, db) = s.register(true);
    assert_eq!((da, db), (1, 2));
    assert!(s.escape_wanted());
    assert!(s.escape_goes_back("Escape", false));
    assert!(!s.escape_goes_back("Escape", true));
    assert!(!s.escape_goes_back("Enter", false));
    let (closed, stale) = s.popstate(1);
    assert_eq!(closed, vec![b]);
    assert!(!stale);
    assert!(!s.escape_goes_back("Escape", false));
    let (closed, stale) = s.popstate(0);
    assert_eq!(closed, vec![a]);
    assert!(!stale);
    let (closed, stale) = s.popstate(3);
    assert!(closed.is_empty());
    assert!(stale);
}

#[test]
fn back_stack_closing_out_of_order() {
    let mut s = BackStack::new();
    let (a, _) = s.register(false);
    let (b, _) = s.register(false);
    assert_eq!(s.unregister(a), 0);
    assert_eq!(s.unregister(b), 2);
    assert_eq!(s.unregister(99), 0);
}
