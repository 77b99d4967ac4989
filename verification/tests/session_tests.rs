use serial_relay::messages::Connect;
use serial_relay::messages::Disconnect;
use serial_relay::registry::Registry;
use serial_relay::session::HeartbeatAction;
use serial_relay::session::Session;
use serial_relay::session::SessionAction;
use serial_relay::session::SessionState;
use serial_relay::session::TransportEvent;
use serial_relay::session::CLIENT_TIMEOUT;
use serial_relay::session::HEARTBEAT_INTERVAL;

#[test]
fn timeout_is_two_heartbeat_cycles() {
    assert_eq!(CLIENT_TIMEOUT, 2 * HEARTBEAT_INTERVAL);
}

#[test]
fn new_session_is_starting() {
    let s = Session::new(3);
    assert_eq!(s.state, SessionState::Starting);
    assert_eq!(s.id, None);
    assert_eq!(s.last_seen, 3);
}

#[test]
fn successful_connect_activates() {
    let mut s = Session::new(0);
    let a = s.on_connect_result(Some(7));
    assert_eq!(a, SessionAction::Ignore);
    assert_eq!(s.state, SessionState::Active);
    assert_eq!(s.id, Some(7));
}

#[test]
fn failed_connect_stops_before_anything_else() {
    let mut s = Session::new(0);
    let a = s.on_connect_result(None);
    assert_eq!(a, SessionAction::Stop);
    assert_eq!(s.state, SessionState::Stopped);
    assert_eq!(s.id, None);
}

#[test]
fn ping_refreshes_clock_and_is_answered_with_same_bytes() {
    let mut s = Session::new(0);
    s.on_connect_result(Some(1));
    let a = s.on_transport_event(TransportEvent::Ping(vec![4, 2]), 8);
    assert_eq!(a, SessionAction::Reply(vec![4, 2]));
    assert_eq!(s.last_seen, 8);
    assert_eq!(s.state, SessionState::Active);
}

#[test]
fn pong_refreshes_clock() {
    let mut s = Session::new(0);
    s.on_connect_result(Some(1));
    let a = s.on_transport_event(TransportEvent::Pong(vec![]), 6);
    assert_eq!(a, SessionAction::Ignore);
    assert_eq!(s.last_seen, 6);
}

#[test]
fn inbound_data_is_accepted_but_not_interpreted() {
    let mut s = Session::new(2);
    s.on_connect_result(Some(1));
    let a = s.on_transport_event(TransportEvent::Text(vec![1]), 9);
    assert_eq!(a, SessionAction::Ignore);
    let b = s.on_transport_event(TransportEvent::Binary(vec![2]), 9);
    assert_eq!(b, SessionAction::Ignore);
    let c = s.on_transport_event(TransportEvent::Nop, 9);
    assert_eq!(c, SessionAction::Ignore);
    assert_eq!(s.last_seen, 2);
    assert_eq!(s.state, SessionState::Active);
}

#[test]
fn close_stops_the_session() {
    let mut s = Session::new(0);
    s.on_connect_result(Some(1));
    let a = s.on_transport_event(TransportEvent::Close, 4);
    assert_eq!(a, SessionAction::Stop);
    assert_eq!(s.state, SessionState::Stopped);
}

#[test]
fn heartbeat_within_threshold_probes() {
    let mut s = Session::new(0);
    s.on_connect_result(Some(1));
    let a = s.heartbeat_tick(CLIENT_TIMEOUT);
    assert_eq!(a, HeartbeatAction::Probe);
    assert_eq!(s.state, SessionState::Active);
}

#[test]
fn heartbeat_past_threshold_stops_and_disconnect_removes() {
    let mut r: Registry<&str> = Registry::new();
    let id = r.connect(Connect { addr: "a" });
    let mut s = Session::new(0);
    s.on_connect_result(Some(id));
    let a = s.heartbeat_tick(CLIENT_TIMEOUT + 1);
    assert_eq!(a, HeartbeatAction::Stop);
    assert_eq!(s.state, SessionState::Stopped);
    let to_remove = s.on_stop();
    assert_eq!(to_remove, Some(id));
    r.disconnect(Disconnect { id });
    assert!(!r.contains(id));
}

#[test]
fn silent_session_survives_exactly_until_threshold() {
    let mut s = Session::new(5);
    s.on_connect_result(Some(1));
    assert_eq!(s.heartbeat_tick(5 + CLIENT_TIMEOUT), HeartbeatAction::Probe);
    assert_eq!(s.heartbeat_tick(5 + CLIENT_TIMEOUT + 1), HeartbeatAction::Stop);
}

#[test]
fn stop_hands_back_the_registered_id() {
    let mut s = Session::new(0);
    s.on_connect_result(Some(12));
    assert_eq!(s.on_stop(), Some(12));
    assert_eq!(s.state, SessionState::Stopped);
}

#[test]
fn stop_of_unregistered_session_hands_back_nothing() {
    let mut s = Session::new(0);
    assert_eq!(s.on_stop(), None);
}
