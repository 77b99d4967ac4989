use serial_relay::bridge::bridge_step;
use serial_relay::bridge::BridgeAction;
use serial_relay::bridge::ReadResult;
use serial_relay::messages::SerialMessage;

#[test]
fn successful_read_broadcasts_exactly_the_bytes_read() {
    let buf: Vec<u8> = vec![10, 20, 30, 0, 0];
    let a = bridge_step(&buf, ReadResult::Received(3));
    assert_eq!(a, BridgeAction::Broadcast(SerialMessage { data: vec![10, 20, 30] }));
}

#[test]
fn full_buffer_read_broadcasts_whole_buffer() {
    let buf: Vec<u8> = vec![1, 2];
    let a = bridge_step(&buf, ReadResult::Received(2));
    assert_eq!(a, BridgeAction::Broadcast(SerialMessage { data: vec![1, 2] }));
}

#[test]
fn empty_read_is_skipped() {
    let buf: Vec<u8> = vec![1, 2, 3];
    assert_eq!(bridge_step(&buf, ReadResult::Received(0)), BridgeAction::Continue);
}

#[test]
fn timeout_is_skipped() {
    let buf: Vec<u8> = vec![1, 2, 3];
    assert_eq!(bridge_step(&buf, ReadResult::TimedOut), BridgeAction::Continue);
}

#[test]
fn other_read_error_is_fatal_to_the_bridge() {
    let buf: Vec<u8> = vec![];
    assert_eq!(bridge_step(&buf, ReadResult::Failed), BridgeAction::Fail);
}
