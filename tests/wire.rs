use net_sync::transport::wire::{
    client_read_step, server_read_step, write_failure_disconnects, IoFailure, ReadOutcome,
    ReadStep, MIN_PACKET_LEN,
};

#[test]
fn server_read_steps() {
    assert_eq!(MIN_PACKET_LEN, 5);
    assert_eq!(server_read_step(ReadOutcome::Received(0)), ReadStep::Deactivate);
    assert_eq!(server_read_step(ReadOutcome::Received(4)), ReadStep::Deactivate);
    assert_eq!(server_read_step(ReadOutcome::Received(5)), ReadStep::Deliver);
    assert_eq!(
        server_read_step(ReadOutcome::Failed(IoFailure::ConnectionReset)),
        ReadStep::Disconnect
    );
    assert_eq!(server_read_step(ReadOutcome::Failed(IoFailure::WouldBlock)), ReadStep::Stop);
    assert_eq!(server_read_step(ReadOutcome::Failed(IoFailure::Other)), ReadStep::Stop);
}

#[test]
fn client_read_steps() {
    assert_eq!(client_read_step(ReadOutcome::Received(4)), ReadStep::Stop);
    assert_eq!(client_read_step(ReadOutcome::Received(64)), ReadStep::Deliver);
    assert_eq!(
        client_read_step(ReadOutcome::Failed(IoFailure::ConnectionReset)),
        ReadStep::Disconnect
    );
    assert_eq!(client_read_step(ReadOutcome::Failed(IoFailure::BrokenPipe)), ReadStep::Stop);
}

#[test]
fn write_failures_that_disconnect() {
    assert!(write_failure_disconnects(IoFailure::ConnectionReset));
    assert!(write_failure_disconnects(IoFailure::BrokenPipe));
    assert!(!write_failure_disconnects(IoFailure::WouldBlock));
    assert!(!write_failure_disconnects(IoFailure::Other));
}
