//! The decisions of the byte-level transport, over plain outcomes of its
//! reads and writes. The sockets themselves stay outside the library.

use vstd::prelude::*;

verus! {

/// A read of fewer bytes than this is taken for a closed or invalid stream.
pub const MIN_PACKET_LEN: usize = 5;

/// How a read or a write on a stream failed.
#[derive(Clone, Copy, Debug, PartialEq, Eq, Structural)]
pub enum IoFailure {
    ConnectionReset,
    BrokenPipe,
    WouldBlock,
    Other,
}

/// What a read on a stream gave.
#[derive(Clone, Copy, Debug, PartialEq, Eq, Structural)]
pub enum ReadOutcome {
    /// This many bytes arrived.
    Received(usize),
    Failed(IoFailure),
}

/// What to do after a read.
#[derive(Clone, Copy, Debug, PartialEq, Eq, Structural)]
pub enum ReadStep {
    /// Decode the bytes and deliver the messages, then read again.
    Deliver,
    /// Mark the stream inactive and go on with the next one.
    Deactivate,
    /// Mark the stream inactive, report the peer as disconnected and go on
    /// with the next one.
    Disconnect,
    /// Nothing more to read from this stream now.
    Stop,
}

/// The server's decision after reading from a client's stream.
pub open spec fn spec_server_read_step(outcome: ReadOutcome) -> ReadStep {
    match outcome {
        ReadOutcome::Received(n) => if n < MIN_PACKET_LEN {
            ReadStep::Deactivate
        } else {
            ReadStep::Deliver
        },
        ReadOutcome::Failed(IoFailure::ConnectionReset) => ReadStep::Disconnect,
        ReadOutcome::Failed(_) => ReadStep::Stop,
    }
}

/// The client's decision after reading from the server's stream.
pub open spec fn spec_client_read_step(outcome: ReadOutcome) -> ReadStep {
    match outcome {
        ReadOutcome::Received(n) => if n < MIN_PACKET_LEN {
            ReadStep::Stop
        } else {
            ReadStep::Deliver
        },
        ReadOutcome::Failed(IoFailure::ConnectionReset) => ReadStep::Disconnect,
        ReadOutcome::Failed(_) => ReadStep::Stop,
    }
}

pub fn server_read_step(outcome: ReadOutcome) -> (r: ReadStep)
    ensures
        r == spec_server_read_step(outcome),
{
    match outcome {
        ReadOutcome::Received(n) => if n < MIN_PACKET_LEN {
            ReadStep::Deactivate
        } else {
            ReadStep::Deliver
        },
        ReadOutcome::Failed(IoFailure::ConnectionReset) => ReadStep::Disconnect,
        ReadOutcome::Failed(_) => ReadStep::Stop,
    }
}

pub fn client_read_step(outcome: ReadOutcome) -> (r: ReadStep)
    ensures
        r == spec_client_read_step(outcome),
{
    match outcome {
        ReadOutcome::Received(n) => if n < MIN_PACKET_LEN {
            ReadStep::Stop
        } else {
            ReadStep::Deliver
        },
        ReadOutcome::Failed(IoFailure::ConnectionReset) => ReadStep::Disconnect,
        ReadOutcome::Failed(_) => ReadStep::Stop,
    }
}

/// Whether a failed write means that the peer went away.
pub fn write_failure_disconnects(failure: IoFailure) -> (r: bool)
    ensures
        r == (failure == IoFailure::ConnectionReset || failure == IoFailure::BrokenPipe),
{
    match failure {
        IoFailure::ConnectionReset | IoFailure::BrokenPipe => true,
        _ => false,
    }
}

} // verus!
