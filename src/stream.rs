//! The decisions a connection's stream takes on the outcome of a
//! non-blocking socket read or write.

use vstd::prelude::*;

verus! {

/// What a non-blocking read or write on a socket came back with.
#[derive(Debug, Clone, Copy, PartialEq, Eq, Structural)]
pub enum IoOutcome {
    /// The call moved this many bytes; a read of 0 bytes means the peer
    /// closed its end.
    Transferred(usize),
    /// The socket was not ready.
    WouldBlock,
    /// The call was interrupted before it moved anything.
    Interrupted,
    /// Any other error.
    Failed,
}

/// Whether the stream stays open after a read: it does while bytes come in
/// or the socket is simply not ready, and closes at end of input or on any
/// error.
pub fn open_after_read(outcome: IoOutcome) -> (r: bool)
    ensures
        r == match outcome {
            IoOutcome::Transferred(n) => n > 0,
            IoOutcome::WouldBlock => true,
            _ => false,
        },
{
    match outcome {
        IoOutcome::Transferred(n) => n > 0,
        IoOutcome::WouldBlock => true,
        IoOutcome::Interrupted => false,
        IoOutcome::Failed => false,
    }
}

/// Whether the stream stays open after a write: only an error other than
/// an unready socket or an interruption closes it.
pub fn open_after_write(outcome: IoOutcome) -> (r: bool)
    ensures
        r == (outcome != IoOutcome::Failed),
{
    match outcome {
        IoOutcome::Failed => false,
        _ => true,
    }
}

} // verus!
