//! The fatal conditions that abort a session.
//!
//! Every variant terminates the session without a graceful close; a
//! well-behaved close happens only on the designed terminal path.

use vstd::prelude::*;

use crate::engine::EncodeError;
use crate::engine::EngineError;
use crate::engine::TransportError;

verus! {

#[derive(Clone, Copy, Debug, PartialEq, Eq, Structural)]
pub enum SessionError {
    /// The incoming buffer is full and no byte can be received.
    CapacityExhausted,
    /// An encode failed unrecoverably: either an error other than an
    /// insufficient size, or the single permitted retry failed too.
    Encode(EncodeError),
    /// The engine reported a protocol failure.
    Engine(EngineError),
    /// The transport failed to read or to write in full.
    Transport(TransportError),
    /// The iteration bound was exceeded before the session closed.
    IterationLimit,
    /// The engine reported a state outside the expected set.
    UnexpectedState,
    /// The engine asked to discard more bytes than are held, a
    /// contract defect on its side.
    DiscardOverflow,
    /// A demanded buffer size does not fit the address space.
    SizeOverflow,
    /// The session ended without the exact one-request, one-response
    /// exchange and drained buffers that the driver owes its caller.
    ExitInvariantViolated,
}

} // verus!
