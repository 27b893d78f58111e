//! The resize-and-retry encoder.
//!
//! An encode is attempted against the free tail of the outgoing
//! buffer. If the engine reports that the space is insufficient, the
//! buffer is grown to exactly the demanded size — queued bytes plus
//! the reported requirement, never more — and the encode is attempted
//! exactly once more. A failure of the second attempt is fatal: this
//! bounds growth to one resize per call site.

use vstd::prelude::*;

use crate::buffer::OutgoingBuffer;
use crate::engine::EncodeError;
use crate::engine::EncodeKind;
use crate::engine::SessionEngine;
use crate::error::SessionError;

verus! {

/// Attempts the encode, growing the buffer exactly once if the engine
/// demands more space.
///
/// On success the contract pins the resize behaviour down: if the free
/// space already covered the engine's demand, the capacity is
/// untouched; if it did not, the capacity afterwards equals the old
/// queued length plus the demanded size exactly, never more. An
/// unrecoverable failure is never the insufficient-size kind — after
/// the one growth the space provably suffices — and leaves the queued
/// bytes unchanged.
pub fn try_or_resize_and_retry<E: SessionEngine>(
    engine: &mut E,
    kind: EncodeKind,
    payload: &[u8],
    outgoing: &mut OutgoingBuffer,
) -> (r: Result<usize, SessionError>)
    requires
        old(outgoing).wf(),
    ensures
        final(outgoing).wf(),
        match r {
            Ok(written) => {
                &&& final(outgoing)@.len() == old(outgoing)@.len() + written
                &&& final(outgoing)@.subrange(0, old(outgoing)@.len() as int) == old(outgoing)@
                &&& final(outgoing).capacity_spec() >= old(outgoing).capacity_spec()
                &&& (old(outgoing).free_spec() >= old(engine).required_size(kind, payload@)
                    ==> final(outgoing).capacity_spec() == old(outgoing).capacity_spec())
                &&& (old(outgoing).free_spec() < old(engine).required_size(kind, payload@)
                    ==> final(outgoing).capacity_spec() == old(outgoing)@.len() + old(
                        engine,
                    ).required_size(kind, payload@))
                &&& (final(outgoing).capacity_spec() != old(outgoing).capacity_spec()
                    ==> final(outgoing).capacity_spec() == old(outgoing)@.len() + old(
                        engine,
                    ).required_size(kind, payload@))
            },
            Err(SessionError::Encode(e)) => {
                &&& e == EncodeError::Rejected
                &&& final(outgoing)@ == old(outgoing)@
                &&& final(outgoing).capacity_spec() >= old(outgoing).capacity_spec()
            },
            Err(SessionError::SizeOverflow) => {
                &&& final(outgoing)@ == old(outgoing)@
                &&& final(outgoing).capacity_spec() == old(outgoing).capacity_spec()
            },
            Err(_) => false,
        },
{
    match outgoing.encode_with(engine, kind, payload) {
        Ok(written) => Ok(written),
        Err(EncodeError::InsufficientSize(required)) => {
            let queued = outgoing.used();
            if usize::MAX - queued < required {
                return Err(SessionError::SizeOverflow);
            }
            let new_len = queued + required;
            outgoing.grow_to(new_len);
            match outgoing.encode_with(engine, kind, payload) {
                Ok(written) => Ok(written),
                Err(e) => {
                    proof {
                        // With `required` free bytes the engine may not
                        // report the size insufficient again.
                        assert(!(e matches EncodeError::InsufficientSize(_)));
                    }
                    Err(SessionError::Encode(e))
                },
            }
        },
        Err(e) => Err(SessionError::Encode(e)),
    }
}

} // verus!
