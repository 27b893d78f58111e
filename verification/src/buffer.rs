//! The two caller-owned byte buffers of a session.
//!
//! The incoming buffer has a fixed capacity: transport receives append
//! after the bytes already held, and discard-compaction removes a stale
//! prefix. The outgoing buffer is growable: encode operations append
//! after the queued bytes, a resize grows it exactly to a demanded
//! size, and a full transmit drains it.

use vstd::prelude::*;

use crate::engine::EncodeError;
use crate::engine::EncodeKind;
use crate::engine::SessionEngine;
use crate::engine::Transport;
use crate::engine::TransportError;

verus! {

/// Contents of a buffer after `discard` leading bytes are removed.
pub open spec fn spec_compact(s: Seq<u8>, discard: int) -> Seq<u8> {
    s.subrange(discard, s.len() as int)
}

/// Discarding nothing leaves the contents unchanged.
pub proof fn lemma_compact_none(s: Seq<u8>)
    ensures
        spec_compact(s, 0) == s,
{
    assert(spec_compact(s, 0) =~= s);
}

/// Discarding everything empties the contents.
pub proof fn lemma_compact_all(s: Seq<u8>)
    ensures
        spec_compact(s, s.len() as int) == Seq::<u8>::empty(),
{
    assert(spec_compact(s, s.len() as int) =~= Seq::<u8>::empty());
}

/// Fixed-capacity buffer of session input not yet consumed by the engine.
pub struct IncomingBuffer {
    data: Vec<u8>,
    used: usize,
}

impl View for IncomingBuffer {
    type V = Seq<u8>;

    /// The valid, unread bytes: the occupied prefix of the storage.
    closed spec fn view(&self) -> Seq<u8> {
        self.data@.subrange(0, self.used as int)
    }
}

impl IncomingBuffer {
    pub closed spec fn wf(&self) -> bool {
        self.used <= self.data@.len()
    }

    pub closed spec fn capacity_spec(&self) -> nat {
        self.data@.len()
    }

    pub fn new(capacity: usize) -> (r: Self)
        ensures
            r.wf(),
            r@ == Seq::<u8>::empty(),
            r.capacity_spec() == capacity,
    {
        let data: Vec<u8> = vec![0u8; capacity];
        let r = IncomingBuffer { data, used: 0 };
        proof {
            assert(r@ =~= Seq::<u8>::empty());
        }
        r
    }

    pub fn used(&self) -> (r: usize)
        requires
            self.wf(),
        ensures
            r == self@.len(),
    {
        self.used
    }

    pub fn capacity(&self) -> (r: usize)
        ensures
            r == self.capacity_spec(),
    {
        self.data.len()
    }

    /// The unread bytes, for handing to the engine.
    pub fn unread(&self) -> (r: &[u8])
        requires
            self.wf(),
        ensures
            r@ == self@,
    {
        vstd::slice::slice_subrange(self.data.as_slice(), 0, self.used)
    }

    /// Removes `discard` stale bytes from the front, shifting the rest
    /// down to offset 0.
    pub fn compact(&mut self, discard: usize)
        requires
            old(self).wf(),
            discard <= old(self)@.len(),
        ensures
            final(self).wf(),
            final(self)@ == spec_compact(old(self)@, discard as int),
            final(self).capacity_spec() == old(self).capacity_spec(),
    {
        let keep = self.used - discard;
        let mut i: usize = 0;
        while i < keep
            invariant
                keep == old(self).used - discard,
                discard + keep <= old(self).used <= self.data@.len(),
                i <= keep,
                self.used == old(self).used,
                self.data@.len() == old(self).data@.len(),
                forall|j: int| 0 <= j < i ==> self.data@[j] == old(self).data@[discard + j],
                forall|j: int| i <= j < self.data@.len() ==> self.data@[j] == old(self).data@[j],
            decreases keep - i,
        {
            let b = self.data[discard + i];
            proof {
                assert(old(self).data@[discard + i] == b);
            }
            self.data[i] = b;
            i = i + 1;
        }
        self.used = keep;
        proof {
            assert(self@ =~= spec_compact(old(self)@, discard as int));
        }
    }

    /// Appends bytes read from the transport after the bytes already
    /// held. The contents of the new bytes are whatever the peer sent;
    /// only the old bytes are promised unchanged.
    pub fn recv_from<T: Transport>(&mut self, transport: &mut T) -> (r: Result<
        usize,
        TransportError,
    >)
        requires
            old(self).wf(),
        ensures
            final(self).wf(),
            final(self).capacity_spec() == old(self).capacity_spec(),
            match r {
                Ok(n) => {
                    &&& final(self)@.len() == old(self)@.len() + n
                    &&& final(self)@.subrange(0, old(self)@.len() as int) == old(self)@
                },
                Err(_) => final(self)@ == old(self)@,
            },
    {
        match transport.receive(&mut self.data, self.used) {
            Ok(n) => {
                let cap = self.data.len();
                proof {
                    assert(self.used + n <= cap);
                }
                self.used = self.used + n;
                proof {
                    assert(self@.subrange(0, old(self)@.len() as int) =~= old(self)@);
                }
                Ok(n)
            },
            Err(e) => {
                proof {
                    assert(self@ =~= old(self)@);
                }
                Err(e)
            },
        }
    }
}

/// Growable buffer of queued, unsent session output.
pub struct OutgoingBuffer {
    data: Vec<u8>,
    used: usize,
}

impl View for OutgoingBuffer {
    type V = Seq<u8>;

    /// The queued, unsent bytes: the occupied prefix of the storage.
    closed spec fn view(&self) -> Seq<u8> {
        self.data@.subrange(0, self.used as int)
    }
}

impl OutgoingBuffer {
    pub closed spec fn wf(&self) -> bool {
        self.used <= self.data@.len()
    }

    pub closed spec fn capacity_spec(&self) -> nat {
        self.data@.len()
    }

    /// Unoccupied space after the queued bytes.
    pub open spec fn free_spec(&self) -> int {
        self.capacity_spec() - self@.len()
    }

    pub fn new(initial_capacity: usize) -> (r: Self)
        ensures
            r.wf(),
            r@ == Seq::<u8>::empty(),
            r.capacity_spec() == initial_capacity,
    {
        let data: Vec<u8> = vec![0u8; initial_capacity];
        let r = OutgoingBuffer { data, used: 0 };
        proof {
            assert(r@ =~= Seq::<u8>::empty());
        }
        r
    }

    pub fn used(&self) -> (r: usize)
        requires
            self.wf(),
        ensures
            r == self@.len(),
    {
        self.used
    }

    pub fn capacity(&self) -> (r: usize)
        ensures
            r == self.capacity_spec(),
    {
        self.data.len()
    }

    pub fn free_len(&self) -> (r: usize)
        requires
            self.wf(),
        ensures
            r == self.free_spec(),
    {
        self.data.len() - self.used
    }

    /// Grows the storage to exactly `new_len` bytes; the added filler
    /// bytes are zero and are never part of the queued contents until
    /// an encode operation overwrites them.
    pub fn grow_to(&mut self, new_len: usize)
        requires
            old(self).wf(),
            new_len >= old(self).capacity_spec(),
        ensures
            final(self).wf(),
            final(self)@ == old(self)@,
            final(self).capacity_spec() == new_len,
    {
        self.data.resize(new_len, 0u8);
        proof {
            assert(self@ =~= old(self)@);
        }
    }

    /// Lets the engine encode into the free tail, then counts the
    /// written bytes as queued. The contract restates the engine's:
    /// the queued bytes only grow, an insufficient-size report is
    /// honest, and with `required_size` free bytes no such report
    /// comes back.
    pub fn encode_with<E: SessionEngine>(
        &mut self,
        engine: &mut E,
        kind: EncodeKind,
        payload: &[u8],
    ) -> (r: Result<usize, EncodeError>)
        requires
            old(self).wf(),
        ensures
            final(self).wf(),
            final(self).capacity_spec() == old(self).capacity_spec(),
            match r {
                Ok(written) => {
                    &&& final(self)@.len() == old(self)@.len() + written
                    &&& final(self)@.subrange(0, old(self)@.len() as int) == old(self)@
                    &&& written <= old(self).free_spec()
                },
                Err(EncodeError::InsufficientSize(required)) => {
                    &&& required == old(engine).required_size(kind, payload@)
                    &&& old(self).free_spec() < required
                    &&& final(self)@ == old(self)@
                    &&& *final(engine) == *old(engine)
                },
                Err(EncodeError::Rejected) => final(self)@ == old(self)@,
            },
            old(self).free_spec() >= old(engine).required_size(kind, payload@)
                ==> !(r matches Err(EncodeError::InsufficientSize(_))),
            old(self).free_spec() < old(engine).required_size(kind, payload@) ==> !(r is Ok),
    {
        match engine.encode_into(kind, payload, &mut self.data, self.used) {
            Ok(written) => {
                let cap = self.data.len();
                proof {
                    assert(self.used + written <= cap);
                }
                self.used = self.used + written;
                proof {
                    assert(self@.subrange(0, old(self)@.len() as int) =~= old(self)@);
                }
                Ok(written)
            },
            Err(e) => {
                proof {
                    assert(self@ =~= old(self)@);
                }
                Err(e)
            },
        }
    }

    /// Transmits every queued byte over the transport as one unit; on
    /// success the buffer is drained.
    pub fn send_over<T: Transport>(&mut self, transport: &mut T) -> (r: Result<
        (),
        TransportError,
    >)
        requires
            old(self).wf(),
        ensures
            final(self).wf(),
            final(self).capacity_spec() == old(self).capacity_spec(),
            match r {
                Ok(()) => final(self)@ == Seq::<u8>::empty(),
                Err(_) => final(self)@ == old(self)@,
            },
    {
        let queued = vstd::slice::slice_subrange(self.data.as_slice(), 0, self.used);
        match transport.transmit(queued) {
            Ok(()) => {
                self.used = 0;
                proof {
                    assert(self@ =~= Seq::<u8>::empty());
                }
                Ok(())
            },
            Err(e) => Err(e),
        }
    }
}

} // verus!
