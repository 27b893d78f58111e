//! The interfaces the driver consumes: the external session engine and
//! the transport.
//!
//! The engine is the opaque protocol state machine. Each query returns
//! the next required state together with a count of leading incoming
//! bytes that are now stale. The driver implements neither handshake
//! logic nor record parsing; it only reacts to the reported states.
//! The transport carries raw session bytes; how it is implemented is a
//! caller concern.

use vstd::prelude::*;

verus! {

/// The session states this driver reacts to, reported by the engine.
///
/// `Other` stands for any state outside the set expected for a
/// client-initiated request/response session; the driver treats it as
/// a fatal condition.
#[derive(Clone, Copy, Debug, PartialEq, Eq, Structural)]
pub enum ConnectionState {
    /// The engine has handshake bytes to place into the outgoing buffer.
    MustEncodeTlsData,
    /// The queued outgoing bytes must be transmitted. The two flags say
    /// whether the engine currently offers early-data encryption and
    /// application-data encryption for this state.
    MustTransmitTlsData { may_encrypt_early_data: bool, may_encrypt_app_data: bool },
    /// The engine cannot make progress without more incoming bytes.
    NeedsMoreTlsData,
    /// The handshake is complete enough for application traffic.
    TrafficTransit,
    /// Decrypted application records are ready to be drained.
    AppDataAvailable,
    /// The session has fully closed; no further I/O occurs.
    ConnectionClosed,
    /// Any state outside the enumerated set.
    Other,
}

/// A state report: the next state plus how many leading bytes of the
/// unread incoming region are now stale and must be removed.
#[derive(Clone, Copy, Debug, PartialEq, Eq, Structural)]
pub struct UnbufferedStatus {
    pub discard: usize,
    pub state: ConnectionState,
}

/// Which encode capability of the engine an encode call exercises.
#[derive(Clone, Copy, Debug, PartialEq, Eq, Structural)]
pub enum EncodeKind {
    /// Handshake bytes demanded by `MustEncodeTlsData`.
    Handshake,
    /// The one-shot early-data payload.
    EarlyData,
    /// The one-shot application payload.
    AppData,
    /// The close/termination signal.
    CloseNotify,
}

/// Failure of an engine encode operation.
#[derive(Clone, Copy, Debug, PartialEq, Eq, Structural)]
pub enum EncodeError {
    /// The free output space is too small; the engine reports how many
    /// bytes it needs in all.
    InsufficientSize(usize),
    /// Any other encode failure; never retried.
    Rejected,
}

/// An engine-side protocol failure: malformed records, or a decode or
/// decrypt error. Always fatal for the session.
#[derive(Clone, Copy, Debug, PartialEq, Eq, Structural)]
pub enum EngineError {
    Malformed,
    Crypto,
}

/// A transport failure. Always fatal for the session.
#[derive(Clone, Copy, Debug, PartialEq, Eq, Structural)]
pub enum TransportError {
    /// The peer closed or aborted the connection.
    Closed,
    /// A read or write failed, including a partial write.
    Failed,
}

/// One decrypted application record, with its own contribution to the
/// discard count.
#[derive(Debug)]
pub struct AppDataRecord {
    pub discard: usize,
    pub payload: Vec<u8>,
}

/// The external session engine, consumed (not implemented) by the
/// driver.
///
/// The contracts state only what the driver needs in order to keep its
/// buffers well formed: an encode call may touch nothing but the free
/// tail of the output storage, and an insufficient-size report must be
/// honest, i.e. name the one size `required_size` that was in fact
/// missing. Nothing here promises that any operation succeeds; the
/// driver says what holds whatever the engine decides.
pub trait SessionEngine: Sized {
    /// The total free-space demand of an encode of `kind` for
    /// `payload`, in the engine's current state.
    spec fn required_size(&self, kind: EncodeKind, payload: Seq<u8>) -> nat;

    /// How many decrypted records are still to be drained.
    spec fn records_remaining(&self) -> nat;

    /// Parses as much as possible from the unread incoming bytes and
    /// reports the next required state plus the stale-prefix count.
    fn process_tls_records(&mut self, input: &[u8]) -> (r: Result<UnbufferedStatus, EngineError>);

    /// Encodes into `buf[used..]`. Returns how many bytes were written,
    /// or `InsufficientSize` naming the whole demanded free space.
    /// `required_size` is the exact threshold: with that much free
    /// space the size is never reported insufficient, with less the
    /// encode never succeeds.
    fn encode_into(
        &mut self,
        kind: EncodeKind,
        payload: &[u8],
        buf: &mut Vec<u8>,
        used: usize,
    ) -> (r: Result<usize, EncodeError>)
        requires
            used <= old(buf).len(),
        ensures
            final(buf)@.len() == old(buf)@.len(),
            final(buf)@.subrange(0, used as int) == old(buf)@.subrange(0, used as int),
            match r {
                Ok(written) => used + written <= final(buf)@.len(),
                Err(EncodeError::InsufficientSize(required)) => {
                    &&& required == old(self).required_size(kind, payload@)
                    &&& old(buf)@.len() - used < required
                    &&& final(buf)@ == old(buf)@
                    &&& *final(self) == *old(self)
                },
                Err(EncodeError::Rejected) => final(buf)@ == old(buf)@,
            },
            old(buf)@.len() - used >= old(self).required_size(kind, payload@)
                ==> !(r matches Err(EncodeError::InsufficientSize(_))),
            old(buf)@.len() - used < old(self).required_size(kind, payload@) ==> !(r is Ok),
    ;

    /// Acknowledges that the queued bytes of a `MustTransmitTlsData`
    /// state have been transmitted.
    fn transmit_done(&mut self);

    /// The next decrypted record while in `AppDataAvailable`; `None`
    /// once the finite sequence is drained.
    fn next_record(&mut self) -> (r: Option<Result<AppDataRecord, EngineError>>)
        ensures
            r matches Some(_) ==> final(self).records_remaining() < old(self).records_remaining(),
            r is None ==> final(self).records_remaining() <= old(self).records_remaining(),
    ;
}

/// The transport the driver sends and receives raw bytes over.
///
/// A receive may place bytes only into the free tail of the buffer; a
/// zero-byte read is allowed and may mean the peer has nothing yet or
/// has closed. A transmit is all-or-nothing: `Ok` means every byte was
/// sent, and a partial write must be reported as a failure.
pub trait Transport: Sized {
    /// Reads bytes into `buf[used..]`; returns how many were read.
    fn receive(&mut self, buf: &mut Vec<u8>, used: usize) -> (r: Result<usize, TransportError>)
        requires
            used <= old(buf).len(),
        ensures
            final(buf)@.len() == old(buf)@.len(),
            final(buf)@.subrange(0, used as int) == old(buf)@.subrange(0, used as int),
            r matches Ok(n) ==> used + n <= final(buf)@.len(),
    ;

    /// Sends all of `data`, or fails.
    fn transmit(&mut self, data: &[u8]) -> (r: Result<(), TransportError>);
}

} // verus!
