//! Deterministic, scripted implementations of the engine and
//! transport interfaces.
//!
//! A scripted engine replays a fixed list of state reports and encodes
//! bytes of known shape; a scripted transport serves incoming bytes
//! from a fixed list of chunks and records every transmission. They
//! make a session fully reproducible: capacity exhaustion, livelock,
//! early data and the end-to-end exchange can all be played out
//! without a real peer.

use vstd::prelude::*;

use crate::engine::AppDataRecord;
use crate::engine::ConnectionState;
use crate::engine::EncodeError;
use crate::engine::EncodeKind;
use crate::engine::EngineError;
use crate::engine::SessionEngine;
use crate::engine::Transport;
use crate::engine::TransportError;
use crate::engine::UnbufferedStatus;

verus! {

/// Filler byte a scripted handshake encode writes.
pub const HANDSHAKE_FILL: u8 = 22;

/// The two bytes a scripted close-notify encode writes.
pub const CLOSE_FIRST: u8 = 21;

pub const CLOSE_SECOND: u8 = 0;

/// Copies a byte slice into a fresh vector.
fn to_byte_vec(src: &[u8]) -> (r: Vec<u8>)
    ensures
        r@ == src@,
{
    let n = src.len();
    let mut r: Vec<u8> = Vec::new();
    let mut i: usize = 0;
    while i < n
        invariant
            0 <= i <= n,
            n == src@.len(),
            r@ == src@.subrange(0, i as int),
        decreases n - i,
    {
        r.push(src[i]);
        proof {
            assert(r@ =~= src@.subrange(0, i + 1));
        }
        i = i + 1;
    }
    proof {
        assert(r@ =~= src@);
    }
    r
}

fn copy_records(src: &Vec<AppDataRecord>) -> (r: Vec<AppDataRecord>)
    ensures
        r@.len() == src@.len(),
{
    let n = src.len();
    let mut r: Vec<AppDataRecord> = Vec::new();
    let mut i: usize = 0;
    while i < n
        invariant
            0 <= i <= n,
            n == src@.len(),
            r@.len() == i,
        decreases n - i,
    {
        let payload = to_byte_vec(src[i].payload.as_slice());
        let discard = src[i].discard;
        r.push(AppDataRecord { discard, payload });
        i = i + 1;
    }
    r
}

/// What a scripted engine reports for one iteration.
pub enum ScriptState {
    /// Report `MustEncodeTlsData`; a handshake encode then demands
    /// `need` free bytes and writes that many filler bytes.
    Encode { need: usize },
    /// Report `MustTransmitTlsData` with the two capability flags.
    Transmit { offer_early: bool, offer_app: bool },
    /// Report `NeedsMoreTlsData`.
    NeedData,
    /// Report `TrafficTransit`.
    Traffic,
    /// Report `AppDataAvailable`; the step's records are then drained.
    Data,
    /// Report `ConnectionClosed`.
    Closed,
    /// Report a protocol failure instead of a state.
    Fail,
    /// Report a state outside the expected set.
    Other,
}

/// One scripted state report.
pub struct ScriptStep {
    /// Stale-prefix count reported with the state.
    pub discard: usize,
    pub state: ScriptState,
    /// Decrypted records served while the reported state is `Data`.
    pub records: Vec<AppDataRecord>,
}

/// An engine that replays a fixed script. Once the script is
/// exhausted every further query reports the session closed.
///
/// Its encodes are deterministic: a handshake encode demands the
/// scripted size and writes filler, an early-data or application
/// encode writes the payload through unchanged, and a close encode
/// writes a fixed two-byte signal. An encode into less free space
/// than demanded reports `InsufficientSize` naming the demand.
pub struct ScriptedEngine {
    steps: Vec<ScriptStep>,
    pos: usize,
    cur_need: usize,
    records: Vec<AppDataRecord>,
    rec_pos: usize,
    reject_encodes: bool,
}

impl ScriptedEngine {
    pub fn new(steps: Vec<ScriptStep>) -> (r: Self)
        ensures
            r.records_remaining() == 0,
    {
        ScriptedEngine {
            steps,
            pos: 0,
            cur_need: 0,
            records: Vec::new(),
            rec_pos: 0,
            reject_encodes: false,
        }
    }

    /// An engine whose every encode fails with the unrecoverable
    /// error, whatever the free space.
    pub fn new_rejecting(steps: Vec<ScriptStep>) -> (r: Self)
        ensures
            r.records_remaining() == 0,
    {
        ScriptedEngine {
            steps,
            pos: 0,
            cur_need: 0,
            records: Vec::new(),
            rec_pos: 0,
            reject_encodes: true,
        }
    }
}

impl SessionEngine for ScriptedEngine {
    closed spec fn required_size(&self, kind: EncodeKind, payload: Seq<u8>) -> nat {
        match kind {
            EncodeKind::Handshake => self.cur_need as nat,
            EncodeKind::EarlyData => payload.len(),
            EncodeKind::AppData => payload.len(),
            EncodeKind::CloseNotify => 2,
        }
    }

    closed spec fn records_remaining(&self) -> nat {
        if self.rec_pos <= self.records@.len() {
            (self.records@.len() - self.rec_pos) as nat
        } else {
            0
        }
    }

    fn process_tls_records(&mut self, input: &[u8]) -> (r: Result<UnbufferedStatus, EngineError>) {
        if self.pos >= self.steps.len() {
            return Ok(UnbufferedStatus { discard: 0, state: ConnectionState::ConnectionClosed });
        }
        let discard = self.steps[self.pos].discard;
        let state = match self.steps[self.pos].state {
            ScriptState::Encode { need } => {
                self.cur_need = need;
                ConnectionState::MustEncodeTlsData
            },
            ScriptState::Transmit { offer_early, offer_app } => {
                ConnectionState::MustTransmitTlsData {
                    may_encrypt_early_data: offer_early,
                    may_encrypt_app_data: offer_app,
                }
            },
            ScriptState::NeedData => ConnectionState::NeedsMoreTlsData,
            ScriptState::Traffic => ConnectionState::TrafficTransit,
            ScriptState::Data => {
                let records = copy_records(&self.steps[self.pos].records);
                self.records = records;
                self.rec_pos = 0;
                ConnectionState::AppDataAvailable
            },
            ScriptState::Closed => ConnectionState::ConnectionClosed,
            ScriptState::Fail => {
                self.pos = self.pos + 1;
                return Err(EngineError::Malformed);
            },
            ScriptState::Other => ConnectionState::Other,
        };
        self.pos = self.pos + 1;
        Ok(UnbufferedStatus { discard, state })
    }

    fn encode_into(
        &mut self,
        kind: EncodeKind,
        payload: &[u8],
        buf: &mut Vec<u8>,
        used: usize,
    ) -> (r: Result<usize, EncodeError>) {
        if self.reject_encodes {
            return Err(EncodeError::Rejected);
        }
        let need = match kind {
            EncodeKind::Handshake => self.cur_need,
            EncodeKind::EarlyData => payload.len(),
            EncodeKind::AppData => payload.len(),
            EncodeKind::CloseNotify => 2,
        };
        let buf_len = buf.len();
        let free = buf_len - used;
        if free < need {
            return Err(EncodeError::InsufficientSize(need));
        }
        match kind {
            EncodeKind::Handshake => {
                let mut i: usize = 0;
                while i < need
                    invariant
                        0 <= i <= need,
                        used + need <= buf_len,
                        buf_len == buf@.len(),
                        buf@.len() == old(buf)@.len(),
                        buf@.subrange(0, used as int) == old(buf)@.subrange(0, used as int),
                    decreases need - i,
                {
                    buf[used + i] = HANDSHAKE_FILL;
                    proof {
                        assert(buf@.subrange(0, used as int) =~= old(buf)@.subrange(
                            0,
                            used as int,
                        ));
                    }
                    i = i + 1;
                }
            },
            EncodeKind::EarlyData | EncodeKind::AppData => {
                let mut i: usize = 0;
                while i < need
                    invariant
                        0 <= i <= need,
                        need == payload@.len(),
                        used + need <= buf_len,
                        buf_len == buf@.len(),
                        buf@.len() == old(buf)@.len(),
                        buf@.subrange(0, used as int) == old(buf)@.subrange(0, used as int),
                    decreases need - i,
                {
                    buf[used + i] = payload[i];
                    proof {
                        assert(buf@.subrange(0, used as int) =~= old(buf)@.subrange(
                            0,
                            used as int,
                        ));
                    }
                    i = i + 1;
                }
            },
            EncodeKind::CloseNotify => {
                buf[used] = CLOSE_FIRST;
                buf[used + 1] = CLOSE_SECOND;
                proof {
                    assert(buf@.subrange(0, used as int) =~= old(buf)@.subrange(0, used as int));
                }
            },
        }
        Ok(need)
    }

    fn transmit_done(&mut self) {
    }

    fn next_record(&mut self) -> (r: Option<Result<AppDataRecord, EngineError>>) {
        if self.rec_pos >= self.records.len() {
            return None;
        }
        let payload = to_byte_vec(self.records[self.rec_pos].payload.as_slice());
        let discard = self.records[self.rec_pos].discard;
        self.rec_pos = self.rec_pos + 1;
        Some(Ok(AppDataRecord { discard, payload }))
    }
}

/// A transport that serves scripted chunks of incoming bytes and
/// records every transmission.
///
/// Each receive hands out as much of the current chunk as fits the
/// free space; an exhausted script, and each boundary between chunks,
/// yields a zero-byte read. That reproduces arbitrary fragmentation
/// of one byte stream across receive calls.
pub struct ScriptedTransport {
    chunks: Vec<Vec<u8>>,
    chunk_pos: usize,
    offset: usize,
    sent: Vec<Vec<u8>>,
    fail_io: bool,
}

impl ScriptedTransport {
    pub closed spec fn sent_spec(&self) -> Seq<Vec<u8>> {
        self.sent@
    }

    pub fn new(chunks: Vec<Vec<u8>>) -> (r: Self)
        ensures
            r.sent_spec() == Seq::<Vec<u8>>::empty(),
    {
        let r = ScriptedTransport {
            chunks,
            chunk_pos: 0,
            offset: 0,
            sent: Vec::new(),
            fail_io: false,
        };
        proof {
            assert(r.sent_spec() =~= Seq::<Vec<u8>>::empty());
        }
        r
    }

    /// A transport on which every read and every write reports the
    /// connection closed.
    pub fn closed() -> (r: Self)
        ensures
            r.sent_spec() == Seq::<Vec<u8>>::empty(),
    {
        let r = ScriptedTransport {
            chunks: Vec::new(),
            chunk_pos: 0,
            offset: 0,
            sent: Vec::new(),
            fail_io: true,
        };
        proof {
            assert(r.sent_spec() =~= Seq::<Vec<u8>>::empty());
        }
        r
    }

    /// Everything transmitted so far, one entry per transmit call.
    pub fn sent(&self) -> (r: &Vec<Vec<u8>>)
        ensures
            r@ == self.sent_spec(),
    {
        &self.sent
    }
}

impl Transport for ScriptedTransport {
    fn receive(&mut self, buf: &mut Vec<u8>, used: usize) -> (r: Result<usize, TransportError>) {
        if self.fail_io {
            return Err(TransportError::Closed);
        }
        if self.chunk_pos >= self.chunks.len() {
            return Ok(0);
        }
        let clen = self.chunks[self.chunk_pos].len();
        if self.offset >= clen {
            self.chunk_pos = self.chunk_pos + 1;
            self.offset = 0;
            return Ok(0);
        }
        let free = buf.len() - used;
        let avail = clen - self.offset;
        let n = if avail < free {
            avail
        } else {
            free
        };
        let buf_len = buf.len();
        let mut i: usize = 0;
        while i < n
            invariant
                0 <= i <= n,
                used + n <= buf_len,
                buf_len == buf@.len(),
                buf@.len() == old(buf)@.len(),
                buf@.subrange(0, used as int) == old(buf)@.subrange(0, used as int),
                self.chunk_pos < self.chunks@.len(),
                self.offset + n <= clen,
                clen == self.chunks@[self.chunk_pos as int]@.len(),
                *self == *old(self),
            decreases n - i,
        {
            let b = self.chunks[self.chunk_pos][self.offset + i];
            buf[used + i] = b;
            proof {
                assert(buf@.subrange(0, used as int) =~= old(buf)@.subrange(0, used as int));
            }
            i = i + 1;
        }
        self.offset = self.offset + n;
        if self.offset >= clen {
            self.chunk_pos = self.chunk_pos + 1;
            self.offset = 0;
        }
        Ok(n)
    }

    fn transmit(&mut self, data: &[u8]) -> (r: Result<(), TransportError>) {
        if self.fail_io {
            return Err(TransportError::Closed);
        }
        let copy = to_byte_vec(data);
        self.sent.push(copy);
        Ok(())
    }
}

} // verus!
