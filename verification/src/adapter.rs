//! The application-data adapter.
//!
//! It builds the one-shot outgoing payload (an HTTP request), queues
//! it at most once per session, and classifies decrypted inbound
//! records: a payload that begins with the `HTTP` marker starts a
//! response, anything else continues one. The marker check is a
//! demonstration heuristic, not a framing protocol.

use vstd::prelude::*;

use crate::buffer::OutgoingBuffer;
use crate::engine::EncodeKind;
use crate::engine::SessionEngine;
use crate::error::SessionError;

verus! {

/// Whether a record payload begins a new top-level response: it starts
/// with the four bytes `HTTP`.
pub open spec fn spec_is_response_start(s: Seq<u8>) -> bool {
    &&& s.len() >= 4
    &&& s[0] == 72u8
    &&& s[1] == 84u8
    &&& s[2] == 84u8
    &&& s[3] == 80u8
}

pub fn is_response_start(payload: &[u8]) -> (r: bool)
    ensures
        r == spec_is_response_start(payload@),
{
    payload.len() >= 4 && payload[0] == 72 && payload[1] == 84 && payload[2] == 84 && payload[3]
        == 80
}

/// Index of the first line feed in `s`, or the length if there is
/// none.
pub open spec fn spec_line_end(s: Seq<u8>) -> int
    decreases s.len(),
{
    if s.len() == 0 {
        0
    } else if s[0] == 10u8 {
        0
    } else {
        1 + spec_line_end(s.skip(1))
    }
}

proof fn lemma_line_end_at(s: Seq<u8>, i: int)
    requires
        0 <= i <= s.len(),
        forall|j: int| 0 <= j < i ==> s[j] != 10u8,
        i == s.len() || s[i] == 10u8,
    ensures
        spec_line_end(s) == i,
    decreases s.len(),
{
    if s.len() == 0 {
    } else if s[0] == 10u8 {
        assert(i == 0);
    } else {
        assert(i != 0);
        lemma_line_end_at(s.skip(1), i - 1);
    }
}

/// The first line of a payload: the bytes before the first line feed,
/// without a carriage return just before it.
pub open spec fn spec_first_line(s: Seq<u8>) -> Seq<u8> {
    let e = spec_line_end(s);
    if e > 0 && s[e - 1] == 13u8 {
        s.subrange(0, e - 1)
    } else {
        s.subrange(0, e)
    }
}

pub fn first_line(payload: &[u8]) -> (r: Vec<u8>)
    ensures
        r@ == spec_first_line(payload@),
{
    let n = payload.len();
    let mut i: usize = 0;
    while i < n && payload[i] != 10
        invariant
            0 <= i <= n,
            n == payload@.len(),
            forall|j: int| 0 <= j < i ==> payload@[j] != 10u8,
        decreases n - i,
    {
        i = i + 1;
    }
    proof {
        lemma_line_end_at(payload@, i as int);
    }
    let end = if i > 0 && payload[i - 1] == 13 {
        i - 1
    } else {
        i
    };
    let mut r: Vec<u8> = Vec::new();
    let mut k: usize = 0;
    while k < end
        invariant
            0 <= k <= end <= payload@.len(),
            r@ == payload@.subrange(0, k as int),
        decreases end - k,
    {
        r.push(payload[k]);
        proof {
            assert(r@ =~= payload@.subrange(0, k + 1));
        }
        k = k + 1;
    }
    r
}

/// `GET / HTTP/1.1\r\nHost: ` as bytes.
pub open spec fn spec_request_prefix() -> Seq<u8> {
    seq![
        71u8, 69u8, 84u8, 32u8, 47u8, 32u8, 72u8, 84u8, 84u8, 80u8, 47u8, 49u8, 46u8, 49u8, 13u8,
        10u8, 72u8, 111u8, 115u8, 116u8, 58u8, 32u8,
    ]
}

/// `\r\nConnection: close\r\nAccept-Encoding: identity\r\n\r\n` as bytes.
pub open spec fn spec_request_suffix() -> Seq<u8> {
    seq![
        13u8, 10u8, 67u8, 111u8, 110u8, 110u8, 101u8, 99u8, 116u8, 105u8, 111u8, 110u8, 58u8, 32u8,
        99u8, 108u8, 111u8, 115u8, 101u8, 13u8, 10u8, 65u8, 99u8, 99u8, 101u8, 112u8, 116u8, 45u8,
        69u8, 110u8, 99u8, 111u8, 100u8, 105u8, 110u8, 103u8, 58u8, 32u8, 105u8, 100u8, 101u8,
        110u8, 116u8, 105u8, 116u8, 121u8, 13u8, 10u8, 13u8, 10u8,
    ]
}

/// The whole one-shot request for a server name.
pub open spec fn spec_http_request(server_name: Seq<u8>) -> Seq<u8> {
    spec_request_prefix() + server_name + spec_request_suffix()
}

/// Appends all of `src` to `dst`.
fn extend_bytes(dst: &mut Vec<u8>, src: &[u8])
    ensures
        final(dst)@ == old(dst)@ + src@,
{
    let n = src.len();
    let mut i: usize = 0;
    while i < n
        invariant
            0 <= i <= n,
            n == src@.len(),
            dst@ == old(dst)@ + src@.subrange(0, i as int),
        decreases n - i,
    {
        dst.push(src[i]);
        proof {
            assert(dst@ =~= old(dst)@ + src@.subrange(0, i + 1));
        }
        i = i + 1;
    }
    proof {
        assert(dst@ =~= old(dst)@ + src@);
    }
}

fn request_prefix() -> (r: Vec<u8>)
    ensures
        r@ == spec_request_prefix(),
{
    let r: Vec<u8> = vec![
        71u8, 69, 84, 32, 47, 32, 72, 84, 84, 80, 47, 49, 46, 49, 13, 10, 72, 111, 115, 116, 58,
        32,
    ];
    proof {
        assert(r@ =~= spec_request_prefix());
    }
    r
}

fn request_suffix() -> (r: Vec<u8>)
    ensures
        r@ == spec_request_suffix(),
{
    let r: Vec<u8> = vec![
        13u8, 10, 67, 111, 110, 110, 101, 99, 116, 105, 111, 110, 58, 32, 99, 108, 111, 115, 101,
        13, 10, 65, 99, 99, 101, 112, 116, 45, 69, 110, 99, 111, 100, 105, 110, 103, 58, 32, 105,
        100, 101, 110, 116, 105, 116, 121, 13, 10, 13, 10,
    ];
    proof {
        assert(r@ =~= spec_request_suffix());
    }
    r
}

/// Builds the one-shot HTTP request for a server name.
pub fn build_http_request(server_name: &[u8]) -> (r: Vec<u8>)
    ensures
        r@ == spec_http_request(server_name@),
{
    let mut r = request_prefix();
    extend_bytes(&mut r, server_name);
    let suffix = request_suffix();
    extend_bytes(&mut r, suffix.as_slice());
    r
}

/// Queues the one-shot application payload if it has not been queued
/// yet. Returns whether it was queued by this call; the guard flag
/// makes a second call a no-op, whatever state offered the
/// capability. A failed encode is fatal and leaves the flag unset.
pub fn encrypt_http_request<E: SessionEngine>(
    sent_request: &mut bool,
    engine: &mut E,
    outgoing: &mut OutgoingBuffer,
    http_request: &[u8],
) -> (r: Result<bool, SessionError>)
    requires
        old(outgoing).wf(),
    ensures
        final(outgoing).wf(),
        final(outgoing).capacity_spec() == old(outgoing).capacity_spec(),
        match r {
            Ok(queued) => {
                &&& queued == !*old(sent_request)
                &&& *final(sent_request)
                &&& final(outgoing)@.subrange(0, old(outgoing)@.len() as int) == old(outgoing)@
                &&& (!queued ==> final(outgoing)@ == old(outgoing)@)
            },
            Err(_) => {
                &&& *final(sent_request) == *old(sent_request)
                &&& final(outgoing)@ == old(outgoing)@
            },
        },
{
    if !*sent_request {
        match outgoing.encode_with(engine, EncodeKind::AppData, http_request) {
            Ok(_written) => {
                *sent_request = true;
                Ok(true)
            },
            Err(e) => Err(SessionError::Encode(e)),
        }
    } else {
        proof {
            assert(outgoing@.subrange(0, outgoing@.len() as int) =~= outgoing@);
        }
        Ok(false)
    }
}

} // verus!
