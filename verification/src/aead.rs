//! The ChaCha20-Poly1305 record protection used by the demo cipher
//! suite.
//!
//! The record layout is computed and checked here: the inner
//! plaintext is the payload followed by its content type, the
//! per-record nonce mixes the static IV with the big-endian record
//! sequence number, and the additional data is the five-byte record
//! header. Only the AEAD primitive itself is called out to the
//! `chacha20poly1305` crate.

use vstd::prelude::*;

use chacha20poly1305::AeadInPlace;
use chacha20poly1305::KeyInit;
use chacha20poly1305::KeySizeUser;

verus! {

/// Record content type of protected application data.
pub const CONTENT_APPLICATION_DATA: u8 = 23;

/// The legacy record version written on protected records.
pub const VERSION_TLS12: u16 = 0x0303;

/// Bytes an AEAD seal adds to the plaintext: the authentication tag.
pub const TAG_OVERHEAD: usize = 16;

/// What sealing a buffer under ChaCha20-Poly1305 yields. A function
/// of key, nonce, additional data and plaintext alone.
pub uninterp spec fn spec_chacha_sealed(
    key: Seq<u8>,
    nonce: Seq<u8>,
    aad: Seq<u8>,
    plain: Seq<u8>,
) -> Seq<u8>;

/// What opening a sealed buffer yields: the plaintext when the
/// ciphertext authenticates under the key, nonce and additional
/// data, and nothing otherwise.
pub uninterp spec fn spec_chacha_opened(
    key: Seq<u8>,
    nonce: Seq<u8>,
    aad: Seq<u8>,
    sealed: Seq<u8>,
) -> Option<Seq<u8>>;

/// Whether sealing succeeds for these four values. Sealing draws no
/// randomness, so success is a function of them alone.
pub uninterp spec fn spec_chacha_seal_ok(
    key: Seq<u8>,
    nonce: Seq<u8>,
    aad: Seq<u8>,
    plain: Seq<u8>,
) -> bool;

/// Relies on `chacha20poly1305`'s `encrypt_in_place`: seals the
/// buffer in place, appending the 16-byte tag; success and result
/// depend on key, nonce, additional data and buffer contents alone,
/// and what was sealed opens back to the plaintext under the same
/// three values.
#[verifier::external_body]
fn chacha_seal(key: &[u8], nonce: &[u8], aad: &[u8], buf: &mut Vec<u8>) -> (r: Result<(), ()>)
    requires
        key@.len() == 32,
        nonce@.len() == 12,
    ensures
        r is Ok <==> spec_chacha_seal_ok(key@, nonce@, aad@, old(buf)@),
        match r {
            Ok(()) => {
                &&& final(buf)@ == spec_chacha_sealed(key@, nonce@, aad@, old(buf)@)
                &&& final(buf)@.len() == old(buf)@.len() + 16
                &&& spec_chacha_opened(key@, nonce@, aad@, final(buf)@) == Some(old(buf)@)
            },
            Err(()) => true,
        },
{
    let cipher = match chacha20poly1305::ChaCha20Poly1305::new_from_slice(key) {
        Ok(cipher) => cipher,
        Err(_) => return Err(()),
    };
    let nonce = chacha20poly1305::Nonce::from_slice(nonce);
    cipher.encrypt_in_place(nonce, aad, buf).map_err(|_| ())
}

/// Relies on `chacha20poly1305`'s `decrypt_in_place`: authenticates
/// and opens the buffer in place, removing the 16-byte tag; success
/// and result depend on key, nonce, additional data and buffer
/// contents alone.
#[verifier::external_body]
fn chacha_open(key: &[u8], nonce: &[u8], aad: &[u8], buf: &mut Vec<u8>) -> (r: Result<(), ()>)
    requires
        key@.len() == 32,
        nonce@.len() == 12,
    ensures
        r is Ok <==> spec_chacha_opened(key@, nonce@, aad@, old(buf)@) is Some,
        r is Ok ==> final(buf)@ == spec_chacha_opened(key@, nonce@, aad@, old(buf)@).unwrap(),
        r is Ok ==> final(buf)@.len() + 16 == old(buf)@.len(),
{
    let cipher = match chacha20poly1305::ChaCha20Poly1305::new_from_slice(key) {
        Ok(cipher) => cipher,
        Err(_) => return Err(()),
    };
    let nonce = chacha20poly1305::Nonce::from_slice(nonce);
    cipher.decrypt_in_place(nonce, aad, buf).map_err(|_| ())
}

/// Relies on `ChaCha20Poly1305::key_size`: the key is 32 bytes.
#[verifier::external_body]
fn chacha_key_size() -> (r: usize)
    ensures
        r == 32,
{
    chacha20poly1305::ChaCha20Poly1305::key_size()
}

/// Big-endian byte `j` (0-based from the most significant) of a
/// record sequence number.
pub open spec fn spec_seq_byte(seq: u64, j: int) -> u8 {
    ((seq >> (((7 - j) * 8) as u64)) & 0xff) as u8
}

/// The per-record nonce: the first four IV bytes unchanged, the last
/// eight XORed with the big-endian sequence number.
pub open spec fn spec_tls13_nonce(iv: Seq<u8>, seq: u64) -> Seq<u8> {
    Seq::new(
        12,
        |i: int|
            if i < 4 {
                iv[i]
            } else {
                iv[i] ^ spec_seq_byte(seq, i - 4)
            },
    )
}

/// The five-byte additional data of a protected record: content type
/// 23, legacy version 3.3, and the two length bytes.
pub open spec fn spec_tls13_aad(len: nat) -> Seq<u8> {
    seq![23u8, 3u8, 3u8, (((len / 256) % 256) as u8), ((len % 256) as u8)]
}

fn build_nonce(iv: &[u8], seq: u64) -> (r: Vec<u8>)
    requires
        iv@.len() == 12,
    ensures
        r@ == spec_tls13_nonce(iv@, seq),
{
    let mut r: Vec<u8> = Vec::new();
    let mut i: usize = 0;
    while i < 4
        invariant
            0 <= i <= 4,
            iv@.len() == 12,
            r@.len() == i,
            forall|j: int| 0 <= j < i ==> r@[j] == iv@[j],
        decreases 4 - i,
    {
        r.push(iv[i]);
        i = i + 1;
    }
    let mut k: usize = 0;
    while k < 8
        invariant
            0 <= k <= 8,
            iv@.len() == 12,
            r@.len() == 4 + k,
            forall|j: int| 0 <= j < 4 ==> r@[j] == iv@[j],
            forall|j: int| 4 <= j < 4 + k ==> r@[j] == (iv@[j] ^ spec_seq_byte(seq, j - 4)),
        decreases 8 - k,
    {
        let shift: u64 = ((7 - k) as u64) * 8;
        let b: u8 = ((seq >> shift) & 0xff) as u8;
        proof {
            assert(b == spec_seq_byte(seq, k as int));
        }
        r.push(iv[4 + k] ^ b);
        k = k + 1;
    }
    proof {
        assert(r@ =~= spec_tls13_nonce(iv@, seq));
    }
    r
}

fn build_aad(len: usize) -> (r: Vec<u8>)
    ensures
        r@ == spec_tls13_aad(len as nat),
{
    let mut r: Vec<u8> = Vec::new();
    r.push(23);
    r.push(3);
    r.push(3);
    r.push(((len / 256) % 256) as u8);
    r.push((len % 256) as u8);
    proof {
        assert(r@ =~= spec_tls13_aad(len as nat));
    }
    r
}

/// The inner plaintext of a protected record after its zero padding
/// and trailing content-type byte are removed: the content and that
/// content type, or nothing when no nonzero byte exists.
pub open spec fn spec_unpad(s: Seq<u8>) -> Option<(Seq<u8>, u8)>
    decreases s.len(),
{
    if s.len() == 0 {
        None
    } else if s[s.len() - 1] != 0u8 {
        Some((s.subrange(0, s.len() - 1), s[s.len() - 1]))
    } else {
        spec_unpad(s.subrange(0, s.len() - 1))
    }
}

proof fn lemma_unpad_at(s: Seq<u8>, i: int)
    requires
        1 <= i <= s.len(),
        s[i - 1] != 0u8,
        forall|j: int| i <= j < s.len() ==> s[j] == 0u8,
    ensures
        spec_unpad(s) == Some((s.subrange(0, i - 1), s[i - 1])),
    decreases s.len(),
{
    if i == s.len() {
    } else {
        let shorter = s.subrange(0, s.len() - 1);
        assert(s[s.len() - 1] == 0u8);
        lemma_unpad_at(shorter, i);
        assert(shorter.subrange(0, i - 1) =~= s.subrange(0, i - 1));
    }
}

proof fn lemma_unpad_zero(s: Seq<u8>)
    requires
        forall|j: int| 0 <= j < s.len() ==> s[j] == 0u8,
    ensures
        spec_unpad(s) is None,
    decreases s.len(),
{
    if s.len() > 0 {
        lemma_unpad_zero(s.subrange(0, s.len() - 1));
    }
}

/// Removing the padding inverts the framing: a content followed by a
/// nonzero content-type byte unpads to exactly that content and that
/// byte. Together with the seal and open contracts this gives the
/// round trip: what `encrypt` seals, `decrypt` under the same key,
/// IV and sequence number returns unchanged.
pub proof fn lemma_unpad_push_nonzero(content: Seq<u8>, content_type: u8)
    requires
        content_type != 0u8,
    ensures
        spec_unpad(content.push(content_type)) == Some((content, content_type)),
{
    let framed = content.push(content_type);
    assert(framed[framed.len() - 1] == content_type);
    assert(framed.subrange(0, framed.len() - 1) =~= content);
}

/// A 32-byte AEAD key.
pub struct AeadKey {
    pub bytes: Vec<u8>,
}

impl AeadKey {
    pub open spec fn wf(&self) -> bool {
        self.bytes@.len() == 32
    }
}

/// A 12-byte static record IV.
pub struct Iv {
    pub bytes: Vec<u8>,
}

impl Iv {
    pub open spec fn wf(&self) -> bool {
        self.bytes@.len() == 12
    }
}

/// The extractable traffic secrets of a connection using this suite.
pub enum ConnectionTrafficSecrets {
    Chacha20Poly1305 { key: AeadKey, iv: Iv },
}

/// A failure of record protection.
#[derive(Clone, Copy, Debug, PartialEq, Eq, Structural)]
pub enum CipherError {
    Encrypt,
    Decrypt,
}

/// A protected (sealed) record as it goes onto the wire.
#[derive(Debug)]
pub struct OpaqueMessage {
    pub content_type: u8,
    pub version: u16,
    pub payload: Vec<u8>,
}

/// An opened record: its real content type and content.
#[derive(Debug)]
pub struct PlainMessage {
    pub content_type: u8,
    pub payload: Vec<u8>,
}

/// The ChaCha20-Poly1305 AEAD algorithm of the demo cipher suite.
pub struct Chacha20Poly1305;

impl Chacha20Poly1305 {
    /// The key size the algorithm demands.
    pub fn key_len(&self) -> (r: usize)
        ensures
            r == 32,
    {
        chacha_key_size()
    }

    /// A sealing cipher for one direction of a connection.
    pub fn encrypter(&self, key: AeadKey, iv: Iv) -> (r: Tls13Cipher)
        requires
            key.wf(),
            iv.wf(),
        ensures
            r.wf(),
            r.key_spec() == key.bytes@,
            r.iv_spec() == iv.bytes@,
    {
        Tls13Cipher { key, iv }
    }

    /// An opening cipher for one direction of a connection.
    pub fn decrypter(&self, key: AeadKey, iv: Iv) -> (r: Tls13Cipher)
        requires
            key.wf(),
            iv.wf(),
        ensures
            r.wf(),
            r.key_spec() == key.bytes@,
            r.iv_spec() == iv.bytes@,
    {
        Tls13Cipher { key, iv }
    }

    /// Hands the traffic secrets out for external use.
    pub fn extract_keys(&self, key: AeadKey, iv: Iv) -> (r: Result<ConnectionTrafficSecrets, ()>)
        ensures
            r matches Ok(ConnectionTrafficSecrets::Chacha20Poly1305 { key: k, iv: v }) && k == key
                && v == iv,
    {
        Ok(ConnectionTrafficSecrets::Chacha20Poly1305 { key, iv })
    }
}

/// One direction of protected record traffic.
pub struct Tls13Cipher {
    key: AeadKey,
    iv: Iv,
}

impl Tls13Cipher {
    pub closed spec fn wf(&self) -> bool {
        self.key.wf() && self.iv.wf()
    }

    pub closed spec fn key_spec(&self) -> Seq<u8> {
        self.key.bytes@
    }

    pub closed spec fn iv_spec(&self) -> Seq<u8> {
        self.iv.bytes@
    }

    /// Seals a payload of the given content type under the record
    /// sequence number: the inner plaintext is the payload followed
    /// by the content type, and the wire record carries the protected
    /// bytes under content type 23 and the legacy version.
    pub fn encrypt(&self, payload: &[u8], content_type: u8, seq: u64) -> (r: Result<
        OpaqueMessage,
        CipherError,
    >)
        requires
            self.wf(),
            payload@.len() + 17 <= usize::MAX,
        ensures
            r is Ok <==> spec_chacha_seal_ok(
                self.key_spec(),
                spec_tls13_nonce(self.iv_spec(), seq),
                spec_tls13_aad((payload@.len() + 17) as nat),
                payload@.push(content_type),
            ),
            match r {
                Ok(m) => {
                    &&& m.content_type == CONTENT_APPLICATION_DATA
                    &&& m.version == VERSION_TLS12
                    &&& m.payload@ == spec_chacha_sealed(
                        self.key_spec(),
                        spec_tls13_nonce(self.iv_spec(), seq),
                        spec_tls13_aad((payload@.len() + 17) as nat),
                        payload@.push(content_type),
                    )
                    &&& m.payload@.len() == payload@.len() + 17
                    &&& spec_chacha_opened(
                        self.key_spec(),
                        spec_tls13_nonce(self.iv_spec(), seq),
                        spec_tls13_aad((payload@.len() + 17) as nat),
                        m.payload@,
                    ) == Some(payload@.push(content_type))
                },
                Err(CipherError::Encrypt) => true,
                Err(_) => false,
            },
    {
        let total_len = payload.len() + 1 + TAG_OVERHEAD;
        let mut inner: Vec<u8> = Vec::new();
        let mut i: usize = 0;
        let n = payload.len();
        while i < n
            invariant
                0 <= i <= n,
                n == payload@.len(),
                inner@ == payload@.subrange(0, i as int),
            decreases n - i,
        {
            inner.push(payload[i]);
            proof {
                assert(inner@ =~= payload@.subrange(0, i + 1));
            }
            i = i + 1;
        }
        proof {
            assert(inner@ =~= payload@);
        }
        inner.push(content_type);
        let nonce = build_nonce(self.iv.bytes.as_slice(), seq);
        let aad = build_aad(total_len);
        match chacha_seal(self.key.bytes.as_slice(), nonce.as_slice(), aad.as_slice(), &mut inner) {
            Ok(()) => Ok(
                OpaqueMessage {
                    content_type: CONTENT_APPLICATION_DATA,
                    version: VERSION_TLS12,
                    payload: inner,
                },
            ),
            Err(()) => Err(CipherError::Encrypt),
        }
    }

    /// Opens a wire record under the record sequence number and
    /// removes the inner padding: the result carries the real content
    /// type and the content before it.
    pub fn decrypt(&self, msg: OpaqueMessage, seq: u64) -> (r: Result<PlainMessage, CipherError>)
        requires
            self.wf(),
        ensures
            ({
                let opened = spec_chacha_opened(
                    self.key_spec(),
                    spec_tls13_nonce(self.iv_spec(), seq),
                    spec_tls13_aad(msg.payload@.len()),
                    msg.payload@,
                );
                match r {
                    Ok(p) => {
                        &&& opened is Some
                        &&& spec_unpad(opened.unwrap()) == Some((p.payload@, p.content_type))
                        &&& p.payload@.len() + 17 <= msg.payload@.len()
                    },
                    Err(CipherError::Decrypt) => opened is None || spec_unpad(opened.unwrap())
                        is None,
                    Err(_) => false,
                }
            }),
    {
        let mut buf = msg.payload;
        let aad = build_aad(buf.len());
        let nonce = build_nonce(self.iv.bytes.as_slice(), seq);
        match chacha_open(self.key.bytes.as_slice(), nonce.as_slice(), aad.as_slice(), &mut buf) {
            Ok(()) => {
                let ghost opened_plain = buf@;
                let mut end = buf.len();
                while end > 0 && buf[end - 1] == 0
                    invariant
                        0 <= end <= buf@.len(),
                        buf@ == opened_plain,
                        forall|j: int| end <= j < buf@.len() ==> buf@[j] == 0u8,
                    decreases end,
                {
                    end = end - 1;
                }
                if end == 0 {
                    proof {
                        lemma_unpad_zero(opened_plain);
                    }
                    return Err(CipherError::Decrypt);
                }
                let content_type = buf[end - 1];
                buf.truncate(end - 1);
                proof {
                    lemma_unpad_at(opened_plain, end as int);
                }
                Ok(PlainMessage { content_type, payload: buf })
            },
            Err(()) => Err(CipherError::Decrypt),
        }
    }
}

} // verus!
