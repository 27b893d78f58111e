//! The demo cryptography provider and the certificate-verifier
//! configuration.
//!
//! The provider draws randomness from the operating system and names
//! the one cipher suite the demo supports. The verifier configuration
//! pairs a root certificate store with the signature schemes the demo
//! accepts; the verification itself is an external collaborator's
//! work.

use vstd::prelude::*;

use rand_core::RngCore;

verus! {

/// The identifier of TLS_ECDHE_RSA_WITH_CHACHA20_POLY1305_SHA256.
pub const SUITE_ECDHE_RSA_CHACHA20_POLY1305_SHA256: u16 = 0xCCA8;

/// Signature scheme rsa_pss_rsae_sha256.
pub const SCHEME_RSA_PSS_SHA256: u16 = 0x0804;

/// Signature scheme rsa_pkcs1_sha256.
pub const SCHEME_RSA_PKCS1_SHA256: u16 = 0x0401;

/// The operating system gave no randomness.
#[derive(Clone, Copy, Debug, PartialEq, Eq, Structural)]
pub struct GetRandomFailed;

/// Relies on rand_core's `OsRng::try_fill_bytes`: fills the whole
/// slice with operating-system randomness or fails; of a random
/// result nothing but the length can be stated.
#[verifier::external_body]
fn os_fill_bytes(bytes: &mut Vec<u8>) -> (r: Result<(), ()>)
    ensures
        final(bytes)@.len() == old(bytes)@.len(),
{
    rand_core::OsRng.try_fill_bytes(bytes.as_mut_slice()).map_err(|_| ())
}

/// The pluggable cryptography of the demo: operating-system
/// randomness and one ChaCha20-Poly1305 cipher suite.
pub struct DemoCryptoProvider;

impl DemoCryptoProvider {
    /// Overwrites the whole buffer with fresh randomness, or fails
    /// without changing its length.
    pub fn fill_random(&self, bytes: &mut Vec<u8>) -> (r: Result<(), GetRandomFailed>)
        ensures
            final(bytes)@.len() == old(bytes)@.len(),
    {
        match os_fill_bytes(bytes) {
            Ok(()) => Ok(()),
            Err(()) => Err(GetRandomFailed),
        }
    }

    /// The cipher suites the provider offers, in preference order.
    pub fn default_cipher_suites(&self) -> (r: Vec<u16>)
        ensures
            r@ == seq![SUITE_ECDHE_RSA_CHACHA20_POLY1305_SHA256],
    {
        let mut r: Vec<u16> = Vec::new();
        r.push(SUITE_ECDHE_RSA_CHACHA20_POLY1305_SHA256);
        proof {
            assert(r@ =~= seq![SUITE_ECDHE_RSA_CHACHA20_POLY1305_SHA256]);
        }
        r
    }
}

/// Trust anchors for certificate verification, each one a
/// DER-encoded certificate.
pub struct RootCertStore {
    pub certs: Vec<Vec<u8>>,
}

impl RootCertStore {
    pub fn empty() -> (r: Self)
        ensures
            r.certs@ == Seq::<Vec<u8>>::empty(),
    {
        let r = RootCertStore { certs: Vec::new() };
        proof {
            assert(r.certs@ =~= Seq::<Vec<u8>>::empty());
        }
        r
    }
}

/// A server certificate verifier configuration: the trusted roots and
/// the signature schemes accepted for the handshake.
pub struct WebPkiServerVerifier {
    pub roots: RootCertStore,
    pub schemes: Vec<u16>,
}

/// Builds the demo's server certificate verifier over the given
/// roots: it accepts exactly the two RSA-SHA256 schemes of the demo
/// cipher suite. A store without a single trust anchor cannot back a
/// verifier and is not accepted.
pub fn certificate_verifier(roots: RootCertStore) -> (r: WebPkiServerVerifier)
    requires
        roots.certs@.len() > 0,
    ensures
        r.roots == roots,
        r.schemes@ == seq![SCHEME_RSA_PSS_SHA256, SCHEME_RSA_PKCS1_SHA256],
{
    let mut schemes: Vec<u16> = Vec::new();
    schemes.push(SCHEME_RSA_PSS_SHA256);
    schemes.push(SCHEME_RSA_PKCS1_SHA256);
    proof {
        assert(schemes@ =~= seq![SCHEME_RSA_PSS_SHA256, SCHEME_RSA_PKCS1_SHA256]);
    }
    WebPkiServerVerifier { roots, schemes }
}

} // verus!
