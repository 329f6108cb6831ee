//! Key material and the signature scheme of the simple transport: ECDSA over
//! NIST P-256 with SHA-256, keys and signatures held as bytes.
use vstd::prelude::*;

use p256::ecdsa::signature::{Signer, Verifier};
use p256::ecdsa::{Signature, SigningKey, VerifyingKey};
use rand::TryRngCore;

verus! {

/// Length in bytes of a frame signature: two 32-byte field elements.
pub const SIGNATURE_LEN: usize = 64;

/// The signature that `private_key` (a 32-byte scalar) gives `msg`, as the
/// concatenation of its two scalars; `None` where the key is not a valid
/// scalar or signing fails. Signing is deterministic (RFC 6979).
pub uninterp spec fn p256_signature(private_key: Seq<u8>, msg: Seq<u8>) -> Option<Seq<u8>>;

/// Whether `sig` is a valid signature over `msg` under `public_key` (a SEC1
/// encoded point).
pub uninterp spec fn p256_verifies(public_key: Seq<u8>, msg: Seq<u8>, sig: Seq<u8>) -> bool;

/// Relies on p256's `SigningKey::from_slice`, `Signer::try_sign` and
/// `Signature::to_bytes`: the deterministic signature of `msg` under the key
/// whose scalar is `key`, serialized as its two 32-byte scalars.
#[verifier::external_body]
fn ecdsa_sign(key: &[u8], msg: &[u8]) -> (r: Option<Vec<u8>>)
    ensures
        r matches Some(sig) ==> p256_signature(key@, msg@) == Some(sig@),
        r is None ==> p256_signature(key@, msg@) is None,
        r matches Some(sig) ==> sig@.len() == SIGNATURE_LEN,
{
    let signing_key = SigningKey::from_slice(key).ok()?;
    let signed: Result<Signature, _> = signing_key.try_sign(msg);
    signed.ok().map(|sig| sig.to_bytes().to_vec())
}

/// Relies on p256's `VerifyingKey::from_sec1_bytes`, `Signature::from_slice`
/// and `Verifier::verify`: whether `sig` is a valid signature over `msg` under
/// the public key encoded in `key`. `Signature::from_slice` refuses any length
/// but that of two scalars.
#[verifier::external_body]
fn ecdsa_verify(key: &[u8], msg: &[u8], sig: &[u8]) -> (r: bool)
    ensures
        r == p256_verifies(key@, msg@, sig@),
        sig@.len() != SIGNATURE_LEN ==> !r,
{
    let verifying_key = match VerifyingKey::from_sec1_bytes(key) {
        Ok(k) => k,
        Err(_) => return false,
    };
    match Signature::from_slice(sig) {
        Ok(s) => verifying_key.verify(msg, &s).is_ok(),
        Err(_) => false,
    }
}

/// Relies on rand's `OsRng::try_next_u32`: a random number from the operating
/// system, `None` where it could not give one.
#[verifier::external_body]
pub(crate) fn random_u32() -> (r: Option<u32>) {
    rand::rngs::OsRng.try_next_u32().ok()
}

/// The device's private signing key and the server's public key.
#[derive(Clone, Debug)]
pub struct CryptoContext {
    /// The server's public key, SEC1 encoded.
    pub server_public_key: Vec<u8>,
    /// The device's private key, a 32-byte big-endian scalar.
    pub private_key: Vec<u8>,
}

impl CryptoContext {
    pub fn new(server_public_key: Vec<u8>, private_key: Vec<u8>) -> (r: CryptoContext)
        ensures
            r.server_public_key@ == server_public_key@,
            r.private_key@ == private_key@,
    {
        CryptoContext { server_public_key, private_key }
    }

    /// The device's signature over `msg`; `None` where signing fails.
    pub fn sign(&self, msg: &[u8]) -> (r: Option<Vec<u8>>)
        ensures
            r matches Some(sig) ==> p256_signature(self.private_key@, msg@) == Some(sig@)
                && sig@.len() == SIGNATURE_LEN,
            r is None ==> p256_signature(self.private_key@, msg@) is None,
    {
        ecdsa_sign(self.private_key.as_slice(), msg)
    }

    /// Whether `sig` is the server's valid signature over `msg`.
    pub fn verify(&self, msg: &[u8], sig: &[u8]) -> (r: bool)
        ensures
            r == p256_verifies(self.server_public_key@, msg@, sig@),
            sig@.len() != SIGNATURE_LEN ==> !r,
    {
        ecdsa_verify(self.server_public_key.as_slice(), msg, sig)
    }
}

} // verus!
