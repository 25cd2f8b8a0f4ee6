//! The outside cryptographic primitives the ledger relies on: ed25519
//! signature verification and SHA-256 content hashing. Both are pure
//! functions of their byte-string arguments; their results are named, not
//! restated, and everything downstream of them is verified for every value
//! they may take.

use vstd::prelude::*;
use crate::types::{Digest, PubKey, DIGEST_LEN, SIG_LEN};

verus! {

/// Whether an ed25519 signature `sig` over `data` checks out against the
/// public key `key`.
pub uninterp spec fn sig_valid(data: Seq<u8>, sig: Seq<u8>, key: Seq<u8>) -> bool;

/// Relies on ed25519_dalek::VerifyingKey::from_bytes and
/// signature::Verifier::verify: whether the signature over `data` verifies
/// against `key`, a deterministic function of the three byte strings alone.
/// A key that is no valid curve point admits no signature at all.
#[verifier::external_body]
pub fn sig_verify(data: &Vec<u8>, sig: &Vec<u8>, key: &PubKey) -> (r: bool)
    requires
        sig@.len() == SIG_LEN,
        key.wf(),
    ensures
        r == sig_valid(data@, sig@, key@),
{
    let key_bytes: [u8; 32] = key.bytes.as_slice().try_into().unwrap();
    let sig_bytes: [u8; 64] = sig.as_slice().try_into().unwrap();
    let signature = ed25519_dalek::Signature::from_bytes(&sig_bytes);
    match ed25519_dalek::VerifyingKey::from_bytes(&key_bytes) {
        Ok(vk) => ed25519_dalek::Verifier::verify(&vk, data.as_slice(), &signature).is_ok(),
        Err(_) => false,
    }
}

/// The SHA-256 digest of `data`.
pub uninterp spec fn hash_of(data: Seq<u8>) -> Seq<u8>;

/// Relies on sha2::Sha256 (through the sha2::Digest trait): the SHA-256
/// digest of the input, 32 bytes, a function of the input bytes alone.
#[verifier::external_body]
pub fn hash_bytes(data: &Vec<u8>) -> (r: Digest)
    ensures
        r@ == hash_of(data@),
        r@.len() == DIGEST_LEN,
{
    let d = <sha2::Sha256 as sha2::Digest>::digest(data.as_slice());
    Digest { bytes: d.to_vec() }
}

} // verus!
