//! Fixed-size byte value types: public keys and hash digests.

use vstd::prelude::*;

verus! {

/// Length in bytes of a public key.
pub const KEY_LEN: usize = 32;

/// Length in bytes of a hash digest.
pub const DIGEST_LEN: usize = 32;

/// Length in bytes of a signature.
pub const SIG_LEN: usize = 64;

/// A public key: the immutable identity of an account owner.
pub struct PubKey {
    pub bytes: Vec<u8>,
}

impl View for PubKey {
    type V = Seq<u8>;

    open spec fn view(&self) -> Seq<u8> {
        self.bytes@
    }
}

impl PubKey {
    /// A well-formed key holds exactly `KEY_LEN` bytes.
    pub open spec fn wf(&self) -> bool {
        self@.len() == KEY_LEN
    }

    pub fn new(bytes: Vec<u8>) -> (r: Self)
        requires
            bytes@.len() == KEY_LEN,
        ensures
            r@ == bytes@,
            r.wf(),
    {
        PubKey { bytes }
    }

    /// Byte-wise equality of two keys.
    pub fn key_eq(&self, other: &PubKey) -> (r: bool)
        ensures
            r == (self@ == other@),
    {
        bytes_eq(&self.bytes, &other.bytes)
    }
}

impl Clone for PubKey {
    fn clone(&self) -> (r: Self)
        ensures
            r@ == self@,
    {
        let r = PubKey { bytes: self.bytes.clone() };
        proof {
            assert(r.bytes@ =~= self.bytes@);
        }
        r
    }
}

/// A hash digest, as produced by the outside hashing primitive or carried
/// in block headers and proofs.
pub struct Digest {
    pub bytes: Vec<u8>,
}

impl View for Digest {
    type V = Seq<u8>;

    open spec fn view(&self) -> Seq<u8> {
        self.bytes@
    }
}

impl Digest {
    /// A well-formed digest holds exactly `DIGEST_LEN` bytes.
    pub open spec fn wf(&self) -> bool {
        self@.len() == DIGEST_LEN
    }

    pub fn new(bytes: Vec<u8>) -> (r: Self)
        requires
            bytes@.len() == DIGEST_LEN,
        ensures
            r@ == bytes@,
            r.wf(),
    {
        Digest { bytes }
    }
}

impl Clone for Digest {
    fn clone(&self) -> (r: Self)
        ensures
            r@ == self@,
    {
        let r = Digest { bytes: self.bytes.clone() };
        proof {
            assert(r.bytes@ =~= self.bytes@);
        }
        r
    }
}

/// Byte-wise equality of two byte vectors.
pub fn bytes_eq(a: &Vec<u8>, b: &Vec<u8>) -> (r: bool)
    ensures
        r == (a@ == b@),
{
    if a.len() != b.len() {
        return false;
    }
    let mut i: usize = 0;
    while i < a.len()
        invariant
            i <= a@.len(),
            a@.len() == b@.len(),
            forall|j: int| 0 <= j < i ==> a@[j] == b@[j],
        decreases a@.len() - i,
    {
        if a[i] != b[i] {
            return false;
        }
        i += 1;
    }
    proof {
        assert(a@ =~= b@);
    }
    true
}

} // verus!
