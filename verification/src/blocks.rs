//! Committed block headers and their quorum certificates, as maintained by
//! the ordering collaborator and read when composing proof bundles.

use vstd::prelude::*;
use crate::types::Digest;

verus! {

/// The mathematical value of a [`BlockHeader`].
pub ghost struct BlockHeaderView {
    pub height: u64,
    pub prev_hash: Seq<u8>,
    pub schema_version: u16,
    pub proposer_id: u16,
    pub tx_count: u32,
    pub tx_hash: Seq<u8>,
    pub state_hash: Seq<u8>,
}

/// The fields of a committed block header that a proof bundle carries.
///
/// `state_hash` is the aggregate state commitment the header certifies: the
/// root under which every service table root is provable.
pub struct BlockHeader {
    pub height: u64,
    pub prev_hash: Digest,
    pub schema_version: u16,
    pub proposer_id: u16,
    pub tx_count: u32,
    pub tx_hash: Digest,
    pub state_hash: Digest,
}

impl View for BlockHeader {
    type V = BlockHeaderView;

    open spec fn view(&self) -> BlockHeaderView {
        BlockHeaderView {
            height: self.height,
            prev_hash: self.prev_hash@,
            schema_version: self.schema_version,
            proposer_id: self.proposer_id,
            tx_count: self.tx_count,
            tx_hash: self.tx_hash@,
            state_hash: self.state_hash@,
        }
    }
}

impl Clone for BlockHeader {
    fn clone(&self) -> (r: Self)
        ensures
            r@ == self@,
    {
        BlockHeader {
            height: self.height,
            prev_hash: self.prev_hash.clone(),
            schema_version: self.schema_version,
            proposer_id: self.proposer_id,
            tx_count: self.tx_count,
            tx_hash: self.tx_hash.clone(),
            state_hash: self.state_hash.clone(),
        }
    }
}

/// The mathematical value of a [`Precommit`].
pub ghost struct PrecommitView {
    pub validator_id: u16,
    pub height: u64,
    pub block_hash: Seq<u8>,
    pub signature: Seq<u8>,
}

/// One signed endorsement of a block by a validating node; a block's set of
/// precommits is its quorum certificate.
pub struct Precommit {
    pub validator_id: u16,
    pub height: u64,
    pub block_hash: Digest,
    pub signature: Vec<u8>,
}

impl View for Precommit {
    type V = PrecommitView;

    open spec fn view(&self) -> PrecommitView {
        PrecommitView {
            validator_id: self.validator_id,
            height: self.height,
            block_hash: self.block_hash@,
            signature: self.signature@,
        }
    }
}

impl Clone for Precommit {
    fn clone(&self) -> (r: Self)
        ensures
            r@ == self@,
    {
        let r = Precommit {
            validator_id: self.validator_id,
            height: self.height,
            block_hash: self.block_hash.clone(),
            signature: self.signature.clone(),
        };
        proof {
            assert(r.signature@ =~= self.signature@);
        }
        r
    }
}

/// The values of a sequence of precommits.
pub open spec fn precommits_view(s: Seq<Precommit>) -> Seq<PrecommitView> {
    s.map_values(|p: Precommit| p@)
}

/// A committed block: its header together with its quorum certificate.
pub struct CommittedBlock {
    pub header: BlockHeader,
    pub precommits: Vec<Precommit>,
}

/// Clones a quorum certificate.
pub fn clone_precommits(v: &Vec<Precommit>) -> (r: Vec<Precommit>)
    ensures
        precommits_view(r@) =~= precommits_view(v@),
{
    let mut r: Vec<Precommit> = Vec::new();
    let mut i: usize = 0;
    while i < v.len()
        invariant
            i <= v@.len(),
            r@.len() == i,
            forall|j: int| 0 <= j < i ==> r@[j]@ == v@[j]@,
        decreases v@.len() - i,
    {
        r.push(v[i].clone());
        i += 1;
    }
    proof {
        assert(precommits_view(r@) =~= precommits_view(v@));
    }
    r
}

} // verus!
