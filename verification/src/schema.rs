//! The ledger schema: the accounts table, namespaced for this service, and
//! the snapshot / fork views of the store through which it is reached.
//!
//! The store itself (Merkle tree maintenance, commit machinery, replication)
//! is an external collaborator. Here the committed state is modelled as
//! plain values: a snapshot is a frozen copy of the last committed state, a
//! fork is an isolated mutable working copy that the collaborator commits
//! atomically. The table's root hash is the commitment the collaborator
//! computed at the last commit; it rides along with the data and is replaced
//! on commit.

use vstd::prelude::*;
use crate::blocks::CommittedBlock;
use crate::model::{
    find_wallet, lemma_find_at_index, lemma_find_keys, lemma_store_absent, lemma_store_at_index,
    lemma_store_unique, store_wallet, unique_keys,
};
use crate::types::{Digest, PubKey};
use crate::wallet::{Wallet, WalletView};

verus! {

/// The accounts table: the authenticated map from owner key to account
/// record, together with the root hash the storage collaborator computed
/// for it at the last commit.
pub struct WalletTable {
    pub entries: Vec<Wallet>,
    pub root: Digest,
}

impl View for WalletTable {
    type V = Seq<WalletView>;

    open spec fn view(&self) -> Seq<WalletView> {
        self.entries@.map_values(|w: Wallet| w@)
    }
}

impl WalletTable {
    /// The root hash of the table as of the last commit.
    pub open spec fn root_spec(&self) -> Seq<u8> {
        self.root@
    }

    /// Keys are unique, every record is well formed and the root is a
    /// well-formed digest.
    pub open spec fn wf(&self) -> bool {
        &&& unique_keys(self@)
        &&& forall|i: int| 0 <= i < self.entries@.len() ==> (#[trigger] self.entries@[i]).wf()
        &&& self.root.wf()
    }

    /// An empty table under the given (last committed) root.
    pub fn empty(root: Digest) -> (r: Self)
        requires
            root.wf(),
        ensures
            r@ =~= Seq::<WalletView>::empty(),
            r.root_spec() == root@,
            r.wf(),
    {
        WalletTable { entries: Vec::new(), root }
    }

    /// Point lookup: the first (and, keys being unique, only) record under
    /// `key`, if any.
    pub fn get(&self, key: &PubKey) -> (r: Option<Wallet>)
        ensures
            r matches Some(w) ==> find_wallet(self@, key@) == Some(w@) && (self.wf() ==> w.wf()),
            r is None ==> find_wallet(self@, key@) is None,
    {
        let mut i: usize = 0;
        while i < self.entries.len()
            invariant
                i <= self.entries@.len(),
                forall|j: int| 0 <= j < i ==> self@[j].pub_key != key@,
            decreases self.entries@.len() - i,
        {
            if self.entries[i].pub_key.key_eq(key) {
                proof {
                    assert(self@[i as int] == self.entries@[i as int]@);
                    lemma_find_at_index(self@, key@, i as int);
                }
                return Some(self.entries[i].clone());
            }
            proof {
                assert(self@[i as int] == self.entries@[i as int]@);
            }
            i += 1;
        }
        proof {
            lemma_find_keys(self@, key@);
        }
        None
    }

    /// Stores `w` under `key`, replacing the record already there, if any.
    /// The root hash is untouched: it keeps certifying the last committed
    /// state until the collaborator commits this fork and supplies a new
    /// root.
    pub fn put(&mut self, key: &PubKey, w: Wallet)
        requires
            old(self).wf(),
            w.wf(),
            w@.pub_key == key@,
        ensures
            final(self)@ == store_wallet(old(self)@, w@),
            final(self).root_spec() == old(self).root_spec(),
            final(self).wf(),
    {
        let ghost s0 = self@;
        let ghost wv = w@;
        proof {
            lemma_store_unique(s0, wv);
            assert(s0.len() == self.entries@.len());
        }
        let mut i: usize = 0;
        while i < self.entries.len()
            invariant
                i <= self.entries@.len(),
                forall|j: int| 0 <= j < i ==> self@[j].pub_key != wv.pub_key,
                *self == *old(self),
                s0 == self@,
                s0.len() == self.entries@.len(),
                wv.pub_key == key@,
                w@ == wv,
                w.wf(),
                old(self).wf(),
            decreases self.entries@.len() - i,
        {
            if self.entries[i].pub_key.key_eq(key) {
                proof {
                    assert(self@.len() == self.entries@.len());
                    assert(self@[i as int] == self.entries@[i as int]@);
                    lemma_store_at_index(s0, wv, i as int);
                    lemma_store_unique(s0, wv);
                }
                let ghost e0 = self.entries@;
                self.entries.set(i, w);
                proof {
                    assert forall|k: int| 0 <= k < self@.len() implies self@[k] == s0.update(
                        i as int,
                        wv,
                    )[k] by {
                        if k != i {
                            assert(self.entries@[k] == e0[k]);
                        }
                    }
                    assert(self@ =~= s0.update(i as int, wv));
                    assert(self@ == store_wallet(s0, wv));
                    assert forall|k: int| 0 <= k < self.entries@.len() implies (
                    #[trigger] self.entries@[k]).wf() by {
                        if k != i {
                            assert(self.entries@[k] == old(self).entries@[k]);
                        }
                    }
                }
                return ;
            }
            proof {
                assert(self@[i as int] == self.entries@[i as int]@);
            }
            i += 1;
        }
        proof {
            lemma_store_absent(s0, wv);
        }
        self.entries.push(w);
        proof {
            assert(self@ =~= s0.push(wv));
            assert(self@ == store_wallet(s0, wv));
            assert forall|k: int| 0 <= k < self.entries@.len() implies (
            #[trigger] self.entries@[k]).wf() by {
                if k < self.entries@.len() - 1 {
                    assert(self.entries@[k] == old(self).entries@[k]);
                }
            }
        }
    }

    /// The root hash of the table as of the last commit.
    pub fn root_hash(&self) -> (r: Digest)
        ensures
            r@ == self.root_spec(),
    {
        self.root.clone()
    }
}

impl Clone for WalletTable {
    fn clone(&self) -> (r: Self)
        ensures
            r@ == self@,
            r.root_spec() == self.root_spec(),
            self.wf() ==> r.wf(),
    {
        let mut entries: Vec<Wallet> = Vec::new();
        let mut i: usize = 0;
        while i < self.entries.len()
            invariant
                i <= self.entries@.len(),
                entries@.len() == i,
                forall|j: int| 0 <= j < i ==> entries@[j]@ == self.entries@[j]@,
                forall|j: int|
                    0 <= j < i ==> (#[trigger] entries@[j]).wf() == self.entries@[j].wf(),
            decreases self.entries@.len() - i,
        {
            entries.push(self.entries[i].clone());
            i += 1;
        }
        let r = WalletTable { entries, root: self.root.clone() };
        proof {
            assert(r@ =~= self@);
        }
        r
    }
}

/// The namespaced view of this service's slice of the store: exactly one
/// table, the accounts table.
pub struct CurrencySchema {
    pub wallets: WalletTable,
}

/// An isolated mutable view of the store, handed out by the collaborator,
/// mutated by transaction execution and committed atomically later.
pub struct Fork {
    pub currency: CurrencySchema,
}

/// A frozen, point-in-time view of the store as of the last commit: the
/// committed service data together with the committed block chain.
pub struct Snapshot {
    pub currency: CurrencySchema,
    pub blocks: Vec<CommittedBlock>,
}

impl CurrencySchema {
    /// Read-only schema handle over a snapshot.
    pub fn ro(snapshot: &Snapshot) -> (r: &CurrencySchema)
        ensures
            *r == snapshot.currency,
    {
        &snapshot.currency
    }

    /// Read-write schema handle into a fork.
    pub fn rw(fork: &mut Fork) -> (r: &mut CurrencySchema)
        ensures
            *r == old(fork).currency,
            final(fork).currency == *final(r),
    {
        &mut fork.currency
    }

    /// The accounts table.
    pub fn wallets(&self) -> (r: &WalletTable)
        ensures
            *r == self.wallets,
    {
        &self.wallets
    }

    /// The accounts table, for mutation.
    pub fn wallets_mut(&mut self) -> (r: &mut WalletTable)
        ensures
            *r == old(self).wallets,
            final(self).wallets == *final(r),
    {
        &mut self.wallets
    }

    /// Point lookup of an account.
    pub fn wallet(&self, key: &PubKey) -> (r: Option<Wallet>)
        ensures
            r matches Some(w) ==> find_wallet(self.wallets@, key@) == Some(w@) && (
            self.wallets.wf() ==> w.wf()),
            r is None ==> find_wallet(self.wallets@, key@) is None,
    {
        self.wallets.get(key)
    }

    /// The ordered list of root hashes this service contributes to the
    /// state commitment: here, the single accounts-table root.
    pub fn state_hash(&self) -> (r: Vec<Digest>)
        ensures
            r@.len() == 1,
            r@[0]@ == self.wallets.root_spec(),
    {
        let mut v: Vec<Digest> = Vec::new();
        v.push(self.wallets.root_hash());
        v
    }
}

impl Clone for CurrencySchema {
    fn clone(&self) -> (r: Self)
        ensures
            r.wallets@ == self.wallets@,
            r.wallets.root_spec() == self.wallets.root_spec(),
            self.wallets.wf() ==> r.wallets.wf(),
    {
        CurrencySchema { wallets: self.wallets.clone() }
    }
}

impl Snapshot {
    /// Opens a fresh isolated mutable view, starting from the committed
    /// state.
    pub fn fork(&self) -> (r: Fork)
        ensures
            r.currency.wallets@ == self.currency.wallets@,
            r.currency.wallets.root_spec() == self.currency.wallets.root_spec(),
            self.currency.wallets.wf() ==> r.currency.wallets.wf(),
    {
        Fork { currency: self.currency.clone() }
    }

    /// Commits a fork: the fork's account data becomes the committed state,
    /// under the root hash the storage collaborator computed for it, and the
    /// newly authorized block is appended to the chain.
    pub fn commit(self, fork: Fork, new_root: Digest, block: CommittedBlock) -> (r: Snapshot)
        requires
            new_root.wf(),
        ensures
            r.currency.wallets@ == fork.currency.wallets@,
            r.currency.wallets.root_spec() == new_root@,
            fork.currency.wallets.wf() ==> r.currency.wallets.wf(),
            r.blocks@ == self.blocks@.push(block),
    {
        let mut blocks = self.blocks;
        blocks.push(block);
        let mut wallets = fork.currency.wallets;
        wallets.root = new_root;
        Snapshot { currency: CurrencySchema { wallets }, blocks }
    }
}

} // verus!
