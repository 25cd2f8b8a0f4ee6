//! The proof composer and the request-level plumbing around it: a proof
//! bundle ties an account's state, through the accounts-table proof and the
//! state-commitment proof, to a committed block header and its quorum
//! certificate.

use vstd::prelude::*;
use crate::blocks::{clone_precommits, precommits_view, BlockHeader, Precommit};
use crate::crypto::{hash_bytes, hash_of};
use crate::model::find_wallet;
use crate::schema::{CurrencySchema, Snapshot, WalletTable};
use crate::tx::CurrencyTransaction;
use crate::types::{Digest, PubKey};
use crate::wallet::Wallet;
use crate::wire::{EncodingError, RawTransaction};

verus! {

/// Identifies one service table within a block's aggregate state
/// commitment.
pub struct StateTableKey {
    pub service_id: u16,
    pub table_id: usize,
}

/// A key paired with the value (or proof layer) it certifies.
pub struct KeyValuePair<K, V> {
    pub key: K,
    pub value: V,
}

impl<K, V> KeyValuePair<K, V> {
    pub fn new(key: K, value: V) -> (r: Self)
        ensures
            r.key == key,
            r.value == value,
    {
        KeyValuePair { key, value }
    }
}

/// A map proof from the storage collaborator, reduced to what the
/// composition guarantees structurally: the root hash its path implies.
pub struct MapProof {
    pub root: Digest,
}

/// The innermost proof layer: a proof for the requested account key against
/// the accounts-table root, plus the matching entry when the account
/// exists. An empty entry list with the proof is a valid absence proof.
pub struct MapView {
    pub proof: MapProof,
    pub entries: Vec<KeyValuePair<PubKey, Wallet>>,
}

impl MapView {
    /// Builds the account-table layer for `key`: the proof is rooted at the
    /// table's committed root, and the entry list holds exactly the
    /// requested account, or nothing when the key is absent.
    pub fn new(table: &WalletTable, key: &PubKey) -> (r: MapView)
        ensures
            r.proof.root@ == table.root_spec(),
            match find_wallet(table@, key@) {
                Some(w) => r.entries@.len() == 1 && r.entries@[0].key@ == key@
                    && r.entries@[0].value@ == w,
                None => r.entries@.len() == 0,
            },
    {
        let val = table.get(key);
        let proof = MapProof { root: table.root_hash() };
        match val {
            Some(w) => {
                let mut entries: Vec<KeyValuePair<PubKey, Wallet>> = Vec::new();
                entries.push(KeyValuePair::new(key.clone(), w));
                MapView { proof, entries }
            },
            None => MapView { proof, entries: Vec::new() },
        }
    }
}

/// The middle proof layer: a proof that this service's table root is
/// included under the block's aggregate state commitment. `root` is the
/// commitment the proof path implies (the one the header certifies);
/// `table_root` is the proven value, the accounts-table root.
pub struct StateProof {
    pub root: Digest,
    pub table_root: Digest,
}

/// The state-commitment layer: the inclusion proof plus the identified
/// table view it certifies.
pub struct StateView {
    pub proof: StateProof,
    pub entries: Vec<KeyValuePair<StateTableKey, MapView>>,
}

/// The proof bundle: the latest committed block header, its quorum
/// certificate, and the two nested proof layers down to the requested
/// account.
pub struct BlockWithState {
    pub block: BlockHeader,
    pub precommits: Vec<Precommit>,
    pub state: StateView,
}

impl BlockWithState {
    /// Structural soundness of the bundle: the state proof is rooted at the
    /// commitment the header certifies, it carries exactly one table entry,
    /// and the embedded map proof is rooted at the very table root the
    /// state proof certifies.
    pub open spec fn linked(&self) -> bool {
        &&& self.state.proof.root@ == self.block.state_hash@
        &&& self.state.entries@.len() == 1
        &&& self.state.entries@[0].value.proof.root@ == self.state.proof.table_root@
    }

    /// Assembles the bundle from the latest committed block of the
    /// snapshot. The table view must have been generated against the same
    /// snapshot — otherwise the bundle would be meaningless — and a block
    /// must have been committed (guaranteed once genesis exists).
    pub fn new(
        snapshot: &Snapshot,
        service_id: u16,
        table_id: usize,
        table_view: MapView,
    ) -> (r: Self)
        requires
            snapshot.blocks@.len() > 0,
            table_view.proof.root@ == snapshot.currency.wallets.root_spec(),
        ensures
            r.linked(),
            r.block@ == snapshot.blocks@.last().header@,
            precommits_view(r.precommits@) == precommits_view(snapshot.blocks@.last().precommits@),
            r.state.proof.table_root@ == snapshot.currency.wallets.root_spec(),
            r.state.entries@[0].key.service_id == service_id,
            r.state.entries@[0].key.table_id == table_id,
            r.state.entries@[0].value == table_view,
    {
        let table_key = StateTableKey { service_id, table_id };
        let last = snapshot.blocks.len() - 1;
        let block_proof = &snapshot.blocks[last];

        let proof_to_table = StateProof {
            root: block_proof.header.state_hash.clone(),
            table_root: snapshot.currency.wallets.root_hash(),
        };

        let mut entries: Vec<KeyValuePair<StateTableKey, MapView>> = Vec::new();
        entries.push(KeyValuePair::new(table_key, table_view));

        BlockWithState {
            block: block_proof.header.clone(),
            precommits: clone_precommits(&block_proof.precommits),
            state: StateView { proof: proof_to_table, entries },
        }
    }
}

/// The account-table proof layer for `pub_key`, read from the latest
/// committed snapshot.
pub fn get_wallet_view(snapshot: &Snapshot, pub_key: &PubKey) -> (r: MapView)
    ensures
        r.proof.root@ == snapshot.currency.wallets.root_spec(),
        match find_wallet(snapshot.currency.wallets@, pub_key@) {
            Some(w) => r.entries@.len() == 1 && r.entries@[0].key@ == pub_key@
                && r.entries@[0].value@ == w,
            None => r.entries@.len() == 0,
        },
{
    let schema = CurrencySchema::ro(snapshot);
    MapView::new(schema.wallets(), pub_key)
}

/// Composes the full proof bundle for `account_key` against the latest
/// committed snapshot: a structurally linked three-layer artifact whose
/// innermost entry list holds the account exactly when it exists (an empty
/// list is a valid absence proof, not an error).
pub fn build_proof(
    snapshot: &Snapshot,
    service_id: u16,
    table_id: usize,
    account_key: &PubKey,
) -> (r: BlockWithState)
    requires
        snapshot.blocks@.len() > 0,
    ensures
        r.linked(),
        r.block@ == snapshot.blocks@.last().header@,
        precommits_view(r.precommits@) == precommits_view(snapshot.blocks@.last().precommits@),
        r.state.proof.table_root@ == snapshot.currency.wallets.root_spec(),
        r.state.entries@[0].key.service_id == service_id,
        r.state.entries@[0].key.table_id == table_id,
        match find_wallet(snapshot.currency.wallets@, account_key@) {
            Some(w) => r.state.entries@[0].value.entries@.len() == 1
                && r.state.entries@[0].value.entries@[0].key@ == account_key@
                && r.state.entries@[0].value.entries@[0].value@ == w,
            None => r.state.entries@[0].value.entries@.len() == 0,
        },
{
    let wallet_view = get_wallet_view(snapshot, account_key);
    BlockWithState::new(snapshot, service_id, table_id, wallet_view)
}

/// What a submission endpoint answers: the content hash under which the
/// submitted transaction can later be recognised.
pub struct TxInfo {
    pub tx_hash: Digest,
}

/// The bytes a raw transaction's content hash is taken over: the two
/// discriminants, little-endian, followed by the payload.
pub open spec fn raw_tx_bytes(service_id: u16, message_type: u16, payload: Seq<u8>) -> Seq<u8> {
    seq![
        (service_id % 0x100) as u8,
        (service_id / 0x100) as u8,
        (message_type % 0x100) as u8,
        (message_type / 0x100) as u8,
    ] + payload
}

/// The content hash identifying a raw transaction.
pub fn raw_tx_hash(raw: &RawTransaction) -> (r: Digest)
    ensures
        r@ == hash_of(raw_tx_bytes(raw.service_id, raw.message_type, raw.payload@)),
        r.wf(),
{
    let mut bytes: Vec<u8> = Vec::new();
    bytes.push((raw.service_id % 0x100) as u8);
    bytes.push((raw.service_id / 0x100) as u8);
    bytes.push((raw.message_type % 0x100) as u8);
    bytes.push((raw.message_type / 0x100) as u8);
    proof {
        assert(forall|j: int|
            0 <= j < 4 ==> bytes@[j] == raw_tx_bytes(
                raw.service_id,
                raw.message_type,
                raw.payload@,
            )[j]);
    }
    let mut i: usize = 0;
    while i < raw.payload.len()
        invariant
            i <= raw.payload@.len(),
            bytes@.len() == i + 4,
            forall|j: int|
                0 <= j < 4 ==> bytes@[j] == raw_tx_bytes(
                    raw.service_id,
                    raw.message_type,
                    raw.payload@,
                )[j],
            forall|j: int| 0 <= j < i ==> bytes@[4 + j] == raw.payload@[j],
        decreases raw.payload@.len() - i,
    {
        bytes.push(raw.payload[i]);
        i += 1;
    }
    proof {
        assert(bytes@ =~= raw_tx_bytes(raw.service_id, raw.message_type, raw.payload@));
    }
    hash_bytes(&bytes)
}

/// Accepts a submitted raw transaction: decodes it into its typed envelope
/// and computes the content hash the caller is answered with. The envelope
/// is then handed to the ordering collaborator; submission is
/// fire-and-forget, so the hash is all the caller learns.
pub fn process_transaction(raw: &RawTransaction) -> (r: Result<
    (CurrencyTransaction, TxInfo),
    EncodingError,
>)
    ensures
        r matches Ok((tx, info)) ==> info.tx_hash@ == hash_of(
            raw_tx_bytes(raw.service_id, raw.message_type, raw.payload@),
        ) && tx.wf(),
        (r is Ok) == crate::service::raw_decodes(raw.message_type, raw.payload@),
        r matches Err(e) ==> e == crate::service::raw_decode_err(raw.message_type, raw.payload@),
{
    match crate::service::CurrencyService.tx_from_raw(raw) {
        Ok(tx) => {
            let info = TxInfo { tx_hash: raw_tx_hash(raw) };
            Ok((tx, info))
        },
        Err(e) => Err(e),
    }
}

} // verus!
