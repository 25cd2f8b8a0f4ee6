//! Proof bundle composition: structural linking of the three layers,
//! presence and absence proofs.

use cryptocurrency::api::{build_proof, get_wallet_view, MapView};
use cryptocurrency::blocks::{BlockHeader, CommittedBlock, Precommit};
use cryptocurrency::schema::{CurrencySchema, Snapshot, WalletTable};
use cryptocurrency::tx::TxCreateWallet;
use cryptocurrency::types::{Digest, PubKey};

fn key(b: u8) -> PubKey {
    PubKey::new(vec![b; 32])
}

fn digest(b: u8) -> Digest {
    Digest::new(vec![b; 32])
}

fn header(height: u64, state_hash: Digest) -> BlockHeader {
    BlockHeader {
        height,
        prev_hash: digest(0),
        schema_version: 0,
        proposer_id: 3,
        tx_count: 1,
        tx_hash: digest(7),
        state_hash,
    }
}

fn precommit(validator_id: u16, height: u64) -> Precommit {
    Precommit { validator_id, height, block_hash: digest(9), signature: vec![1u8; 64] }
}

/// A snapshot with one committed block certifying `state_hash`, whose
/// accounts table (under root `table_root`) holds the given wallets.
fn snapshot_with_block(creates: &[(u8, &str)], table_root: Digest, state_hash: Digest) -> Snapshot {
    let genesis = Snapshot {
        currency: CurrencySchema { wallets: WalletTable::empty(digest(0)) },
        blocks: Vec::new(),
    };
    let mut fork = genesis.fork();
    for (owner, name) in creates {
        let tx = TxCreateWallet {
            pub_key: key(*owner),
            name: String::from(*name),
            body: Vec::new(),
            signature: vec![0u8; 64],
        };
        tx.execute(&mut fork);
    }
    let block = CommittedBlock {
        header: header(1, state_hash),
        precommits: vec![precommit(0, 1), precommit(1, 1)],
    };
    genesis.commit(fork, table_root, block)
}

#[test]
fn proof_bundle_links_roots() {
    let snapshot = snapshot_with_block(&[(1, "alice")], digest(0xAA), digest(0xBB));
    let bundle = build_proof(&snapshot, 1, 0, &key(1));

    // Header and quorum certificate of the latest committed block.
    assert_eq!(bundle.block.height, 1);
    assert_eq!(bundle.precommits.len(), 2);
    assert_eq!(bundle.precommits[1].validator_id, 1);

    // The state proof is rooted at the commitment the header certifies.
    assert_eq!(bundle.state.proof.root.bytes, bundle.block.state_hash.bytes);
    assert_eq!(bundle.state.proof.root.bytes, vec![0xBB; 32]);

    // It certifies this service's table under the right identifiers.
    assert_eq!(bundle.state.entries.len(), 1);
    assert_eq!(bundle.state.entries[0].key.service_id, 1);
    assert_eq!(bundle.state.entries[0].key.table_id, 0);

    // The embedded map proof is rooted at the very table root the state
    // proof certifies.
    let map_view = &bundle.state.entries[0].value;
    assert_eq!(map_view.proof.root.bytes, bundle.state.proof.table_root.bytes);
    assert_eq!(map_view.proof.root.bytes, vec![0xAA; 32]);

    // And it carries the requested account.
    assert_eq!(map_view.entries.len(), 1);
    assert_eq!(map_view.entries[0].key.bytes, key(1).bytes);
    assert_eq!(map_view.entries[0].value.balance(), 100);
    assert_eq!(map_view.entries[0].value.name().as_str(), "alice");
}

#[test]
fn absence_proof_query() {
    let snapshot = snapshot_with_block(&[(1, "alice")], digest(0xAA), digest(0xBB));
    let bundle = build_proof(&snapshot, 1, 0, &key(42));

    // The bundle is structurally the same artifact, with an empty entry
    // list: a valid absence proof, not an error.
    assert_eq!(bundle.state.entries.len(), 1);
    let map_view = &bundle.state.entries[0].value;
    assert_eq!(map_view.entries.len(), 0);
    assert_eq!(map_view.proof.root.bytes, vec![0xAA; 32]);
    assert_eq!(bundle.state.proof.root.bytes, bundle.block.state_hash.bytes);
    assert_eq!(map_view.proof.root.bytes, bundle.state.proof.table_root.bytes);
}

#[test]
fn state_hash_is_the_single_table_root() {
    let snapshot = snapshot_with_block(&[(1, "alice")], digest(0xEE), digest(0xFF));
    let roots = cryptocurrency::service::CurrencyService.state_hash(&snapshot);
    assert_eq!(roots.len(), 1);
    assert_eq!(roots[0].bytes, vec![0xEE; 32]);
}

#[test]
fn wallet_view_reads_the_snapshot() {
    let snapshot = snapshot_with_block(&[(1, "alice"), (2, "bob")], digest(0xCC), digest(0xDD));

    let present = get_wallet_view(&snapshot, &key(2));
    assert_eq!(present.entries.len(), 1);
    assert_eq!(present.entries[0].value.name().as_str(), "bob");
    assert_eq!(present.proof.root.bytes, vec![0xCC; 32]);

    let absent = get_wallet_view(&snapshot, &key(3));
    assert_eq!(absent.entries.len(), 0);

    let direct = MapView::new(&snapshot.currency.wallets, &key(1));
    assert_eq!(direct.entries.len(), 1);
    assert_eq!(direct.entries[0].value.balance(), 100);
}
