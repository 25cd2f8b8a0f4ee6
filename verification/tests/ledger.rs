//! The ledger state machine: creation, transfers, and their laws on
//! concrete values.

use cryptocurrency::schema::{CurrencySchema, Snapshot, WalletTable};
use cryptocurrency::tx::{TxCreateWallet, TxTransfer};
use cryptocurrency::types::{Digest, PubKey};
use cryptocurrency::wallet::Wallet;

fn key(b: u8) -> PubKey {
    PubKey::new(vec![b; 32])
}

fn dummy_sig() -> Vec<u8> {
    vec![0u8; 64]
}

fn empty_snapshot() -> Snapshot {
    Snapshot {
        currency: CurrencySchema { wallets: WalletTable::empty(Digest::new(vec![0u8; 32])) },
        blocks: Vec::new(),
    }
}

fn create(owner: &PubKey, name: &str) -> TxCreateWallet {
    TxCreateWallet {
        pub_key: owner.clone(),
        name: String::from(name),
        body: Vec::new(),
        signature: dummy_sig(),
    }
}

fn transfer(from: &PubKey, to: &PubKey, amount: u64, seed: u64) -> TxTransfer {
    TxTransfer {
        from: from.clone(),
        to: to.clone(),
        amount,
        seed,
        body: Vec::new(),
        signature: dummy_sig(),
    }
}

fn balance_of(fork: &cryptocurrency::schema::Fork, k: &PubKey) -> u64 {
    fork.currency.wallet(k).expect("account must exist").balance()
}

#[test]
fn create_transfer_scenario() {
    let a = key(1);
    let b = key(2);
    let snapshot = empty_snapshot();
    let mut fork = snapshot.fork();

    create(&a, "alice").execute(&mut fork);
    assert_eq!(balance_of(&fork, &a), 100);
    assert_eq!(fork.currency.wallet(&a).unwrap().name().as_str(), "alice");

    create(&b, "bob").execute(&mut fork);
    assert_eq!(balance_of(&fork, &b), 100);
    assert_eq!(fork.currency.wallet(&b).unwrap().name().as_str(), "bob");

    transfer(&a, &b, 30, 0).execute(&mut fork);
    assert_eq!(balance_of(&fork, &a), 70);
    assert_eq!(balance_of(&fork, &b), 130);

    // Insufficient funds: a silent no-op, not an error.
    transfer(&a, &b, 1000, 1).execute(&mut fork);
    assert_eq!(balance_of(&fork, &a), 70);
    assert_eq!(balance_of(&fork, &b), 130);
}

#[test]
fn duplicate_creation_is_idempotent() {
    let a = key(3);
    let snapshot = empty_snapshot();
    let mut fork = snapshot.fork();

    create(&a, "alice").execute(&mut fork);
    transfer(&a, &key(9), 5, 0).execute(&mut fork); // no receiver: no-op
    create(&a, "mallory").execute(&mut fork);

    let w = fork.currency.wallet(&a).unwrap();
    assert_eq!(w.name().as_str(), "alice");
    assert_eq!(w.balance(), 100);
}

#[test]
fn transfer_conserves_total() {
    let a = key(4);
    let b = key(5);
    let snapshot = empty_snapshot();
    let mut fork = snapshot.fork();
    create(&a, "alice").execute(&mut fork);
    create(&b, "bob").execute(&mut fork);

    let before = balance_of(&fork, &a) + balance_of(&fork, &b);
    transfer(&a, &b, 99, 0).execute(&mut fork);
    let after = balance_of(&fork, &a) + balance_of(&fork, &b);
    assert_eq!(before, after);
    assert_eq!(balance_of(&fork, &a), 1);
    assert_eq!(balance_of(&fork, &b), 199);
}

#[test]
fn transfer_to_unknown_account_is_inert() {
    let a = key(6);
    let snapshot = empty_snapshot();
    let mut fork = snapshot.fork();
    create(&a, "alice").execute(&mut fork);

    transfer(&a, &key(7), 10, 0).execute(&mut fork);
    assert_eq!(balance_of(&fork, &a), 100);
    assert!(fork.currency.wallet(&key(7)).is_none());
}

#[test]
fn wallet_increase_decrease() {
    let w = Wallet::new(key(8), String::from("w"), 50);
    let w = w.increase(25);
    assert_eq!(w.balance(), 75);
    let w = w.decrease(70);
    assert_eq!(w.balance(), 5);
    assert_eq!(w.name().as_str(), "w");
}

#[test]
fn schema_handles_read_and_write() {
    let a = key(10);
    let snapshot = empty_snapshot();
    let mut fork = snapshot.fork();
    create(&a, "alice").execute(&mut fork);

    // Read-write handle into the fork.
    {
        let schema = CurrencySchema::rw(&mut fork);
        let w = schema.wallet(&a).unwrap();
        let w2 = w.increase(10);
        schema.wallets_mut().put(&a, w2);
    }
    assert_eq!(balance_of(&fork, &a), 110);

    // Read-only handle over a snapshot.
    let snapshot2 = empty_snapshot();
    let ro = CurrencySchema::ro(&snapshot2);
    assert!(ro.wallet(&a).is_none());
    assert_eq!(ro.state_hash().len(), 1);
}
