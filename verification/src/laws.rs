//! Ledger-wide properties of the transaction rules, stated and proved over
//! the mathematical model: creation is idempotent, transfers conserve the
//! total supply one by one and over whole sequences, and a short transfer
//! changes nothing.
//!
//! Balances are unsigned throughout, so no reachable state holds a negative
//! balance by construction; the lemmas below pin down the remaining ways a
//! balance could have gone wrong.

use vstd::prelude::*;
use crate::model::{
    balance_of, find_wallet, lemma_find_pub_key, lemma_find_store, lemma_store_total,
    lemma_store_unique, store_wallet, total_supply, unique_keys,
};
use crate::tx::{apply_create, apply_transfer, transfer_fits, transfer_moves};
use crate::wallet::{WalletView, INIT_BALANCE};

verus! {

/// Idempotent creation: creating an account for a key a second time (with
/// any name) leaves the ledger exactly as the first creation left it, and
/// what the first creation put there is the fresh account with the given
/// name and the initial balance.
pub proof fn lemma_create_idempotent(
    s: Seq<WalletView>,
    key: Seq<u8>,
    name: Seq<char>,
    name2: Seq<char>,
)
    ensures
        apply_create(apply_create(s, key, name), key, name2) == apply_create(s, key, name),
        find_wallet(s, key) is None ==> find_wallet(apply_create(s, key, name), key) == Some(
            WalletView { pub_key: key, name, balance: INIT_BALANCE },
        ),
{
    if find_wallet(s, key) is None {
        lemma_find_store(s, WalletView { pub_key: key, name, balance: INIT_BALANCE }, key);
    }
}

/// Creation mints exactly the initial balance, and only for a fresh key: a
/// duplicate creation leaves the total supply untouched.
pub proof fn lemma_create_supply(s: Seq<WalletView>, key: Seq<u8>, name: Seq<char>)
    ensures
        total_supply(apply_create(s, key, name)) == total_supply(s) + (
        if find_wallet(s, key) is Some {
            0int
        } else {
            INIT_BALANCE as int
        }),
{
    if find_wallet(s, key) is None {
        let w = WalletView { pub_key: key, name, balance: INIT_BALANCE };
        lemma_store_total(s, w);
    }
}

/// Conservation: a transfer never changes the total supply, and when it
/// actually moves funds the two touched balances trade exactly `amount`:
/// their sum is what it was before.
pub proof fn lemma_transfer_conservation(
    s: Seq<WalletView>,
    from: Seq<u8>,
    to: Seq<u8>,
    amount: u64,
)
    ensures
        total_supply(apply_transfer(s, from, to, amount)) == total_supply(s),
        transfer_moves(s, from, to, amount) && transfer_fits(s, from, to, amount) ==> {
            let t = apply_transfer(s, from, to, amount);
            &&& balance_of(t, from) + balance_of(t, to) == balance_of(s, from) + balance_of(s, to)
            &&& balance_of(t, from) == balance_of(s, from) - amount
            &&& balance_of(t, to) == balance_of(s, to) + amount
        },
{
    if transfer_moves(s, from, to, amount) && transfer_fits(s, from, to, amount) {
        let sender = find_wallet(s, from)->Some_0;
        let receiver = find_wallet(s, to)->Some_0;
        lemma_find_pub_key(s, from);
        lemma_find_pub_key(s, to);
        let w1 = WalletView {
            pub_key: sender.pub_key,
            name: sender.name,
            balance: (sender.balance - amount) as u64,
        };
        let w2 = WalletView {
            pub_key: receiver.pub_key,
            name: receiver.name,
            balance: (receiver.balance + amount) as u64,
        };
        let s1 = store_wallet(s, w1);
        lemma_store_total(s, w1);
        lemma_find_store(s, w1, to);
        lemma_find_store(s, w1, from);
        lemma_store_total(s1, w2);
        lemma_find_store(s1, w2, from);
        lemma_find_store(s1, w2, to);
    }
}

/// One step of [`apply_transfers`]: the triples are (from, to, amount).
pub open spec fn apply_transfers(
    s: Seq<WalletView>,
    ts: Seq<(Seq<u8>, Seq<u8>, u64)>,
) -> Seq<WalletView>
    decreases ts.len(),
{
    if ts.len() == 0 {
        s
    } else {
        apply_transfers(apply_transfer(s, ts[0].0, ts[0].1, ts[0].2), ts.drop_first())
    }
}

/// Conservation over any sequence of transfers: however many transfers are
/// executed, in whatever order, and whether or not each one moves funds,
/// the total supply never changes. (Creation is the one supply-changing
/// operation: it mints the initial balance, see [`lemma_create_supply`].)
pub proof fn lemma_transfers_conserve_supply(s: Seq<WalletView>, ts: Seq<(Seq<u8>, Seq<u8>, u64)>)
    ensures
        total_supply(apply_transfers(s, ts)) == total_supply(s),
    decreases ts.len(),
{
    if ts.len() > 0 {
        lemma_transfer_conservation(s, ts[0].0, ts[0].1, ts[0].2);
        lemma_transfers_conserve_supply(apply_transfer(s, ts[0].0, ts[0].1, ts[0].2), ts.drop_first());
    }
}

/// Every reachable ledger state keeps one account per key: both transition
/// rules preserve key uniqueness (and balances are unsigned throughout, so
/// none can go negative).
pub proof fn lemma_transitions_preserve_unique(
    s: Seq<WalletView>,
    key: Seq<u8>,
    name: Seq<char>,
    from: Seq<u8>,
    to: Seq<u8>,
    amount: u64,
)
    requires
        unique_keys(s),
    ensures
        unique_keys(apply_create(s, key, name)),
        unique_keys(apply_transfer(s, from, to, amount)),
{
    if find_wallet(s, key) is None {
        lemma_store_unique(s, WalletView { pub_key: key, name, balance: INIT_BALANCE });
    }
    if transfer_moves(s, from, to, amount) && transfer_fits(s, from, to, amount) {
        let sender = find_wallet(s, from)->Some_0;
        let receiver = find_wallet(s, to)->Some_0;
        let w1 = WalletView {
            pub_key: sender.pub_key,
            name: sender.name,
            balance: (sender.balance - amount) as u64,
        };
        let w2 = WalletView {
            pub_key: receiver.pub_key,
            name: receiver.name,
            balance: (receiver.balance + amount) as u64,
        };
        lemma_store_unique(s, w1);
        lemma_store_unique(store_wallet(s, w1), w2);
    }
}

/// A transfer whose amount exceeds the sender's balance (or whose sender
/// does not exist) never changes any balance: the state stays exactly as it
/// was.
pub proof fn lemma_insufficient_transfer_no_change(
    s: Seq<WalletView>,
    from: Seq<u8>,
    to: Seq<u8>,
    amount: u64,
)
    requires
        match find_wallet(s, from) {
            Some(w) => w.balance < amount,
            None => true,
        },
    ensures
        apply_transfer(s, from, to, amount) == s,
{
}

} // verus!
