//! The mathematical model of the accounts table: a sequence of account
//! values with first-match lookup and replace-or-append update, together
//! with the lemmas that relate lookup, update and the total supply.

use vstd::prelude::*;
use crate::wallet::WalletView;

verus! {

/// First account whose key equals `key`, if any.
pub open spec fn find_wallet(s: Seq<WalletView>, key: Seq<u8>) -> Option<WalletView>
    decreases s.len(),
{
    if s.len() == 0 {
        None
    } else if s[0].pub_key == key {
        Some(s[0])
    } else {
        find_wallet(s.drop_first(), key)
    }
}

/// Replaces the first account whose key equals `w.pub_key`, or appends `w`
/// if no account has that key.
pub open spec fn store_wallet(s: Seq<WalletView>, w: WalletView) -> Seq<WalletView>
    decreases s.len(),
{
    if s.len() == 0 {
        seq![w]
    } else if s[0].pub_key == w.pub_key {
        seq![w] + s.drop_first()
    } else {
        seq![s[0]] + store_wallet(s.drop_first(), w)
    }
}

/// Sum of all balances: the total ledger supply.
pub open spec fn total_supply(s: Seq<WalletView>) -> int
    decreases s.len(),
{
    if s.len() == 0 {
        0
    } else {
        s[0].balance + total_supply(s.drop_first())
    }
}

/// No two accounts share a key.
pub open spec fn unique_keys(s: Seq<WalletView>) -> bool {
    forall|i: int, j: int| 0 <= i < j < s.len() ==> s[i].pub_key != s[j].pub_key
}

/// The balance of `key`'s account, or zero if there is none.
pub open spec fn balance_of(s: Seq<WalletView>, key: Seq<u8>) -> int {
    match find_wallet(s, key) {
        Some(w) => w.balance as int,
        None => 0,
    }
}

/// Lookup after update: the stored account is found under its own key and
/// no other lookup changes.
pub proof fn lemma_find_store(s: Seq<WalletView>, w: WalletView, key: Seq<u8>)
    ensures
        find_wallet(store_wallet(s, w), key) == (if key == w.pub_key {
            Some(w)
        } else {
            find_wallet(s, key)
        }),
    decreases s.len(),
{
    if s.len() == 0 {
        assert(store_wallet(s, w) == seq![w]);
        assert(store_wallet(s, w).drop_first() =~= Seq::<WalletView>::empty());
    } else if s[0].pub_key == w.pub_key {
        let t = seq![w] + s.drop_first();
        assert(store_wallet(s, w) == t);
        assert(t[0] == w);
        assert(t.drop_first() =~= s.drop_first());
    } else {
        let t = seq![s[0]] + store_wallet(s.drop_first(), w);
        assert(store_wallet(s, w) == t);
        assert(t[0] == s[0]);
        assert(t.drop_first() =~= store_wallet(s.drop_first(), w));
        lemma_find_store(s.drop_first(), w, key);
    }
}

/// Updating moves the total supply by exactly the difference between the
/// stored balance and the balance previously held under that key.
pub proof fn lemma_store_total(s: Seq<WalletView>, w: WalletView)
    ensures
        total_supply(store_wallet(s, w)) == total_supply(s) + w.balance - balance_of(
            s,
            w.pub_key,
        ),
    decreases s.len(),
{
    let t = store_wallet(s, w);
    if s.len() == 0 {
        assert(t == seq![w]);
        assert(t.drop_first() =~= Seq::<WalletView>::empty());
        assert(total_supply(t.drop_first()) == 0);
        assert(total_supply(t) == w.balance + total_supply(t.drop_first()));
    } else if s[0].pub_key == w.pub_key {
        assert(t == seq![w] + s.drop_first());
        assert(t[0] == w);
        assert(t.drop_first() =~= s.drop_first());
        assert(total_supply(t) == w.balance + total_supply(s.drop_first()));
        assert(total_supply(s) == s[0].balance + total_supply(s.drop_first()));
        assert(balance_of(s, w.pub_key) == s[0].balance);
    } else {
        assert(t == seq![s[0]] + store_wallet(s.drop_first(), w));
        assert(t[0] == s[0]);
        assert(t.drop_first() =~= store_wallet(s.drop_first(), w));
        assert(total_supply(t) == s[0].balance + total_supply(store_wallet(s.drop_first(), w)));
        lemma_store_total(s.drop_first(), w);
        assert(total_supply(s) == s[0].balance + total_supply(s.drop_first()));
        assert(balance_of(s, w.pub_key) == balance_of(s.drop_first(), w.pub_key));
    }
}

/// Updating keeps keys unique.
pub proof fn lemma_store_unique(s: Seq<WalletView>, w: WalletView)
    requires
        unique_keys(s),
    ensures
        unique_keys(store_wallet(s, w)),
        find_wallet(s, w.pub_key) is Some ==> store_wallet(s, w).len() == s.len(),
        find_wallet(s, w.pub_key) is None ==> store_wallet(s, w).len() == s.len() + 1,
    decreases s.len(),
{
    lemma_find_keys(s, w.pub_key);
    let t = store_wallet(s, w);
    if s.len() == 0 {
        assert(t == seq![w]);
    } else if s[0].pub_key == w.pub_key {
        assert(t == seq![w] + s.drop_first());
        assert forall|i: int, j: int| 0 <= i < j < t.len() implies t[i].pub_key
            != t[j].pub_key by {
            if i == 0 {
                assert(t[j] == s[j]);
                assert(s[0].pub_key != s[j].pub_key);
            } else {
                assert(t[i] == s[i] && t[j] == s[j]);
            }
        }
    } else {
        let rest = store_wallet(s.drop_first(), w);
        assert(t == seq![s[0]] + rest);
        assert(unique_keys(s.drop_first())) by {
            assert(forall|i: int, j: int|
                0 <= i < j < s.drop_first().len() ==> s.drop_first()[i].pub_key
                    != s.drop_first()[j].pub_key);
        }
        lemma_store_unique(s.drop_first(), w);
        lemma_find_keys(rest, s[0].pub_key);
        lemma_find_store(s.drop_first(), w, s[0].pub_key);
        lemma_find_keys(s.drop_first(), s[0].pub_key);
        assert(find_wallet(rest, s[0].pub_key) is None);
        assert forall|i: int, j: int| 0 <= i < j < t.len() implies t[i].pub_key
            != t[j].pub_key by {
            if i == 0 {
                assert(t[j] == rest[j - 1]);
            } else {
                assert(t[i] == rest[i - 1] && t[j] == rest[j - 1]);
            }
        }
    }
}

/// A key is found exactly when some position holds it, and what is found
/// sits at such a position.
pub proof fn lemma_find_keys(s: Seq<WalletView>, key: Seq<u8>)
    ensures
        (find_wallet(s, key) is Some) == (exists|i: int|
            0 <= i < s.len() && s[i].pub_key == key),
        match find_wallet(s, key) {
            Some(w) => exists|i: int| 0 <= i < s.len() && s[i] == w && s[i].pub_key == key,
            None => true,
        },
    decreases s.len(),
{
    if s.len() == 0 {
    } else if s[0].pub_key == key {
        assert(s[0].pub_key == key);
    } else {
        lemma_find_keys(s.drop_first(), key);
        if find_wallet(s, key) is Some {
            let w = find_wallet(s.drop_first(), key)->Some_0;
            let i = choose|i: int|
                0 <= i < s.drop_first().len() && s.drop_first()[i] == w && s.drop_first()[i].pub_key
                    == key;
            assert(s[i + 1] == w && s[i + 1].pub_key == key);
        } else {
            assert forall|i: int| 0 <= i < s.len() implies s[i].pub_key != key by {
                if i > 0 {
                    assert(s.drop_first()[i - 1] == s[i]);
                }
            }
        }
    }
}

/// What lookup finds under `key` carries `key` as its own key.
pub proof fn lemma_find_pub_key(s: Seq<WalletView>, key: Seq<u8>)
    ensures
        find_wallet(s, key) matches Some(w) ==> w.pub_key == key,
    decreases s.len(),
{
    if s.len() == 0 {
    } else if s[0].pub_key == key {
    } else {
        lemma_find_pub_key(s.drop_first(), key);
    }
}

/// Lookup at the first matching position: if no position before `i` holds
/// the key and position `i` does, lookup yields exactly that element; if no
/// position holds the key, lookup fails.
pub proof fn lemma_find_at_index(s: Seq<WalletView>, key: Seq<u8>, i: int)
    requires
        0 <= i < s.len(),
        s[i].pub_key == key,
        forall|j: int| 0 <= j < i ==> s[j].pub_key != key,
    ensures
        find_wallet(s, key) == Some(s[i]),
    decreases i,
{
    if i == 0 {
    } else {
        assert(s[0].pub_key != key);
        assert(s.drop_first()[i - 1] == s[i]);
        assert(forall|j: int| 0 <= j < i - 1 ==> s.drop_first()[j] == s[j + 1]);
        lemma_find_at_index(s.drop_first(), key, i - 1);
    }
}

/// Update at the first matching position: storing over the key held at
/// position `i` is a point update of the sequence.
pub proof fn lemma_store_at_index(s: Seq<WalletView>, w: WalletView, i: int)
    requires
        0 <= i < s.len(),
        s[i].pub_key == w.pub_key,
        forall|j: int| 0 <= j < i ==> s[j].pub_key != w.pub_key,
    ensures
        store_wallet(s, w) =~= s.update(i, w),
    decreases i,
{
    if i == 0 {
    } else {
        assert(s[0].pub_key != w.pub_key);
        assert(s.drop_first()[i - 1] == s[i]);
        assert(forall|j: int| 0 <= j < i - 1 ==> s.drop_first()[j] == s[j + 1]);
        lemma_store_at_index(s.drop_first(), w, i - 1);
        assert(store_wallet(s, w) == seq![s[0]] + store_wallet(s.drop_first(), w));
        assert(store_wallet(s.drop_first(), w) =~= s.drop_first().update(i - 1, w));
        assert(store_wallet(s, w) =~= s.update(i, w));
    }
}

/// Storing a fresh key appends the account.
pub proof fn lemma_store_absent(s: Seq<WalletView>, w: WalletView)
    requires
        forall|j: int| 0 <= j < s.len() ==> s[j].pub_key != w.pub_key,
    ensures
        store_wallet(s, w) =~= s.push(w),
        find_wallet(s, w.pub_key) is None,
    decreases s.len(),
{
    lemma_find_keys(s, w.pub_key);
    if s.len() == 0 {
    } else {
        assert(forall|j: int| 0 <= j < s.drop_first().len() ==> s.drop_first()[j] == s[j + 1]);
        lemma_store_absent(s.drop_first(), w);
        assert(store_wallet(s, w) == seq![s[0]] + store_wallet(s.drop_first(), w));
        assert(store_wallet(s, w) =~= s.push(w));
    }
}

} // verus!
