//! The account record: one ledger account, replaced wholesale on update.

use vstd::prelude::*;
use crate::types::PubKey;

verus! {

/// Initial balance of a newly created wallet.
pub const INIT_BALANCE: u64 = 100;

/// The mathematical value of a [`Wallet`].
pub ghost struct WalletView {
    pub pub_key: Seq<u8>,
    pub name: Seq<char>,
    pub balance: u64,
}

/// One ledger account: owner key, display name and balance.
///
/// The balance is an unsigned integer, so no reachable account state can
/// hold a negative balance; underflow is a detectable error, not a wrap.
pub struct Wallet {
    pub pub_key: PubKey,
    pub name: String,
    pub balance: u64,
}

impl View for Wallet {
    type V = WalletView;

    open spec fn view(&self) -> WalletView {
        WalletView { pub_key: self.pub_key@, name: self.name@, balance: self.balance }
    }
}

impl Wallet {
    /// A well-formed wallet has a well-formed owner key.
    pub open spec fn wf(&self) -> bool {
        self.pub_key.wf()
    }

    pub fn new(pub_key: PubKey, name: String, balance: u64) -> (w: Wallet)
        ensures
            w@ == (WalletView { pub_key: pub_key@, name: name@, balance }),
            w.wf() == pub_key.wf(),
    {
        Wallet { pub_key, name, balance }
    }

    pub fn pub_key(&self) -> (r: &PubKey)
        ensures
            r@ == self@.pub_key,
    {
        &self.pub_key
    }

    pub fn name(&self) -> (r: &String)
        ensures
            r@ == self@.name,
    {
        &self.name
    }

    pub fn balance(&self) -> (r: u64)
        ensures
            r == self@.balance,
    {
        self.balance
    }

    /// Returns this wallet with the balance raised by `amount`; the key and
    /// the name are kept.
    pub fn increase(self, amount: u64) -> (r: Self)
        requires
            self@.balance + amount <= u64::MAX,
        ensures
            r@.balance == self@.balance + amount,
            r@.pub_key == self@.pub_key,
            r@.name == self@.name,
            r.wf() == self.wf(),
    {
        let balance = self.balance + amount;
        Self::new(self.pub_key, self.name, balance)
    }

    /// Returns this wallet with the balance lowered by `amount`; the key and
    /// the name are kept.
    pub fn decrease(self, amount: u64) -> (r: Self)
        requires
            amount <= self@.balance,
        ensures
            r@.balance == self@.balance - amount,
            r@.pub_key == self@.pub_key,
            r@.name == self@.name,
            r.wf() == self.wf(),
    {
        let balance = self.balance - amount;
        Self::new(self.pub_key, self.name, balance)
    }
}

impl Clone for Wallet {
    fn clone(&self) -> (r: Self)
        ensures
            r@ == self@,
            r.wf() == self.wf(),
    {
        Wallet { pub_key: self.pub_key.clone(), name: self.name.clone(), balance: self.balance }
    }
}

} // verus!
