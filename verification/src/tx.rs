//! The transaction set: two operation kinds, each with its verification
//! rule and its deterministic execution rule against a fork of the store.
//!
//! Execution is deliberately lenient: a duplicate creation, a transfer
//! touching an unknown account and a transfer exceeding the sender's
//! balance are silent no-ops, not errors. An envelope that fails
//! verification is discarded before execution and never reaches a fork.

use vstd::prelude::*;
use crate::crypto::{sig_valid, sig_verify};
use crate::model::{find_wallet, lemma_find_pub_key, store_wallet};
use crate::schema::{CurrencySchema, Fork};
use crate::types::{PubKey, SIG_LEN};
use crate::wallet::{Wallet, WalletView, INIT_BALANCE};

verus! {

/// The state an account sequence moves to when an account for `key` is
/// created: untouched if the key is taken, else extended by a fresh account
/// named `name` holding the initial balance.
pub open spec fn apply_create(s: Seq<WalletView>, key: Seq<u8>, name: Seq<char>) -> Seq<
    WalletView,
> {
    if find_wallet(s, key) is Some {
        s
    } else {
        store_wallet(s, WalletView { pub_key: key, name, balance: INIT_BALANCE })
    }
}

/// Whether a transfer of `amount` from `from` to `to` actually moves funds:
/// distinct existing accounts and a sufficient sender balance.
pub open spec fn transfer_moves(
    s: Seq<WalletView>,
    from: Seq<u8>,
    to: Seq<u8>,
    amount: u64,
) -> bool {
    &&& from != to
    &&& find_wallet(s, from) is Some
    &&& find_wallet(s, to) is Some
    &&& find_wallet(s, from)->Some_0.balance >= amount
}

/// The receiving balance stays representable: a machine limit, not a rule
/// of the ledger. Execution is only defined where this holds.
pub open spec fn transfer_fits(
    s: Seq<WalletView>,
    from: Seq<u8>,
    to: Seq<u8>,
    amount: u64,
) -> bool {
    transfer_moves(s, from, to, amount) ==> find_wallet(s, to)->Some_0.balance + amount
        <= u64::MAX
}

/// The state an account sequence moves to under a transfer: both balances
/// adjusted when the transfer moves funds, untouched otherwise.
pub open spec fn apply_transfer(
    s: Seq<WalletView>,
    from: Seq<u8>,
    to: Seq<u8>,
    amount: u64,
) -> Seq<WalletView> {
    if transfer_moves(s, from, to, amount) && transfer_fits(s, from, to, amount) {
        let sender = find_wallet(s, from)->Some_0;
        let receiver = find_wallet(s, to)->Some_0;
        let s1 = store_wallet(
            s,
            WalletView {
                pub_key: sender.pub_key,
                name: sender.name,
                balance: (sender.balance - amount) as u64,
            },
        );
        store_wallet(
            s1,
            WalletView {
                pub_key: receiver.pub_key,
                name: receiver.name,
                balance: (receiver.balance + amount) as u64,
            },
        )
    } else {
        s
    }
}

/// Create a new wallet for the signer, with a fixed initial balance.
pub struct TxCreateWallet {
    /// The owner of the wallet to create; also the claimed signer.
    pub pub_key: PubKey,
    /// The display name of the wallet.
    pub name: String,
    /// The signed region of the envelope: everything but the signature.
    pub body: Vec<u8>,
    /// The signature trailer over `body`.
    pub signature: Vec<u8>,
}

impl TxCreateWallet {
    /// A well-formed envelope: proper key and signature lengths.
    pub open spec fn wf(&self) -> bool {
        self.pub_key.wf() && self.signature@.len() == SIG_LEN
    }

    /// Verification rule: the signature over the payload must validate
    /// against the owner key.
    pub fn verify(&self) -> (r: bool)
        requires
            self.wf(),
        ensures
            r == sig_valid(self.body@, self.signature@, self.pub_key@),
    {
        sig_verify(&self.body, &self.signature, &self.pub_key)
    }

    /// Execution rule: a silent no-op if an account already exists for the
    /// key (idempotent under accidental redelivery), else the insertion of
    /// a fresh account with the initial balance.
    pub fn execute(&self, view: &mut Fork)
        requires
            old(view).currency.wallets.wf(),
            self.pub_key.wf(),
        ensures
            final(view).currency.wallets@ == apply_create(
                old(view).currency.wallets@,
                self.pub_key@,
                self.name@,
            ),
            final(view).currency.wallets.root_spec() == old(view).currency.wallets.root_spec(),
            final(view).currency.wallets.wf(),
    {
        let schema = CurrencySchema::rw(view);
        if schema.wallet(&self.pub_key).is_none() {
            let wallet = Wallet::new(self.pub_key.clone(), self.name.clone(), INIT_BALANCE);
            schema.wallets_mut().put(&self.pub_key, wallet);
        }
    }
}

/// Transfer coins between two wallets.
pub struct TxTransfer {
    /// The paying account; also the claimed signer.
    pub from: PubKey,
    /// The receiving account.
    pub to: PubKey,
    /// The amount to move.
    pub amount: u64,
    /// Distinguishes otherwise identical transfers, so that their content
    /// hashes differ; no replay-protection semantics beyond that.
    pub seed: u64,
    /// The signed region of the envelope: everything but the signature.
    pub body: Vec<u8>,
    /// The signature trailer over `body`.
    pub signature: Vec<u8>,
}

impl TxTransfer {
    /// A well-formed envelope: proper key and signature lengths.
    pub open spec fn wf(&self) -> bool {
        self.from.wf() && self.to.wf() && self.signature@.len() == SIG_LEN
    }

    /// Verification rule: a self-transfer never passes, whatever the
    /// signature or the amount; otherwise the signature over the payload
    /// must validate against the sender key.
    pub fn verify(&self) -> (r: bool)
        requires
            self.wf(),
        ensures
            r == (self.from@ != self.to@ && sig_valid(self.body@, self.signature@, self.from@)),
            self.from@ == self.to@ ==> !r,
    {
        !self.from.key_eq(&self.to) && sig_verify(&self.body, &self.signature, &self.from)
    }

    /// Execution rule: both accounts are read from the same fork; if either
    /// is missing or the sender's balance is short, nothing changes (the
    /// transaction stays ordered but is economically inert); otherwise the
    /// sender is debited and the receiver credited in one atomic step.
    ///
    /// Execution presupposes successful verification, so the two keys are
    /// distinct; a receiving balance that would exceed the representable
    /// range is excluded up front, as a machine limit.
    pub fn execute(&self, view: &mut Fork)
        requires
            old(view).currency.wallets.wf(),
            self.from@ != self.to@,
            transfer_fits(old(view).currency.wallets@, self.from@, self.to@, self.amount),
        ensures
            final(view).currency.wallets@ == apply_transfer(
                old(view).currency.wallets@,
                self.from@,
                self.to@,
                self.amount,
            ),
            final(view).currency.wallets.root_spec() == old(view).currency.wallets.root_spec(),
            final(view).currency.wallets.wf(),
    {
        let ghost s0 = view.currency.wallets@;
        let schema = CurrencySchema::rw(view);

        let sender = schema.wallet(&self.from);
        let receiver = schema.wallet(&self.to);

        if let (Some(sender), Some(receiver)) = (sender, receiver) {
            let amount = self.amount;

            if sender.balance() >= amount {
                proof {
                    lemma_find_pub_key(s0, self.from@);
                    lemma_find_pub_key(s0, self.to@);
                }
                let sender = sender.decrease(amount);
                let receiver = receiver.increase(amount);
                let wallets = schema.wallets_mut();
                wallets.put(&self.from, sender);
                wallets.put(&self.to, receiver);
            }
        }
    }
}

/// The closed set of operation kinds this service executes, decoded from
/// the envelope's discriminant.
pub enum CurrencyTransaction {
    /// Create a new wallet.
    CreateWallet(TxCreateWallet),
    /// Transfer coins between two wallets.
    Transfer(TxTransfer),
}

impl CurrencyTransaction {
    /// A well-formed envelope of either kind.
    pub open spec fn wf(&self) -> bool {
        match self {
            CurrencyTransaction::CreateWallet(tx) => tx.wf(),
            CurrencyTransaction::Transfer(tx) => tx.wf(),
        }
    }

    /// The verification rule of the wrapped kind.
    pub open spec fn spec_verified(&self) -> bool {
        match self {
            CurrencyTransaction::CreateWallet(tx) => sig_valid(
                tx.body@,
                tx.signature@,
                tx.pub_key@,
            ),
            CurrencyTransaction::Transfer(tx) => tx.from@ != tx.to@ && sig_valid(
                tx.body@,
                tx.signature@,
                tx.from@,
            ),
        }
    }

    /// The state transition of the wrapped kind.
    pub open spec fn apply(&self, s: Seq<WalletView>) -> Seq<WalletView> {
        match self {
            CurrencyTransaction::CreateWallet(tx) => apply_create(s, tx.pub_key@, tx.name@),
            CurrencyTransaction::Transfer(tx) => apply_transfer(s, tx.from@, tx.to@, tx.amount),
        }
    }

    /// Whether execution is defined on state `s`: a verified envelope whose
    /// arithmetic stays in range.
    pub open spec fn executable(&self, s: Seq<WalletView>) -> bool {
        match self {
            CurrencyTransaction::CreateWallet(_) => true,
            CurrencyTransaction::Transfer(tx) => tx.from@ != tx.to@ && transfer_fits(
                s,
                tx.from@,
                tx.to@,
                tx.amount,
            ),
        }
    }

    /// Verifies the envelope's integrity before it is handed to the
    /// ordering collaborator.
    pub fn verify(&self) -> (r: bool)
        requires
            self.wf(),
        ensures
            r == self.spec_verified(),
    {
        match self {
            CurrencyTransaction::CreateWallet(tx) => tx.verify(),
            CurrencyTransaction::Transfer(tx) => tx.verify(),
        }
    }

    /// Applies the execution rule of the wrapped kind to the fork.
    pub fn execute(&self, view: &mut Fork)
        requires
            old(view).currency.wallets.wf(),
            self.wf(),
            self.executable(old(view).currency.wallets@),
        ensures
            final(view).currency.wallets@ == self.apply(old(view).currency.wallets@),
            final(view).currency.wallets.root_spec() == old(view).currency.wallets.root_spec(),
            final(view).currency.wallets.wf(),
    {
        match self {
            CurrencyTransaction::CreateWallet(tx) => tx.execute(view),
            CurrencyTransaction::Transfer(tx) => tx.execute(view),
        }
    }
}

} // verus!
