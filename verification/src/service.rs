//! The service facade: stable identifiers, the state-commitment
//! contribution, and the dispatch that turns raw transactions into typed
//! operations by their discriminant.

use vstd::prelude::*;
use crate::schema::{CurrencySchema, Snapshot};
use crate::tx::CurrencyTransaction;
use crate::types::Digest;
use crate::wire::{
    create_name_bytes, create_payload_ok, decode_create, decode_transfer, le_u64,
    transfer_payload_ok, utf8_decode, EncodingError, RawTransaction,
};

verus! {

/// Service identifier of this ledger service.
pub const SERVICE_ID: u16 = 1;

/// Discriminant of the CreateAccount operation.
pub const TX_CREATE_WALLET_ID: u16 = 1;

/// Discriminant of the Transfer operation.
pub const TX_TRANSFER_ID: u16 = 2;

/// Whether a raw transaction with this discriminant and payload decodes
/// into a typed operation.
pub open spec fn raw_decodes(message_type: u16, p: Seq<u8>) -> bool {
    if message_type == TX_CREATE_WALLET_ID {
        create_payload_ok(p)
    } else if message_type == TX_TRANSFER_ID {
        transfer_payload_ok(p)
    } else {
        false
    }
}

/// The error a non-decoding raw transaction is answered with: an unknown
/// discriminant is named as such, a known one with a broken payload is
/// malformed.
pub open spec fn raw_decode_err(message_type: u16, p: Seq<u8>) -> EncodingError {
    if message_type == TX_CREATE_WALLET_ID || message_type == TX_TRANSFER_ID {
        EncodingError::Malformed
    } else {
        EncodingError::IncorrectMessageType(message_type)
    }
}

/// The ledger service.
pub struct CurrencyService;

impl CurrencyService {
    /// The stable name of the service.
    pub fn service_name(&self) -> (r: &'static str)
        ensures
            r@ == "cryptocurrency"@,
    {
        "cryptocurrency"
    }

    /// The stable identifier under which the service's tables are
    /// namespaced.
    pub fn service_id(&self) -> (r: u16)
        ensures
            r == SERVICE_ID,
    {
        SERVICE_ID
    }

    /// The service's contribution to the block's state commitment: the
    /// single accounts-table root.
    pub fn state_hash(&self, view: &Snapshot) -> (r: Vec<Digest>)
        ensures
            r@.len() == 1,
            r@[0]@ == view.currency.wallets.root_spec(),
    {
        let schema = CurrencySchema::ro(view);
        schema.state_hash()
    }

    /// Decodes a raw transaction by its discriminant: exactly the two known
    /// operations are accepted, each iff its payload is structurally sound,
    /// and every field of the returned envelope is the corresponding region
    /// of the payload.
    pub fn tx_from_raw(&self, raw: &RawTransaction) -> (r: Result<
        CurrencyTransaction,
        EncodingError,
    >)
        ensures
            (r is Ok) == raw_decodes(raw.message_type, raw.payload@),
            r matches Err(e) ==> e == raw_decode_err(raw.message_type, raw.payload@),
            r matches Ok(tx) ==> tx.wf(),
            r matches Ok(tx) ==> match tx {
                CurrencyTransaction::CreateWallet(c) => {
                    &&& raw.message_type == TX_CREATE_WALLET_ID
                    &&& c.pub_key@ == raw.payload@.subrange(0, 32)
                    &&& Some(c.name@) == utf8_decode(create_name_bytes(raw.payload@))
                },
                CurrencyTransaction::Transfer(t) => {
                    &&& raw.message_type == TX_TRANSFER_ID
                    &&& t.from@ == raw.payload@.subrange(0, 32)
                    &&& t.to@ == raw.payload@.subrange(32, 64)
                    &&& t.amount as int == le_u64(raw.payload@.subrange(64, 72))
                    &&& t.seed as int == le_u64(raw.payload@.subrange(72, 80))
                },
            },
    {
        if raw.message_type == TX_TRANSFER_ID {
            match decode_transfer(&raw.payload) {
                Ok(t) => Ok(CurrencyTransaction::Transfer(t)),
                Err(e) => Err(e),
            }
        } else if raw.message_type == TX_CREATE_WALLET_ID {
            match decode_create(&raw.payload) {
                Ok(c) => Ok(CurrencyTransaction::CreateWallet(c)),
                Err(e) => Err(e),
            }
        } else {
            Err(EncodingError::IncorrectMessageType(raw.message_type))
        }
    }
}

} // verus!
