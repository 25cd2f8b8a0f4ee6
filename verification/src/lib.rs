//! A minimal verified ledger service: accounts with balances live in an
//! authenticated key-value table, signed transactions create accounts and
//! transfer funds, and any client can ask for a proof bundle that ties an
//! account's balance to a committed block header and its quorum certificate.
//!
//! The crate is organised bottom-up:
//! - [`types`] holds the fixed-size byte value types (public keys, hashes);
//! - [`wallet`] is the account record;
//! - [`model`] is the mathematical model of the accounts table and its laws;
//! - [`blocks`] models committed block headers and their precommits;
//! - [`schema`] is the namespaced view of the accounts table over a store;
//! - [`crypto`] wraps the outside cryptographic primitives;
//! - [`tx`] is the transaction set with its verification and execution rules;
//! - [`laws`] states and proves the ledger-wide properties;
//! - [`wire`] decodes the binary transaction envelopes;
//! - [`api`] composes proof bundles and the request-level translations;
//! - [`service`] is the service facade.

pub mod types;
pub mod wallet;
pub mod model;
pub mod blocks;
pub mod schema;
pub mod crypto;
pub mod tx;
pub mod laws;
pub mod wire;
pub mod api;
pub mod service;
