//! Signature verification and content hashing through the library's public
//! functions, exercised against the real outside primitives.

use cryptocurrency::api::process_transaction;
use cryptocurrency::tx::{TxCreateWallet, TxTransfer};
use cryptocurrency::types::PubKey;
use cryptocurrency::wire::{encode_create, encode_transfer, RawTransaction};
use ed25519_dalek::Signer;

fn keypair(seed: u8) -> (ed25519_dalek::SigningKey, PubKey) {
    let sk = ed25519_dalek::SigningKey::from_bytes(&[seed; 32]);
    let pk = PubKey::new(sk.verifying_key().to_bytes().to_vec());
    (sk, pk)
}

#[test]
fn valid_signature_verifies() {
    let (sk, pk) = keypair(7);
    // Encode once to learn the signed region, sign it, and rebuild.
    let draft = encode_create(&pk, &String::from("alice"), &vec![0u8; 64]).unwrap();
    let body = draft[..draft.len() - 64].to_vec();
    let signature = sk.sign(&body).to_bytes().to_vec();

    let tx = TxCreateWallet {
        pub_key: pk.clone(),
        name: String::from("alice"),
        body,
        signature,
    };
    assert!(tx.verify());
}

#[test]
fn corrupted_signature_fails() {
    let (sk, pk) = keypair(8);
    let body = vec![1u8, 2, 3, 4];
    let mut signature = sk.sign(&body).to_bytes().to_vec();
    signature[0] ^= 1;
    let tx = TxCreateWallet { pub_key: pk, name: String::from("x"), body, signature };
    assert!(!tx.verify());
}

#[test]
fn wrong_signer_fails() {
    let (sk, _) = keypair(9);
    let (_, other_pk) = keypair(10);
    let body = vec![5u8; 10];
    let signature = sk.sign(&body).to_bytes().to_vec();
    let tx = TxCreateWallet { pub_key: other_pk, name: String::from("x"), body, signature };
    assert!(!tx.verify());
}

#[test]
fn self_transfer_never_verifies() {
    // Even a genuine signature over the payload does not make a
    // self-transfer pass verification.
    let (sk, pk) = keypair(11);
    let body = vec![6u8; 20];
    let signature = sk.sign(&body).to_bytes().to_vec();
    let tx = TxTransfer {
        from: pk.clone(),
        to: pk.clone(),
        amount: 1,
        seed: 0,
        body: body.clone(),
        signature: signature.clone(),
    };
    assert!(!tx.verify());

    // The same signature with a distinct receiver does pass.
    let (_, other) = keypair(12);
    let tx = TxTransfer { from: pk, to: other, amount: 1, seed: 0, body, signature };
    assert!(tx.verify());
}

#[test]
fn transfer_signature_must_match_sender() {
    let (sk, pk) = keypair(13);
    let (_, other) = keypair(14);
    let body = vec![9u8; 16];
    let bad = sk.sign(&[0u8; 16]).to_bytes().to_vec();
    let good = sk.sign(&body).to_bytes().to_vec();

    let tx = TxTransfer {
        from: pk.clone(),
        to: other.clone(),
        amount: 5,
        seed: 1,
        body: body.clone(),
        signature: bad,
    };
    assert!(!tx.verify());

    let tx = TxTransfer { from: pk, to: other, amount: 5, seed: 1, body, signature: good };
    assert!(tx.verify());
}

#[test]
fn submission_hash_is_sha256_of_discriminants_and_payload() {
    let (_, pk) = keypair(15);
    let payload = encode_create(&pk, &String::from("alice"), &vec![0u8; 64]).unwrap();
    let raw = RawTransaction { service_id: 1, message_type: 1, payload: payload.clone() };

    let (_, info) = process_transaction(&raw).unwrap();

    let mut expected_input = vec![1u8, 0, 1, 0];
    expected_input.extend_from_slice(&payload);
    let expected = <sha2::Sha256 as sha2::Digest>::digest(&expected_input);
    assert_eq!(info.tx_hash.bytes, expected.to_vec());
}

#[test]
fn distinct_seeds_give_distinct_hashes() {
    let (_, a) = keypair(16);
    let (_, b) = keypair(17);
    let sig = vec![0u8; 64];
    let p1 = encode_transfer(&a, &b, 10, 1, &sig);
    let p2 = encode_transfer(&a, &b, 10, 2, &sig);
    let r1 = RawTransaction { service_id: 1, message_type: 2, payload: p1 };
    let r2 = RawTransaction { service_id: 1, message_type: 2, payload: p2 };
    let (_, i1) = process_transaction(&r1).unwrap();
    let (_, i2) = process_transaction(&r2).unwrap();
    assert_ne!(i1.tx_hash.bytes, i2.tx_hash.bytes);
}
