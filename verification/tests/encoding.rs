//! Wire encoding and decoding: round trips, exact field values, hex keys
//! and each decode error.

use cryptocurrency::service::CurrencyService;
use cryptocurrency::tx::CurrencyTransaction;
use cryptocurrency::types::PubKey;
use cryptocurrency::wire::{
    decode_hex_key, encode_create, encode_transfer, EncodingError, RawTransaction,
};

fn key(b: u8) -> PubKey {
    PubKey::new(vec![b; 32])
}

#[test]
fn create_roundtrip() {
    let owner = key(1);
    let sig = vec![9u8; 64];
    let payload = encode_create(&owner, &String::from("alice"), &sig).unwrap();
    let raw = RawTransaction { service_id: 1, message_type: 1, payload };
    match CurrencyService.tx_from_raw(&raw) {
        Ok(CurrencyTransaction::CreateWallet(c)) => {
            assert_eq!(c.pub_key.bytes, owner.bytes);
            assert_eq!(c.name.as_str(), "alice");
            assert_eq!(c.signature, sig);
            assert_eq!(c.body.len(), 40 + 5);
        }
        other => panic!("expected a CreateWallet envelope, got {}", kind_of(&other)),
    }
}

#[test]
fn transfer_roundtrip() {
    let from = key(2);
    let to = key(3);
    let sig = vec![7u8; 64];
    let payload = encode_transfer(&from, &to, 0x0102030405060708, 42, &sig);
    let raw = RawTransaction { service_id: 1, message_type: 2, payload };
    match CurrencyService.tx_from_raw(&raw) {
        Ok(CurrencyTransaction::Transfer(t)) => {
            assert_eq!(t.from.bytes, from.bytes);
            assert_eq!(t.to.bytes, to.bytes);
            assert_eq!(t.amount, 0x0102030405060708);
            assert_eq!(t.seed, 42);
            assert_eq!(t.signature, sig);
        }
        other => panic!("expected a Transfer envelope, got {}", kind_of(&other)),
    }
}

fn kind_of(r: &Result<CurrencyTransaction, EncodingError>) -> &'static str {
    match r {
        Ok(CurrencyTransaction::CreateWallet(_)) => "CreateWallet",
        Ok(CurrencyTransaction::Transfer(_)) => "Transfer",
        Err(EncodingError::Malformed) => "Malformed",
        Err(EncodingError::IncorrectMessageType(_)) => "IncorrectMessageType",
    }
}

#[test]
fn transfer_fields_are_little_endian() {
    // Hand-built payload: from = 2s, to = 3s, amount = 10, seed = 0.
    let mut payload = vec![2u8; 32];
    payload.extend_from_slice(&[3u8; 32]);
    payload.extend_from_slice(&[10, 0, 0, 0, 0, 0, 0, 0]);
    payload.extend_from_slice(&[0, 0, 0, 0, 0, 0, 0, 1]);
    payload.extend_from_slice(&[0u8; 64]);
    assert_eq!(payload.len(), 144);
    let raw = RawTransaction { service_id: 1, message_type: 2, payload };
    match CurrencyService.tx_from_raw(&raw) {
        Ok(CurrencyTransaction::Transfer(t)) => {
            assert_eq!(t.amount, 10);
            assert_eq!(t.seed, 1 << 56);
        }
        other => panic!("expected a Transfer envelope, got {}", kind_of(&other)),
    }
}

#[test]
fn unknown_message_type_is_rejected() {
    let raw = RawTransaction { service_id: 1, message_type: 9, payload: vec![0u8; 144] };
    match CurrencyService.tx_from_raw(&raw) {
        Err(EncodingError::IncorrectMessageType(t)) => assert_eq!(t, 9),
        other => panic!("expected IncorrectMessageType, got {}", kind_of(&other)),
    }
}

#[test]
fn short_create_payload_is_malformed() {
    let raw = RawTransaction { service_id: 1, message_type: 1, payload: vec![0u8; 50] };
    assert!(matches!(CurrencyService.tx_from_raw(&raw), Err(EncodingError::Malformed)));
}

#[test]
fn wrong_length_transfer_is_malformed() {
    let raw = RawTransaction { service_id: 1, message_type: 2, payload: vec![0u8; 143] };
    assert!(matches!(CurrencyService.tx_from_raw(&raw), Err(EncodingError::Malformed)));
}

#[test]
fn create_name_outside_payload_is_malformed() {
    // Offset points past the signature trailer.
    let mut payload = vec![1u8; 32];
    payload.extend_from_slice(&[200, 0, 0, 0]); // name offset 200
    payload.extend_from_slice(&[5, 0, 0, 0]); // name length 5
    payload.extend_from_slice(&[0u8; 64]);
    let raw = RawTransaction { service_id: 1, message_type: 1, payload };
    assert!(matches!(CurrencyService.tx_from_raw(&raw), Err(EncodingError::Malformed)));
}

#[test]
fn create_invalid_utf8_name_is_malformed() {
    // Well-placed name region holding an invalid UTF-8 byte.
    let mut payload = vec![1u8; 32];
    payload.extend_from_slice(&[40, 0, 0, 0]); // name offset 40
    payload.extend_from_slice(&[1, 0, 0, 0]); // name length 1
    payload.push(0xFF);
    payload.extend_from_slice(&[0u8; 64]);
    let raw = RawTransaction { service_id: 1, message_type: 1, payload };
    assert!(matches!(CurrencyService.tx_from_raw(&raw), Err(EncodingError::Malformed)));
}

#[test]
fn hex_key_decodes_exact_bytes() {
    let mut s = Vec::new();
    s.extend_from_slice("00".repeat(31).as_bytes());
    s.extend_from_slice(b"aB");
    let k = decode_hex_key(&s).unwrap();
    let mut expected = vec![0u8; 31];
    expected.push(0xAB);
    assert_eq!(k.bytes, expected);
}

#[test]
fn hex_key_rejects_bad_input() {
    assert!(decode_hex_key(&b"00".repeat(31).to_vec()).is_none()); // too short
    let mut s = b"00".repeat(31).to_vec();
    s.extend_from_slice(b"zz"); // no hex digits
    assert!(decode_hex_key(&s).is_none());
}

#[test]
fn empty_name_roundtrip() {
    let owner = key(4);
    let sig = vec![1u8; 64];
    let payload = encode_create(&owner, &String::new(), &sig).unwrap();
    assert_eq!(payload.len(), 104);
    let raw = RawTransaction { service_id: 1, message_type: 1, payload };
    match CurrencyService.tx_from_raw(&raw) {
        Ok(CurrencyTransaction::CreateWallet(c)) => {
            assert_eq!(c.name.as_str(), "");
            assert_eq!(c.pub_key.bytes, owner.bytes);
        }
        other => panic!("expected a CreateWallet envelope, got {}", kind_of(&other)),
    }
}

#[test]
fn service_identity() {
    assert_eq!(CurrencyService.service_name(), "cryptocurrency");
    assert_eq!(CurrencyService.service_id(), 1);
}
