//! The binary wire encoding of transaction envelopes: fixed-offset fields,
//! an offset/length-addressed name region, and a signature trailer.
//!
//! A CreateAccount payload is laid out as
//! `[owner key (32)] [name offset (u32 LE)] [name length (u32 LE)]
//!  ... name bytes ... [signature (64)]`,
//! the name region lying strictly between the fixed header and the
//! signature trailer. A Transfer payload is laid out as
//! `[from (32)] [to (32)] [amount (u64 LE)] [seed (u64 LE)] [signature (64)]`
//! with no variable part. The signed region of either payload is everything
//! before the signature trailer.

use vstd::prelude::*;
use crate::tx::{TxCreateWallet, TxTransfer};
use crate::types::{PubKey, KEY_LEN, SIG_LEN};

verus! {

/// Bytes of the fixed CreateAccount header: owner key, name offset, name
/// length.
pub const CREATE_HEADER_LEN: usize = 40;

/// Least length of a CreateAccount payload: fixed header plus signature
/// trailer (an empty name region is allowed).
pub const CREATE_MIN_LEN: usize = 104;

/// Exact length of a Transfer payload.
pub const TRANSFER_LEN: usize = 144;

/// Why an envelope failed to decode.
#[derive(Debug)]
pub enum EncodingError {
    /// The discriminant names no operation of this service.
    IncorrectMessageType(u16),
    /// The payload is too short, its name region lies outside the payload,
    /// or its name bytes are no valid UTF-8.
    Malformed,
}

/// A raw transaction as the dissemination layer hands it over: the service
/// discriminant, the operation discriminant, and the undecoded payload.
pub struct RawTransaction {
    pub service_id: u16,
    pub message_type: u16,
    pub payload: Vec<u8>,
}

/// The value of four little-endian bytes.
pub open spec fn le_u32(b: Seq<u8>) -> int {
    b[0] + b[1] * 0x100 + b[2] * 0x10000 + b[3] * 0x1000000
}

/// The value of eight little-endian bytes.
pub open spec fn le_u64(b: Seq<u8>) -> int {
    b[0] + b[1] * 0x100 + b[2] * 0x10000 + b[3] * 0x1000000 + b[4] * 0x100000000 + b[5]
        * 0x10000000000 + b[6] * 0x1000000000000 + b[7] * 0x100000000000000
}

/// What the outside UTF-8 decoder yields on `b`: the characters on valid
/// UTF-8 input, nothing otherwise.
pub uninterp spec fn utf8_decode(b: Seq<u8>) -> Option<Seq<char>>;

/// Relies on String::from_utf8: it succeeds exactly on valid UTF-8 input,
/// and the decoded characters are a function of the bytes alone.
#[verifier::external_body]
fn bytes_to_string(b: Vec<u8>) -> (r: Option<String>)
    ensures
        match r {
            Some(s) => utf8_decode(b@) == Some(s@),
            None => utf8_decode(b@) is None,
        },
{
    match String::from_utf8(b) {
        Ok(s) => Some(s),
        Err(_) => None,
    }
}

/// The declared name region of a CreateAccount payload.
pub open spec fn create_name_bytes(p: Seq<u8>) -> Seq<u8> {
    let off = le_u32(p.subrange(32, 36));
    let n = le_u32(p.subrange(36, 40));
    p.subrange(off, off + n)
}

/// A CreateAccount payload decodes iff it holds the fixed header and the
/// trailer, its name region lies between them, and the name bytes are
/// valid UTF-8.
pub open spec fn create_payload_ok(p: Seq<u8>) -> bool {
    &&& p.len() >= CREATE_MIN_LEN
    &&& le_u32(p.subrange(32, 36)) >= CREATE_HEADER_LEN
    &&& le_u32(p.subrange(32, 36)) + le_u32(p.subrange(36, 40)) <= p.len() - SIG_LEN
    &&& utf8_decode(create_name_bytes(p)) is Some
}

/// A Transfer payload decodes iff it has exactly the fixed layout.
pub open spec fn transfer_payload_ok(p: Seq<u8>) -> bool {
    p.len() == TRANSFER_LEN
}

/// Copies `p[start..end]`.
fn copy_range(p: &Vec<u8>, start: usize, end: usize) -> (r: Vec<u8>)
    requires
        start <= end <= p@.len(),
    ensures
        r@ == p@.subrange(start as int, end as int),
{
    let mut r: Vec<u8> = Vec::new();
    let mut i: usize = start;
    while i < end
        invariant
            start <= i <= end <= p@.len(),
            r@.len() == i - start,
            forall|j: int| 0 <= j < r@.len() ==> r@[j] == p@[start + j],
        decreases end - i,
    {
        r.push(p[i]);
        i += 1;
    }
    proof {
        assert(r@ =~= p@.subrange(start as int, end as int));
    }
    r
}

/// Reads four little-endian bytes at `off`.
fn read_u32_le(p: &Vec<u8>, off: usize) -> (r: u32)
    requires
        off + 4 <= p@.len(),
    ensures
        r as int == le_u32(p@.subrange(off as int, off as int + 4)),
{
    let l = p.len();
    proof {
        assert(off + 4 <= l);
    }
    let b0 = p[off] as u32;
    let b1 = p[off + 1] as u32;
    let b2 = p[off + 2] as u32;
    let b3 = p[off + 3] as u32;
    b0 + b1 * 0x100 + b2 * 0x10000 + b3 * 0x1000000
}

/// Reads eight little-endian bytes at `off`.
fn read_u64_le(p: &Vec<u8>, off: usize) -> (r: u64)
    requires
        off + 8 <= p@.len(),
    ensures
        r as int == le_u64(p@.subrange(off as int, off as int + 8)),
{
    let l = p.len();
    proof {
        assert(off + 8 <= l);
    }
    let b0 = p[off] as u64;
    let b1 = p[off + 1] as u64;
    let b2 = p[off + 2] as u64;
    let b3 = p[off + 3] as u64;
    let b4 = p[off + 4] as u64;
    let b5 = p[off + 5] as u64;
    let b6 = p[off + 6] as u64;
    let b7 = p[off + 7] as u64;
    b0 + b1 * 0x100 + b2 * 0x10000 + b3 * 0x1000000 + b4 * 0x100000000 + b5 * 0x10000000000 + b6
        * 0x1000000000000 + b7 * 0x100000000000000
}

/// Relies on String::as_bytes: the string's UTF-8 encoding, which
/// String::from_utf8 decodes back to the same characters, at most four
/// bytes per character.
#[verifier::external_body]
fn str_bytes(s: &String) -> (r: Vec<u8>)
    ensures
        utf8_decode(r@) == Some(s@),
        r@.len() <= 4 * s@.len(),
{
    s.as_bytes().to_vec()
}

/// Appends `src` to `dst`.
fn append_bytes(dst: &mut Vec<u8>, src: &Vec<u8>)
    ensures
        final(dst)@ == old(dst)@ + src@,
{
    let ghost d0 = dst@;
    let mut i: usize = 0;
    while i < src.len()
        invariant
            i <= src@.len(),
            dst@.len() == d0.len() + i,
            dst@.subrange(0, d0.len() as int) == d0,
            forall|j: int| 0 <= j < i ==> dst@[d0.len() + j] == src@[j],
        decreases src@.len() - i,
    {
        dst.push(src[i]);
        proof {
            assert(dst@.subrange(0, d0.len() as int) =~= d0);
        }
        i += 1;
    }
    proof {
        assert(dst@ =~= d0 + src@);
    }
}

/// Appends the four little-endian bytes of `x`.
fn push_u32_le(dst: &mut Vec<u8>, x: u32)
    ensures
        final(dst)@.len() == old(dst)@.len() + 4,
        final(dst)@.subrange(0, old(dst)@.len() as int) == old(dst)@,
        le_u32(final(dst)@.subrange(old(dst)@.len() as int, old(dst)@.len() as int + 4)) == x,
{
    let ghost d0 = dst@;
    let b0 = (x % 0x100) as u8;
    let b1 = ((x / 0x100) % 0x100) as u8;
    let b2 = ((x / 0x10000) % 0x100) as u8;
    let b3 = (x / 0x1000000) as u8;
    dst.push(b0);
    dst.push(b1);
    dst.push(b2);
    dst.push(b3);
    proof {
        assert(dst@.subrange(0, d0.len() as int) =~= d0);
        let tail = dst@.subrange(d0.len() as int, d0.len() as int + 4);
        assert(tail[0] == b0 && tail[1] == b1 && tail[2] == b2 && tail[3] == b3);
        assert(b0 + b1 * 0x100 + b2 * 0x10000 + b3 * 0x1000000 == x) by {
            assert(x == 0x100 * (x / 0x100) + (x % 0x100));
            assert(x / 0x100 == 0x100 * ((x / 0x100) / 0x100) + ((x / 0x100) % 0x100));
            assert((x / 0x100) / 0x100 == x / 0x10000) by (nonlinear_arith);
            assert(x / 0x10000 == 0x100 * ((x / 0x10000) / 0x100) + ((x / 0x10000) % 0x100));
            assert((x / 0x10000) / 0x100 == x / 0x1000000) by (nonlinear_arith);
            assert(x / 0x1000000 < 0x100);
        }
    }
}

/// Appends the eight little-endian bytes of `x`.
fn push_u64_le(dst: &mut Vec<u8>, x: u64)
    ensures
        final(dst)@.len() == old(dst)@.len() + 8,
        final(dst)@.subrange(0, old(dst)@.len() as int) == old(dst)@,
        le_u64(final(dst)@.subrange(old(dst)@.len() as int, old(dst)@.len() as int + 8)) == x,
{
    let ghost d0 = dst@;
    let b0 = (x % 0x100) as u8;
    let b1 = ((x / 0x100) % 0x100) as u8;
    let b2 = ((x / 0x10000) % 0x100) as u8;
    let b3 = ((x / 0x1000000) % 0x100) as u8;
    let b4 = ((x / 0x100000000) % 0x100) as u8;
    let b5 = ((x / 0x10000000000) % 0x100) as u8;
    let b6 = ((x / 0x1000000000000) % 0x100) as u8;
    let b7 = (x / 0x100000000000000) as u8;
    dst.push(b0);
    dst.push(b1);
    dst.push(b2);
    dst.push(b3);
    dst.push(b4);
    dst.push(b5);
    dst.push(b6);
    dst.push(b7);
    proof {
        assert(dst@.subrange(0, d0.len() as int) =~= d0);
        let tail = dst@.subrange(d0.len() as int, d0.len() as int + 8);
        assert(tail[0] == b0 && tail[1] == b1 && tail[2] == b2 && tail[3] == b3 && tail[4] == b4
            && tail[5] == b5 && tail[6] == b6 && tail[7] == b7);
        assert(b0 + b1 * 0x100 + b2 * 0x10000 + b3 * 0x1000000 + b4 * 0x100000000 + b5
            * 0x10000000000 + b6 * 0x1000000000000 + b7 * 0x100000000000000 == x) by {
            assert(x == 0x100 * (x / 0x100) + (x % 0x100));
            assert(x / 0x100 == 0x100 * ((x / 0x100) / 0x100) + ((x / 0x100) % 0x100));
            assert((x / 0x100) / 0x100 == x / 0x10000) by (nonlinear_arith);
            assert(x / 0x10000 == 0x100 * ((x / 0x10000) / 0x100) + ((x / 0x10000) % 0x100));
            assert((x / 0x10000) / 0x100 == x / 0x1000000) by (nonlinear_arith);
            assert(x / 0x1000000 == 0x100 * ((x / 0x1000000) / 0x100) + ((x / 0x1000000) % 0x100));
            assert((x / 0x1000000) / 0x100 == x / 0x100000000) by (nonlinear_arith);
            assert(x / 0x100000000 == 0x100 * ((x / 0x100000000) / 0x100) + ((x / 0x100000000)
                % 0x100));
            assert((x / 0x100000000) / 0x100 == x / 0x10000000000) by (nonlinear_arith);
            assert(x / 0x10000000000 == 0x100 * ((x / 0x10000000000) / 0x100) + ((x
                / 0x10000000000) % 0x100));
            assert((x / 0x10000000000) / 0x100 == x / 0x1000000000000) by (nonlinear_arith);
            assert(x / 0x1000000000000 == 0x100 * ((x / 0x1000000000000) / 0x100) + ((x
                / 0x1000000000000) % 0x100));
            assert((x / 0x1000000000000) / 0x100 == x / 0x100000000000000) by (nonlinear_arith);
            assert(x / 0x100000000000000 < 0x100);
        }
    }
}

/// Encodes a CreateAccount payload: the inverse of [`decode_create`] on
/// every field. Fails only when the name's UTF-8 encoding cannot be
/// addressed by the wire format's 32-bit name region (never for a name of
/// up to a million characters).
pub fn encode_create(pub_key: &PubKey, name: &String, signature: &Vec<u8>) -> (r: Option<Vec<u8>>)
    requires
        pub_key.wf(),
        signature@.len() == SIG_LEN,
    ensures
        r matches Some(p) ==> {
            &&& create_payload_ok(p@)
            &&& p@.subrange(0, KEY_LEN as int) == pub_key@
            &&& utf8_decode(create_name_bytes(p@)) == Some(name@)
            &&& p@.subrange(p@.len() - SIG_LEN, p@.len() as int) == signature@
        },
        4 * name@.len() + CREATE_MIN_LEN <= u32::MAX ==> r is Some,
{
    let nb = str_bytes(name);
    if (nb.len() as u64) > (u32::MAX as u64) - (CREATE_MIN_LEN as u64) {
        return None;
    }
    let mut p = copy_range(&pub_key.bytes, 0, pub_key.bytes.len());
    proof {
        assert(p@ =~= pub_key@);
    }
    push_u32_le(&mut p, CREATE_HEADER_LEN as u32);
    let ghost p1 = p@;
    push_u32_le(&mut p, nb.len() as u32);
    let ghost p2 = p@;
    append_bytes(&mut p, &nb);
    let ghost p3 = p@;
    append_bytes(&mut p, signature);
    proof {
        assert forall|j: int| 0 <= j < 40 implies p@[j] == p2[j] by {
            assert(p@[j] == p3[j]);
        }
        assert forall|j: int| 0 <= j < 36 implies p2[j] == p1[j] by {
            assert(p2[j] == p2.subrange(0, 36)[j]);
        }
        assert forall|j: int| 0 <= j < 32 implies p1[j] == pub_key@[j] by {
            assert(p1[j] == p1.subrange(0, 32)[j]);
        }
        assert(p@.subrange(0, KEY_LEN as int) =~= pub_key@);
        assert(p@.subrange(32, 36) =~= p1.subrange(32, 36));
        assert(p@.subrange(36, 40) =~= p2.subrange(36, 40));
        assert(le_u32(p@.subrange(32, 36)) == CREATE_HEADER_LEN);
        assert(le_u32(p@.subrange(36, 40)) == nb@.len());
        assert(p2.len() == 40);
        assert(p@.subrange(40, 40 + nb@.len() as int) =~= nb@);
        assert(create_name_bytes(p@) == nb@);
        assert(p3.len() == 40 + nb@.len());
        assert(p@.subrange(p@.len() - SIG_LEN, p@.len() as int) =~= signature@);
    }
    Some(p)
}

/// Encodes a Transfer payload: the inverse of [`decode_transfer`] on every
/// field.
pub fn encode_transfer(
    from: &PubKey,
    to: &PubKey,
    amount: u64,
    seed: u64,
    signature: &Vec<u8>,
) -> (r: Vec<u8>)
    requires
        from.wf(),
        to.wf(),
        signature@.len() == SIG_LEN,
    ensures
        transfer_payload_ok(r@),
        r@.subrange(0, 32) == from@,
        r@.subrange(32, 64) == to@,
        le_u64(r@.subrange(64, 72)) == amount,
        le_u64(r@.subrange(72, 80)) == seed,
        r@.subrange(80, TRANSFER_LEN as int) == signature@,
{
    let mut p = copy_range(&from.bytes, 0, from.bytes.len());
    proof {
        assert(p@ =~= from@);
    }
    append_bytes(&mut p, &to.bytes);
    let ghost p1 = p@;
    push_u64_le(&mut p, amount);
    let ghost p2 = p@;
    push_u64_le(&mut p, seed);
    let ghost p3 = p@;
    append_bytes(&mut p, signature);
    proof {
        assert forall|j: int| 0 <= j < 80 implies p@[j] == p3[j] by {}
        assert forall|j: int| 0 <= j < 72 implies p3[j] == p2[j] by {
            assert(p3[j] == p3.subrange(0, 72)[j]);
        }
        assert forall|j: int| 0 <= j < 64 implies p2[j] == p1[j] by {
            assert(p2[j] == p2.subrange(0, 64)[j]);
        }
        assert(p@.subrange(0, 32) =~= from@);
        assert(p@.subrange(32, 64) =~= to@);
        assert(p@.subrange(64, 72) =~= p2.subrange(64, 72));
        assert(p@.subrange(72, 80) =~= p3.subrange(72, 80));
        assert(p3.len() == 80);
        assert(p@.subrange(80, TRANSFER_LEN as int) =~= signature@);
    }
    p
}

/// The numeric value of one hex digit, or -1 where the byte is no hex
/// digit.
pub open spec fn hex_val(c: u8) -> int {
    if 48 <= c <= 57 {
        c - 48
    } else if 97 <= c <= 102 {
        c - 87
    } else if 65 <= c <= 70 {
        c - 55
    } else {
        -1
    }
}

/// A hex-encoded public key: exactly two digits per key byte.
pub open spec fn hex_key_ok(s: Seq<u8>) -> bool {
    &&& s.len() == 2 * KEY_LEN
    &&& forall|i: int| 0 <= i < s.len() ==> hex_val(s[i]) >= 0
}

/// The bytes a sequence of hex digit pairs spells.
pub open spec fn hex_bytes(s: Seq<u8>) -> Seq<u8> {
    Seq::new(s.len() / 2, |i: int| (hex_val(s[2 * i]) * 16 + hex_val(s[2 * i + 1])) as u8)
}

/// Decodes a hex-encoded public key from a query parameter: succeeds iff
/// the input is exactly 64 hex digits, and then yields exactly the bytes
/// they spell. Anything else is a malformed request.
pub fn decode_hex_key(s: &Vec<u8>) -> (r: Option<PubKey>)
    ensures
        (r is Some) == hex_key_ok(s@),
        r matches Some(k) ==> k@ == hex_bytes(s@) && k.wf(),
{
    if s.len() != 2 * KEY_LEN {
        return None;
    }
    let mut out: Vec<u8> = Vec::new();
    let mut i: usize = 0;
    while i < KEY_LEN
        invariant
            i <= KEY_LEN,
            s@.len() == 2 * KEY_LEN,
            out@.len() == i,
            forall|j: int| 0 <= j < 2 * i ==> hex_val(s@[j]) >= 0,
            forall|j: int| 0 <= j < i ==> out@[j] == hex_bytes(s@)[j],
        decreases KEY_LEN - i,
    {
        let hi = hex_digit(s[2 * i]);
        let lo = hex_digit(s[2 * i + 1]);
        match (hi, lo) {
            (Some(h), Some(l)) => {
                out.push(h * 16 + l);
            },
            _ => {
                return None;
            },
        }
        i += 1;
    }
    proof {
        assert(out@ =~= hex_bytes(s@));
    }
    Some(PubKey { bytes: out })
}

/// The numeric value of one hex digit byte.
fn hex_digit(c: u8) -> (r: Option<u8>)
    ensures
        r matches Some(v) ==> hex_val(c) == v && v < 16,
        r is None ==> hex_val(c) < 0,
{
    if 48 <= c && c <= 57 {
        Some(c - 48)
    } else if 97 <= c && c <= 102 {
        Some(c - 87)
    } else if 65 <= c && c <= 70 {
        Some(c - 55)
    } else {
        None
    }
}

/// Decodes a CreateAccount payload, returning exactly the declared fields:
/// it succeeds iff the payload is structurally sound, and every field of
/// the envelope is the corresponding region of the payload.
pub fn decode_create(payload: &Vec<u8>) -> (r: Result<TxCreateWallet, EncodingError>)
    ensures
        (r is Ok) == create_payload_ok(payload@),
        r matches Ok(tx) ==> {
            &&& tx.pub_key@ == payload@.subrange(0, KEY_LEN as int)
            &&& Some(tx.name@) == utf8_decode(create_name_bytes(payload@))
            &&& tx.body@ == payload@.subrange(0, payload@.len() - SIG_LEN)
            &&& tx.signature@ == payload@.subrange(
                payload@.len() - SIG_LEN,
                payload@.len() as int,
            )
            &&& tx.wf()
        },
        r matches Err(e) ==> e == EncodingError::Malformed,
{
    if payload.len() < CREATE_MIN_LEN {
        return Err(EncodingError::Malformed);
    }
    let off = read_u32_le(payload, 32);
    let n = read_u32_le(payload, 36);
    let sig_start = payload.len() - SIG_LEN;
    if off < CREATE_HEADER_LEN as u32 {
        return Err(EncodingError::Malformed);
    }
    if (off as u64) + (n as u64) > (sig_start as u64) {
        return Err(EncodingError::Malformed);
    }
    let name_bytes = copy_range(payload, off as usize, off as usize + n as usize);
    proof {
        assert(name_bytes@ == create_name_bytes(payload@));
    }
    match bytes_to_string(name_bytes) {
        None => Err(EncodingError::Malformed),
        Some(name) => {
            let pub_key = PubKey::new(copy_range(payload, 0, KEY_LEN));
            let body = copy_range(payload, 0, sig_start);
            let signature = copy_range(payload, sig_start, payload.len());
            Ok(TxCreateWallet { pub_key, name, body, signature })
        },
    }
}

/// Decodes a Transfer payload, returning exactly the declared fields: it
/// succeeds iff the payload has the fixed layout, and every field of the
/// envelope is the corresponding region of the payload.
pub fn decode_transfer(payload: &Vec<u8>) -> (r: Result<TxTransfer, EncodingError>)
    ensures
        (r is Ok) == transfer_payload_ok(payload@),
        r matches Ok(tx) ==> {
            &&& tx.from@ == payload@.subrange(0, 32)
            &&& tx.to@ == payload@.subrange(32, 64)
            &&& tx.amount as int == le_u64(payload@.subrange(64, 72))
            &&& tx.seed as int == le_u64(payload@.subrange(72, 80))
            &&& tx.body@ == payload@.subrange(0, 80)
            &&& tx.signature@ == payload@.subrange(80, TRANSFER_LEN as int)
            &&& tx.wf()
        },
        r matches Err(e) ==> e == EncodingError::Malformed,
{
    if payload.len() != TRANSFER_LEN {
        return Err(EncodingError::Malformed);
    }
    let from = PubKey::new(copy_range(payload, 0, 32));
    let to = PubKey::new(copy_range(payload, 32, 64));
    let amount = read_u64_le(payload, 64);
    let seed = read_u64_le(payload, 72);
    let body = copy_range(payload, 0, 80);
    let signature = copy_range(payload, 80, TRANSFER_LEN);
    Ok(TxTransfer { from, to, amount, seed, body, signature })
}

} // verus!
