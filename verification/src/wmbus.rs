//! wMBus frame decoding: CRC-16, meter-identity filtering, IV derivation and
//! AES-128 counter-mode decryption of the Extended Link Layer payload.

use vstd::prelude::*;

use aes::Aes128;
use ctr::cipher::{KeyIvInit, StreamCipher};
use ctr::Ctr128BE;

use crate::multical21::{parse_multical21, reading_matches, payload_ok, MeterReading};

verus! {

/// One shift-and-conditionally-xor round of the CRC-16 register
/// (polynomial 0x3D65).
pub open spec fn crc16_round(c: u16) -> u16 {
    if c & 0x8000 != 0 {
        (c << 1) ^ 0x3D65
    } else {
        c << 1
    }
}

/// `n` successive CRC rounds.
pub open spec fn crc16_rounds(c: u16, n: nat) -> u16
    decreases n,
{
    if n == 0 {
        c
    } else {
        crc16_rounds(crc16_round(c), (n - 1) as nat)
    }
}

/// Feed one data byte into the CRC register: xor it into the top byte,
/// then run eight rounds.
pub open spec fn crc16_feed(c: u16, b: u8) -> u16 {
    crc16_rounds(c ^ ((b as u16) << 8), 8)
}

/// CRC register state after all bytes of `data`, starting from 0.
pub open spec fn crc16_state(data: Seq<u8>) -> u16
    decreases data.len(),
{
    if data.len() == 0 {
        0
    } else {
        crc16_feed(crc16_state(data.drop_last()), data.last())
    }
}

/// The published checksum value: register state xored with 0xFFFF.
pub open spec fn crc16_spec(data: Seq<u8>) -> u16 {
    crc16_state(data) ^ 0xFFFF
}

/// CRC-16 EN 13757 (polynomial 0x3D65, init 0x0000, final XOR 0xFFFF,
/// no reflection).
pub fn crc16_en13757(data: &[u8]) -> (r: u16)
    ensures
        r == crc16_spec(data@),
{
    let mut crc: u16 = 0x0000;
    let mut i: usize = 0;
    while i < data.len()
        invariant
            i <= data@.len(),
            crc == crc16_state(data@.take(i as int)),
        decreases data@.len() - i,
    {
        let b = data[i];
        let mut c: u16 = crc ^ ((b as u16) << 8);
        let mut k: usize = 0;
        while k < 8
            invariant
                k <= 8,
                c == crc16_rounds(crc ^ ((b as u16) << 8), k as nat),
            decreases 8 - k,
        {
            proof {
                lemma_crc16_rounds_step(crc ^ ((b as u16) << 8), k as nat);
            }
            if c & 0x8000 != 0 {
                c = (c << 1) ^ 0x3D65;
            } else {
                c = c << 1;
            }
            k = k + 1;
        }
        proof {
            assert(data@.take(i + 1).drop_last() =~= data@.take(i as int));
            assert(data@.take(i + 1).last() == data@[i as int]);
        }
        crc = c;
        i = i + 1;
    }
    proof {
        assert(data@.take(data@.len() as int) =~= data@);
    }
    crc ^ 0xFFFF
}

/// Unrolling `crc16_rounds` from the back: the round applied last.
proof fn lemma_crc16_rounds_step(c: u16, n: nat)
    ensures
        crc16_rounds(c, n + 1) == crc16_round(crc16_rounds(c, n)),
    decreases n,
{
    assert(crc16_rounds(c, n + 1) == crc16_rounds(crc16_round(c), n));
    if n > 0 {
        assert(crc16_rounds(c, n) == crc16_rounds(crc16_round(c), (n - 1) as nat));
        lemma_crc16_rounds_step(crc16_round(c), (n - 1) as nat);
    }
}

/// One CRC round distributes over xor.
proof fn lemma_crc16_round_linear(c: u16, d: u16)
    by (bit_vector)
    ensures
        crc16_round(c ^ d) == crc16_round(c) ^ crc16_round(d),
{
}

/// `n` CRC rounds distribute over xor.
proof fn lemma_crc16_rounds_linear(c: u16, d: u16, n: nat)
    ensures
        crc16_rounds(c ^ d, n) == crc16_rounds(c, n) ^ crc16_rounds(d, n),
    decreases n,
{
    if n > 0 {
        lemma_crc16_round_linear(c, d);
        lemma_crc16_rounds_linear(crc16_round(c), crc16_round(d), (n - 1) as nat);
    }
}

/// One CRC round maps a nonzero register to a nonzero register: with the top
/// bit set the polynomial's odd constant sets the low bit, without it the
/// shift loses nothing.
proof fn lemma_crc16_round_nonzero(c: u16)
    by (bit_vector)
    ensures
        c != 0 ==> crc16_round(c) != 0,
{
}

/// `n` CRC rounds map a nonzero register to a nonzero register.
proof fn lemma_crc16_rounds_nonzero(c: u16, n: nat)
    ensures
        c != 0 ==> crc16_rounds(c, n) != 0,
    decreases n,
{
    if n > 0 {
        lemma_crc16_round_nonzero(c);
        lemma_crc16_rounds_nonzero(crc16_round(c), (n - 1) as nat);
    }
}

/// Feeding the same byte into different register states keeps the states
/// different.
proof fn lemma_crc16_feed_diff_state(c1: u16, c2: u16, b: u8)
    requires
        c1 != c2,
    ensures
        crc16_feed(c1, b) != crc16_feed(c2, b),
{
    let x = c1 ^ ((b as u16) << 8);
    let y = c2 ^ ((b as u16) << 8);
    let d = x ^ y;
    assert(d != 0 && y == x ^ d) by (bit_vector)
        requires
            c1 != c2,
            x == c1 ^ ((b as u16) << 8),
            y == c2 ^ ((b as u16) << 8),
            d == x ^ y,
    ;
    lemma_crc16_rounds_linear(x, d, 8);
    lemma_crc16_rounds_nonzero(d, 8);
    let rx = crc16_rounds(x, 8);
    let rd = crc16_rounds(d, 8);
    assert(rx ^ rd != rx) by (bit_vector)
        requires
            rd != 0,
    ;
}

/// Feeding different bytes into the same register state yields different
/// states.
proof fn lemma_crc16_feed_diff_byte(c: u16, b1: u8, b2: u8)
    requires
        b1 != b2,
    ensures
        crc16_feed(c, b1) != crc16_feed(c, b2),
{
    let x = c ^ ((b1 as u16) << 8);
    let y = c ^ ((b2 as u16) << 8);
    let d = x ^ y;
    assert(d != 0 && y == x ^ d) by (bit_vector)
        requires
            b1 != b2,
            x == c ^ ((b1 as u16) << 8),
            y == c ^ ((b2 as u16) << 8),
            d == x ^ y,
    ;
    lemma_crc16_rounds_linear(x, d, 8);
    lemma_crc16_rounds_nonzero(d, 8);
    let rx = crc16_rounds(x, 8);
    let rd = crc16_rounds(d, 8);
    assert(rx ^ rd != rx) by (bit_vector)
        requires
            rd != 0,
    ;
}

/// Sequences that differ in exactly one byte have different CRC register
/// states.
proof fn lemma_crc16_state_diff(d1: Seq<u8>, d2: Seq<u8>, i: int)
    requires
        d1.len() == d2.len(),
        0 <= i < d1.len(),
        d1[i] != d2[i],
        forall|j: int| 0 <= j < d1.len() && j != i ==> d1[j] == d2[j],
    ensures
        crc16_state(d1) != crc16_state(d2),
    decreases d1.len(),
{
    let n = d1.len() as int;
    if i == n - 1 {
        assert(d1.drop_last() =~= d2.drop_last());
        lemma_crc16_feed_diff_byte(crc16_state(d1.drop_last()), d1.last(), d2.last());
    } else {
        lemma_crc16_state_diff(d1.drop_last(), d2.drop_last(), i);
        lemma_crc16_feed_diff_state(
            crc16_state(d1.drop_last()),
            crc16_state(d2.drop_last()),
            d1.last(),
        );
    }
}

/// Corrupting any single byte of a sequence changes its CRC-16 checksum:
/// in particular no single-bit flip can collide.
pub proof fn lemma_crc16_detects_byte_change(d1: Seq<u8>, d2: Seq<u8>, i: int)
    requires
        d1.len() == d2.len(),
        0 <= i < d1.len(),
        d1[i] != d2[i],
        forall|j: int| 0 <= j < d1.len() && j != i ==> d1[j] == d2[j],
    ensures
        crc16_spec(d1) != crc16_spec(d2),
{
    lemma_crc16_state_diff(d1, d2, i);
    let a = crc16_state(d1);
    let b = crc16_state(d2);
    assert(a ^ 0xFFFF != b ^ 0xFFFF) by (bit_vector)
        requires
            a != b,
    ;
}

/// The expected serial stands at bytes 4..8 of the frame, already in wire
/// (little-endian) order.
pub open spec fn serial_matches(payload: Seq<u8>, meter_id: Seq<u8>) -> bool {
    &&& payload.len() >= 8
    &&& payload[4] == meter_id[0]
    &&& payload[5] == meter_id[1]
    &&& payload[6] == meter_id[2]
    &&& payload[7] == meter_id[3]
}

/// Check if the frame's meter serial matches the expected meter serial.
/// The serial sits at payload[4..8] in wire order.
pub fn check_meter_id(payload: &[u8], meter_id: &[u8; 4]) -> (r: bool)
    ensures
        r == serial_matches(payload@, meter_id@),
{
    if payload.len() < 8 {
        return false;
    }
    payload[4] == meter_id[0] && payload[5] == meter_id[1] && payload[6] == meter_id[2]
        && payload[7] == meter_id[3]
}

/// The 16-byte counter-mode IV derived from the frame header:
/// manufacturer code (bytes 2..4), address (bytes 4..10), communication
/// control (byte 11), session number (bytes 13..17), three zero bytes.
pub open spec fn iv_spec(raw: Seq<u8>) -> Seq<u8> {
    seq![
        raw[2],
        raw[3],
        raw[4],
        raw[5],
        raw[6],
        raw[7],
        raw[8],
        raw[9],
        raw[11],
        raw[13],
        raw[14],
        raw[15],
        raw[16],
        0u8,
        0u8,
        0u8,
    ]
}

/// Construct the AES-128-CTR IV for the encrypted transport layer from the
/// wMBus frame header.
pub fn build_iv(raw: &[u8]) -> (iv: [u8; 16])
    requires
        raw@.len() >= 17,
    ensures
        iv@ == iv_spec(raw@),
{
    let iv: [u8; 16] = [
        raw[2],
        raw[3],
        raw[4],
        raw[5],
        raw[6],
        raw[7],
        raw[8],
        raw[9],
        raw[11],
        raw[13],
        raw[14],
        raw[15],
        raw[16],
        0u8,
        0u8,
        0u8,
    ];
    proof {
        assert(iv@ =~= iv_spec(raw@));
    }
    iv
}

/// The AES-128 counter-mode keystream byte at position `i`, a function of the
/// key and the initial counter block alone.
pub uninterp spec fn aes128_ctr_keystream_byte(key: Seq<u8>, iv: Seq<u8>, i: int) -> u8;

/// `data` xored bytewise with the AES-128 counter-mode keystream.
pub open spec fn ctr_keystream_xor(key: Seq<u8>, iv: Seq<u8>, data: Seq<u8>) -> Seq<u8> {
    Seq::new(data.len(), |i: int| data[i] ^ aes128_ctr_keystream_byte(key, iv, i))
}

/// Relies on `ctr::Ctr128BE::<aes::Aes128>` (`cipher::StreamCipher::apply_keystream`):
/// the buffer is xored in place with a keystream that is a function of the key
/// and the initial counter block alone.
#[verifier::external_body]
fn apply_aes128_ctr(key: &[u8; 16], iv: &[u8; 16], data: &mut Vec<u8>)
    ensures
        final(data)@ == ctr_keystream_xor(key@, iv@, old(data)@),
        forall|i: int|
            0 <= i < old(data)@.len() ==> final(data)@[i] == old(data)@[i]
                ^ aes128_ctr_keystream_byte(key@, iv@, i),
{
    let mut cipher = Ctr128BE::<Aes128>::new(key.into(), iv.into());
    cipher.apply_keystream(data.as_mut_slice());
}

/// Counter mode is an involution: applying the same keystream twice returns
/// the original bytes, so decryption equals encryption.
pub proof fn lemma_ctr_symmetry(key: Seq<u8>, iv: Seq<u8>, p: Seq<u8>)
    ensures
        ctr_keystream_xor(key, iv, ctr_keystream_xor(key, iv, p)) == p,
{
    let once = ctr_keystream_xor(key, iv, p);
    let twice = ctr_keystream_xor(key, iv, once);
    assert forall|i: int| 0 <= i < p.len() implies twice[i] == p[i] by {
        let k = aes128_ctr_keystream_byte(key, iv, i);
        let a = p[i];
        assert((a ^ k) ^ k == a) by (bit_vector);
    }
    assert(twice =~= p);
}

/// The ciphertext span is bytes 17 .. (length field − 1); it must be
/// non-empty and lie inside the frame.
pub open spec fn cipher_span_ok(raw: Seq<u8>) -> bool {
    &&& raw[0] >= 19
    &&& raw[0] - 1 <= raw.len()
}

/// The decrypted payload of a frame whose ciphertext span is valid.
pub open spec fn frame_plaintext(raw: Seq<u8>, key: Seq<u8>) -> Seq<u8> {
    ctr_keystream_xor(key, iv_spec(raw), raw.subrange(17, raw[0] - 1))
}

/// Decrypt the encrypted-transport payload using AES-128-CTR with the
/// frame-derived IV. The ciphertext spans bytes 17 .. (length field − 1).
pub fn decrypt_payload(raw: &[u8], key: &[u8; 16]) -> (r: Option<Vec<u8>>)
    requires
        raw@.len() >= 1,
    ensures
        r is Some <==> cipher_span_ok(raw@),
        r is Some ==> r.unwrap()@ == frame_plaintext(raw@, key@),
{
    let l_field = raw[0] as usize;
    let encrypted_start: usize = 17;
    if l_field < 1 {
        return None;
    }
    let encrypted_end = l_field - 1;
    if encrypted_start >= encrypted_end || encrypted_end > raw.len() {
        return None;
    }
    let iv = build_iv(raw);
    let mut decrypted = vstd::slice::slice_to_vec(
        vstd::slice::slice_subrange(raw, encrypted_start, encrypted_end),
    );
    apply_aes128_ctr(key, &iv, &mut decrypted);
    Some(decrypted)
}

/// A frame is addressed to us and carries the supported layers: long enough,
/// unicast control byte 0x44, matching serial, encrypted-transport
/// discriminator 0x8D at offset 10.
pub open spec fn frame_accepted(raw: Seq<u8>, meter_id: Seq<u8>) -> bool {
    &&& raw.len() >= 18
    &&& raw[1] == 0x44
    &&& serial_matches(raw, meter_id)
    &&& raw[10] == 0x8D
}

/// A frame yields a reading exactly when it is accepted, its ciphertext span
/// is valid, and the decrypted payload passes the inner checks.
pub open spec fn frame_yields_reading(raw: Seq<u8>, meter_id: Seq<u8>, key: Seq<u8>) -> bool {
    &&& frame_accepted(raw, meter_id)
    &&& cipher_span_ok(raw)
    &&& payload_ok(frame_plaintext(raw, key))
}

/// Full wMBus frame pipeline: framing checks, meter-identity filter,
/// decryption, payload parse. Malformed or foreign frames yield `None`,
/// never a partial reading.
pub fn parse_frame(raw: &[u8], meter_id: &[u8; 4], key: &[u8; 16]) -> (r: Option<MeterReading>)
    ensures
        r is Some <==> frame_yields_reading(raw@, meter_id@, key@),
        r is Some ==> reading_matches(r.unwrap(), frame_plaintext(raw@, key@)),
{
    if raw.len() < 18 {
        return None;
    }

    let c_field = raw[1];
    if c_field != 0x44 {
        return None;
    }

    if !check_meter_id(raw, meter_id) {
        return None;
    }

    if raw[10] != 0x8D {
        return None;
    }

    let decrypted = match decrypt_payload(raw, key) {
        Some(d) => d,
        None => {
            return None;
        },
    };
    parse_multical21(decrypted.as_slice())
}

} // verus!
