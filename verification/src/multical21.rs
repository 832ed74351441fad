//! Kamstrup Multical 21 payload parsing: inner checksum validation, layout
//! classification, and field extraction from the two reverse-engineered
//! binary layouts.

use vstd::prelude::*;

use crate::wmbus::{crc16_en13757, crc16_spec};

verus! {

/// A structured water-meter reading extracted from one decrypted frame.
#[derive(Clone, Debug)]
pub struct MeterReading {
    /// Total cumulative volume in liters.
    pub total_volume_l: u32,
    /// Secondary (target/month-start) volume counter in liters.
    pub target_volume_l: u32,
    /// Flow temperature in degrees Celsius.
    pub flow_temp: u8,
    /// Ambient temperature in degrees Celsius.
    pub ambient_temp: u8,
    /// Info/status byte.
    pub info_codes: u8,
    /// Epoch seconds at parse time.
    pub timestamp: i64,
    /// ISO-8601 rendering of the parse time.
    pub timestamp_s: String,
}

/// The payload's leading two bytes hold, big-endian, the CRC-16 of the rest.
pub open spec fn checksum_ok(data: Seq<u8>) -> bool {
    &&& data.len() >= 2
    &&& ((data[0] as u16) << 8 | (data[1] as u16)) == crc16_spec(data.skip(2))
}

/// Little-endian 32-bit value at offset `i`.
pub open spec fn le32_at(s: Seq<u8>, i: int) -> u32 {
    (s[i] as u32) | (s[i + 1] as u32) << 8 | (s[i + 2] as u32) << 16 | (s[i + 3] as u32) << 24
}

/// The compact-layout discriminator.
pub open spec fn compact_ci() -> u8 {
    0x79
}

/// The long-layout discriminator.
pub open spec fn long_ci() -> u8 {
    0x78
}

/// A decrypted payload yields a reading exactly when it is at least 3 bytes,
/// its checksum matches, and its discriminator selects a layout whose minimum
/// length it reaches.
pub open spec fn payload_ok(data: Seq<u8>) -> bool {
    &&& data.len() >= 3
    &&& checksum_ok(data)
    &&& ((data[2] == compact_ci() && data.len() >= 19) || (data[2] == long_ci() && data.len()
        >= 30))
}

/// Total volume in liters: compact layout at bytes 9..13, long at 10..14.
pub open spec fn total_volume_of(data: Seq<u8>) -> u32 {
    if data[2] == compact_ci() {
        le32_at(data, 9)
    } else {
        le32_at(data, 10)
    }
}

/// Secondary volume in liters: compact layout at bytes 13..17, long at 16..20.
pub open spec fn target_volume_of(data: Seq<u8>) -> u32 {
    if data[2] == compact_ci() {
        le32_at(data, 13)
    } else {
        le32_at(data, 16)
    }
}

/// Flow temperature: compact layout at byte 17, long at byte 23.
pub open spec fn flow_temp_of(data: Seq<u8>) -> u8 {
    if data[2] == compact_ci() {
        data[17]
    } else {
        data[23]
    }
}

/// Ambient temperature: compact layout at byte 18, long at byte 29.
pub open spec fn ambient_temp_of(data: Seq<u8>) -> u8 {
    if data[2] == compact_ci() {
        data[18]
    } else {
        data[29]
    }
}

/// Info/status byte, at byte 4 in both layouts.
pub open spec fn info_codes_of(data: Seq<u8>) -> u8 {
    data[4]
}

/// All timestamp-independent fields of `rd` equal the values the payload
/// `data` dictates.
pub open spec fn reading_matches(rd: MeterReading, data: Seq<u8>) -> bool {
    &&& rd.total_volume_l == total_volume_of(data)
    &&& rd.target_volume_l == target_volume_of(data)
    &&& rd.flow_temp == flow_temp_of(data)
    &&& rd.ambient_temp == ambient_temp_of(data)
    &&& rd.info_codes == info_codes_of(data)
}

/// Prepending a payload's own big-endian CRC-16 yields bytes whose checksum
/// validates.
pub proof fn lemma_checksum_round_trip(payload: Seq<u8>)
    ensures
        checksum_ok(seq![(crc16_spec(payload) >> 8) as u8, crc16_spec(payload) as u8] + payload),
{
    let c = crc16_spec(payload);
    let hi = (c >> 8) as u8;
    let lo = c as u8;
    let framed = seq![hi, lo] + payload;
    assert(framed.skip(2) =~= payload);
    assert(((hi as u16) << 8 | (lo as u16)) == c) by (bit_vector)
        requires
            hi == (c >> 8) as u8,
            lo == c as u8,
    ;
    assert(framed[0] == hi && framed[1] == lo);
}

/// Changing any single byte of a checksummed payload — whether in the stored
/// checksum or in the data — makes validation reject.
pub proof fn lemma_checksum_detects_byte_change(data: Seq<u8>, i: int, x: u8)
    requires
        checksum_ok(data),
        0 <= i < data.len(),
        x != data[i],
    ensures
        !checksum_ok(data.update(i, x)),
{
    let d2 = data.update(i, x);
    if i >= 2 {
        assert(d2.skip(2) =~= data.skip(2).update(i - 2, x));
        crate::wmbus::lemma_crc16_detects_byte_change(data.skip(2), d2.skip(2), i - 2);
        assert(d2[0] == data[0] && d2[1] == data[1]);
    } else {
        assert(d2.skip(2) =~= data.skip(2));
        let a1 = data[0];
        let b1 = data[1];
        let a2 = d2[0];
        let b2 = d2[1];
        assert(((a1 as u16) << 8 | (b1 as u16)) != ((a2 as u16) << 8 | (b2 as u16))) by (bit_vector)
            requires
                a1 != a2 || b1 != b2,
        ;
    }
}

/// Compare the payload's stored checksum against the CRC-16 of the remainder.
pub fn checksum_valid(data: &[u8]) -> (r: bool)
    ensures
        r == checksum_ok(data@),
{
    if data.len() < 2 {
        return false;
    }
    let read_crc: u16 = (data[0] as u16) << 8 | (data[1] as u16);
    let rest = vstd::slice::slice_subrange(data, 2, data.len());
    let calc_crc = crc16_en13757(rest);
    proof {
        assert(rest@ =~= data@.skip(2));
    }
    read_crc == calc_crc
}

/// Little-endian 32-bit read at offset `i`.
fn le32(data: &[u8], i: usize) -> (r: u32)
    requires
        i + 4 <= data@.len(),
    ensures
        r == le32_at(data@, i as int),
{
    (data[i] as u32) | (data[i + 1] as u32) << 8 | (data[i + 2] as u32) << 16 | (data[i
        + 3] as u32) << 24
}

/// Parse a compact-layout payload (discriminator 0x79), stamping the reading
/// with the supplied time. Rejects payloads under 19 bytes.
pub fn parse_compact_frame(data: &[u8], epoch: i64, iso: String) -> (r: Option<MeterReading>)
    ensures
        r is Some <==> data@.len() >= 19,
        r is Some ==> {
            let rd = r.unwrap();
            &&& rd.total_volume_l == le32_at(data@, 9)
            &&& rd.target_volume_l == le32_at(data@, 13)
            &&& rd.flow_temp == data@[17]
            &&& rd.ambient_temp == data@[18]
            &&& rd.info_codes == data@[4]
            &&& rd.timestamp == epoch
            &&& rd.timestamp_s@ == iso@
        },
{
    if data.len() < 19 {
        return None;
    }

    let info_codes = data[4];
    let total_volume_l = le32(data, 9);
    let target_volume_l = le32(data, 13);
    let flow_temp = data[17];
    let ambient_temp = data[18];

    Some(
        MeterReading {
            total_volume_l,
            target_volume_l,
            flow_temp,
            ambient_temp,
            info_codes,
            timestamp: epoch,
            timestamp_s: iso,
        },
    )
}

/// Parse a long-layout payload (discriminator 0x78), stamping the reading
/// with the supplied time. Rejects payloads under 30 bytes.
pub fn parse_long_frame(data: &[u8], epoch: i64, iso: String) -> (r: Option<MeterReading>)
    ensures
        r is Some <==> data@.len() >= 30,
        r is Some ==> {
            let rd = r.unwrap();
            &&& rd.total_volume_l == le32_at(data@, 10)
            &&& rd.target_volume_l == le32_at(data@, 16)
            &&& rd.flow_temp == data@[23]
            &&& rd.ambient_temp == data@[29]
            &&& rd.info_codes == data@[4]
            &&& rd.timestamp == epoch
            &&& rd.timestamp_s@ == iso@
        },
{
    if data.len() < 30 {
        return None;
    }

    let info_codes = data[4];
    let total_volume_l = le32(data, 10);
    let target_volume_l = le32(data, 16);
    let flow_temp = data[23];
    let ambient_temp = data[29];

    Some(
        MeterReading {
            total_volume_l,
            target_volume_l,
            flow_temp,
            ambient_temp,
            info_codes,
            timestamp: epoch,
            timestamp_s: iso,
        },
    )
}

/// Parse a decrypted payload into a reading stamped with the supplied time:
/// validate the inner checksum, dispatch on the layout discriminator at
/// byte 2, and extract the layout's fields.
pub fn parse_multical21_stamped(data: &[u8], epoch: i64, iso: String) -> (r: Option<MeterReading>)
    ensures
        r is Some <==> payload_ok(data@),
        r is Some ==> reading_matches(r.unwrap(), data@),
        r is Some ==> r.unwrap().timestamp == epoch && r.unwrap().timestamp_s@ == iso@,
{
    if data.len() < 3 {
        return None;
    }

    if !checksum_valid(data) {
        return None;
    }

    let ci = data[2];
    if ci == 0x79 {
        parse_compact_frame(data, epoch, iso)
    } else if ci == 0x78 {
        parse_long_frame(data, epoch, iso)
    } else {
        None
    }
}

/// Relies on `chrono::Utc::now` for the wall-clock time; the result depends
/// on the clock, so nothing is promised of it.
#[verifier::external_body]
fn now_utc() -> (r: (i64, String)) {
    let now = chrono::Utc::now();
    (now.timestamp(), now.format("%Y-%m-%dT%H:%M:%SZ").to_string())
}

/// Parse a decrypted payload into a reading stamped with the current time.
/// Apart from the two timestamp fields, the result is a function of the
/// payload bytes alone.
pub fn parse_multical21(data: &[u8]) -> (r: Option<MeterReading>)
    ensures
        r is Some <==> payload_ok(data@),
        r is Some ==> reading_matches(r.unwrap(), data@),
{
    let (epoch, iso) = now_utc();
    parse_multical21_stamped(data, epoch, iso)
}

} // verus!
