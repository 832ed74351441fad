use esp32multical21::multical21::{
    parse_compact_frame, parse_long_frame, parse_multical21, parse_multical21_stamped,
};
use esp32multical21::wmbus::crc16_en13757;

/// A checksummed payload of `total_len` bytes whose discriminator is `ci`,
/// with the given field bytes already placed in `rest` (rest[0] is byte 2).
fn framed(mut rest: Vec<u8>, ci: u8) -> Vec<u8> {
    rest[0] = ci;
    let crc = crc16_en13757(&rest);
    let mut data = vec![(crc >> 8) as u8, (crc & 0xFF) as u8];
    data.extend_from_slice(&rest);
    data
}

fn compact_payload() -> Vec<u8> {
    let mut rest = vec![0u8; 17];
    rest[2] = 0x05; // info codes, byte 4 of the payload
    rest[7..11].copy_from_slice(&7_777u32.to_le_bytes());
    rest[11..15].copy_from_slice(&6_000u32.to_le_bytes());
    rest[15] = 20;
    rest[16] = 18;
    framed(rest, 0x79)
}

fn long_payload() -> Vec<u8> {
    let mut rest = vec![0u8; 28];
    rest[2] = 0x09; // info codes, byte 4 of the payload
    rest[8..12].copy_from_slice(&44_000u32.to_le_bytes()); // bytes 10..14
    rest[14..18].copy_from_slice(&43_210u32.to_le_bytes()); // bytes 16..20
    rest[21] = 23; // byte 23
    rest[27] = 17; // byte 29
    framed(rest, 0x78)
}

#[test]
fn eighteen_byte_compact_is_rejected() {
    let data = compact_payload();
    let short = &data[..18];
    assert!(parse_multical21_stamped(short, 0, String::new()).is_none());
    assert!(parse_multical21(short).is_none());
}

#[test]
fn nineteen_byte_compact_is_accepted() {
    let data = compact_payload();
    assert_eq!(data.len(), 19);
    let reading = parse_multical21_stamped(&data, 7, String::from("t")).expect("19 bytes parse");
    assert_eq!(reading.total_volume_l, 7_777);
    assert_eq!(reading.target_volume_l, 6_000);
    assert_eq!(reading.flow_temp, 20);
    assert_eq!(reading.ambient_temp, 18);
    assert_eq!(reading.info_codes, 0x05);
    assert_eq!(reading.timestamp, 7);
    assert_eq!(reading.timestamp_s, "t");
}

#[test]
fn twenty_nine_byte_long_is_rejected() {
    let data = long_payload();
    assert!(parse_multical21_stamped(&data[..29], 0, String::new()).is_none());
}

#[test]
fn thirty_byte_long_is_accepted() {
    let data = long_payload();
    assert_eq!(data.len(), 30);
    let reading = parse_multical21_stamped(&data, 0, String::new()).expect("30 bytes parse");
    assert_eq!(reading.total_volume_l, 44_000);
    assert_eq!(reading.target_volume_l, 43_210);
    assert_eq!(reading.flow_temp, 23);
    assert_eq!(reading.ambient_temp, 17);
    assert_eq!(reading.info_codes, 0x09);
}

#[test]
fn unknown_layout_discriminator_is_rejected() {
    let mut rest = vec![0u8; 30];
    rest[0] = 0x7A;
    let crc = crc16_en13757(&rest);
    let mut data = vec![(crc >> 8) as u8, (crc & 0xFF) as u8];
    data.extend_from_slice(&rest);
    assert!(parse_multical21_stamped(&data, 0, String::new()).is_none());
}

#[test]
fn checksum_mismatch_is_rejected() {
    let mut data = compact_payload();
    data[0] ^= 0x01;
    assert!(parse_multical21_stamped(&data, 0, String::new()).is_none());
}

#[test]
fn under_three_bytes_is_rejected() {
    assert!(parse_multical21(&[]).is_none());
    assert!(parse_multical21(&[0x00]).is_none());
    assert!(parse_multical21(&[0x00, 0x00]).is_none());
}

#[test]
fn parse_is_deterministic_apart_from_timestamps() {
    let data = compact_payload();
    let a = parse_multical21(&data).expect("parses");
    let b = parse_multical21(&data).expect("parses");
    assert_eq!(a.total_volume_l, b.total_volume_l);
    assert_eq!(a.target_volume_l, b.target_volume_l);
    assert_eq!(a.flow_temp, b.flow_temp);
    assert_eq!(a.ambient_temp, b.ambient_temp);
    assert_eq!(a.info_codes, b.info_codes);
}

#[test]
fn layout_parsers_check_only_length() {
    let data = compact_payload();
    assert!(parse_compact_frame(&data[..18], 0, String::new()).is_none());
    assert!(parse_compact_frame(&data, 0, String::new()).is_some());
    let data = long_payload();
    assert!(parse_long_frame(&data[..29], 0, String::new()).is_none());
    assert!(parse_long_frame(&data, 0, String::new()).is_some());
}
