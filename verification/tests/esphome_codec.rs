use esp32multical21::esphome::{
    encode_api_frame, humanize_field, parse_hello_request, pb_put_32bit, pb_put_bool,
    pb_put_fixed32, pb_put_key, pb_put_string, pb_put_varint, put_varuint, read_varuint_from_slice,
    stable_key, ApiMessageType,
};

#[test]
fn varuint_encodings() {
    let cases: [(u64, &[u8]); 6] = [
        (0, &[0x00]),
        (1, &[0x01]),
        (127, &[0x7F]),
        (128, &[0x80, 0x01]),
        (300, &[0xAC, 0x02]),
        (
            u64::MAX,
            &[0xFF, 0xFF, 0xFF, 0xFF, 0xFF, 0xFF, 0xFF, 0xFF, 0xFF, 0x01],
        ),
    ];
    for (value, expected) in cases {
        let mut out = Vec::new();
        put_varuint(value, &mut out);
        assert_eq!(out, expected, "encoding of {value}");
    }
}

#[test]
fn varuint_read_round_trips() {
    for value in [0u64, 1, 127, 128, 300, 16_383, 16_384, u64::MAX] {
        let mut out = Vec::new();
        put_varuint(value, &mut out);
        let mut idx = 0usize;
        assert_eq!(read_varuint_from_slice(&out, &mut idx), Some(value));
        assert_eq!(idx, out.len());
    }
}

#[test]
fn varuint_read_rejects_truncated_and_overlong() {
    let mut idx = 0usize;
    assert_eq!(read_varuint_from_slice(&[0x80], &mut idx), None);
    let mut idx = 0usize;
    assert_eq!(read_varuint_from_slice(&[], &mut idx), None);
    assert_eq!(idx, 0);
    let overlong = [0x80u8; 11];
    let mut idx = 0usize;
    assert_eq!(read_varuint_from_slice(&overlong, &mut idx), None);
    assert_eq!(idx, 10);
}

#[test]
fn pb_field_encodings() {
    let mut out = Vec::new();
    pb_put_key(1, 2, &mut out);
    assert_eq!(out, [0x0A]);

    let mut out = Vec::new();
    pb_put_varint(2, 300, &mut out);
    assert_eq!(out, [0x10, 0xAC, 0x02]);

    let mut out = Vec::new();
    pb_put_bool(3, true, &mut out);
    pb_put_bool(3, false, &mut out);
    assert_eq!(out, [0x18, 0x01, 0x18, 0x00]);

    let mut out = Vec::new();
    pb_put_fixed32(2, 0x0102_0304, &mut out);
    assert_eq!(out, [0x15, 0x04, 0x03, 0x02, 0x01]);

    let mut out = Vec::new();
    pb_put_32bit(2, [9, 8, 7, 6], &mut out);
    assert_eq!(out, [0x15, 9, 8, 7, 6]);

    let mut out = Vec::new();
    pb_put_string(1, "hi", &mut out);
    assert_eq!(out, [0x0A, 0x02, b'h', b'i']);
}

#[test]
fn api_frame_layout() {
    let frame = encode_api_frame(ApiMessageType::PingResponse, &[0xAB, 0xCD]);
    assert_eq!(frame, [0x00, 0x02, 0x08, 0xAB, 0xCD]);
    let empty = encode_api_frame(ApiMessageType::ListEntitiesDoneResponse, &[]);
    assert_eq!(empty, [0x00, 0x00, 0x13]);
}

#[test]
fn message_ids_round_trip() {
    let all = [
        ApiMessageType::HelloRequest,
        ApiMessageType::HelloResponse,
        ApiMessageType::AuthRequest,
        ApiMessageType::DisconnectRequest,
        ApiMessageType::DisconnectResponse,
        ApiMessageType::PingRequest,
        ApiMessageType::PingResponse,
        ApiMessageType::DeviceInfoRequest,
        ApiMessageType::DeviceInfoResponse,
        ApiMessageType::ListEntitiesRequest,
        ApiMessageType::ListEntitiesSensorResponse,
        ApiMessageType::ListEntitiesTextSensorResponse,
        ApiMessageType::ListEntitiesDoneResponse,
        ApiMessageType::SubscribeStatesRequest,
        ApiMessageType::SensorStateResponse,
        ApiMessageType::TextSensorStateResponse,
        ApiMessageType::SubscribeHomeassistantServicesRequest,
        ApiMessageType::SubscribeHomeassistantStatesRequest,
        ApiMessageType::NoiseEncryptionSetKeyRequest,
        ApiMessageType::NoiseEncryptionSetKeyResponse,
    ];
    for t in all {
        assert_eq!(ApiMessageType::from_id(t.id()), Some(t));
    }
    assert_eq!(ApiMessageType::from_id(0), None);
    assert_eq!(ApiMessageType::from_id(4), None);
    assert_eq!(ApiMessageType::from_id(1), Some(ApiMessageType::HelloRequest));
    assert_eq!(ApiMessageType::HelloRequest.id(), 1);
    assert_eq!(ApiMessageType::NoiseEncryptionSetKeyResponse.id(), 125);
}

#[test]
fn stable_key_is_fnv1a() {
    assert_eq!(stable_key("uptime"), 4_240_833_753);
    assert_eq!(stable_key("total_l"), 4_105_303_518);
    // The empty string hashes to the nonzero offset basis.
    assert_eq!(stable_key(""), 0x811C_9DC5);
}

#[test]
fn humanize_field_examples() {
    assert_eq!(humanize_field("total_m3"), "Total M3");
    assert_eq!(humanize_field("month_start_l"), "Month Start L");
    assert_eq!(humanize_field("uptime"), "Uptime");
    assert_eq!(humanize_field("_a__b_"), "A B");
    assert_eq!(humanize_field(""), "Value");
    assert_eq!(humanize_field("___"), "Value");
    assert_eq!(humanize_field("Already Upper"), "Already Upper");
}

#[test]
fn hello_request_parses_fields() {
    let mut payload = Vec::new();
    pb_put_string(1, "caf\u{00E9} client", &mut payload);
    pb_put_varint(2, 1, &mut payload);
    pb_put_varint(3, 14, &mut payload);
    let (client, major, minor) = parse_hello_request(&payload).expect("well-formed hello");
    assert_eq!(client, "caf\u{00E9} client");
    assert_eq!(major, 1);
    assert_eq!(minor, 14);
}

#[test]
fn hello_request_empty_and_unknown_fields() {
    let (client, major, minor) = parse_hello_request(&[]).expect("empty hello");
    assert_eq!(client, "");
    assert_eq!(major, 0);
    assert_eq!(minor, 0);

    // An unknown varint field and a fixed64 field are skipped.
    let mut payload = Vec::new();
    pb_put_varint(7, 9, &mut payload);
    pb_put_key(8, 1, &mut payload);
    payload.extend_from_slice(&[0, 0, 0, 0, 0, 0, 0, 0]);
    pb_put_varint(2, 3, &mut payload);
    let (client, major, minor) = parse_hello_request(&payload).expect("skippable fields");
    assert_eq!(client, "");
    assert_eq!(major, 3);
    assert_eq!(minor, 0);
}

#[test]
fn hello_request_rejects_malformed() {
    // A truncated varint where the length should be.
    let mut payload = Vec::new();
    pb_put_key(1, 2, &mut payload);
    payload.push(0x80);
    assert_eq!(parse_hello_request(&payload), None);

    // A length that runs past the end of the payload.
    let mut payload = Vec::new();
    pb_put_key(1, 2, &mut payload);
    payload.push(5);
    assert_eq!(parse_hello_request(&payload), None);

    // Unsupported wire type 3.
    let mut payload = Vec::new();
    pb_put_key(1, 3, &mut payload);
    assert_eq!(parse_hello_request(&payload), None);

    // Client info that is not UTF-8.
    let mut payload = Vec::new();
    pb_put_key(1, 2, &mut payload);
    payload.push(1);
    payload.push(0xFF);
    assert_eq!(parse_hello_request(&payload), None);

    // A fixed32 field with too few bytes left.
    let mut payload = Vec::new();
    pb_put_key(4, 5, &mut payload);
    payload.extend_from_slice(&[0, 0]);
    assert_eq!(parse_hello_request(&payload), None);
}
