//! Wire encoding of the home-automation API: length-delimited frames whose
//! payloads are protobuf messages, plus the entity-key hash and field-name
//! prettifier the entity catalogue uses.

use vstd::prelude::*;

use vstd::string::StringSliceAdditionalSpecFns;

verus! {

/// The API message types this device speaks.
#[derive(Clone, Copy, Debug, PartialEq, Eq, Structural)]
pub enum ApiMessageType {
    HelloRequest,
    HelloResponse,
    AuthRequest,
    DisconnectRequest,
    DisconnectResponse,
    PingRequest,
    PingResponse,
    DeviceInfoRequest,
    DeviceInfoResponse,
    ListEntitiesRequest,
    ListEntitiesSensorResponse,
    ListEntitiesTextSensorResponse,
    ListEntitiesDoneResponse,
    SubscribeStatesRequest,
    SensorStateResponse,
    TextSensorStateResponse,
    SubscribeHomeassistantServicesRequest,
    SubscribeHomeassistantStatesRequest,
    NoiseEncryptionSetKeyRequest,
    NoiseEncryptionSetKeyResponse,
}

/// The numeric identifier of each message type on the wire.
pub open spec fn message_type_id(t: ApiMessageType) -> u32 {
    match t {
        ApiMessageType::HelloRequest => 1,
        ApiMessageType::HelloResponse => 2,
        ApiMessageType::AuthRequest => 3,
        ApiMessageType::DisconnectRequest => 5,
        ApiMessageType::DisconnectResponse => 6,
        ApiMessageType::PingRequest => 7,
        ApiMessageType::PingResponse => 8,
        ApiMessageType::DeviceInfoRequest => 9,
        ApiMessageType::DeviceInfoResponse => 10,
        ApiMessageType::ListEntitiesRequest => 11,
        ApiMessageType::ListEntitiesSensorResponse => 16,
        ApiMessageType::ListEntitiesTextSensorResponse => 18,
        ApiMessageType::ListEntitiesDoneResponse => 19,
        ApiMessageType::SubscribeStatesRequest => 20,
        ApiMessageType::SensorStateResponse => 25,
        ApiMessageType::TextSensorStateResponse => 27,
        ApiMessageType::SubscribeHomeassistantServicesRequest => 34,
        ApiMessageType::SubscribeHomeassistantStatesRequest => 38,
        ApiMessageType::NoiseEncryptionSetKeyRequest => 124,
        ApiMessageType::NoiseEncryptionSetKeyResponse => 125,
    }
}

/// A numeric identifier names one of the known message types.
pub open spec fn is_known_message_id(value: u32) -> bool {
    exists|t: ApiMessageType| message_type_id(t) == value
}

impl ApiMessageType {
    /// The message type's numeric identifier.
    pub fn id(self) -> (r: u32)
        ensures
            r == message_type_id(self),
    {
        match self {
            ApiMessageType::HelloRequest => 1,
            ApiMessageType::HelloResponse => 2,
            ApiMessageType::AuthRequest => 3,
            ApiMessageType::DisconnectRequest => 5,
            ApiMessageType::DisconnectResponse => 6,
            ApiMessageType::PingRequest => 7,
            ApiMessageType::PingResponse => 8,
            ApiMessageType::DeviceInfoRequest => 9,
            ApiMessageType::DeviceInfoResponse => 10,
            ApiMessageType::ListEntitiesRequest => 11,
            ApiMessageType::ListEntitiesSensorResponse => 16,
            ApiMessageType::ListEntitiesTextSensorResponse => 18,
            ApiMessageType::ListEntitiesDoneResponse => 19,
            ApiMessageType::SubscribeStatesRequest => 20,
            ApiMessageType::SensorStateResponse => 25,
            ApiMessageType::TextSensorStateResponse => 27,
            ApiMessageType::SubscribeHomeassistantServicesRequest => 34,
            ApiMessageType::SubscribeHomeassistantStatesRequest => 38,
            ApiMessageType::NoiseEncryptionSetKeyRequest => 124,
            ApiMessageType::NoiseEncryptionSetKeyResponse => 125,
        }
    }

    /// Recover a message type from its numeric identifier; unknown
    /// identifiers yield `None`.
    pub fn from_id(value: u32) -> (r: Option<ApiMessageType>)
        ensures
            r is Some <==> is_known_message_id(value),
            r is Some ==> message_type_id(r.unwrap()) == value,
    {
        let r = match value {
            1 => Some(ApiMessageType::HelloRequest),
            2 => Some(ApiMessageType::HelloResponse),
            3 => Some(ApiMessageType::AuthRequest),
            5 => Some(ApiMessageType::DisconnectRequest),
            6 => Some(ApiMessageType::DisconnectResponse),
            7 => Some(ApiMessageType::PingRequest),
            8 => Some(ApiMessageType::PingResponse),
            9 => Some(ApiMessageType::DeviceInfoRequest),
            10 => Some(ApiMessageType::DeviceInfoResponse),
            11 => Some(ApiMessageType::ListEntitiesRequest),
            16 => Some(ApiMessageType::ListEntitiesSensorResponse),
            18 => Some(ApiMessageType::ListEntitiesTextSensorResponse),
            19 => Some(ApiMessageType::ListEntitiesDoneResponse),
            20 => Some(ApiMessageType::SubscribeStatesRequest),
            25 => Some(ApiMessageType::SensorStateResponse),
            27 => Some(ApiMessageType::TextSensorStateResponse),
            34 => Some(ApiMessageType::SubscribeHomeassistantServicesRequest),
            38 => Some(ApiMessageType::SubscribeHomeassistantStatesRequest),
            124 => Some(ApiMessageType::NoiseEncryptionSetKeyRequest),
            125 => Some(ApiMessageType::NoiseEncryptionSetKeyResponse),
            _ => None,
        };
        proof {
            if r is Some {
                assert(is_known_message_id(value)) by {
                    assert(message_type_id(r.unwrap()) == value);
                }
            } else {
                if is_known_message_id(value) {
                    let t = choose|t: ApiMessageType| message_type_id(t) == value;
                    assert(false);
                }
            }
        }
        r
    }
}

/// The base-128 varint encoding of `v`: seven bits per byte, least
/// significant group first, the top bit marking continuation.
pub open spec fn varuint_spec(v: u64) -> Seq<u8>
    decreases v,
{
    if v < 0x80 {
        seq![v as u8]
    } else {
        seq![((v % 0x80) + 0x80) as u8] + varuint_spec(v / 0x80)
    }
}

/// Append the varint encoding of `value`.
pub fn put_varuint(value: u64, out: &mut Vec<u8>)
    ensures
        final(out)@ == old(out)@ + varuint_spec(value),
{
    let mut v = value;
    while v >= 0x80
        invariant
            old(out)@ + varuint_spec(value) == out@ + varuint_spec(v),
        decreases v,
    {
        proof {
            assert(varuint_spec(v) == seq![((v % 0x80) + 0x80) as u8] + varuint_spec(v / 0x80));
            assert(out@ + varuint_spec(v) =~= (out@ + seq![((v % 0x80) + 0x80) as u8])
                + varuint_spec(v / 0x80));
        }
        out.push(((v % 0x80) + 0x80) as u8);
        v = v / 0x80;
    }
    out.push(v as u8);
    proof {
        assert(varuint_spec(v) == seq![v as u8]);
        assert(final(out)@ =~= old(out)@ + varuint_spec(value));
    }
}

/// The protobuf tag for a field number and wire type.
pub open spec fn pb_key_spec(field_number: u32, wire_type: u8) -> u32 {
    (field_number << 3) | (wire_type as u32)
}

/// Append the protobuf tag of (`field_number`, `wire_type`).
pub fn pb_put_key(field_number: u32, wire_type: u8, out: &mut Vec<u8>)
    ensures
        final(out)@ == old(out)@ + varuint_spec(pb_key_spec(field_number, wire_type) as u64),
{
    put_varuint(((field_number << 3) | (wire_type as u32)) as u64, out);
}

/// Append a varint-typed field: its tag with wire type 0, then the value.
pub fn pb_put_varint(field_number: u32, value: u32, out: &mut Vec<u8>)
    ensures
        final(out)@ == old(out)@ + varuint_spec(pb_key_spec(field_number, 0) as u64)
            + varuint_spec(value as u64),
{
    pb_put_key(field_number, 0, out);
    put_varuint(value as u64, out);
}

/// Append a bool field: its tag with wire type 0, then one byte, 1 or 0.
pub fn pb_put_bool(field_number: u32, value: bool, out: &mut Vec<u8>)
    ensures
        final(out)@ == old(out)@ + varuint_spec(pb_key_spec(field_number, 0) as u64) + seq![
            if value {
                1u8
            } else {
                0u8
            },
        ],
{
    pb_put_key(field_number, 0, out);
    out.push(if value { 1 } else { 0 });
    proof {
        assert(final(out)@ =~= old(out)@ + varuint_spec(pb_key_spec(field_number, 0) as u64)
            + seq![if value { 1u8 } else { 0u8 }]);
    }
}

/// Append a fixed 32-bit field: its tag with wire type 5, then the four bytes.
pub fn pb_put_32bit(field_number: u32, bytes: [u8; 4], out: &mut Vec<u8>)
    ensures
        final(out)@ == old(out)@ + varuint_spec(pb_key_spec(field_number, 5) as u64) + bytes@,
{
    pb_put_key(field_number, 5, out);
    out.push(bytes[0]);
    out.push(bytes[1]);
    out.push(bytes[2]);
    out.push(bytes[3]);
    proof {
        assert(final(out)@ =~= old(out)@ + varuint_spec(pb_key_spec(field_number, 5) as u64)
            + bytes@);
    }
}

/// Append a fixed32 field holding `value` little-endian.
pub fn pb_put_fixed32(field_number: u32, value: u32, out: &mut Vec<u8>)
    ensures
        final(out)@ == old(out)@ + varuint_spec(pb_key_spec(field_number, 5) as u64)
            + vstd::bytes::spec_u32_to_le_bytes(value),
{
    let le = vstd::bytes::u32_to_le_bytes(value);
    let bytes: [u8; 4] = [le[0], le[1], le[2], le[3]];
    proof {
        assert(bytes@ =~= vstd::bytes::spec_u32_to_le_bytes(value));
    }
    pb_put_32bit(field_number, bytes, out);
}

/// Append a length-delimited string field: its tag with wire type 2, the
/// byte length as a varint, then the UTF-8 bytes.
pub fn pb_put_string(field_number: u32, value: &str, out: &mut Vec<u8>)
    ensures
        final(out)@ == old(out)@ + varuint_spec(pb_key_spec(field_number, 2) as u64)
            + varuint_spec(value.spec_bytes().len() as u64) + value.spec_bytes(),
{
    pb_put_key(field_number, 2, out);
    let bytes = value.as_bytes();
    put_varuint(bytes.len() as u64, out);
    let mut i: usize = 0;
    let ghost mid = out@;
    while i < bytes.len()
        invariant
            i <= bytes@.len(),
            bytes@ == value.spec_bytes(),
            out@ == mid + bytes@.take(i as int),
        decreases bytes@.len() - i,
    {
        out.push(bytes[i]);
        proof {
            assert(mid + bytes@.take(i + 1) =~= (mid + bytes@.take(i as int)) + seq![
                bytes@[i as int],
            ]);
        }
        i = i + 1;
    }
    proof {
        assert(bytes@.take(bytes@.len() as int) =~= bytes@);
        assert(final(out)@ =~= old(out)@ + varuint_spec(pb_key_spec(field_number, 2) as u64)
            + varuint_spec(value.spec_bytes().len() as u64) + value.spec_bytes());
    }
}

/// The complete wire frame around a message: a zero preamble byte, the
/// payload length and the message type as varints, then the payload.
pub open spec fn api_frame_spec(t: ApiMessageType, payload: Seq<u8>) -> Seq<u8> {
    seq![0u8] + varuint_spec(payload.len() as u64) + varuint_spec(message_type_id(t) as u64)
        + payload
}

/// Assemble the frame that carries `payload` as a message of type `msg_type`.
pub fn encode_api_frame(msg_type: ApiMessageType, payload: &[u8]) -> (r: Vec<u8>)
    ensures
        r@ == api_frame_spec(msg_type, payload@),
{
    let mut frame: Vec<u8> = Vec::new();
    frame.push(0x00);
    proof {
        assert(frame@ =~= seq![0u8]);
    }
    put_varuint(payload.len() as u64, &mut frame);
    put_varuint(msg_type.id() as u64, &mut frame);
    let mut i: usize = 0;
    let ghost mid = frame@;
    while i < payload.len()
        invariant
            i <= payload@.len(),
            frame@ == mid + payload@.take(i as int),
        decreases payload@.len() - i,
    {
        frame.push(payload[i]);
        proof {
            assert(mid + payload@.take(i + 1) =~= (mid + payload@.take(i as int)) + seq![
                payload@[i as int],
            ]);
        }
        i = i + 1;
    }
    proof {
        assert(payload@.take(payload@.len() as int) =~= payload@);
        assert(frame@ =~= api_frame_spec(msg_type, payload@));
    }
    frame
}

/// One varint decode attempt on `data` starting at `i`, with `k` bytes
/// already consumed into `acc`: at most 10 bytes are read in all. Yields the
/// decoded value, or `None` on a truncated or overlong varint, and the
/// position after the consumed bytes.
pub open spec fn varuint_scan(data: Seq<u8>, i: int, k: nat, acc: u64) -> (Option<u64>, int)
    decreases 10 - k,
{
    if k >= 10 {
        (None::<u64>, i)
    } else if i < 0 || i >= data.len() {
        (None::<u64>, i)
    } else {
        let b = data[i];
        let acc2 = acc | (((b & 0x7f) as u64) << ((7 * k) as u64));
        if b & 0x80 == 0 {
            (Some(acc2), i + 1)
        } else {
            varuint_scan(data, i + 1, k + 1, acc2)
        }
    }
}

/// A successful varint scan consumes at least one byte and stays inside the
/// data; the stop position never moves backwards.
proof fn lemma_varuint_scan_advance(data: Seq<u8>, i: int, k: nat, acc: u64)
    ensures
        varuint_scan(data, i, k, acc).1 >= i,
        varuint_scan(data, i, k, acc).0 is Some ==> i < varuint_scan(data, i, k, acc).1
            <= data.len(),
    decreases 10 - k,
{
    if k < 10 && 0 <= i < data.len() {
        let b = data[i];
        if b & 0x80 != 0 {
            lemma_varuint_scan_advance(data, i + 1, k + 1, acc | (((b & 0x7f) as u64) << ((7
                * k) as u64)));
        }
    }
}

/// Decode one varint from `data` at `*idx`, advancing `*idx` past the
/// consumed bytes; a truncated or overlong varint yields `None`.
pub fn read_varuint_from_slice(data: &[u8], idx: &mut usize) -> (r: Option<u64>)
    ensures
        r == varuint_scan(data@, *old(idx) as int, 0, 0).0,
        *final(idx) as int == varuint_scan(data@, *old(idx) as int, 0, 0).1,
{
    let mut out: u64 = 0;
    let mut k: u32 = 0;
    while k < 10
        invariant
            k <= 10,
            *idx as int == *old(idx) + k,
            varuint_scan(data@, *old(idx) as int, 0, 0) == varuint_scan(
                data@,
                *idx as int,
                k as nat,
                out,
            ),
        decreases 10 - k,
    {
        if *idx >= data.len() {
            return None;
        }
        let b = data[*idx];
        *idx += 1;
        out = out | (((b & 0x7f) as u64) << (7 * k));
        if (b & 0x80) == 0 {
            return Some(out);
        }
        k += 1;
    }
    None
}

/// The protobuf scan of a hello request: walk the fields, keeping the last
/// client-info bytes (field 1, which must be UTF-8), the last major version
/// (field 2) and the last minor version (field 3). A malformed field, a
/// length past the end, or a non-UTF-8 client info rejects the payload.
pub open spec fn hello_scan(payload: Seq<u8>, i: int, info: Seq<u8>, major: u32, minor: u32) -> Option<
    (Seq<u8>, u32, u32),
>
    decreases payload.len() + 1 - i,
    when 0 <= i
    via hello_scan_decreases
{
    if i >= payload.len() {
        if i == payload.len() {
            Some((info, major, minor))
        } else {
            None
        }
    } else {
        let kr = varuint_scan(payload, i, 0, 0);
        if kr.0 is None {
            None
        } else {
            let key = kr.0.unwrap();
            let i1 = kr.1;
            let field = (key >> 3) as u32;
            let wt = key & 7;
            if wt == 0 {
                let vr = varuint_scan(payload, i1, 0, 0);
                if vr.0 is None {
                    None
                } else {
                    let v = vr.0.unwrap() as u32;
                    if field == 2 {
                        hello_scan(payload, vr.1, info, v, minor)
                    } else if field == 3 {
                        hello_scan(payload, vr.1, info, major, v)
                    } else {
                        hello_scan(payload, vr.1, info, major, minor)
                    }
                }
            } else if wt == 2 {
                let lr = varuint_scan(payload, i1, 0, 0);
                if lr.0 is None {
                    None
                } else {
                    let l = lr.0.unwrap() as usize as int;
                    if lr.1 + l > payload.len() {
                        None
                    } else if field == 1 {
                        if vstd::utf8::valid_utf8(payload.subrange(lr.1, lr.1 + l)) {
                            hello_scan(
                                payload,
                                lr.1 + l,
                                payload.subrange(lr.1, lr.1 + l),
                                major,
                                minor,
                            )
                        } else {
                            None
                        }
                    } else {
                        hello_scan(payload, lr.1 + l, info, major, minor)
                    }
                }
            } else if wt == 1 {
                hello_scan(
                    payload,
                    if i1 + 8 <= payload.len() {
                        i1 + 8
                    } else {
                        payload.len() + 1int
                    },
                    info,
                    major,
                    minor,
                )
            } else if wt == 5 {
                hello_scan(
                    payload,
                    if i1 + 4 <= payload.len() {
                        i1 + 4
                    } else {
                        payload.len() + 1int
                    },
                    info,
                    major,
                    minor,
                )
            } else {
                None
            }
        }
    }
}

#[via_fn]
proof fn hello_scan_decreases(payload: Seq<u8>, i: int, info: Seq<u8>, major: u32, minor: u32) {
    if 0 <= i < payload.len() {
        lemma_varuint_scan_advance(payload, i, 0, 0);
        let kr = varuint_scan(payload, i, 0, 0);
        if kr.0 is Some {
            lemma_varuint_scan_advance(payload, kr.1, 0, 0);
        }
    }
}

/// Relies on `String::from_utf8`: it succeeds exactly on valid UTF-8 and
/// then returns that byte string decoded.
#[verifier::external_body]
fn string_from_utf8(bytes: Vec<u8>) -> (r: Option<String>)
    ensures
        r is Some <==> vstd::utf8::valid_utf8(bytes@),
        r is Some ==> r.unwrap()@ == vstd::utf8::decode_utf8(bytes@),
{
    String::from_utf8(bytes).ok()
}

/// Parse a hello-request payload into the client info string and the
/// client's major and minor API version.
pub fn parse_hello_request(payload: &[u8]) -> (r: Option<(String, u32, u32)>)
    ensures
        ({
            let s = hello_scan(payload@, 0, Seq::empty(), 0, 0);
            &&& r is Some <==> s is Some
            &&& r is Some ==> r.unwrap().0@ == vstd::utf8::decode_utf8(s.unwrap().0)
            &&& r is Some ==> r.unwrap().1 == s.unwrap().1 && r.unwrap().2 == s.unwrap().2
        }),
{
    let mut idx: usize = 0;
    let mut client_info = String::new();
    let ghost mut info_bytes: Seq<u8> = Seq::empty();
    let mut major: u32 = 0;
    let mut minor: u32 = 0;

    proof {
        assert(vstd::utf8::decode_utf8(Seq::<u8>::empty()) =~= Seq::<char>::empty());
    }

    while idx < payload.len()
        invariant
            idx <= payload@.len(),
            hello_scan(payload@, 0, Seq::empty(), 0, 0) == hello_scan(
                payload@,
                idx as int,
                info_bytes,
                major,
                minor,
            ),
            client_info@ == vstd::utf8::decode_utf8(info_bytes),
        decreases payload@.len() - idx,
    {
        let ghost idx0 = idx as int;
        let ghost info0 = info_bytes;
        let ghost major0 = major;
        let ghost minor0 = minor;
        let ghost scan0 = hello_scan(payload@, idx0, info0, major0, minor0);
        proof {
            lemma_varuint_scan_advance(payload@, idx0, 0, 0);
        }
        let key = match read_varuint_from_slice(payload, &mut idx) {
            Some(k) => k,
            None => {
                proof {
                    assert(scan0 is None);
                }
                return None;
            },
        };
        let ghost i1 = idx as int;
        let field = (key >> 3) as u32;
        let wt = key & 0x07;
        proof {
            lemma_varuint_scan_advance(payload@, i1, 0, 0);
        }
        if wt == 0 {
            let v = match read_varuint_from_slice(payload, &mut idx) {
                Some(v) => v,
                None => {
                    proof {
                        assert(scan0 is None);
                    }
                    return None;
                },
            } as u32;
            if field == 2 {
                major = v;
            } else if field == 3 {
                minor = v;
            }
            proof {
                assert(scan0 == hello_scan(payload@, idx as int, info_bytes, major, minor));
            }
        } else if wt == 2 {
            let len = match read_varuint_from_slice(payload, &mut idx) {
                Some(v) => v,
                None => {
                    proof {
                        assert(scan0 is None);
                    }
                    return None;
                },
            } as usize;
            if len > payload.len() - idx {
                proof {
                    assert(scan0 is None);
                }
                return None;
            }
            if field == 1 {
                let raw = vstd::slice::slice_to_vec(
                    vstd::slice::slice_subrange(payload, idx, idx + len),
                );
                client_info = match string_from_utf8(raw) {
                    Some(s) => s,
                    None => {
                        proof {
                            assert(scan0 is None);
                        }
                        return None;
                    },
                };
                proof {
                    info_bytes = payload@.subrange(idx as int, idx as int + len as int);
                }
            }
            idx = idx + len;
            proof {
                assert(scan0 == hello_scan(payload@, idx as int, info_bytes, major, minor));
            }
        } else if wt == 1 {
            if payload.len() - idx < 8 {
                proof {
                    assert(hello_scan(payload@, payload@.len() + 1int, info0, major0, minor0)
                        is None);
                    assert(scan0 is None);
                }
                return None;
            }
            idx = idx + 8;
            proof {
                assert(scan0 == hello_scan(payload@, idx as int, info_bytes, major, minor));
            }
        } else if wt == 5 {
            if payload.len() - idx < 4 {
                proof {
                    assert(hello_scan(payload@, payload@.len() + 1int, info0, major0, minor0)
                        is None);
                    assert(scan0 is None);
                }
                return None;
            }
            idx = idx + 4;
            proof {
                assert(scan0 == hello_scan(payload@, idx as int, info_bytes, major, minor));
            }
        } else {
            proof {
                assert(scan0 is None);
            }
            return None;
        }
    }

    Some((client_info, major, minor))
}

/// Uppercase an ASCII lowercase letter; leave any other character unchanged.
pub open spec fn upper_ascii(c: char) -> char {
    if 97 <= c as u32 <= 122 {
        (((c as u32) - 32) as u8) as char
    } else {
        c
    }
}

/// The display form of a field name, built left to right: underscores
/// separate words, runs of them collapse, each word starts uppercased, and
/// words are joined with single spaces.
pub open spec fn humanize_chars(s: Seq<char>, i: int, acc: Seq<char>, boundary: bool) -> Seq<char>
    decreases s.len() - i,
{
    if i < 0 || i >= s.len() {
        acc
    } else {
        let c = s[i];
        if c == '_' {
            humanize_chars(s, i + 1, acc, true)
        } else {
            let c2 = if boundary {
                upper_ascii(c)
            } else {
                c
            };
            let acc2 = if boundary && acc.len() > 0 {
                acc + seq![' ', c2]
            } else {
                acc + seq![c2]
            };
            humanize_chars(s, i + 1, acc2, false)
        }
    }
}

/// The display form of a field name; a name without letters shows as
/// "Value".
pub open spec fn humanize_spec(s: Seq<char>) -> Seq<char> {
    let out = humanize_chars(s, 0, Seq::empty(), true);
    if out.len() == 0 {
        "Value"@
    } else {
        out
    }
}

/// Relies on String's `FromIterator<char>` impl: the collected string holds
/// exactly the iterator's characters in order.
#[verifier::external_body]
fn string_from_chars(chars: Vec<char>) -> (r: String)
    ensures
        r@ == chars@,
{
    chars.into_iter().collect()
}

/// Uppercase an ASCII lowercase letter.
fn upper_char(c: char) -> (r: char)
    ensures
        r == upper_ascii(c),
{
    let u = c as u32;
    if 97 <= u && u <= 122 {
        ((u - 32) as u8) as char
    } else {
        c
    }
}

/// Render a snake_case field name for display: words separated by spaces,
/// each starting with an uppercase letter; a name without letters shows as
/// "Value".
pub fn humanize_field(field: &str) -> (r: String)
    ensures
        r@ == humanize_spec(field@),
{
    let n = field.unicode_len();
    let mut out: Vec<char> = Vec::new();
    let mut boundary = true;
    let mut i: usize = 0;
    while i < n
        invariant
            n as nat == field@.len(),
            i <= n,
            humanize_chars(field@, 0, Seq::empty(), true) == humanize_chars(
                field@,
                i as int,
                out@,
                boundary,
            ),
        decreases n - i,
    {
        let ghost out0 = out@;
        let ghost boundary0 = boundary;
        let c = field.get_char(i);
        if c == '_' {
            boundary = true;
        } else {
            if boundary && out.len() > 0 {
                out.push(' ');
            }
            if boundary {
                out.push(upper_char(c));
            } else {
                out.push(c);
            }
            proof {
                let c2 = if boundary0 {
                    upper_ascii(c)
                } else {
                    c
                };
                if boundary0 && out0.len() > 0 {
                    assert(out@ =~= out0 + seq![' ', c2]);
                } else {
                    assert(out@ =~= out0 + seq![c2]);
                }
            }
            boundary = false;
        }
        i = i + 1;
        proof {
            assert(humanize_chars(field@, i - 1, out0, boundary0) == humanize_chars(
                field@,
                i as int,
                out@,
                boundary,
            ));
        }
    }
    if out.len() == 0 {
        String::from_str("Value")
    } else {
        string_from_chars(out)
    }
}

/// The FNV-1a step: xor the byte in, multiply by the prime, wrapping.
pub open spec fn fnv1a_step(h: u32, b: u8) -> u32 {
    vstd::wrapping::u32_specs::wrapping_mul(h ^ (b as u32), 0x0100_0193)
}

/// The FNV-1a state over `s`, from the standard offset basis.
pub open spec fn fnv1a_state(s: Seq<u8>) -> u32
    decreases s.len(),
{
    if s.len() == 0 {
        0x811C_9DC5
    } else {
        fnv1a_step(fnv1a_state(s.drop_last()), s.last())
    }
}

/// The entity key of an object identifier: its FNV-1a hash, with 0 mapped
/// to 1 so that a key is never zero.
pub open spec fn stable_key_spec(s: Seq<u8>) -> u32 {
    if fnv1a_state(s) == 0 {
        1
    } else {
        fnv1a_state(s)
    }
}

/// Derive the stable entity key of an object identifier.
pub fn stable_key(object_id: &str) -> (r: u32)
    ensures
        r == stable_key_spec(object_id.spec_bytes()),
{
    let bytes = object_id.as_bytes();
    let mut hash: u32 = 0x811C_9DC5;
    let mut i: usize = 0;
    while i < bytes.len()
        invariant
            i <= bytes@.len(),
            hash == fnv1a_state(bytes@.take(i as int)),
        decreases bytes@.len() - i,
    {
        hash = hash ^ (bytes[i] as u32);
        hash = hash.wrapping_mul(0x0100_0193);
        proof {
            assert(bytes@.take(i + 1).drop_last() =~= bytes@.take(i as int));
        }
        i = i + 1;
    }
    proof {
        assert(bytes@.take(bytes@.len() as int) =~= bytes@);
    }
    if hash == 0 {
        1
    } else {
        hash
    }
}

} // verus!
