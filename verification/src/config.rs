//! Receiver configuration: network and meter settings, with the hex-encoded
//! meter identity decoded into its wire form.

use vstd::prelude::*;

use vstd::string::StringSliceAdditionalSpecFns;
use vstd::utf8::encode_utf8;

verus! {

/// Size of the raw buffer used when loading or storing the configuration.
pub const NVS_BUF_SIZE: usize = 256;

/// Default TCP port of the configuration interface.
pub const DEFAULT_API_PORT: u16 = 80;

/// Persisted receiver configuration. Addresses are held as four plain
/// octets in network order.
#[derive(Clone, Debug)]
pub struct MyConfig {
    pub wifi_ssid: String,
    pub wifi_pass: String,
    pub wifi_wpa2ent: bool,
    pub wifi_username: String,
    pub v4dhcp: bool,
    pub v4addr: [u8; 4],
    pub v4mask: u8,
    pub v4gw: [u8; 4],
    pub dns1: [u8; 4],
    pub dns2: [u8; 4],
    pub esphome_enable: bool,
    pub mqtt_enable: bool,
    pub mqtt_url: String,
    pub mqtt_topic: String,
    /// Meter serial as printed on the meter: 8 hex characters, big-endian.
    pub meter_id: String,
    /// Meter key: 32 hex characters.
    pub meter_key: String,
}

impl Default for MyConfig {
    /// The factory configuration: DHCP on, all services off, empty meter
    /// identity.
    fn default() -> (c: Self)
        ensures
            c.wifi_ssid@ == "internet"@,
            c.wifi_pass@.len() == 0,
            !c.wifi_wpa2ent,
            c.wifi_username@.len() == 0,
            c.v4dhcp,
            c.v4addr@ == seq![0u8, 0u8, 0u8, 0u8],
            c.v4mask == 0,
            c.v4gw@ == seq![0u8, 0u8, 0u8, 0u8],
            c.dns1@ == seq![0u8, 0u8, 0u8, 0u8],
            c.dns2@ == seq![0u8, 0u8, 0u8, 0u8],
            !c.esphome_enable,
            !c.mqtt_enable,
            c.mqtt_url@ == "mqtt://mqtt.local:1883"@,
            c.mqtt_topic@ == "watermeter"@,
            c.meter_id@.len() == 0,
            c.meter_key@.len() == 0,
    {
        let zero: [u8; 4] = [0, 0, 0, 0];
        let c = MyConfig {
            wifi_ssid: String::from_str("internet"),
            wifi_pass: String::new(),
            wifi_wpa2ent: false,
            wifi_username: String::new(),
            v4dhcp: true,
            v4addr: zero,
            v4mask: 0,
            v4gw: zero,
            dns1: zero,
            dns2: zero,
            esphome_enable: false,
            mqtt_enable: false,
            mqtt_url: String::from_str("mqtt://mqtt.local:1883"),
            mqtt_topic: String::from_str("watermeter"),
            meter_id: String::new(),
            meter_key: String::new(),
        };
        proof {
            assert(zero@ =~= seq![0u8, 0u8, 0u8, 0u8]);
        }
        c
    }
}

/// An ASCII hex digit, either case.
pub open spec fn is_hex_digit(b: u8) -> bool {
    (0x30 <= b <= 0x39) || (0x41 <= b <= 0x46) || (0x61 <= b <= 0x66)
}

/// The value of one hex digit.
pub open spec fn hex_digit_value(b: u8) -> u8 {
    if 0x30 <= b <= 0x39 {
        (b - 0x30) as u8
    } else if 0x41 <= b <= 0x46 {
        (b - 55) as u8
    } else {
        (b - 87) as u8
    }
}

/// A byte string decodes as hex exactly when its length is even and every
/// byte is a hex digit.
pub open spec fn hex_bytes_valid(s: Seq<u8>) -> bool {
    &&& s.len() % 2 == 0
    &&& forall|i: int| 0 <= i < s.len() ==> is_hex_digit(#[trigger] s[i])
}

/// The byte encoded by the digit pair at position `k`.
pub open spec fn hex_pair(s: Seq<u8>, k: int) -> u8 {
    (hex_digit_value(s[2 * k]) * 16 + hex_digit_value(s[2 * k + 1])) as u8
}

/// The bytes a valid hex string decodes to.
pub open spec fn hex_decoded(s: Seq<u8>) -> Seq<u8> {
    Seq::new((s.len() / 2) as nat, |k: int| hex_pair(s, k))
}

/// Decode one ASCII hex digit.
fn hex_digit(b: u8) -> (r: Option<u8>)
    ensures
        r is Some <==> is_hex_digit(b),
        r is Some ==> r.unwrap() == hex_digit_value(b),
{
    if 0x30 <= b && b <= 0x39 {
        Some(b - 0x30)
    } else if 0x41 <= b && b <= 0x46 {
        Some((b - 0x41) + 10)
    } else if 0x61 <= b && b <= 0x66 {
        Some((b - 0x61) + 10)
    } else {
        None
    }
}

/// Decode a hex string of even length into its bytes; any other input is
/// rejected.
pub fn parse_hex(hex: &str) -> (r: Option<Vec<u8>>)
    ensures
        r is Some <==> hex_bytes_valid(hex.spec_bytes()),
        r is Some ==> r.unwrap()@ == hex_decoded(hex.spec_bytes()),
{
    let b = hex.as_bytes();
    if b.len() % 2 != 0 {
        return None;
    }
    let mut out: Vec<u8> = Vec::new();
    let mut i: usize = 0;
    while i < b.len()
        invariant
            i % 2 == 0,
            i <= b@.len(),
            b@.len() % 2 == 0,
            b@ == hex.spec_bytes(),
            forall|j: int| 0 <= j < i ==> is_hex_digit(#[trigger] b@[j]),
            out@.len() == i / 2,
            forall|k: int| 0 <= k < out@.len() ==> out@[k] == hex_pair(b@, k),
        decreases b@.len() - i,
    {
        let hi = match hex_digit(b[i]) {
            Some(v) => v,
            None => {
                return None;
            },
        };
        let lo = match hex_digit(b[i + 1]) {
            Some(v) => v,
            None => {
                return None;
            },
        };
        out.push(hi * 16 + lo);
        i = i + 2;
    }
    proof {
        assert(out@ =~= hex_decoded(hex.spec_bytes()));
    }
    Some(out)
}

/// The 4-byte wire-order (little-endian) form of a printed 8-digit serial.
pub open spec fn meter_id_wire(s: Seq<u8>) -> Seq<u8> {
    let d = hex_decoded(s);
    seq![d[3], d[2], d[1], d[0]]
}

impl MyConfig {
    /// Parse the configured meter serial (8 hex characters, as printed on the
    /// meter, big-endian) into the 4 wire-order bytes.
    pub fn meter_id_bytes(&self) -> (r: Option<[u8; 4]>)
        ensures
            r is Some <==> (encode_utf8(self.meter_id@).len() == 8 && hex_bytes_valid(
                encode_utf8(self.meter_id@),
            )),
            r is Some ==> r.unwrap()@ == meter_id_wire(encode_utf8(self.meter_id@)),
    {
        let id = self.meter_id.as_str();
        if id.as_bytes().len() != 8 {
            return None;
        }
        let bytes = match parse_hex(id) {
            Some(b) => b,
            None => {
                return None;
            },
        };
        let wire: [u8; 4] = [bytes[3], bytes[2], bytes[1], bytes[0]];
        proof {
            assert(wire@ =~= meter_id_wire(encode_utf8(self.meter_id@)));
        }
        Some(wire)
    }

    /// Parse the configured meter key (32 hex characters) into its 16 bytes.
    #[verifier::rlimit(100)]
    pub fn meter_key_bytes(&self) -> (r: Option<[u8; 16]>)
        ensures
            r is Some <==> (encode_utf8(self.meter_key@).len() == 32 && hex_bytes_valid(
                encode_utf8(self.meter_key@),
            )),
            r is Some ==> r.unwrap()@ == hex_decoded(encode_utf8(self.meter_key@)),
    {
        let key = self.meter_key.as_str();
        if key.as_bytes().len() != 32 {
            return None;
        }
        let bytes = match parse_hex(key) {
            Some(b) => b,
            None => {
                return None;
            },
        };
        let arr: [u8; 16] = [
            bytes[0],
            bytes[1],
            bytes[2],
            bytes[3],
            bytes[4],
            bytes[5],
            bytes[6],
            bytes[7],
            bytes[8],
            bytes[9],
            bytes[10],
            bytes[11],
            bytes[12],
            bytes[13],
            bytes[14],
            bytes[15],
        ];
        proof {
            assert(arr@ =~= hex_decoded(encode_utf8(self.meter_key@)));
        }
        Some(arr)
    }
}

} // verus!
