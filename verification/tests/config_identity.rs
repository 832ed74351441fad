use esp32multical21::config::{parse_hex, MyConfig};

fn config_with(meter_id: &str, meter_key: &str) -> MyConfig {
    let mut c = MyConfig::default();
    c.meter_id = meter_id.to_string();
    c.meter_key = meter_key.to_string();
    c
}

#[test]
fn parse_hex_decodes_both_cases() {
    assert_eq!(parse_hex("00ff10Ab"), Some(vec![0x00, 0xFF, 0x10, 0xAB]));
    assert_eq!(parse_hex(""), Some(vec![]));
}

#[test]
fn parse_hex_rejects_odd_length_and_bad_digits() {
    assert_eq!(parse_hex("abc"), None);
    assert_eq!(parse_hex("zz"), None);
    assert_eq!(parse_hex("0g"), None);
    assert_eq!(parse_hex("+1"), None);
}

#[test]
fn meter_id_is_reversed_to_wire_order() {
    let c = config_with("12345678", "");
    assert_eq!(c.meter_id_bytes(), Some([0x78, 0x56, 0x34, 0x12]));
}

#[test]
fn meter_id_wrong_length_or_digit_is_rejected() {
    assert_eq!(config_with("1234567", "").meter_id_bytes(), None);
    assert_eq!(config_with("123456789", "").meter_id_bytes(), None);
    assert_eq!(config_with("1234567g", "").meter_id_bytes(), None);
    assert_eq!(config_with("", "").meter_id_bytes(), None);
}

#[test]
fn meter_key_decodes_thirty_two_digits() {
    let c = config_with("", "000102030405060708090a0b0c0D0E0F");
    assert_eq!(
        c.meter_key_bytes(),
        Some([0, 1, 2, 3, 4, 5, 6, 7, 8, 9, 10, 11, 12, 13, 14, 15])
    );
}

#[test]
fn meter_key_wrong_length_is_rejected() {
    assert_eq!(config_with("", "0001").meter_key_bytes(), None);
    assert_eq!(config_with("", "").meter_key_bytes(), None);
    let long = "00".repeat(17);
    assert_eq!(config_with("", &long).meter_key_bytes(), None);
}

#[test]
fn default_config_values() {
    let c = MyConfig::default();
    assert_eq!(c.wifi_ssid, "internet");
    assert_eq!(c.wifi_pass, "");
    assert!(!c.wifi_wpa2ent);
    assert!(c.v4dhcp);
    assert_eq!(c.v4addr, [0, 0, 0, 0]);
    assert_eq!(c.v4mask, 0);
    assert!(!c.esphome_enable);
    assert!(!c.mqtt_enable);
    assert_eq!(c.mqtt_url, "mqtt://mqtt.local:1883");
    assert_eq!(c.mqtt_topic, "watermeter");
    assert_eq!(c.meter_id, "");
    assert_eq!(c.meter_key, "");
    assert!(c.meter_id_bytes().is_none());
    assert!(c.meter_key_bytes().is_none());
}
