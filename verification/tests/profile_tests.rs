use nitrogen::brand::{is_brand, relay_plugin_message, rewrite_brand};
use nitrogen::config::ForwardingMode;
use nitrogen::profile::{create_address, uuid_simple, velocity_forwarding_data, GameProfile, Property};
use nitrogen::wire::{encode_varint, write_string, WireError};

fn id() -> [u8; 16] {
    [
        0x06, 0x9a, 0x79, 0xf4, 0x44, 0xe9, 0x47, 0x26, 0xa5, 0xbe, 0xfc, 0xa9, 0x0e, 0x38, 0xaa, 0xf5,
    ]
}

fn profile(properties: Vec<Property>) -> GameProfile {
    GameProfile { id: id(), name: "Notch".to_string(), properties }
}

fn string_field(s: &str) -> Vec<u8> {
    let mut out = encode_varint(s.len() as i32);
    out.extend_from_slice(s.as_bytes());
    out
}

#[test]
fn simple_uuid() {
    assert_eq!(uuid_simple(&id()), "069a79f444e94726a5befca90e38aaf5");
}

#[test]
fn legacy_forwarding_address() {
    let p = profile(vec![]);
    let json = "{\"id\":\"069a79f444e94726a5befca90e38aaf5\",\"name\":\"Notch\",\"properties\":[]}";
    let host = create_address("10.0.0.2".to_string(), "1.2.3.4:5555", &ForwardingMode::Legacy, &p, json);
    assert_eq!(host, format!("10.0.0.2\u{0}1.2.3.4:5555\u{0}069a79f444e94726a5befca90e38aaf5\u{0}{}", json));
    let plain = create_address("10.0.0.2".to_string(), "1.2.3.4:5555", &ForwardingMode::Disabled, &p, json);
    assert_eq!(plain, "10.0.0.2");
}

#[test]
fn velocity_data_layout() {
    let p = profile(vec![
        Property { name: "textures".to_string(), value: "abc".to_string(), signature: Some("sig".to_string()) },
        Property { name: "x".to_string(), value: "y".to_string(), signature: None },
    ]);
    let data = velocity_forwarding_data("1.2.3.4:5555", &p).unwrap();
    let mut expected = vec![0x01];
    expected.extend(string_field("1.2.3.4:5555"));
    expected.extend_from_slice(&id());
    expected.extend(string_field("Notch"));
    expected.push(2);
    expected.extend(string_field("textures"));
    expected.extend(string_field("abc"));
    expected.push(1);
    expected.extend(string_field("sig"));
    expected.extend(string_field("x"));
    expected.extend(string_field("y"));
    expected.push(0);
    assert_eq!(data, expected);
}

#[test]
fn velocity_data_refuses_long_names() {
    let mut p = profile(vec![]);
    p.name = "a_name_that_is_too_long".to_string();
    assert!(matches!(velocity_forwarding_data("1.2.3.4:5555", &p), Err(WireError::StringTooLong)));
}

#[test]
fn brand_channels() {
    assert!(is_brand("minecraft:brand"));
    assert!(is_brand("MC|Brand"));
    assert!(!is_brand("minecraft:register"));
}

#[test]
fn brand_is_marked() {
    let mut payload = Vec::new();
    write_string(&mut payload, "vanilla", 32767).unwrap();
    payload.extend_from_slice(&[9, 9]);
    let marked = rewrite_brand(&payload).unwrap();
    assert_eq!(marked, string_field("vanilla (Nitrogen)"));
    assert_eq!(relay_plugin_message("minecraft:brand", payload.clone()).unwrap(), marked);
    assert_eq!(relay_plugin_message("other:channel", payload.clone()).unwrap(), payload);
}

#[test]
fn broken_brand_is_an_error() {
    assert_eq!(rewrite_brand(&[5, b'a']), Err(WireError::UnexpectedEnd));
    assert_eq!(relay_plugin_message("MC|Brand", vec![2, 0xc3, 0x28]), Err(WireError::InvalidUtf8));
}
