use nitrogen::config::{Network, Server, ForwardingMode};
use nitrogen::text::{decimal_string, str_eq};

#[test]
fn decimal_text() {
    assert_eq!(decimal_string(0), "0");
    assert_eq!(decimal_string(7), "7");
    assert_eq!(decimal_string(25565), "25565");
    assert_eq!(decimal_string(u64::MAX), u64::MAX.to_string());
}

#[test]
fn string_equality() {
    assert!(str_eq("abc", "abc"));
    assert!(!str_eq("abc", "abd"));
    assert!(!str_eq("abc", "ab"));
    assert!(str_eq("", ""));
}

#[test]
fn bind_and_connect_addresses() {
    let network = Network { bind: "0.0.0.0".to_string(), port: 25565, compression_threshold: 256 };
    assert_eq!(network.bind_address(), "0.0.0.0:25565");
    let server = Server {
        name: "lobby".to_string(),
        ip: "127.0.0.1".to_string(),
        port: 30066,
        forwarding_mode: ForwardingMode::Disabled,
    };
    assert_eq!(server.connect_address(), "127.0.0.1:30066");
}
