use nitrogen::config::{Players, ServerInfo};
use nitrogen::legacy::legacy_handle_mc_ping;
use nitrogen::protocol::ProtocolVersion;
use nitrogen::status::{status_protocol_number, status_report, StatusPlayers};

#[test]
fn moving_counts_leave_one_free_slot() {
    let counts = StatusPlayers::new(&Players::Moving, 4);
    assert_eq!(counts, StatusPlayers { max: 5, online: 4 });
}

#[test]
fn strict_counts_use_the_real_online_count() {
    let counts = StatusPlayers::new(&Players::Strict { max_players: 20 }, 3);
    assert_eq!(counts, StatusPlayers { max: 20, online: 3 });
}

#[test]
fn constant_counts_ignore_the_real_online_count() {
    let mode = Players::Constant { players: 42, max_players: 100, fail_on_over_join: false };
    assert_eq!(StatusPlayers::new(&mode, 3), StatusPlayers { max: 100, online: 42 });
}

#[test]
fn status_protocol_numbers() {
    assert_eq!(status_protocol_number(ProtocolVersion::Supported(756)), 756);
    assert_eq!(status_protocol_number(ProtocolVersion::Illegal(47)), 0);
    assert_eq!(status_protocol_number(ProtocolVersion::Undefined), -1);
}

#[test]
fn status_report_fields() {
    let report = status_report(ProtocolVersion::Supported(755), &Players::Moving, 0, &"Hello".to_string());
    assert_eq!(report.version_name, "1.17.1");
    assert_eq!(report.protocol, 755);
    assert_eq!(report.max_players, 1);
    assert_eq!(report.online_players, 0);
    assert_eq!(report.motd, "Hello");
}

fn expected_legacy(motd: &str, max: usize) -> Vec<u8> {
    let text = format!("\u{a7}1\u{0}{}\u{0}{}\u{0}{}\u{0}0\u{0}{}", 756, "1.17.1", motd, max);
    let length = (text.len() as u16).to_be_bytes();
    let mut out = vec![0xff, length[0], length[1]];
    for unit in text.encode_utf16() {
        out.extend_from_slice(&unit.to_be_bytes());
    }
    out
}

#[test]
fn legacy_ping_answer() {
    let info = ServerInfo { motd: "A Minecraft Server".to_string(), max_players: 20, priorities: vec![] };
    let bytes = legacy_handle_mc_ping(&info);
    assert_eq!(bytes, expected_legacy("A Minecraft Server", 20));
    assert_eq!(&bytes[..5], &[0xff, 0x00, 0x26, 0x00, 0xa7]);
}

#[test]
fn legacy_ping_answer_with_wide_characters() {
    let motd = "caf\u{e9} \u{1f600}";
    let info = ServerInfo { motd: motd.to_string(), max_players: 12345, priorities: vec![] };
    assert_eq!(legacy_handle_mc_ping(&info), expected_legacy(motd, 12345));
}
