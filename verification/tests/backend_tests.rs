use nitrogen::backend::{backend_handshake, BackendLoginError, LoginClientBoundHandler, PlayerInfo};
use nitrogen::config::{ForwardingMode, Server};
use nitrogen::profile::{velocity_forwarding_data, GameProfile};
use nitrogen::protocol::{NextState, ProtocolVersion};
use nitrogen::server_handle::{find_server, init_step, resolve_server, InitStep, ServerHandle, ServerHandleError, ServerInit, ServerProcess};

fn profile() -> GameProfile {
    GameProfile { id: [0xab; 16], name: "Steve".to_string(), properties: vec![] }
}

fn handler(mode: ForwardingMode) -> LoginClientBoundHandler {
    LoginClientBoundHandler::new(ProtocolVersion::Supported(756), "9.8.7.6:5432".to_string(), profile(), mode)
}

fn server(name: &str, port: u16) -> Server {
    Server { name: name.to_string(), ip: "10.0.0.1".to_string(), port, forwarding_mode: ForwardingMode::Disabled }
}

#[test]
fn handshake_to_backend() {
    let s = Server { name: "a".to_string(), ip: "10.0.0.1".to_string(), port: 25566, forwarding_mode: ForwardingMode::Legacy };
    let player = PlayerInfo { profile: profile(), protocol_version: ProtocolVersion::Supported(756), address: "1.1.1.1:1".to_string() };
    let fields = backend_handshake(&s, &player, "{}");
    assert_eq!(fields.protocol_version, 756);
    assert_eq!(fields.server_port, 25566);
    assert_eq!(fields.next_state, NextState::Login);
    assert_eq!(fields.server_address, format!("10.0.0.1\u{0}1.1.1.1:1\u{0}{}\u{0}{{}}", "ab".repeat(16)));
}

#[test]
fn login_success_must_match_the_player() {
    let mut h = handler(ForwardingMode::Disabled);
    assert!(matches!(h.handle_login_success("Alex", &[0xab; 16]), Err(BackendLoginError::InvalidProfile)));
    assert!(!h.finished);
    assert!(matches!(h.handle_login_success("Steve", &[0xac; 16]), Err(BackendLoginError::InvalidProfile)));
    assert!(!h.finished);
    assert!(h.handle_login_success("Steve", &[0xab; 16]).is_ok());
    assert!(h.finished);
}

#[test]
fn backend_refusals() {
    let h = handler(ForwardingMode::Disabled);
    assert!(matches!(h.handle_unknown(), Err(BackendLoginError::UnknownPacket)));
    assert!(matches!(h.handle_encryption_request(), Err(BackendLoginError::UnexpectedEncryptionRequest)));
    match h.handle_disconnect("bye".to_string()) {
        Err(BackendLoginError::Disconnected(m)) => assert_eq!(m, "bye"),
        _ => panic!("disconnect expected"),
    }
}

#[test]
fn plugin_requests() {
    let h = handler(ForwardingMode::Disabled);
    let resp = h.handle_login_plugin_request(3, "other:thing").unwrap();
    assert_eq!((resp.message_id, resp.successful, resp.data.len()), (3, false, 0));
    assert!(matches!(h.handle_login_plugin_request(4, "velocity:player_info"), Err(BackendLoginError::UnexpectedForwarding)));

    let v = handler(ForwardingMode::Velocity { forwarding_secret: "secret".to_string() });
    let resp = v.handle_login_plugin_request(5, "velocity:player_info").unwrap();
    assert_eq!(resp.message_id, 5);
    assert!(resp.successful);
    assert_eq!(resp.data, velocity_forwarding_data("9.8.7.6:5432", &profile()).unwrap());
    let resp = v.handle_login_plugin_request(6, "other:thing").unwrap();
    assert!(!resp.successful);
}

#[test]
fn later_servers_replace_earlier_ones() {
    let servers = vec![server("lobby", 1), server("game", 2), server("lobby", 3)];
    assert_eq!(find_server(&servers, "lobby"), Some(2));
    assert_eq!(find_server(&servers, "game"), Some(1));
    assert_eq!(find_server(&servers, "none"), None);
    assert!(matches!(resolve_server(&servers, "game"), Ok(1)));
    match resolve_server(&servers, "none") {
        Err(ServerHandleError::UnknownServer(n)) => assert_eq!(n, "none"),
        _ => panic!("unknown server expected"),
    }
}

#[test]
fn init_steps_follow_the_priorities() {
    let servers = vec![server("lobby", 1), server("game", 2)];
    let priorities = vec!["game".to_string(), "lobby".to_string(), "missing".to_string()];
    assert!(matches!(init_step(&priorities, &servers, 0), InitStep::Connect(1)));
    assert!(matches!(init_step(&priorities, &servers, 1), InitStep::Connect(0)));
    match init_step(&priorities, &servers, 2) {
        InitStep::Fail(ServerHandleError::UnresolvedServer(n)) => assert_eq!(n, "missing"),
        _ => panic!("unresolved server expected"),
    }
    assert!(matches!(init_step(&priorities, &servers, 3), InitStep::Fail(ServerHandleError::NoServerReachable)));
}

#[test]
fn link_lifecycle() {
    let mut p = ServerProcess::new();
    assert!(matches!(p.abort(), Err(ServerHandleError::NotSpinning)));
    assert!(matches!(p.send_packet(), Err(ServerHandleError::NotSpinning)));
    assert!(p.spin_process().is_ok());
    assert!(matches!(p.spin_process(), Err(ServerHandleError::AlreadySpinning)));
    assert!(p.abort().is_ok());
    assert!(p.send_packet().is_ok());

    let mut h = ServerHandle::new();
    assert!(!h.send_packet());
    assert!(h.spin_server().is_ok());
    assert!(h.abort().is_ok());
    assert!(h.switch_server().is_ok());
    assert!(h.send_packet());
    assert!(matches!(h.spin_server(), Err(ServerHandleError::AlreadySpinning)));
    h.current_server = Some(ServerProcess::new());
    assert!(matches!(h.switch_server(), Err(ServerHandleError::NotSpinning)));
}

#[test]
fn init_walks_the_priorities() {
    let servers = vec![server("lobby", 1), server("game", 2)];
    let priorities = vec!["game".to_string(), "lobby".to_string()];
    let mut init = ServerInit::new();
    assert!(matches!(init.step(&priorities, &servers), InitStep::Connect(1)));
    init.login_failed(&priorities);
    assert!(matches!(init.step(&priorities, &servers), InitStep::Connect(0)));
    init.login_failed(&priorities);
    assert!(matches!(init.step(&priorities, &servers), InitStep::Fail(ServerHandleError::NoServerReachable)));
}
