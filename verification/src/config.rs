//! The proxy's configuration: where it listens, what it tells clients, how it counts players
//! and which backend servers it forwards to.

use crate::text::{decimal, push_char, push_decimal, push_str};
use vstd::prelude::*;

verus! {

/// The protocol number of the game version the proxy announces.
pub const CURRENT_PROTOCOL_NUMBER: i32 = 756;

/// The name of the game version the proxy announces.
pub fn current_version_name() -> (r: String)
    ensures
        r@ == "1.17.1"@,
{
    String::from_str("1.17.1")
}

/// Where the proxy listens, and the compression threshold it asks clients for (`-1` turns
/// compression off).
#[derive(Clone)]
pub struct Network {
    pub bind: String,
    pub port: u16,
    pub compression_threshold: i32,
}

/// `host:port`, with the port in decimal.
pub open spec fn host_port(host: Seq<char>, port: u16) -> Seq<char> {
    host.push(':') + decimal(port as nat)
}

impl Network {
    /// The address the listener binds to: `bind:port`.
    pub fn bind_address(&self) -> (r: String)
        ensures
            r@ == host_port(self.bind@, self.port),
    {
        let mut s = String::new();
        push_str(&mut s, self.bind.as_str());
        push_char(&mut s, ':');
        push_decimal(&mut s, self.port as u64);
        assert(s@ == host_port(self.bind@, self.port));
        s
    }
}

/// What the proxy tells clients about itself, and the order in which it tries backend servers.
#[derive(Clone)]
pub struct ServerInfo {
    pub motd: String,
    pub max_players: usize,
    pub priorities: Vec<String>,
}

/// How the player counts in a status response are made.
#[derive(Clone)]
pub enum Players {
    /// The online count is the real one and the maximum is always one more.
    Moving,
    /// The online count is the real one, against a fixed maximum.
    Strict { max_players: usize },
    /// Both counts are fixed; joins past the maximum are refused when `fail_on_over_join`.
    Constant { players: usize, max_players: usize, fail_on_over_join: bool },
}

/// How a player's identity is handed to a backend server.
#[derive(Clone)]
pub enum ForwardingMode {
    /// Nothing is forwarded.
    Disabled,
    /// The BungeeCord scheme: address, UUID and profile joined into the handshake's host field.
    Legacy,
    /// Velocity's login plugin message, keyed by a shared secret.
    Velocity { forwarding_secret: String },
}

/// A backend server.
#[derive(Clone)]
pub struct Server {
    pub name: String,
    pub ip: String,
    pub port: u16,
    pub forwarding_mode: ForwardingMode,
}

impl Server {
    /// The address the proxy connects to: `ip:port`.
    pub fn connect_address(&self) -> (r: String)
        ensures
            r@ == host_port(self.ip@, self.port),
    {
        let mut s = String::new();
        push_str(&mut s, self.ip.as_str());
        push_char(&mut s, ':');
        push_decimal(&mut s, self.port as u64);
        s
    }
}

/// The whole configuration.
#[derive(Clone)]
pub struct Config {
    pub network: Network,
    pub server_info: ServerInfo,
    pub players: Players,
    pub servers: Vec<Server>,
}

} // verus!
