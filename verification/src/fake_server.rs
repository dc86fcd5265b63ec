//! A stand-in server that only answers the server list: the handshake, then a status request
//! and a ping; logins are closed at once. It also answers the pre-1.7 list ping.

use crate::config::{current_version_name, ServerInfo, CURRENT_PROTOCOL_NUMBER};
use crate::protocol::NextState;
use crate::status::StatusReport;
use vstd::prelude::*;

verus! {

/// A packet the stand-in server has staged for the client.
pub enum FakeServerPacket {
    /// The status, to be written as JSON.
    StatusResponse(StatusReport),
    /// The answer to a ping, with its payload.
    Pong(i64),
}

/// The handshake state.
pub struct FakeServerHandshakingHandler {
    pub next_state: Option<Box<ClientState>>,
}

/// The status state: stages one packet at a time for the connection loop to write.
pub struct FakeServerStatusHandler {
    pub send_packet: Option<FakeServerPacket>,
    pub next_state: Option<Box<ClientState>>,
}

/// A login state that handles nothing (the stand-in server closes logins from the handshake).
pub struct FakeServerLoginHandler {
    pub next_state: Option<Box<ClientState>>,
}

/// The state of a connection to the stand-in server.
pub enum ClientState {
    Handshaking(FakeServerHandshakingHandler),
    Status(FakeServerStatusHandler),
    End,
}

impl FakeServerHandshakingHandler {
    /// A handshake state that has not read the handshake yet.
    pub fn new() -> (r: FakeServerHandshakingHandler)
        ensures
            r.next_state is None,
    {
        FakeServerHandshakingHandler { next_state: None }
    }

    /// The state the handshake chose.
    pub fn next_state(self) -> (r: ClientState)
        requires
            self.next_state is Some,
        ensures
            r == *self.next_state->Some_0,
    {
        match self.next_state {
            Some(b) => *b,
            None => ClientState::End,
        }
    }

    /// Whether the handshake has chosen the next state.
    pub fn peek_state(&self) -> (r: bool)
        ensures
            r == self.next_state is Some,
    {
        self.next_state.is_some()
    }

    /// Handles the handshake: a status request moves to a fresh status state, a login ends the
    /// connection.
    pub fn handle_handshake(&mut self, next: NextState)
        ensures
            final(self).next_state matches Some(b) && (match next {
                NextState::Status => *b matches ClientState::Status(h) && h.next_state is None
                    && h.send_packet is None,
                NextState::Login => *b is End,
            }),
    {
        match next {
            NextState::Status => {
                self.next_state = Some(Box::new(ClientState::Status(FakeServerStatusHandler::new())));
            },
            NextState::Login => {
                self.next_state = Some(Box::new(ClientState::End));
            },
        }
    }
}

impl FakeServerLoginHandler {
    /// A login state that has chosen nothing.
    pub fn new() -> (r: FakeServerLoginHandler)
        ensures
            r.next_state is None,
    {
        FakeServerLoginHandler { next_state: None }
    }

    /// The chosen state.
    pub fn next_state(self) -> (r: ClientState)
        requires
            self.next_state is Some,
        ensures
            r == *self.next_state->Some_0,
    {
        match self.next_state {
            Some(b) => *b,
            None => ClientState::End,
        }
    }

    /// Whether a state was chosen.
    pub fn peek_state(&self) -> (r: bool)
        ensures
            r == self.next_state is Some,
    {
        self.next_state.is_some()
    }
}

/// The online count the stand-in server always reports.
pub const FAKE_ONLINE_PLAYERS: usize = 1337;

impl FakeServerStatusHandler {
    /// A status state with nothing staged.
    pub fn new() -> (r: FakeServerStatusHandler)
        ensures
            r.next_state is None,
            r.send_packet is None,
    {
        FakeServerStatusHandler { send_packet: None, next_state: None }
    }

    /// The staged packet, for the connection loop to write; it stays staged until
    /// [`Self::packet_written`].
    pub fn update_client(&self) -> (r: Option<&FakeServerPacket>)
        ensures
            match r {
                Some(p) => self.send_packet == Some(*p),
                None => self.send_packet is None,
            },
    {
        match &self.send_packet {
            Some(p) => Some(p),
            None => None,
        }
    }

    /// Unstages the packet once the connection loop has written it.
    pub fn packet_written(&mut self)
        ensures
            final(self).send_packet is None,
            final(self).next_state == old(self).next_state,
    {
        self.send_packet = None;
    }

    /// The state after the status exchange.
    pub fn next_state(self) -> (r: ClientState)
        requires
            self.next_state is Some,
        ensures
            r == *self.next_state->Some_0,
    {
        match self.next_state {
            Some(b) => *b,
            None => ClientState::End,
        }
    }

    /// Whether the status exchange is over.
    pub fn peek_state(&self) -> (r: bool)
        ensures
            r == self.next_state is Some,
    {
        self.next_state.is_some()
    }

    /// Stages the status: the announced version and protocol, the configured maximum, an
    /// online count of 1337, and the message of the day.
    pub fn handle_status_request(&mut self, info: &ServerInfo)
        ensures
            final(self).send_packet matches Some(FakeServerPacket::StatusResponse(r)) && r.version_name@
                == "1.17.1"@ && r.protocol == CURRENT_PROTOCOL_NUMBER && r.max_players == info.max_players
                && r.online_players == FAKE_ONLINE_PLAYERS && r.motd@ == info.motd@,
            final(self).next_state == old(self).next_state,
    {
        let report = StatusReport {
            version_name: current_version_name(),
            protocol: CURRENT_PROTOCOL_NUMBER,
            max_players: info.max_players,
            online_players: FAKE_ONLINE_PLAYERS,
            motd: info.motd.clone(),
        };
        self.send_packet = Some(FakeServerPacket::StatusResponse(report));
    }

    /// Stages the answer to a ping, after which the connection ends.
    pub fn handle_ping(&mut self, payload: i64)
        ensures
            final(self).send_packet == Some(FakeServerPacket::Pong(payload)),
            final(self).next_state matches Some(b) && *b is End,
    {
        self.send_packet = Some(FakeServerPacket::Pong(payload));
        self.next_state = Some(Box::new(ClientState::End));
    }
}

impl ClientState {
    /// The state this one has chosen to move to, if any.
    pub open spec fn pending(self) -> Option<ClientState> {
        match self {
            ClientState::Handshaking(h) => match h.next_state {
                Some(b) => Some(*b),
                None => None,
            },
            ClientState::Status(h) => match h.next_state {
                Some(b) => Some(*b),
                None => None,
            },
            ClientState::End => None,
        }
    }

    /// Whether the state has chosen the next one.
    pub fn peek_state(&self) -> (r: bool)
        ensures
            r == self.pending() is Some,
    {
        match self {
            ClientState::Handshaking(h) => h.peek_state(),
            ClientState::Status(h) => h.peek_state(),
            ClientState::End => false,
        }
    }

    /// Moves to the chosen state; the end stays the end.
    pub fn next_state(self) -> (r: ClientState)
        requires
            self.pending() is Some || self is End,
        ensures
            r == (match self.pending() {
                Some(s) => s,
                None => ClientState::End,
            }),
    {
        match self {
            ClientState::Handshaking(h) => h.next_state(),
            ClientState::Status(h) => h.next_state(),
            ClientState::End => ClientState::End,
        }
    }

    /// The packet staged for the client, which the loop writes; only the status state stages
    /// packets.
    pub fn update_client(&self) -> (r: Option<&FakeServerPacket>)
        ensures
            match *self {
                ClientState::Status(h) => match r {
                    Some(p) => h.send_packet == Some(*p),
                    None => h.send_packet is None,
                },
                _ => r is None,
            },
    {
        match self {
            ClientState::Status(h) => h.update_client(),
            _ => None,
        }
    }

    /// Unstages the packet once the loop has written it; other states are left as they are.
    pub fn packet_written(&mut self)
        ensures
            match *old(self) {
                ClientState::Status(h) => *final(self) matches ClientState::Status(h2) && h2.send_packet
                    is None && h2.next_state == h.next_state,
                _ => *final(self) == *old(self),
            },
    {
        match self {
            ClientState::Status(h) => h.packet_written(),
            _ => {},
        }
    }

    /// The state's name, as the connection log shows it.
    pub fn name(&self) -> (r: String)
        ensures
            r@ == (match self {
                ClientState::Handshaking(_) => "Handshaking"@,
                ClientState::Status(_) => "Status"@,
                ClientState::End => "End"@,
            }),
    {
        match self {
            ClientState::Handshaking(_) => String::from_str("Handshaking"),
            ClientState::Status(_) => String::from_str("Status"),
            ClientState::End => String::from_str("End"),
        }
    }

    /// Whether the connection has ended.
    pub fn is_end(&self) -> (r: bool)
        ensures
            r == self is End,
    {
        matches!(self, ClientState::End)
    }
}

/// Whether the buffered bytes are a pre-1.7 list ping: only in the handshake state, when
/// something has been read and it starts with `0xFE`.
pub open spec fn spec_is_legacy_ping(state: ClientState, decoded_len: nat, buf: Seq<u8>) -> bool {
    state is Handshaking && decoded_len > 0 && buf[0] == 0xFE
}

/// Recognises a pre-1.7 list ping in the bytes read so far.
pub fn is_legacy_ping(state: &ClientState, decoded_len: usize, buf: &[u8]) -> (r: bool)
    requires
        decoded_len > 0 ==> buf.len() > 0,
    ensures
        r == spec_is_legacy_ping(*state, decoded_len as nat, buf@),
{
    match state {
        ClientState::Handshaking(_) => decoded_len > 0 && buf[0] == 0xFE,
        _ => false,
    }
}

/// A new connection starts in the handshake state.
pub fn initial_state() -> (r: ClientState)
    ensures
        r is Handshaking,
        r.pending() is None,
{
    ClientState::Handshaking(FakeServerHandshakingHandler::new())
}

} // verus!
