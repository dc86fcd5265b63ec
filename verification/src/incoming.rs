//! The states a connecting client goes through on the authenticating proxy: the handshake,
//! then either the server-list status or the login, which ends in a disconnect or in handing
//! the player on to a backend server.

use crate::config::{Config, Players};
use crate::profile::GameProfile;
use crate::protocol::{NextState, ProtocolVersion};
use crate::session::{
    disconnect_message, hash_server_id, pkcs1v15_decrypt, pkcs1v15_decryption, session_refusal, session_url, spec_disconnect_message,
    spec_server_hash, spec_session_refusal, spec_session_url,
};
use crate::status::{spec_status_players, spec_status_protocol, status_report, StatusReport};
use vstd::prelude::*;

verus! {

/// What the proxy knows of one client connection.
pub struct ClientHandle {
    pub protocol_version: ProtocolVersion,
    pub config: Config,
    pub address: String,
}

impl ClientHandle {
    /// A fresh connection from `address`; no protocol is known yet.
    pub fn new(config: Config, address: String) -> (r: ClientHandle)
        ensures
            r.protocol_version == ProtocolVersion::Undefined,
            r.config == config,
            r.address == address,
    {
        ClientHandle { protocol_version: ProtocolVersion::Undefined, config, address }
    }

    /// Records the protocol the client announced.
    pub fn update_protocol(&mut self, protocol: ProtocolVersion)
        ensures
            final(self).protocol_version == protocol,
            final(self).config == old(self).config,
            final(self).address == old(self).address,
    {
        self.protocol_version = protocol;
    }
}

/// Why handling a client's packet failed.
#[derive(Clone, Copy, Debug, PartialEq, Eq, Structural)]
pub enum ClientError {
    /// A packet the status state does not know.
    UnknownStatusPacket,
    /// A packet the login state does not know.
    UnknownLoginPacket,
    /// The encrypted shared secret or verify token does not decrypt under the proxy's key.
    DecryptionFailed,
}

/// The handshake state: waits for the handshake that names the next state.
pub struct ServerBoundHandshakeHandler {
    pub next_state: Option<Box<ClientState>>,
}

/// The status state: answers status requests and a ping, then ends.
pub struct ServerBoundStatusHandler {
    pub next_state: Option<Box<ClientState>>,
}

/// What the login state has learnt so far.
pub struct LoginData {
    pub username: Option<String>,
    pub private_key: Option<Vec<u8>>,
    pub public_key: Option<Vec<u8>>,
    pub verify: Option<Vec<u8>>,
    pub server_id: Option<String>,
}

impl LoginData {
    /// Nothing learnt yet.
    pub open spec fn spec_empty(self) -> bool {
        self.username is None && self.private_key is None && self.public_key is None && self.verify
            is None && self.server_id is None
    }

    /// Nothing learnt yet.
    pub fn new() -> (r: LoginData)
        ensures
            r.spec_empty(),
    {
        LoginData { username: None, private_key: None, public_key: None, verify: None, server_id: None }
    }
}

/// The login state: checks that there is room, runs the encryption handshake and the session
/// server check, and then hands the player on.
pub struct ServerBoundLoginHandler {
    pub next_state: Option<Box<ClientState>>,
    pub login_data: LoginData,
}

/// What the login hands on to the part of the proxy that connects the player to a backend.
pub struct TransferInfo {
    pub profile: GameProfile,
    pub protocol_version: ProtocolVersion,
    pub address: String,
}

/// The state of a client connection.
pub enum ClientState {
    Handshaking(ServerBoundHandshakeHandler),
    Status(ServerBoundStatusHandler),
    Login(ServerBoundLoginHandler),
    Transfer(TransferInfo),
    End,
}

/// A status state that has not handled anything yet.
pub open spec fn fresh_status(s: ClientState) -> bool {
    s matches ClientState::Status(h) && h.next_state is None
}

/// A login state that has not handled anything yet.
pub open spec fn fresh_login(s: ClientState) -> bool {
    s matches ClientState::Login(h) && h.next_state is None && h.login_data.spec_empty()
}

impl ServerBoundHandshakeHandler {
    /// A handshake state that has not read the handshake yet.
    pub fn new() -> (r: ServerBoundHandshakeHandler)
        ensures
            r.next_state is None,
    {
        ServerBoundHandshakeHandler { next_state: None }
    }

    /// Whether the handshake has chosen the next state.
    pub fn peek_state(&self) -> (r: bool)
        ensures
            r == self.next_state is Some,
    {
        self.next_state.is_some()
    }

    /// The state the handshake chose.
    pub fn next_state(self) -> (r: ClientState)
        requires
            self.next_state is Some,
        ensures
            r == *self.next_state->Some_0,
    {
        match self.next_state {
            Some(b) => *b,
            None => ClientState::End,
        }
    }

    /// Handles the handshake: records the client's protocol and moves to the status or the
    /// login state that it asks for.
    pub fn handle_handshake(&mut self, client: &mut ClientHandle, protocol: ProtocolVersion, next: NextState)
        ensures
            final(client).protocol_version == protocol,
            final(client).config == old(client).config,
            final(client).address == old(client).address,
            final(self).next_state matches Some(b) && (match next {
                NextState::Status => fresh_status(*b),
                NextState::Login => fresh_login(*b),
            }),
    {
        client.update_protocol(protocol);
        match next {
            NextState::Status => {
                self.next_state = Some(Box::new(ClientState::Status(ServerBoundStatusHandler::new())));
            },
            NextState::Login => {
                self.next_state = Some(Box::new(ClientState::Login(ServerBoundLoginHandler::new())));
            },
        }
    }
}

impl ServerBoundStatusHandler {
    /// A status state that has not handled anything yet.
    pub fn new() -> (r: ServerBoundStatusHandler)
        ensures
            r.next_state is None,
    {
        ServerBoundStatusHandler { next_state: None }
    }

    /// Whether the status exchange is over.
    pub fn peek_state(&self) -> (r: bool)
        ensures
            r == self.next_state is Some,
    {
        self.next_state.is_some()
    }

    /// The state after the status exchange.
    pub fn next_state(self) -> (r: ClientState)
        requires
            self.next_state is Some,
        ensures
            r == *self.next_state->Some_0,
    {
        match self.next_state {
            Some(b) => *b,
            None => ClientState::End,
        }
    }

    /// Answers a status request, with `current` players connected; the state does not change.
    pub fn handle_status_request(&self, client: &ClientHandle, current: usize) -> (r: StatusReport)
        requires
            client.config.players is Moving ==> current < usize::MAX,
        ensures
            r.version_name@ == "1.17.1"@,
            r.protocol == spec_status_protocol(client.protocol_version),
            (r.online_players as nat, r.max_players as nat) == spec_status_players(
                client.config.players,
                current as nat,
            ),
            r.motd@ == client.config.server_info.motd@,
    {
        status_report(client.protocol_version, &client.config.players, current, &client.config.server_info.motd)
    }

    /// Answers a ping with the same payload, after which the connection ends.
    pub fn handle_ping(&mut self, payload: i64) -> (r: i64)
        ensures
            r == payload,
            final(self).next_state matches Some(b) && *b is End,
    {
        self.next_state = Some(Box::new(ClientState::End));
        payload
    }

    /// A packet the status state does not know is an error.
    pub fn handle_unknown(&self) -> (r: Result<(), ClientError>)
        ensures
            r == Err::<(), ClientError>(ClientError::UnknownStatusPacket),
    {
        Err(ClientError::UnknownStatusPacket)
    }
}

/// Whether a login must be refused because the server is full: only the strict and the
/// constant (with `fail_on_over_join`) modes refuse, once `current` reaches the maximum.
pub open spec fn spec_login_full(mode: Players, current: nat) -> bool {
    match mode {
        Players::Strict { max_players } => current >= max_players,
        Players::Constant { max_players, fail_on_over_join, .. } => fail_on_over_join && current
            >= max_players,
        Players::Moving => false,
    }
}

/// Whether a login must be refused because the server is full.
pub fn login_full(mode: &Players, current: usize) -> (r: bool)
    ensures
        r == spec_login_full(*mode, current as nat),
{
    match mode {
        Players::Strict { max_players } => current >= *max_players,
        Players::Constant { max_players, fail_on_over_join, .. } => *fail_on_over_join && current
            >= *max_players,
        Players::Moving => false,
    }
}

/// Which logins are refused for a full server: in the strict mode, and in the constant mode
/// with `fail_on_over_join`, exactly those that arrive once `current` has reached the
/// configured maximum, whatever count the constant mode displays; never in the moving mode,
/// nor in the constant mode without `fail_on_over_join`.
pub proof fn lemma_login_full_by_mode(shown: usize, other_shown: usize, max_players: usize, current: nat)
    ensures
        spec_login_full(Players::Strict { max_players }, current) == (current >= max_players),
        spec_login_full(
            Players::Constant { players: shown, max_players, fail_on_over_join: true },
            current,
        ) == (current >= max_players),
        spec_login_full(
            Players::Constant { players: shown, max_players, fail_on_over_join: true },
            current,
        ) == spec_login_full(
            Players::Constant { players: other_shown, max_players, fail_on_over_join: true },
            current,
        ),
        !spec_login_full(
            Players::Constant { players: shown, max_players, fail_on_over_join: false },
            current,
        ),
        !spec_login_full(Players::Moving, current),
{
}

/// The message for a login refused because the server is full.
pub open spec fn server_full_reason() -> Seq<char> {
    "The server is currently full."@
}

impl ServerBoundLoginHandler {
    /// A login state that has not handled anything yet.
    pub fn new() -> (r: ServerBoundLoginHandler)
        ensures
            r.next_state is None,
            r.login_data.spec_empty(),
    {
        ServerBoundLoginHandler { next_state: None, login_data: LoginData::new() }
    }

    /// Whether the login is over.
    pub fn peek_state(&self) -> (r: bool)
        ensures
            r == self.next_state is Some,
    {
        self.next_state.is_some()
    }

    /// The state after the login.
    pub fn next_state(self) -> (r: ClientState)
        requires
            self.next_state is Some,
        ensures
            r == *self.next_state->Some_0,
    {
        match self.next_state {
            Some(b) => *b,
            None => ClientState::End,
        }
    }

    /// The chat message that disconnects the client with `reason`; once it has been sent,
    /// [`Self::disconnected`] ends the login.
    pub fn disconnect_client(&self, reason: &str) -> (r: String)
        ensures
            r@ == spec_disconnect_message(reason@),
    {
        disconnect_message(reason)
    }

    /// Ends the login after the disconnect message has been sent.
    pub fn disconnected(&mut self)
        ensures
            final(self).next_state matches Some(b) && *b is End,
            final(self).login_data == old(self).login_data,
    {
        self.next_state = Some(Box::new(ClientState::End));
    }

    /// A packet the login state does not know is an error.
    pub fn handle_unknown(&self) -> (r: Result<(), ClientError>)
        ensures
            r == Err::<(), ClientError>(ClientError::UnknownLoginPacket),
    {
        Err(ClientError::UnknownLoginPacket)
    }

    /// Handles the start of a login with `current` players connected, before its packet is
    /// read: when the server is full the disconnect message to send is returned (the login
    /// ends once it is sent, by [`Self::disconnected`]); otherwise nothing is returned.
    pub fn handle_login_start(&self, client: &ClientHandle, current: usize) -> (r: Option<String>)
        ensures
            spec_login_full(client.config.players, current as nat) ==> (r matches Some(m) && m@
                == spec_disconnect_message(server_full_reason())),
            !spec_login_full(client.config.players, current as nat) ==> r is None,
    {
        if login_full(&client.config.players, current) {
            return Some(self.disconnect_client("The server is currently full."));
        }
        None
    }

    /// Keeps the name the player logs in with; the encryption request is to be sent next.
    pub fn record_username(&mut self, name: String)
        ensures
            final(self).next_state == old(self).next_state,
            final(self).login_data.username == Some(name),
            final(self).login_data.private_key == old(self).login_data.private_key,
            final(self).login_data.public_key == old(self).login_data.public_key,
            final(self).login_data.verify == old(self).login_data.verify,
            final(self).login_data.server_id == old(self).login_data.server_id,
    {
        self.login_data.username = Some(name);
    }

    /// Keeps the key pair of the encryption request (the private key as its PKCS#1 DER
    /// encoding) and what the request sent: the public key, the verify token and the server id.
    pub fn record_encryption_request(
        &mut self,
        private_key: Vec<u8>,
        public_key: Vec<u8>,
        verify: Vec<u8>,
        server_id: String,
    )
        ensures
            final(self).next_state == old(self).next_state,
            final(self).login_data.username == old(self).login_data.username,
            final(self).login_data.private_key == Some(private_key),
            final(self).login_data.public_key == Some(public_key),
            final(self).login_data.verify == Some(verify),
            final(self).login_data.server_id == Some(server_id),
    {
        self.login_data.private_key = Some(private_key);
        self.login_data.public_key = Some(public_key);
        self.login_data.verify = Some(verify);
        self.login_data.server_id = Some(server_id);
    }

    /// Decrypts the shared secret and the verify token of the client's encryption response
    /// with the private key of the encryption request: both, or an error when either does not
    /// decrypt (the secret is decrypted first).
    pub fn decrypt_encryption_response(&self, encrypted_secret: &[u8], encrypted_verify: &[u8]) -> (r: Result<
        (Vec<u8>, Vec<u8>),
        ClientError,
    >)
        requires
            self.login_data.private_key is Some,
        ensures
            ({
                let key = self.login_data.private_key->Some_0@;
                match r {
                    Ok((secret, verify)) => pkcs1v15_decryption(key, encrypted_secret@) == Some(secret@)
                        && pkcs1v15_decryption(key, encrypted_verify@) == Some(verify@),
                    Err(e) => e == ClientError::DecryptionFailed && (pkcs1v15_decryption(
                        key,
                        encrypted_secret@,
                    ) is None || pkcs1v15_decryption(key, encrypted_verify@) is None),
                }
            }),
    {
        let key = self.login_data.private_key.as_ref().unwrap();
        let secret = match pkcs1v15_decrypt(key.as_slice(), encrypted_secret) {
            Some(s) => s,
            None => {
                return Err(ClientError::DecryptionFailed);
            },
        };
        let verify = match pkcs1v15_decrypt(key.as_slice(), encrypted_verify) {
            Some(v) => v,
            None => {
                return Err(ClientError::DecryptionFailed);
            },
        };
        Ok((secret, verify))
    }

    /// The session server query that checks the player: the server id hash is taken over the
    /// server id, the shared secret the client sent and the public key.
    pub fn authentication_url(&self, session_server: &str, shared_secret: &[u8]) -> (r: String)
        requires
            self.login_data.username is Some,
            self.login_data.server_id is Some,
            self.login_data.public_key is Some,
        ensures
            r@ == spec_session_url(
                session_server@,
                self.login_data.username->Some_0@,
                spec_server_hash(
                    self.login_data.server_id->Some_0@,
                    shared_secret@,
                    self.login_data.public_key->Some_0@,
                ),
            ),
    {
        let server_id = self.login_data.server_id.as_ref().unwrap();
        let key = self.login_data.public_key.as_ref().unwrap();
        let username = self.login_data.username.as_ref().unwrap();
        let hash = hash_server_id(server_id.as_str(), shared_secret, key.as_slice());
        session_url(session_server, username.as_str(), hash.as_str())
    }

    /// Handles the session server's reply (HTTP status and its reason phrase): when it refuses
    /// the player the disconnect message to send is returned (the login ends once it is sent,
    /// by [`Self::disconnected`]); otherwise nothing is returned.
    pub fn handle_session_reply(&self, status: u16, reason: &str) -> (r: Option<String>)
        ensures
            match spec_session_refusal(status, reason@) {
                Some(why) => (r matches Some(m) && m@ == spec_disconnect_message(why)),
                None => r is None,
            },
    {
        match session_refusal(status, reason) {
            Some(why) => Some(self.disconnect_client(why.as_str())),
            None => None,
        }
    }

    /// Ends the login by handing the authenticated player on.
    pub fn complete_login(&mut self, client: &ClientHandle, profile: GameProfile)
        ensures
            final(self).next_state matches Some(b) && *b matches ClientState::Transfer(t) && t.profile
                == profile && t.protocol_version == client.protocol_version && t.address
                == client.address,
            final(self).login_data == old(self).login_data,
    {
        let info = TransferInfo {
            profile,
            protocol_version: client.protocol_version,
            address: client.address.clone(),
        };
        self.next_state = Some(Box::new(ClientState::Transfer(info)));
    }
}

/// The compression threshold to announce after login; `None` when compression is off (`-1`).
pub fn compression_threshold(config: &Config) -> (r: Option<i32>)
    ensures
        r == (if config.network.compression_threshold == -1 {
            None
        } else {
            Some(config.network.compression_threshold)
        }),
{
    if config.network.compression_threshold != -1 {
        Some(config.network.compression_threshold)
    } else {
        None
    }
}

impl ClientState {
    /// The state this one has chosen to move to, if any.
    pub open spec fn pending(self) -> Option<ClientState> {
        match self {
            ClientState::Handshaking(h) => match h.next_state {
                Some(b) => Some(*b),
                None => None,
            },
            ClientState::Status(h) => match h.next_state {
                Some(b) => Some(*b),
                None => None,
            },
            ClientState::Login(h) => match h.next_state {
                Some(b) => Some(*b),
                None => None,
            },
            _ => None,
        }
    }

    /// Whether the state has chosen the next one.
    pub fn peek_state(&self) -> (r: bool)
        ensures
            r == self.pending() is Some,
    {
        match self {
            ClientState::Handshaking(h) => h.peek_state(),
            ClientState::Status(h) => h.peek_state(),
            ClientState::Login(h) => h.peek_state(),
            _ => false,
        }
    }

    /// Moves to the chosen state; the final states stay as they are.
    pub fn next_state(self) -> (r: ClientState)
        requires
            self.pending() is Some || self is End || self is Transfer,
        ensures
            r == (match self.pending() {
                Some(s) => s,
                None => self,
            }),
    {
        match self {
            ClientState::Handshaking(h) => h.next_state(),
            ClientState::Status(h) => h.next_state(),
            ClientState::Login(h) => h.next_state(),
            other => other,
        }
    }

    /// Whether this is the login state.
    pub fn is_login(&self) -> (r: bool)
        ensures
            r == self is Login,
    {
        matches!(self, ClientState::Login(_))
    }

    /// Whether the connection has ended.
    pub fn is_end(&self) -> (r: bool)
        ensures
            r == self is End,
    {
        matches!(self, ClientState::End)
    }

    /// The state's name, as the connection log shows it.
    pub fn name(&self) -> (r: String)
        ensures
            r@ == (match self {
                ClientState::Handshaking(_) => "Handshaking"@,
                ClientState::Status(_) => "Status"@,
                ClientState::Login(_) => "Login"@,
                ClientState::Transfer(_) => "Transfer"@,
                ClientState::End => "End"@,
            }),
    {
        match self {
            ClientState::Handshaking(_) => String::from_str("Handshaking"),
            ClientState::Status(_) => String::from_str("Status"),
            ClientState::Login(_) => String::from_str("Login"),
            ClientState::Transfer(_) => String::from_str("Transfer"),
            ClientState::End => String::from_str("End"),
        }
    }

    /// Whether the player is to be handed on to a backend server.
    pub fn is_transfer(&self) -> (r: bool)
        ensures
            r == self is Transfer,
    {
        matches!(self, ClientState::Transfer(_))
    }
}

/// What the connection loop does after the client moved to a new state.
#[derive(Clone, Copy, Debug, PartialEq, Eq, Structural)]
pub enum AfterTransition {
    /// Read the next packet.
    Continue,
    /// Tell the client that its version is not supported, and close.
    RejectVersion,
    /// Close the connection.
    Finish,
    /// Hand the player on to a backend server.
    Handoff,
}

/// The loop's decision after a transition: a client whose protocol cannot be spoken is turned
/// away on reaching the login; otherwise the end closes and a transfer hands the player on.
pub open spec fn spec_after_transition(state: ClientState, protocol: ProtocolVersion) -> AfterTransition {
    if protocol is Illegal {
        if state is Login {
            AfterTransition::RejectVersion
        } else {
            AfterTransition::Continue
        }
    } else if state is End {
        AfterTransition::Finish
    } else if state is Transfer {
        AfterTransition::Handoff
    } else {
        AfterTransition::Continue
    }
}

/// A client is turned away for its version only on reaching the login state, and only when
/// its protocol is one the codec cannot speak; with such a protocol every other state goes
/// on. With a protocol the codec speaks, the end closes, a transfer hands the player on and
/// the other states go on.
pub proof fn lemma_after_transition_rejects_only_logins(state: ClientState, protocol: ProtocolVersion)
    ensures
        spec_after_transition(state, protocol) == AfterTransition::RejectVersion <==> (protocol is Illegal
            && state is Login),
        protocol is Illegal && !(state is Login) ==> spec_after_transition(state, protocol)
            == AfterTransition::Continue,
        !(protocol is Illegal) ==> (spec_after_transition(state, protocol) == AfterTransition::Finish
            <==> state is End),
        !(protocol is Illegal) ==> (spec_after_transition(state, protocol) == AfterTransition::Handoff
            <==> state is Transfer),
        !(protocol is Illegal) && (state is Handshaking || state is Status || state is Login)
            ==> spec_after_transition(state, protocol) == AfterTransition::Continue,
{
}

/// Decides what the connection loop does after a transition.
pub fn after_transition(state: &ClientState, protocol: ProtocolVersion) -> (r: AfterTransition)
    ensures
        r == spec_after_transition(*state, protocol),
{
    if protocol.is_illegal() {
        if state.is_login() {
            AfterTransition::RejectVersion
        } else {
            AfterTransition::Continue
        }
    } else if state.is_end() {
        AfterTransition::Finish
    } else if state.is_transfer() {
        AfterTransition::Handoff
    } else {
        AfterTransition::Continue
    }
}

/// How far along a connection is: the handshake, then status or login, then the end or
/// the transfer.
pub open spec fn rank(s: ClientState) -> nat {
    match s {
        ClientState::Handshaking(_) => 0,
        ClientState::Status(_) => 1,
        ClientState::Login(_) => 1,
        _ => 2,
    }
}

/// The states that each state may choose: the handshake a fresh status or login state, the
/// status the end, and the login the end or a transfer.
pub open spec fn well_formed(s: ClientState) -> bool {
    match s.pending() {
        None => true,
        Some(n) => match s {
            ClientState::Handshaking(_) => fresh_status(n) || fresh_login(n),
            ClientState::Status(_) => n is End,
            ClientState::Login(_) => n is End || n is Transfer,
            _ => false,
        },
    }
}

/// A new connection starts in a well-formed handshake state.
pub fn initial_state() -> (r: ClientState)
    ensures
        r is Handshaking,
        r.pending() is None,
        well_formed(r),
{
    ClientState::Handshaking(ServerBoundHandshakeHandler::new())
}

/// Every move of a well-formed state goes one step further along and lands in a well-formed
/// state; the end and the transfer never move. So a connection makes at most two moves.
pub proof fn lemma_transitions_move_forward(s: ClientState)
    requires
        well_formed(s),
    ensures
        s.pending() matches Some(n) ==> well_formed(n) && rank(n) == rank(s) + 1 && rank(n) <= 2,
        (s is End || s is Transfer) ==> s.pending() is None,
{
}

} // verus!
