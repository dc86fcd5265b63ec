//! Logging a player in to a backend server on their behalf: the handshake the proxy sends,
//! and how it answers what the backend sends back during login.

use crate::config::{ForwardingMode, Server};
use crate::profile::{
    create_address, spec_create_address, spec_velocity_data, uuid_eq, velocity_channel,
    velocity_forwarding_data, GameProfile,
};
use crate::protocol::{NextState, ProtocolVersion};
use crate::text::str_eq;
use crate::wire::WireError;
use vstd::prelude::*;

verus! {

/// The player being connected to a backend server.
pub struct PlayerInfo {
    pub profile: GameProfile,
    pub protocol_version: ProtocolVersion,
    pub address: String,
}

/// The fields of the handshake sent to a backend server.
pub struct HandshakeFields {
    pub protocol_version: i32,
    pub server_address: String,
    pub server_port: u16,
    pub next_state: NextState,
}

/// The handshake that opens a login to `server` for `player`; `profile_json` is the player's
/// profile written as JSON, which legacy forwarding carries.
pub fn backend_handshake(server: &Server, player: &PlayerInfo, profile_json: &str) -> (r: HandshakeFields)
    ensures
        r.protocol_version == player.protocol_version.spec_number(),
        r.server_address@ == spec_create_address(
            server.ip@,
            player.address@,
            server.forwarding_mode,
            player.profile.id@,
            profile_json@,
        ),
        r.server_port == server.port,
        r.next_state == NextState::Login,
{
    HandshakeFields {
        protocol_version: player.protocol_version.as_i32(),
        server_address: create_address(
            server.ip.clone(),
            player.address.as_str(),
            &server.forwarding_mode,
            &player.profile,
            profile_json,
        ),
        server_port: server.port,
        next_state: NextState::Login,
    }
}

/// Why a login to a backend server failed.
#[derive(Debug)]
pub enum BackendLoginError {
    /// A packet the login does not know.
    UnknownPacket,
    /// The backend disconnected the player, with this reason.
    Disconnected(String),
    /// The backend asked for encryption, which a backend behind the proxy must not do.
    UnexpectedEncryptionRequest,
    /// The backend logged in a player other than the one the proxy sent.
    InvalidProfile,
    /// The backend asked for Velocity forwarding, which this server is not set up for.
    UnexpectedForwarding,
    /// The forwarded player data could not be written.
    Encoding(WireError),
}

/// The answer to a backend's login plugin request.
pub struct LoginPluginResponse {
    pub message_id: i32,
    pub successful: bool,
    pub data: Vec<u8>,
}

/// The login to a backend server, seen from the proxy.
pub struct LoginClientBoundHandler {
    pub protocol: ProtocolVersion,
    pub address: String,
    pub profile: GameProfile,
    pub forwarding_mode: ForwardingMode,
    pub finished: bool,
}

impl LoginClientBoundHandler {
    /// A login that has not finished yet.
    pub fn new(
        protocol: ProtocolVersion,
        address: String,
        profile: GameProfile,
        forwarding_mode: ForwardingMode,
    ) -> (r: LoginClientBoundHandler)
        ensures
            r.protocol == protocol,
            r.address == address,
            r.profile == profile,
            r.forwarding_mode == forwarding_mode,
            !r.finished,
    {
        LoginClientBoundHandler { protocol, address, profile, forwarding_mode, finished: false }
    }

    /// A packet the login does not know is an error.
    pub fn handle_unknown(&self) -> (r: Result<(), BackendLoginError>)
        ensures
            r matches Err(BackendLoginError::UnknownPacket),
    {
        Err(BackendLoginError::UnknownPacket)
    }

    /// A disconnect from the backend ends the login with its reason.
    pub fn handle_disconnect(&self, reason: String) -> (r: Result<(), BackendLoginError>)
        ensures
            (r matches Err(BackendLoginError::Disconnected(m)) && m == reason),
    {
        Err(BackendLoginError::Disconnected(reason))
    }

    /// An encryption request from the backend ends the login.
    pub fn handle_encryption_request(&self) -> (r: Result<(), BackendLoginError>)
        ensures
            r matches Err(BackendLoginError::UnexpectedEncryptionRequest),
    {
        Err(BackendLoginError::UnexpectedEncryptionRequest)
    }

    /// The backend's login success: the login is finished when it names the player the proxy
    /// sent (same name, same UUID), and fails otherwise.
    pub fn handle_login_success(&mut self, username: &str, uuid: &[u8; 16]) -> (r: Result<(), BackendLoginError>)
        ensures
            (username@ == old(self).profile.name@ && uuid@ == old(self).profile.id@) ==> (r is Ok
                && final(self).finished),
            !(username@ == old(self).profile.name@ && uuid@ == old(self).profile.id@) ==> (r matches Err(
                BackendLoginError::InvalidProfile,
            )) && final(self).finished == old(self).finished,
            final(self).profile == old(self).profile,
            final(self).address == old(self).address,
            final(self).protocol == old(self).protocol,
            final(self).forwarding_mode == old(self).forwarding_mode,
    {
        if str_eq(username, self.profile.name.as_str()) && uuid_eq(uuid, &self.profile.id) {
            self.finished = true;
            Ok(())
        } else {
            Err(BackendLoginError::InvalidProfile)
        }
    }

    /// The answer to a login plugin request. On Velocity's channel the player's data is sent
    /// when this server uses Velocity forwarding, and the login fails otherwise; any other
    /// channel is answered as not understood, with no data.
    pub fn handle_login_plugin_request(&self, message_id: i32, channel: &str) -> (r: Result<
        LoginPluginResponse,
        BackendLoginError,
    >)
        ensures
            channel@ != velocity_channel() ==> (r matches Ok(resp) && resp.message_id == message_id
                && !resp.successful && resp.data@.len() == 0),
            channel@ == velocity_channel() && !(self.forwarding_mode is Velocity) ==> r matches Err(
                BackendLoginError::UnexpectedForwarding,
            ),
            channel@ == velocity_channel() && self.forwarding_mode is Velocity ==> match spec_velocity_data(
                self.address@,
                self.profile,
            ) {
                Ok(d) => (r matches Ok(resp) && resp.message_id == message_id && resp.successful
                    && resp.data@ == d),
                Err(e) => (r matches Err(BackendLoginError::Encoding(e2)) && e2 == e),
            },
    {
        if str_eq(channel, "velocity:player_info") {
            if let ForwardingMode::Velocity { .. } = &self.forwarding_mode {
                match velocity_forwarding_data(self.address.as_str(), &self.profile) {
                    Ok(data) => Ok(LoginPluginResponse { message_id, successful: true, data }),
                    Err(e) => Err(BackendLoginError::Encoding(e)),
                }
            } else {
                Err(BackendLoginError::UnexpectedForwarding)
            }
        } else {
            Ok(LoginPluginResponse { message_id, successful: false, data: Vec::new() })
        }
    }
}

} // verus!
