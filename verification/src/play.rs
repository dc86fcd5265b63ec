//! The two directions of play-state traffic once a player is on a backend server; only
//! plugin messages are looked into.

use crate::brand::{relay_plugin_message, spec_relay_payload};
use crate::protocol::ProtocolVersion;
use crate::wire::WireError;
use vstd::prelude::*;

verus! {

/// Traffic from the player to the backend server.
pub struct MediatorLoginServerBound {
    pub protocol: ProtocolVersion,
}

/// Traffic from the backend server to the player.
pub struct MediatorLoginClientBound {
    pub protocol: ProtocolVersion,
}

impl MediatorLoginServerBound {
    /// Relays traffic to a server that speaks `protocol`.
    pub fn new(protocol: ProtocolVersion) -> (r: MediatorLoginServerBound)
        ensures
            r.protocol == protocol,
    {
        MediatorLoginServerBound { protocol }
    }

    /// The payload sent on for a plugin message from the player: a brand marked with the
    /// proxy's name, anything else unchanged.
    pub fn handle_plugin_message(&self, channel: &str, data: Vec<u8>) -> (r: Result<Vec<u8>, WireError>)
        ensures
            match r {
                Ok(d) => spec_relay_payload(channel@, data@) == Ok::<Seq<u8>, WireError>(d@),
                Err(e) => spec_relay_payload(channel@, data@) == Err::<Seq<u8>, WireError>(e),
            },
    {
        relay_plugin_message(channel, data)
    }
}

impl MediatorLoginClientBound {
    /// Relays traffic to a player that speaks `protocol`.
    pub fn new(protocol: ProtocolVersion) -> (r: MediatorLoginClientBound)
        ensures
            r.protocol == protocol,
    {
        MediatorLoginClientBound { protocol }
    }

    /// The payload sent on for a plugin message from the server: a brand marked with the
    /// proxy's name, anything else unchanged.
    pub fn handle_plugin_message(&self, channel: &str, data: Vec<u8>) -> (r: Result<Vec<u8>, WireError>)
        ensures
            match r {
                Ok(d) => spec_relay_payload(channel@, data@) == Ok::<Seq<u8>, WireError>(d@),
                Err(e) => spec_relay_payload(channel@, data@) == Err::<Seq<u8>, WireError>(e),
            },
    {
        relay_plugin_message(channel, data)
    }
}

} // verus!
