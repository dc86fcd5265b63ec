//! The server-list status a client is shown.

use crate::config::{current_version_name, Players};
use crate::protocol::ProtocolVersion;
use vstd::prelude::*;

verus! {

/// The player counts of a status response.
#[derive(Clone, Copy, Debug, PartialEq, Eq, Structural)]
pub struct StatusPlayers {
    pub max: usize,
    pub online: usize,
}

/// The counts that `mode` shows when `current` players are connected.
pub open spec fn spec_status_players(mode: Players, current: nat) -> (nat, nat) {
    match mode {
        Players::Moving => (current, current + 1),
        Players::Strict { max_players } => (current, max_players as nat),
        Players::Constant { players, max_players, .. } => (players as nat, max_players as nat),
    }
}

impl StatusPlayers {
    /// The counts shown when `current` players are connected: `(online, max)` as
    /// [`spec_status_players`] states.
    pub fn new(mode: &Players, current: usize) -> (r: StatusPlayers)
        requires
            mode is Moving ==> current < usize::MAX,
        ensures
            (r.online as nat, r.max as nat) == spec_status_players(*mode, current as nat),
    {
        match mode {
            Players::Moving => StatusPlayers { max: current + 1, online: current },
            Players::Strict { max_players } => StatusPlayers { max: *max_players, online: current },
            Players::Constant { players, max_players, .. } => StatusPlayers {
                max: *max_players,
                online: *players,
            },
        }
    }
}

/// The protocol number a status response reports: `0` for a protocol the codec cannot speak,
/// its number otherwise.
pub open spec fn spec_status_protocol(p: ProtocolVersion) -> int {
    if p is Illegal {
        0
    } else {
        p.spec_number()
    }
}

/// The protocol number a status response reports.
pub fn status_protocol_number(p: ProtocolVersion) -> (r: i32)
    ensures
        r == spec_status_protocol(p),
{
    if p.is_illegal() {
        0
    } else {
        p.as_i32()
    }
}

/// A status response before it is written out as JSON: version name and protocol, player
/// counts, and the message of the day (there is no sample of players and no favicon).
pub struct StatusReport {
    pub version_name: String,
    pub protocol: i32,
    pub max_players: usize,
    pub online_players: usize,
    pub motd: String,
}

/// The status of the proxy for a client speaking `protocol`, with `current` players connected.
pub fn status_report(protocol: ProtocolVersion, mode: &Players, current: usize, motd: &String) -> (r: StatusReport)
    requires
        mode is Moving ==> current < usize::MAX,
    ensures
        r.version_name@ == "1.17.1"@,
        r.protocol == spec_status_protocol(protocol),
        (r.online_players as nat, r.max_players as nat) == spec_status_players(*mode, current as nat),
        r.motd@ == motd@,
{
    let counts = StatusPlayers::new(mode, current);
    StatusReport {
        version_name: current_version_name(),
        protocol: status_protocol_number(protocol),
        max_players: counts.max,
        online_players: counts.online,
        motd: motd.clone(),
    }
}

} // verus!
