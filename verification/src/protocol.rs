//! What a client announced in its handshake.

use vstd::prelude::*;

verus! {

/// The protocol a client speaks, as the packet codec classified the number from its handshake.
#[derive(Clone, Copy, Debug, PartialEq, Eq, Structural)]
pub enum ProtocolVersion {
    /// No handshake has been read yet.
    Undefined,
    /// A protocol the codec can speak, with its number.
    Supported(i32),
    /// A protocol the codec cannot speak, with the number the client sent.
    Illegal(i32),
}

impl ProtocolVersion {
    /// The protocol's number; `-1` while no handshake has been read.
    pub open spec fn spec_number(self) -> int {
        match self {
            ProtocolVersion::Undefined => -1,
            ProtocolVersion::Supported(n) => n as int,
            ProtocolVersion::Illegal(n) => n as int,
        }
    }

    /// The protocol's number; `-1` while no handshake has been read.
    pub fn as_i32(&self) -> (r: i32)
        ensures
            r == self.spec_number(),
    {
        match self {
            ProtocolVersion::Undefined => -1,
            ProtocolVersion::Supported(n) => *n,
            ProtocolVersion::Illegal(n) => *n,
        }
    }

    /// Whether the codec cannot speak this protocol.
    pub fn is_illegal(&self) -> (r: bool)
        ensures
            r == (self is Illegal),
    {
        matches!(self, ProtocolVersion::Illegal(_))
    }
}

/// The state a handshake asks for.
#[derive(Clone, Copy, Debug, PartialEq, Eq, Structural)]
pub enum NextState {
    Status,
    Login,
}

} // verus!
