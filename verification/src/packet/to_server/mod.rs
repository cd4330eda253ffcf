//! Inbound (client-to-server) messages.

pub mod handshake;
pub mod status;

use self::handshake::HandshakePacketToServer;
use self::status::StatusPacketToServer;
use vstd::prelude::*;

verus! {

/// Any decodable inbound message, tagged by the state it belongs to.
#[derive(Debug, PartialEq)]
pub enum PacketToServer {
    Handshake(HandshakePacketToServer),
    Status(StatusPacketToServer),
}

impl PacketToServer {
    /// Human-readable name of the variant, at the specification level.
    pub open spec fn spec_name(&self) -> Seq<char> {
        match self {
            PacketToServer::Handshake(..) => "PacketToServer::Handshake"@,
            PacketToServer::Status(..) => "PacketToServer::Status"@,
        }
    }

    /// Human-readable name of the variant.
    pub fn name(&self) -> (r: &'static str)
        ensures
            r@ == self.spec_name(),
    {
        match self {
            PacketToServer::Handshake(..) => "PacketToServer::Handshake",
            PacketToServer::Status(..) => "PacketToServer::Status",
        }
    }
}

} // verus!
