//! Outbound (server-to-client) messages.

pub mod status;

use crate::error::Error;
use vstd::prelude::*;

verus! {

use self::status::StatusPacketToClient;

/// Any encodable outbound message.
#[derive(Debug, PartialEq)]
pub enum PacketToClient {
    Status(StatusPacketToClient),
}

impl PacketToClient {
    /// The envelope's declared size: the id field plus the payload.
    pub open spec fn spec_size_of(&self) -> nat {
        match self {
            PacketToClient::Status(packet) => packet.spec_size_of(),
        }
    }

    /// The complete wire image of this message.
    pub open spec fn spec_envelope_bytes(&self) -> Seq<u8> {
        match self {
            PacketToClient::Status(packet) => packet.spec_envelope_bytes(),
        }
    }

    /// Appends the full envelope to `buf`; returns how many bytes were
    /// written.
    pub fn serialize(&self, buf: &mut Vec<u8>) -> (r: Result<usize, Error>)
        requires
            self.spec_size_of() + 10 <= usize::MAX,
        ensures
            final(buf)@ == old(buf)@ + self.spec_envelope_bytes(),
            r == Ok::<usize, Error>(self.spec_envelope_bytes().len() as usize),
    {
        match self {
            PacketToClient::Status(packet) => packet.serialize(buf),
        }
    }

    /// Human-readable name of the variant.
    pub fn name(&self) -> (r: &'static str)
        ensures
            r@ == "PacketToClient::Status"@,
    {
        match self {
            PacketToClient::Status(..) => "PacketToClient::Status",
        }
    }
}

} // verus!
