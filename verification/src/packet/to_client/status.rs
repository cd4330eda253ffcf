//! Status-state outbound messages: the status response and the pong, and the
//! data that the status payload is built from.

use crate::error::Error;
use crate::write::{
    be_bytes, encode_string_spec, encode_var_int_spec, lemma_be_bytes_len, lemma_encode_var_int_len,
    lemma_var_int_len_u64, var_int_len, var_int_len_spec, write_string, write_u64_be, write_var_int,
};
use rand::Rng;
use vstd::prelude::*;

verus! {

use vstd::utf8::encode_utf8;

/// The server version advertised in the status payload.
#[derive(Debug)]
pub struct Version {
    pub name: &'static str,
    pub protocol: u64,
}

/// The player counts advertised in the status payload.
#[derive(Debug)]
pub struct Players {
    pub max: u64,
    pub online: u64,
    pub sample: Vec<()>,
}

/// The message of the day shown to a querying client.
#[derive(Debug)]
pub struct Description {
    pub text: String,
}

/// Everything the status payload is built from. Turning it into the
/// JSON-shaped byte string is the business of an external collaborator;
/// the core only ever handles the resulting bytes.
#[derive(Debug)]
pub struct StatusData {
    pub version: Version,
    pub players: Players,
    pub description: Description,
    pub favicon: Option<String>,
    pub enforces_secure_chat: bool,
}

/// Relies on rand's `thread_rng().gen_range(0..=max)`: a draw from a
/// non-empty inclusive range lies within that range.
#[verifier::external_body]
fn random_online_count(max: u64) -> (r: u64)
    ensures
        r <= max,
{
    rand::thread_rng().gen_range(0..=max)
}

impl StatusData {
    /// A status payload for the given message of the day: a fixed version
    /// block, up to ten players with a randomly drawn online count, no
    /// favicon, and no secure-chat enforcement.
    pub fn new(motd: String) -> (r: StatusData)
        ensures
            r.version.name@ == "1.19.3"@,
            r.version.protocol == 761,
            r.players.max == 10,
            r.players.online <= 10,
            r.players.sample@.len() == 0,
            r.description.text == motd,
            r.favicon is None,
            r.enforces_secure_chat == false,
    {
        StatusData {
            version: Version { name: "1.19.3", protocol: 761 },
            players: Players { max: 10, online: random_online_count(10), sample: Vec::new() },
            description: Description { text: motd },
            enforces_secure_chat: false,
            favicon: None,
        }
    }
}

/// The status response body: the pre-serialized JSON payload, kept opaque.
#[derive(Debug, PartialEq)]
pub struct Status {
    pub status_data: String,
}

impl Status {
    /// Wraps a payload that the collaborator already serialized.
    pub fn new(status_data: String) -> (r: Status)
        ensures
            r.status_data == status_data,
    {
        Status { status_data }
    }
}

/// An outbound message of the Status state.
#[derive(Debug, PartialEq)]
pub enum StatusPacketToClient {
    /// Id 0: the length-prefixed JSON status string.
    Status(Status),
    /// Id 1: the pong, echoing a ping's payload verbatim.
    Ping(u64),
}

impl StatusPacketToClient {
    /// The wire id, at the specification level.
    pub open spec fn spec_id(&self) -> u64 {
        match self {
            StatusPacketToClient::Status(_) => 0,
            StatusPacketToClient::Ping(_) => 1,
        }
    }

    /// The payload bytes that follow the envelope's id field.
    pub open spec fn spec_payload_bytes(&self) -> Seq<u8> {
        match self {
            StatusPacketToClient::Status(status) => encode_string_spec(status.status_data@),
            StatusPacketToClient::Ping(ping) => be_bytes(*ping as nat, 8),
        }
    }

    /// The envelope's declared size: the id field plus the payload.
    pub open spec fn spec_size_of(&self) -> nat {
        var_int_len_spec(self.spec_id() as nat) + self.spec_payload_bytes().len()
    }

    /// The complete wire image: VarInt size, VarInt id, payload.
    pub open spec fn spec_envelope_bytes(&self) -> Seq<u8> {
        encode_var_int_spec(self.spec_size_of()) + encode_var_int_spec(self.spec_id() as nat)
            + self.spec_payload_bytes()
    }

    /// The wire id of this variant.
    pub fn get_id(&self) -> (id: u64)
        ensures
            id == self.spec_id(),
    {
        match self {
            StatusPacketToClient::Status(_) => 0,
            StatusPacketToClient::Ping(_) => 1,
        }
    }

    /// Byte length of the id field plus the payload: what the envelope's
    /// size field declares.
    pub fn size_of(&self) -> (r: Result<usize, Error>)
        requires
            self.spec_size_of() <= usize::MAX,
        ensures
            r == Ok::<usize, Error>(self.spec_size_of() as usize),
    {
        match self {
            StatusPacketToClient::Status(status) => {
                let len = status.status_data.as_str().len();
                proof {
                    lemma_encode_var_int_len(len as nat);
                }
                Ok(var_int_len(self.get_id()) + var_int_len(len as u64) + len)
            },
            StatusPacketToClient::Ping(_) => {
                proof {
                    lemma_be_bytes_len(self->Ping_0 as nat, 8);
                }
                Ok(var_int_len(self.get_id()) + 8)
            },
        }
    }

    /// Appends the full envelope to `buf`; returns how many bytes were
    /// written.
    pub fn serialize(&self, buf: &mut Vec<u8>) -> (r: Result<usize, Error>)
        requires
            self.spec_size_of() + 10 <= usize::MAX,
        ensures
            final(buf)@ == old(buf)@ + self.spec_envelope_bytes(),
            r == Ok::<usize, Error>(self.spec_envelope_bytes().len() as usize),
    {
        let size = serialize_pre(buf, self)?;
        match self {
            StatusPacketToClient::Status(status) => {
                write_string(buf, status.status_data.as_str());
            },
            StatusPacketToClient::Ping(ping) => {
                write_u64_be(buf, *ping);
            },
        }
        proof {
            lemma_encode_var_int_len(self.spec_size_of());
            lemma_encode_var_int_len(self.spec_id() as nat);
            assert(final(buf)@ =~= old(buf)@ + self.spec_envelope_bytes());
        }
        Ok(size)
    }
}

/// The complete wire image of the status response carrying `json`:
/// envelope size, id 0, then the length-prefixed payload.
pub open spec fn status_response_bytes(json: Seq<char>) -> Seq<u8> {
    let payload = encode_string_spec(json);
    encode_var_int_spec((1 + payload.len()) as nat) + encode_var_int_spec(0) + payload
}

/// The complete wire image of the pong echoing `payload`: envelope size 9,
/// id 1, then the 8-byte big-endian payload.
pub open spec fn pong_bytes(payload: u64) -> Seq<u8> {
    encode_var_int_spec(9) + encode_var_int_spec(1) + be_bytes(payload as nat, 8)
}

/// Writes the envelope header (size, then id) ahead of a packet's payload;
/// returns the declared size plus the byte length of the size field itself,
/// which is the total the whole envelope will occupy.
fn serialize_pre(buf: &mut Vec<u8>, packet: &StatusPacketToClient) -> (r: Result<usize, Error>)
    requires
        packet.spec_size_of() + 10 <= usize::MAX,
    ensures
        final(buf)@ == old(buf)@ + encode_var_int_spec(packet.spec_size_of())
            + encode_var_int_spec(packet.spec_id() as nat),
        r == Ok::<usize, Error>(
            (packet.spec_size_of() + var_int_len_spec(packet.spec_size_of())) as usize,
        ),
{
    let size = packet.size_of()?;
    let id = packet.get_id();
    proof {
        lemma_var_int_len_u64(size as u64);
    }
    let size_byte_len = write_var_int(buf, size as u64);
    write_var_int(buf, id);
    Ok(size + size_byte_len)
}

} // verus!
