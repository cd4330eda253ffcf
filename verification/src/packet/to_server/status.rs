//! Status-state inbound messages: the status request and the ping.

use crate::connection::State;
use crate::error::{error_of, DecodeErr, Error};
use crate::read::{get_packet_size, parse_packet_size, parse_u64_be, parse_var_int, read_u64_be, read_var_int};
use vstd::prelude::*;

verus! {

/// An inbound message of the Status state.
#[derive(Debug, Clone, Copy, PartialEq, Eq, Structural)]
pub enum StatusPacketToServer {
    /// Id 0: asks for the status payload. Empty body.
    Status,
    /// Id 1: asks for an echo of the big-endian 64-bit payload.
    Ping(u64),
}

impl StatusPacketToServer {
    /// The wire id of this variant.
    pub fn get_id(&self) -> (id: u64)
        ensures
            id == self.spec_id(),
    {
        match self {
            StatusPacketToServer::Status => 0,
            StatusPacketToServer::Ping(_) => 1,
        }
    }

    /// The wire id, at the specification level.
    pub open spec fn spec_id(&self) -> u64 {
        match self {
            StatusPacketToServer::Status => 0,
            StatusPacketToServer::Ping(_) => 1,
        }
    }

    /// Decodes one whole Status-state packet at `pos`: envelope, id
    /// dispatch, body.
    pub fn deserialize(buf: &[u8], pos: usize) -> (r: Result<(StatusPacketToServer, usize), Error>)
        requires
            pos <= buf@.len(),
        ensures
            ({
                let p = parse_status_packet(buf@.skip(pos as int));
                match p {
                    Ok(v) => r matches Ok(x) && x.0 == v.0 && x.1 == v.1 && pos + v.1
                        <= buf@.len(),
                    Err(e) => r == Err::<(StatusPacketToServer, usize), Error>(error_of(e)),
                }
            }),
    {
        let _len: usize = buf.len();
        let (_size, n) = match get_packet_size(buf, pos) {
            Ok(v) => v,
            Err(e) => {
                return Err(e);
            },
        };
        proof {
            assert(buf@.skip(pos as int).skip(n as int) =~= buf@.skip(pos as int + n as int));
        }
        let (id, m) = match read_var_int(buf, pos + n) {
            Ok(v) => v,
            Err(e) => {
                return Err(e);
            },
        };
        proof {
            assert(buf@.skip(pos as int).skip(n as int + m as int) =~= buf@.skip(
                pos as int + n as int + m as int,
            ));
        }
        if id == 0 {
            Ok((StatusPacketToServer::Status, n + m))
        } else if id == 1 {
            match read_u64_be(buf, pos + n + m) {
                Ok((payload, k)) => Ok((StatusPacketToServer::Ping(payload), n + m + k)),
                Err(e) => Err(e),
            }
        } else {
            Err(Error::UnknownPacket(State::Status, id))
        }
    }
}

/// A whole Status-state inbound packet: envelope size, then an id that must
/// be 0 (status request, empty body) or 1 (ping, 8-byte big-endian payload).
/// The declared size is read but, as on the wire, not checked against the
/// body.
pub open spec fn parse_status_packet(bytes: Seq<u8>) -> Result<(StatusPacketToServer, nat), DecodeErr> {
    match parse_packet_size(bytes) {
        Err(e) => Err(e),
        Ok((_size, n)) => match parse_var_int(bytes.skip(n as int)) {
            Err(e) => Err(e),
            Ok((id, m)) => if id == 0 {
                Ok((StatusPacketToServer::Status, (n + m) as nat))
            } else if id == 1 {
                match parse_u64_be(bytes.skip((n + m) as int)) {
                    Err(e) => Err(e),
                    Ok((payload, k)) => Ok((StatusPacketToServer::Ping(payload), (n + m + k) as nat)),
                }
            } else {
                Err(DecodeErr::UnknownPacket(State::Status, id as u64))
            },
        },
    }
}

} // verus!
