//! The Handshake-state inbound message.

use crate::connection::State;
use crate::error::{error_of, DecodeErr, Error};
use crate::read::{
    get_packet_size, parse_packet_size, parse_string, parse_u16_be, parse_var_int, read_string,
    read_u16_be, read_var_int,
};
use vstd::prelude::*;

verus! {

/// The handshake request: protocol version, the address and port the client
/// dialled, and which state the connection moves to next.
#[derive(Debug, PartialEq)]
pub struct HandshakePacketToServer {
    pub protocol_version: u64,
    pub server_address: String,
    pub server_port: u16,
    pub next_state: State,
}

/// The mathematical image of a handshake packet: the address as a character
/// sequence.
pub struct HandshakeFields {
    pub protocol_version: u64,
    pub server_address: Seq<char>,
    pub server_port: u16,
    pub next_state: State,
}

impl View for HandshakePacketToServer {
    type V = HandshakeFields;

    open spec fn view(&self) -> HandshakeFields {
        HandshakeFields {
            protocol_version: self.protocol_version,
            server_address: self.server_address@,
            server_port: self.server_port,
            next_state: self.next_state,
        }
    }
}

/// Parses the handshake's next-state field: only 1 (Status) and 2 (Login)
/// are legal.
pub open spec fn parse_next_state(bytes: Seq<u8>) -> Result<(State, nat), DecodeErr> {
    match parse_var_int(bytes) {
        Err(e) => Err(e),
        Ok((value, n)) => if value == 1 {
            Ok((State::Status, n))
        } else if value == 2 {
            Ok((State::Login, n))
        } else {
            Err(DecodeErr::UnknownNextState(value as u64))
        },
    }
}

fn read_next_state(buf: &[u8], pos: usize) -> (r: Result<(State, usize), Error>)
    requires
        pos <= buf@.len(),
    ensures
        ({
            let p = parse_next_state(buf@.skip(pos as int));
            match p {
                Ok(v) => r matches Ok(x) && x.0 == v.0 && x.1 == v.1 && pos + v.1 <= buf@.len(),
                Err(e) => r == Err::<(State, usize), Error>(error_of(e)),
            }
        }),
{
    let (value, n) = match read_var_int(buf, pos) {
        Ok(v) => v,
        Err(e) => {
            return Err(e);
        },
    };
    match value {
        1 => Ok((State::Status, n)),
        2 => Ok((State::Login, n)),
        _ => Err(Error::UnknownNextState(value)),
    }
}

/// Parses the four handshake fields, in wire order.
pub open spec fn parse_handshake_fields(bytes: Seq<u8>) -> Result<(HandshakeFields, nat), DecodeErr> {
    match parse_var_int(bytes) {
        Err(e) => Err(e),
        Ok((pv, a)) => match parse_string(bytes.skip(a as int)) {
            Err(e) => Err(e),
            Ok((addr, b)) => match parse_u16_be(bytes.skip((a + b) as int)) {
                Err(e) => Err(e),
                Ok((port, c)) => match parse_next_state(bytes.skip((a + b + c) as int)) {
                    Err(e) => Err(e),
                    Ok((st, d)) => Ok(
                        (
                            HandshakeFields {
                                protocol_version: pv as u64,
                                server_address: addr,
                                server_port: port,
                                next_state: st,
                            },
                            (a + b + c + d) as nat,
                        ),
                    ),
                },
            },
        },
    }
}

/// A whole handshake packet: envelope size, id 0, then the fields. The
/// declared size is read but, as on the wire, not checked against the body.
pub open spec fn parse_handshake_packet(bytes: Seq<u8>) -> Result<(HandshakeFields, nat), DecodeErr> {
    match parse_packet_size(bytes) {
        Err(e) => Err(e),
        Ok((_size, n)) => match parse_var_int(bytes.skip(n as int)) {
            Err(e) => Err(e),
            Ok((id, m)) => if id != 0 {
                Err(DecodeErr::UnknownPacket(State::Handshake, id as u64))
            } else {
                match parse_handshake_fields(bytes.skip((n + m) as int)) {
                    Err(e) => Err(e),
                    Ok((h, k)) => Ok((h, (n + m + k) as nat)),
                }
            },
        },
    }
}

impl HandshakePacketToServer {
    /// Reads the handshake's fields at `pos` (the envelope already
    /// stripped): the packet and the bytes consumed.
    pub fn new(buf: &[u8], pos: usize) -> (r: Result<(HandshakePacketToServer, usize), Error>)
        requires
            pos <= buf@.len(),
        ensures
            ({
                let p = parse_handshake_fields(buf@.skip(pos as int));
                match p {
                    Ok(v) => r matches Ok(x) && x.0@ == v.0 && x.1 == v.1 && pos + v.1
                        <= buf@.len(),
                    Err(e) => r == Err::<(HandshakePacketToServer, usize), Error>(error_of(e)),
                }
            }),
    {
        let _len: usize = buf.len();
        let (pv, a) = match read_var_int(buf, pos) {
            Ok(v) => v,
            Err(e) => {
                return Err(e);
            },
        };
        proof {
            assert(buf@.skip(pos as int).skip(a as int) =~= buf@.skip(pos as int + a as int));
        }
        let (addr, b) = match read_string(buf, pos + a) {
            Ok(v) => v,
            Err(e) => {
                return Err(e);
            },
        };
        proof {
            assert(buf@.skip(pos as int).skip(a as int + b as int) =~= buf@.skip(
                pos as int + a as int + b as int,
            ));
        }
        let (port, c) = match read_u16_be(buf, pos + a + b) {
            Ok(v) => v,
            Err(e) => {
                return Err(e);
            },
        };
        proof {
            assert(buf@.skip(pos as int).skip(a as int + b as int + c as int) =~= buf@.skip(
                pos as int + a as int + b as int + c as int,
            ));
        }
        let (st, d) = match read_next_state(buf, pos + a + b + c) {
            Ok(v) => v,
            Err(e) => {
                return Err(e);
            },
        };
        Ok(
            (
                HandshakePacketToServer {
                    protocol_version: pv,
                    server_address: addr,
                    server_port: port,
                    next_state: st,
                },
                a + b + c + d,
            ),
        )
    }

    /// Decodes one whole handshake packet at `pos`: envelope, id dispatch,
    /// fields.
    pub fn deserialize(buf: &[u8], pos: usize) -> (r: Result<
        (HandshakePacketToServer, usize),
        Error,
    >)
        requires
            pos <= buf@.len(),
        ensures
            ({
                let p = parse_handshake_packet(buf@.skip(pos as int));
                match p {
                    Ok(v) => r matches Ok(x) && x.0@ == v.0 && x.1 == v.1 && pos + v.1
                        <= buf@.len(),
                    Err(e) => r == Err::<(HandshakePacketToServer, usize), Error>(error_of(e)),
                }
            }),
    {
        let _len: usize = buf.len();
        let (_size, n) = match get_packet_size(buf, pos) {
            Ok(v) => v,
            Err(e) => {
                return Err(e);
            },
        };
        proof {
            assert(buf@.skip(pos as int).skip(n as int) =~= buf@.skip(pos as int + n as int));
        }
        let (id, m) = match read_var_int(buf, pos + n) {
            Ok(v) => v,
            Err(e) => {
                return Err(e);
            },
        };
        proof {
            assert(buf@.skip(pos as int).skip(n as int + m as int) =~= buf@.skip(
                pos as int + n as int + m as int,
            ));
        }
        if id != 0 {
            return Err(Error::UnknownPacket(State::Handshake, id));
        }
        match HandshakePacketToServer::new(buf, pos + n + m) {
            Ok((packet, k)) => Ok((packet, n + m + k)),
            Err(e) => Err(e),
        }
    }

    /// The wire id of the handshake request.
    pub fn get_id(&self) -> (id: u64)
        ensures
            id == 0,
    {
        0
    }
}

} // verus!
