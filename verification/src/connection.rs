//! One connection's protocol state machine.
//!
//! A `Connection` owns no socket: the surrounding program feeds inbound
//! bytes in with [`Connection::feed`], drives one protocol step per tick
//! with [`Connection::tick`], and drains the bytes to write back out with
//! [`Connection::take_outbound`].

use crate::error::{error_of, Error};
use crate::packet::to_client::status::{
    pong_bytes, status_response_bytes, Status, StatusPacketToClient,
};
use crate::packet::to_client::PacketToClient;
use crate::packet::to_server::handshake::{parse_handshake_packet, HandshakePacketToServer};
use crate::packet::to_server::status::{parse_status_packet, StatusPacketToServer};
use crate::packet::to_server::PacketToServer;
use crate::write::{lemma_be_bytes_len, lemma_encode_var_int_len, lemma_var_int_len_le, pow128};
use vstd::prelude::*;

verus! {

use vstd::string::StringExecFns;
use vstd::utf8::encode_utf8;

/// The protocol phase a connection is in. Transitions are one-directional:
/// `Handshake` moves to `Status` or `Login`, and no state is ever revisited.
/// `Login` is reserved and has no behaviour defined here.
#[derive(Debug, Clone, Copy, PartialEq, Eq, Structural)]
pub enum State {
    Handshake,
    Status,
    Login,
}

impl State {
    /// Human-readable name of the state, at the specification level.
    pub open spec fn spec_name(&self) -> Seq<char> {
        match self {
            State::Handshake => "Handshake"@,
            State::Status => "Status"@,
            State::Login => "Login"@,
        }
    }

    /// Human-readable name of the state.
    pub fn name(&self) -> (r: &'static str)
        ensures
            r@ == self.spec_name(),
    {
        match self {
            State::Handshake => "Handshake",
            State::Status => "Status",
            State::Login => "Login",
        }
    }
}

/// How many consecutive ticks without progress a connection survives:
/// five seconds' worth at the 20 Hz tick rate.
pub const MAX_TICKS_SKIPPED: u32 = 20 * 5;

/// The reason a connection gives when it closes itself after a pong.
pub const CLOSE_AFTER_PING: &'static str =
    "Closing connection after Ping and Status packets are sent!";

/// One accepted connection: its protocol state, its skipped-tick budget,
/// and the bytes that have arrived but are not yet decoded, or are produced
/// but not yet written.
pub struct Connection {
    state: State,
    skipped_ticks: u32,
    inbound: Vec<u8>,
    outbound: Vec<u8>,
}

/// The mathematical image of a connection.
pub struct ConnectionV {
    pub state: State,
    pub skipped_ticks: u32,
    pub inbound: Seq<u8>,
    pub outbound: Seq<u8>,
}

impl View for Connection {
    type V = ConnectionV;

    closed spec fn view(&self) -> ConnectionV {
        ConnectionV {
            state: self.state,
            skipped_ticks: self.skipped_ticks,
            inbound: self.inbound@,
            outbound: self.outbound@,
        }
    }
}

/// One Handshake-state step, at the specification level: the connection
/// after the step and the step's immediate result. On success the packet is
/// consumed and the connection silently moves to the requested state; on
/// failure nothing changes.
pub open spec fn spec_handshake_step(pre: ConnectionV) -> (ConnectionV, Result<(), Error>) {
    match parse_handshake_packet(pre.inbound) {
        Ok((handshake, n)) => (
            ConnectionV {
                state: handshake.next_state,
                skipped_ticks: pre.skipped_ticks,
                inbound: pre.inbound.skip(n as int),
                outbound: pre.outbound,
            },
            Ok(()),
        ),
        Err(e) => (pre, Err(error_of(e))),
    }
}

/// One Status-state step, at the specification level. A status request is
/// answered with the status response built from `json` and the connection
/// stays open; a ping is answered with a pong and the step reports
/// `ConnectionAborted`, the expected end of the exchange. On a decode
/// failure nothing changes.
pub open spec fn spec_status_step(pre: ConnectionV, json: Seq<char>) -> (
    ConnectionV,
    Result<(), Error>,
) {
    match parse_status_packet(pre.inbound) {
        Ok((packet, n)) => {
            let inbound = pre.inbound.skip(n as int);
            match packet {
                StatusPacketToServer::Status => (
                    ConnectionV {
                        state: pre.state,
                        skipped_ticks: pre.skipped_ticks,
                        inbound,
                        outbound: pre.outbound + status_response_bytes(json),
                    },
                    Ok(()),
                ),
                StatusPacketToServer::Ping(payload) => (
                    ConnectionV {
                        state: pre.state,
                        skipped_ticks: pre.skipped_ticks,
                        inbound,
                        outbound: pre.outbound + pong_bytes(payload),
                    },
                    Err(Error::ConnectionAborted(CLOSE_AFTER_PING)),
                ),
            }
        },
        Err(e) => (pre, Err(error_of(e))),
    }
}

/// The error a tick reports when its step failed: the step's own error,
/// unless the skipped-tick budget has just run out, which escalates to
/// `TimedOut`.
pub open spec fn spec_tick_error(skipped_before: u32, step_error: Error) -> Error {
    if skipped_before + 1 >= MAX_TICKS_SKIPPED {
        Error::TimedOut
    } else {
        step_error
    }
}

/// One whole tick, at the specification level: the step for the current
/// state, then the skip accounting. Success resets the counter; failure
/// spends one tick of the budget and may escalate to `TimedOut`.
pub open spec fn spec_tick(pre: ConnectionV, json: Seq<char>) -> (ConnectionV, Result<(), Error>) {
    let (post, step) = if pre.state is Handshake {
        spec_handshake_step(pre)
    } else {
        spec_status_step(pre, json)
    };
    match step {
        Ok(_) => (ConnectionV { skipped_ticks: 0u32, ..post }, Ok(())),
        Err(e) => (
            ConnectionV { skipped_ticks: (pre.skipped_ticks + 1) as u32, ..post },
            Err(spec_tick_error(pre.skipped_ticks, e)),
        ),
    }
}

impl Connection {
    /// A fresh connection: Handshake state, a full skip budget, empty
    /// buffers.
    pub fn new() -> (r: Connection)
        ensures
            r@.state is Handshake,
            r@.skipped_ticks == 0,
            r@.inbound == Seq::<u8>::empty(),
            r@.outbound == Seq::<u8>::empty(),
    {
        Connection {
            state: State::Handshake,
            skipped_ticks: 0,
            inbound: Vec::new(),
            outbound: Vec::new(),
        }
    }

    /// The connection's current protocol state.
    pub fn state(&self) -> (s: State)
        ensures
            s == self@.state,
    {
        self.state
    }

    /// How many consecutive ticks have passed without progress.
    pub fn skipped_ticks(&self) -> (n: u32)
        ensures
            n == self@.skipped_ticks,
    {
        self.skipped_ticks
    }

    /// Hands the connection bytes that arrived on its stream.
    pub fn feed(&mut self, bytes: &[u8])
        ensures
            final(self)@.state == old(self)@.state,
            final(self)@.skipped_ticks == old(self)@.skipped_ticks,
            final(self)@.inbound == old(self)@.inbound + bytes@,
            final(self)@.outbound == old(self)@.outbound,
    {
        self.inbound.extend_from_slice(bytes);
    }

    /// Takes every byte the connection wants written to its stream.
    pub fn take_outbound(&mut self) -> (out: Vec<u8>)
        ensures
            out@ == old(self)@.outbound,
            final(self)@.state == old(self)@.state,
            final(self)@.skipped_ticks == old(self)@.skipped_ticks,
            final(self)@.inbound == old(self)@.inbound,
            final(self)@.outbound == Seq::<u8>::empty(),
    {
        let out = self.outbound.split_off(0);
        proof {
            assert(out@ =~= old(self)@.outbound);
            assert(self.outbound@ =~= Seq::<u8>::empty());
        }
        out
    }

    /// Decodes the next inbound message according to the current state,
    /// consuming its bytes; on failure the buffer is left untouched.
    pub fn receive(&mut self) -> (r: Result<PacketToServer, Error>)
        requires
            old(self)@.state !is Login,
        ensures
            final(self)@.state == old(self)@.state,
            final(self)@.skipped_ticks == old(self)@.skipped_ticks,
            final(self)@.outbound == old(self)@.outbound,
            old(self)@.state is Handshake ==> match parse_handshake_packet(old(self)@.inbound) {
                Ok(v) => r matches Ok(PacketToServer::Handshake(p)) && p@ == v.0 && final(self)@.inbound == old(self)@.inbound.skip(v.1 as int),
                Err(e) => r == Err::<PacketToServer, Error>(error_of(e)) && final(self)@.inbound
                    == old(self)@.inbound,
            },
            old(self)@.state is Status ==> match parse_status_packet(old(self)@.inbound) {
                Ok(v) => r == Ok::<PacketToServer, Error>(PacketToServer::Status(v.0)) && final(self)@.inbound == old(self)@.inbound.skip(v.1 as int),
                Err(e) => r == Err::<PacketToServer, Error>(error_of(e)) && final(self)@.inbound
                    == old(self)@.inbound,
            },
    {
        proof {
            assert(self.inbound@.skip(0) =~= self.inbound@);
        }
        match self.state {
            State::Handshake => {
                match HandshakePacketToServer::deserialize(self.inbound.as_slice(), 0) {
                    Ok((packet, n)) => {
                        let rest = self.inbound.split_off(n);
                        self.inbound = rest;
                        proof {
                            assert(self.inbound@ =~= old(self)@.inbound.skip(n as int));
                        }
                        Ok(PacketToServer::Handshake(packet))
                    },
                    Err(e) => Err(e),
                }
            },
            State::Status => {
                match StatusPacketToServer::deserialize(self.inbound.as_slice(), 0) {
                    Ok((packet, n)) => {
                        let rest = self.inbound.split_off(n);
                        self.inbound = rest;
                        proof {
                            assert(self.inbound@ =~= old(self)@.inbound.skip(n as int));
                        }
                        Ok(PacketToServer::Status(packet))
                    },
                    Err(e) => Err(e),
                }
            },
            State::Login => vstd::pervasive::unreached(),
        }
    }

    /// One Handshake-state step: decode the handshake and silently move to
    /// the state it asks for. Emits nothing. Called in Status state it
    /// decodes a status message and rejects it as unexpected.
    pub fn hadle_handshake(&mut self) -> (r: Result<(), Error>)
        requires
            old(self)@.state !is Login,
        ensures
            final(self)@.skipped_ticks == old(self)@.skipped_ticks,
            final(self)@.outbound == old(self)@.outbound,
            old(self)@.state is Handshake ==> ({
                let (post, result) = spec_handshake_step(old(self)@);
                final(self)@ == post && r == result
            }),
            old(self)@.state is Status ==> match parse_status_packet(old(self)@.inbound) {
                Ok(v) => r matches Err(err) && err matches Error::UnexpectedPacket(got, expected)
                    && got == PacketToServer::Status(v.0) && expected@
                    == "PacketToServer::Handshake"@ && final(self)@.inbound == old(self)@.inbound.skip(v.1 as int) && final(self)@.state == old(self)@.state,
                Err(e) => r == Err::<(), Error>(error_of(e)) && final(self)@ == old(self)@,
            },
    {
        let packet = match self.receive() {
            Ok(p) => p,
            Err(e) => {
                return Err(e);
            },
        };
        let handshake_packet = match packet {
            PacketToServer::Handshake(handshake) => handshake,
            packet => {
                return Err(Error::UnexpectedPacket(packet, "PacketToServer::Handshake"));
            },
        };
        self.state = handshake_packet.next_state;
        Ok(())
    }

    /// Appends the full envelope of `packet` to the connection's outbound
    /// buffer.
    pub fn send(&mut self, packet: PacketToClient) -> (r: Result<(), Error>)
        requires
            packet.spec_size_of() + 10 <= usize::MAX,
        ensures
            r is Ok,
            final(self)@.state == old(self)@.state,
            final(self)@.skipped_ticks == old(self)@.skipped_ticks,
            final(self)@.inbound == old(self)@.inbound,
            final(self)@.outbound == old(self)@.outbound + packet.spec_envelope_bytes(),
    {
        match packet.serialize(&mut self.outbound) {
            Ok(_) => Ok(()),
            Err(e) => Err(e),
        }
    }

    /// One Status-state step: decode one inbound message; answer a status
    /// request with the status response built from `status_json` and stay
    /// open; answer a ping with a pong and report `ConnectionAborted`, the
    /// expected end of the exchange. Called in Handshake state it decodes a
    /// handshake and rejects it as unexpected.
    pub fn handle_status(&mut self, status_json: &str) -> (r: Result<(), Error>)
        requires
            old(self)@.state !is Login,
            encode_utf8(status_json@).len() + 32 <= usize::MAX,
        ensures
            final(self)@.skipped_ticks == old(self)@.skipped_ticks,
            final(self)@.state == old(self)@.state,
            old(self)@.state is Status ==> ({
                let (post, result) = spec_status_step(old(self)@, status_json@);
                final(self)@ == post && r == result
            }),
            old(self)@.state is Handshake ==> match parse_handshake_packet(old(self)@.inbound) {
                Ok(v) => r matches Err(err) && err matches Error::UnexpectedPacket(got, expected)
                    && got matches PacketToServer::Handshake(hp) && hp@ == v.0 && expected@
                    == "PacketToServer::Status"@ && final(self)@.inbound == old(self)@.inbound.skip(v.1 as int) && final(self)@.outbound == old(self)@.outbound,
                Err(e) => r == Err::<(), Error>(error_of(e)) && final(self)@ == old(self)@,
            },
    {
        let packet = match self.receive() {
            Ok(p) => p,
            Err(e) => {
                return Err(e);
            },
        };
        let status_packet = match packet {
            PacketToServer::Status(status_packet) => status_packet,
            packet => {
                return Err(Error::UnexpectedPacket(packet, "PacketToServer::Status"));
            },
        };
        let (packet_to_send, should_close_connection) = match status_packet {
            StatusPacketToServer::Ping(time) => (
                PacketToClient::Status(StatusPacketToClient::Ping(time)),
                true,
            ),
            StatusPacketToServer::Status => (
                PacketToClient::Status(
                    StatusPacketToClient::Status(Status::new(String::from_str(status_json))),
                ),
                false,
            ),
        };
        proof {
            match &packet_to_send {
                PacketToClient::Status(StatusPacketToClient::Status(s)) => {
                    let blen = encode_utf8(s.status_data@).len();
                    assert(pow128(10) > u64::MAX) by {
                        reveal_with_fuel(pow128, 11);
                    }
                    lemma_var_int_len_le(blen, 10);
                    lemma_encode_var_int_len(blen);
                },
                PacketToClient::Status(StatusPacketToClient::Ping(time)) => {
                    lemma_be_bytes_len(time as nat, 8);
                },
            }
            assert(packet_to_send.spec_envelope_bytes() =~= match status_packet {
                StatusPacketToServer::Status => status_response_bytes(status_json@),
                StatusPacketToServer::Ping(time) => pong_bytes(time),
            });
        }
        match self.send(packet_to_send) {
            Ok(_) => {},
            Err(e) => {
                return Err(e);
            },
        }
        if should_close_connection {
            Err(Error::ConnectionAborted(CLOSE_AFTER_PING))
        } else {
            Ok(())
        }
    }

    /// One tick: attempt one protocol step for the current state. Success
    /// refills the skip budget; any failure spends one tick of it, and the
    /// failure that empties it is reported as `TimedOut`.
    pub fn tick(&mut self, status_json: &str) -> (r: Result<(), Error>)
        requires
            old(self)@.state !is Login,
            old(self)@.skipped_ticks < u32::MAX,
            encode_utf8(status_json@).len() + 32 <= usize::MAX,
        ensures
            (final(self)@, r) == spec_tick(old(self)@, status_json@),
    {
        let result = match self.state {
            State::Handshake => self.hadle_handshake(),
            State::Status => self.handle_status(status_json),
            State::Login => vstd::pervasive::unreached(),
        };
        match result {
            Ok(value) => {
                self.skipped_ticks = 0;
                Ok(value)
            },
            Err(e) => {
                self.skipped_ticks = self.skipped_ticks + 1;
                if self.skipped_ticks >= MAX_TICKS_SKIPPED {
                    Err(Error::TimedOut)
                } else {
                    Err(e)
                }
            },
        }
    }
}

} // verus!
