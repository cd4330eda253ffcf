//! The error taxonomy of the protocol core, and the ghost-level decode
//! failure classification that the parsing specifications use.

use crate::connection::State;
use crate::packet::to_server::PacketToServer;
use vstd::prelude::*;

verus! {

use vstd::string::StringExecFns;

/// Everything that can go wrong on one connection.
///
/// `NoPacketToReceive` is not a failure: it means "nothing to decode this
/// tick" and only drives the scheduler's skip counting. `ConnectionAborted`
/// is the expected, intentional termination after a Pong was sent.
#[derive(Debug, PartialEq)]
pub enum Error {
    /// Underlying transport failed, or the stream broke mid-packet.
    IO,
    /// Clean end of stream before a packet started; retry next tick.
    NoPacketToReceive,
    /// A VarInt ran past its 5-byte limit.
    VarIntTooBig,
    /// Intentional close, with the reason.
    ConnectionAborted(&'static str),
    /// The skipped-tick budget is used up.
    TimedOut,
    /// A structurally valid message arrived on the wrong dispatch path:
    /// what was decoded, and the name of what was expected.
    UnexpectedPacket(PacketToServer, &'static str),
    /// The packet id has no meaning in the current state.
    UnknownPacket(State, u64),
    /// The handshake's next-state field was neither 1 nor 2.
    UnknownNextState(u64),
}

/// How a decode attempt failed, at the specification level.
#[derive(Debug, Clone, Copy, PartialEq, Eq, Structural)]
pub enum DecodeErr {
    /// The input ran out mid-packet.
    Truncated,
    /// The input ran out before the envelope's size field was complete.
    NoPacket,
    /// A VarInt ran past its 5-byte limit.
    VarIntTooBig,
    /// A length-prefixed string held invalid UTF-8.
    BadUtf8,
    /// The packet id has no meaning in the given state.
    UnknownPacket(State, u64),
    /// The handshake's next-state field was neither 1 nor 2.
    UnknownNextState(u64),
}

/// The `Error` a decode routine reports for each specification-level failure.
pub open spec fn error_of(e: DecodeErr) -> Error {
    match e {
        DecodeErr::Truncated => Error::IO,
        DecodeErr::NoPacket => Error::NoPacketToReceive,
        DecodeErr::VarIntTooBig => Error::VarIntTooBig,
        DecodeErr::BadUtf8 => Error::IO,
        DecodeErr::UnknownPacket(state, id) => Error::UnknownPacket(state, id),
        DecodeErr::UnknownNextState(value) => Error::UnknownNextState(value),
    }
}

/// One decimal digit as a character.
pub open spec fn digit_char(d: nat) -> char {
    if d == 0 {
        '0'
    } else if d == 1 {
        '1'
    } else if d == 2 {
        '2'
    } else if d == 3 {
        '3'
    } else if d == 4 {
        '4'
    } else if d == 5 {
        '5'
    } else if d == 6 {
        '6'
    } else if d == 7 {
        '7'
    } else if d == 8 {
        '8'
    } else {
        '9'
    }
}

/// The decimal rendering of `v`, most significant digit first.
pub open spec fn dec_digits(v: nat) -> Seq<char>
    decreases v,
{
    if v < 10 {
        seq![digit_char(v)]
    } else {
        dec_digits(v / 10) + seq![digit_char(v % 10)]
    }
}

fn digit_str(d: u64) -> (r: &'static str)
    requires
        d < 10,
    ensures
        r@ == seq![digit_char(d as nat)],
{
    proof {
        reveal_strlit("0");
        reveal_strlit("1");
        reveal_strlit("2");
        reveal_strlit("3");
        reveal_strlit("4");
        reveal_strlit("5");
        reveal_strlit("6");
        reveal_strlit("7");
        reveal_strlit("8");
        reveal_strlit("9");
    }
    let r = match d {
        0 => "0",
        1 => "1",
        2 => "2",
        3 => "3",
        4 => "4",
        5 => "5",
        6 => "6",
        7 => "7",
        8 => "8",
        _ => "9",
    };
    proof {
        assert(r@ =~= seq![digit_char(d as nat)]);
    }
    r
}

/// Appends the decimal rendering of `v` to `out`.
fn append_decimal(out: &mut String, v: u64)
    ensures
        final(out)@ == old(out)@ + dec_digits(v as nat),
    decreases v,
{
    if v >= 10 {
        assert(v / 10 < v) by (nonlinear_arith)
            requires
                v >= 10,
        ;
        append_decimal(out, v / 10);
    }
    out.append(digit_str(v % 10));
    proof {
        assert(final(out)@ =~= old(out)@ + dec_digits(v as nat));
    }
}

/// The operator-facing text of each error, at the specification level.
pub open spec fn spec_message(e: Error) -> Seq<char> {
    match e {
        Error::IO => "IO Error!"@,
        Error::VarIntTooBig => "VarInt is too big!"@,
        Error::ConnectionAborted(reason) => "Connection Aborted! "@ + reason@,
        Error::TimedOut => "TimedOut!"@,
        Error::UnexpectedPacket(got, expected) => "Unexpected Packet! Expected "@
            + got.spec_name() + " got "@ + expected@,
        Error::NoPacketToReceive => "No packet to receive!"@,
        Error::UnknownPacket(state, id) => "Unknown packet with id "@ + dec_digits(id as nat)
            + " in state "@ + state.spec_name() + "!"@,
        Error::UnknownNextState(id) => "Unknown next state id: "@ + dec_digits(id as nat) + "!"@,
    }
}

impl Error {
    /// The operator-facing text of this error.
    pub fn message(&self) -> (r: String)
        ensures
            r@ == spec_message(*self),
    {
        match self {
            Error::IO => String::from_str("IO Error!"),
            Error::VarIntTooBig => String::from_str("VarInt is too big!"),
            Error::ConnectionAborted(reason) => {
                let mut out = String::from_str("Connection Aborted! ");
                out.append(reason);
                out
            },
            Error::TimedOut => String::from_str("TimedOut!"),
            Error::UnexpectedPacket(got, expected) => {
                let mut out = String::from_str("Unexpected Packet! Expected ");
                out.append(got.name());
                out.append(" got ");
                out.append(expected);
                out
            },
            Error::NoPacketToReceive => String::from_str("No packet to receive!"),
            Error::UnknownPacket(state, id) => {
                let mut out = String::from_str("Unknown packet with id ");
                append_decimal(&mut out, *id);
                out.append(" in state ");
                out.append(state.name());
                out.append("!");
                out
            },
            Error::UnknownNextState(id) => {
                let mut out = String::from_str("Unknown next state id: ");
                append_decimal(&mut out, *id);
                out.append("!");
                out
            },
        }
    }
}

} // verus!
