//! A sans-I/O core for a binary, length-prefixed, state-dependent packet
//! protocol: a variable-length integer codec, packet framing, per-connection
//! protocol state machine, and the decisions of a tick-driven scheduler.
//!
//! Everything here works on plain byte buffers; the surrounding program owns
//! the sockets, feeds inbound bytes in, and writes the produced bytes out.

pub mod connection;
pub mod error;
pub mod laws;
pub mod packet;
pub mod read;
pub mod scheduler;
pub mod write;
