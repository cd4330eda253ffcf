//! The protocol's message set: inbound requests, outbound responses, and
//! their wire-level encode/decode routines.

pub mod to_client;
pub mod to_server;
