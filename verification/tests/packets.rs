use mcping::connection::State;
use mcping::error::Error;
use mcping::packet::to_client::status::{Status, StatusPacketToClient};
use mcping::packet::to_client::PacketToClient;
use mcping::packet::to_server::handshake::HandshakePacketToServer;
use mcping::packet::to_server::status::StatusPacketToServer;
use mcping::write::{write_string, write_var_int};

fn handshake_bytes(protocol_version: u64, address: &str, port: u16, next_state: u64) -> Vec<u8> {
    let mut payload = Vec::new();
    write_var_int(&mut payload, protocol_version);
    write_string(&mut payload, address);
    payload.extend_from_slice(&port.to_be_bytes());
    write_var_int(&mut payload, next_state);
    let mut out = Vec::new();
    write_var_int(&mut out, 1 + payload.len() as u64);
    write_var_int(&mut out, 0);
    out.extend_from_slice(&payload);
    out
}

fn ping_bytes(payload: u64) -> Vec<u8> {
    let mut out = vec![0x09u8, 0x01];
    out.extend_from_slice(&payload.to_be_bytes());
    out
}

#[test]
fn handshake_decodes_all_fields() {
    let bytes = handshake_bytes(761, "localhost", 25565, 1);
    let (packet, consumed) = HandshakePacketToServer::deserialize(&bytes, 0).unwrap();
    assert_eq!(consumed, bytes.len());
    assert_eq!(packet.protocol_version, 761);
    assert_eq!(packet.server_address, "localhost");
    assert_eq!(packet.server_port, 25565);
    assert_eq!(packet.next_state, State::Status);
}

#[test]
fn handshake_next_state_two_is_login() {
    let bytes = handshake_bytes(761, "example.net", 25565, 2);
    let (packet, _) = HandshakePacketToServer::deserialize(&bytes, 0).unwrap();
    assert_eq!(packet.next_state, State::Login);
}

#[test]
fn handshake_bad_next_state_is_rejected() {
    let bytes = handshake_bytes(761, "localhost", 25565, 7);
    assert_eq!(
        HandshakePacketToServer::deserialize(&bytes, 0),
        Err(Error::UnknownNextState(7))
    );
}

#[test]
fn handshake_unknown_id_is_rejected() {
    let bytes = vec![0x01u8, 0x09];
    assert_eq!(
        HandshakePacketToServer::deserialize(&bytes, 0),
        Err(Error::UnknownPacket(State::Handshake, 9))
    );
}

#[test]
fn handshake_empty_buffer_is_no_packet() {
    assert_eq!(
        HandshakePacketToServer::deserialize(&[], 0),
        Err(Error::NoPacketToReceive)
    );
}

#[test]
fn status_request_decodes() {
    let bytes = vec![0x01u8, 0x00];
    let (packet, consumed) = StatusPacketToServer::deserialize(&bytes, 0).unwrap();
    assert_eq!(packet, StatusPacketToServer::Status);
    assert_eq!(consumed, 2);
}

#[test]
fn ping_decodes_payload() {
    let bytes = ping_bytes(12345);
    let (packet, consumed) = StatusPacketToServer::deserialize(&bytes, 0).unwrap();
    assert_eq!(packet, StatusPacketToServer::Ping(12345));
    assert_eq!(consumed, bytes.len());
}

#[test]
fn status_state_unknown_id_is_rejected() {
    let bytes = vec![0x01u8, 0x02];
    assert_eq!(
        StatusPacketToServer::deserialize(&bytes, 0),
        Err(Error::UnknownPacket(State::Status, 2))
    );
}

#[test]
fn inbound_ids() {
    assert_eq!(StatusPacketToServer::Status.get_id(), 0);
    assert_eq!(StatusPacketToServer::Ping(5).get_id(), 1);
    let bytes = handshake_bytes(761, "h", 1, 1);
    let (packet, _) = HandshakePacketToServer::deserialize(&bytes, 0).unwrap();
    assert_eq!(packet.get_id(), 0);
}

#[test]
fn pong_serializes_to_known_bytes() {
    let packet = StatusPacketToClient::Ping(12345);
    assert_eq!(packet.get_id(), 1);
    assert_eq!(packet.size_of(), Ok(9));
    let mut out = Vec::new();
    let written = packet.serialize(&mut out).unwrap();
    assert_eq!(written, out.len());
    let mut expected = vec![0x09u8, 0x01];
    expected.extend_from_slice(&12345u64.to_be_bytes());
    assert_eq!(out, expected);
}

#[test]
fn status_response_serializes_to_known_bytes() {
    let packet = StatusPacketToClient::Status(Status::new(String::from("{}")));
    assert_eq!(packet.get_id(), 0);
    assert_eq!(packet.size_of(), Ok(4));
    let mut out = Vec::new();
    let written = packet.serialize(&mut out).unwrap();
    assert_eq!(written, out.len());
    assert_eq!(out, vec![0x04u8, 0x00, 0x02, b'{', b'}']);
}

#[test]
fn packet_to_client_serialize_dispatches() {
    let packet = PacketToClient::Status(StatusPacketToClient::Ping(7));
    let mut out = Vec::new();
    packet.serialize(&mut out).unwrap();
    let mut expected = vec![0x09u8, 0x01];
    expected.extend_from_slice(&7u64.to_be_bytes());
    assert_eq!(out, expected);
}

#[test]
fn names_match_display_texts() {
    assert_eq!(State::Handshake.name(), "Handshake");
    assert_eq!(State::Status.name(), "Status");
    assert_eq!(State::Login.name(), "Login");
    let packet = PacketToClient::Status(StatusPacketToClient::Ping(7));
    assert_eq!(packet.name(), "PacketToClient::Status");
}
