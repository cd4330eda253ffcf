use mcping::packet::to_client::status::{Status, StatusData};

#[test]
fn status_data_has_fixed_version_and_bounded_players() {
    let data = StatusData::new(String::from("A Minecraft Server"));
    assert_eq!(data.version.name, "1.19.3");
    assert_eq!(data.version.protocol, 761);
    assert_eq!(data.players.max, 10);
    assert!(data.players.online <= 10);
    assert!(data.players.sample.is_empty());
    assert_eq!(data.description.text, "A Minecraft Server");
    assert!(data.favicon.is_none());
    assert!(!data.enforces_secure_chat);
}

#[test]
fn status_wraps_the_serialized_payload_verbatim() {
    let status = Status::new(String::from("{\"players\":{\"max\":10}}"));
    assert_eq!(status.status_data, "{\"players\":{\"max\":10}}");
}
