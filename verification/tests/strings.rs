use mcping::error::Error;
use mcping::read::{read_string, read_u16_be, read_u64_be};
use mcping::write::{write_string, write_u64_be};

#[test]
fn string_round_trip_ascii() {
    let mut bytes = Vec::new();
    let written = write_string(&mut bytes, "hello world");
    assert_eq!(written, bytes.len());
    let (decoded, consumed) = read_string(&bytes, 0).unwrap();
    assert_eq!(decoded, "hello world");
    assert_eq!(consumed, bytes.len());
}

#[test]
fn string_round_trip_empty() {
    let mut bytes = Vec::new();
    write_string(&mut bytes, "");
    assert_eq!(bytes, vec![0x00]);
    let (decoded, consumed) = read_string(&bytes, 0).unwrap();
    assert_eq!(decoded, "");
    assert_eq!(consumed, 1);
}

#[test]
fn string_round_trip_multibyte() {
    let text = "\u{00a7}cH\u{00e9}llo \u{2603}!";
    let mut bytes = Vec::new();
    write_string(&mut bytes, text);
    let (decoded, consumed) = read_string(&bytes, 0).unwrap();
    assert_eq!(decoded, text);
    assert_eq!(consumed, bytes.len());
}

#[test]
fn string_length_prefix_is_byte_length() {
    let mut bytes = Vec::new();
    write_string(&mut bytes, "ab");
    assert_eq!(bytes, vec![0x02, b'a', b'b']);
}

#[test]
fn string_with_invalid_utf8_fails() {
    let bytes = vec![0x02u8, 0xff, 0xfe];
    assert_eq!(read_string(&bytes, 0), Err(Error::IO));
}

#[test]
fn string_truncated_payload_fails() {
    let bytes = vec![0x05u8, b'a', b'b'];
    assert_eq!(read_string(&bytes, 0), Err(Error::IO));
}

#[test]
fn u16_big_endian_round_trip() {
    let bytes = vec![0x63u8, 0xdd];
    let (value, consumed) = read_u16_be(&bytes, 0).unwrap();
    assert_eq!(value, 25565);
    assert_eq!(consumed, 2);
}

#[test]
fn u16_truncated_fails() {
    assert_eq!(read_u16_be(&[0x12], 0), Err(Error::IO));
}

#[test]
fn u64_big_endian_round_trip() {
    for v in [0u64, 1, 12345, u64::MAX, 0x0123456789abcdef] {
        let mut bytes = Vec::new();
        write_u64_be(&mut bytes, v);
        assert_eq!(bytes, v.to_be_bytes().to_vec());
        let (decoded, consumed) = read_u64_be(&bytes, 0).unwrap();
        assert_eq!(decoded, v);
        assert_eq!(consumed, 8);
    }
}

#[test]
fn u64_truncated_fails() {
    assert_eq!(read_u64_be(&[0, 0, 0, 0, 0, 0, 0], 0), Err(Error::IO));
}
