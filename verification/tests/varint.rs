use mcping::error::Error;
use mcping::read::{get_packet_size, read_var_int};
use mcping::write::{var_int_len, write_var_int};

fn encode(v: u64) -> Vec<u8> {
    let mut out = Vec::new();
    write_var_int(&mut out, v);
    out
}

#[test]
fn var_int_round_trip_small_values() {
    for v in [0u64, 1, 2, 127, 128, 129, 255, 300, 16383, 16384, 2097151] {
        let bytes = encode(v);
        assert_eq!(bytes.len(), var_int_len(v));
        let (decoded, consumed) = read_var_int(&bytes, 0).unwrap();
        assert_eq!(decoded, v);
        assert_eq!(consumed, bytes.len());
    }
}

#[test]
fn var_int_round_trip_32_bit_boundary() {
    for v in [65535u64, 65536, 2147483647, 4294967294, 4294967295] {
        let bytes = encode(v);
        assert_eq!(bytes.len(), var_int_len(v));
        let (decoded, consumed) = read_var_int(&bytes, 0).unwrap();
        assert_eq!(decoded, v);
        assert_eq!(consumed, bytes.len());
    }
}

#[test]
fn var_int_known_encodings() {
    assert_eq!(encode(0), vec![0x00]);
    assert_eq!(encode(1), vec![0x01]);
    assert_eq!(encode(127), vec![0x7f]);
    assert_eq!(encode(128), vec![0x80, 0x01]);
    assert_eq!(encode(300), vec![0xac, 0x02]);
    assert_eq!(encode(4294967295), vec![0xff, 0xff, 0xff, 0xff, 0x0f]);
}

#[test]
fn var_int_lengths() {
    assert_eq!(var_int_len(0), 1);
    assert_eq!(var_int_len(127), 1);
    assert_eq!(var_int_len(128), 2);
    assert_eq!(var_int_len(16383), 2);
    assert_eq!(var_int_len(16384), 3);
    assert_eq!(var_int_len(4294967295), 5);
    assert_eq!(var_int_len(u64::MAX), 10);
}

#[test]
fn var_int_too_big_on_six_continuation_bytes() {
    let bytes = vec![0x80u8, 0x80, 0x80, 0x80, 0x80, 0x80];
    assert_eq!(read_var_int(&bytes, 0), Err(Error::VarIntTooBig));
}

#[test]
fn var_int_too_big_on_many_continuation_bytes() {
    let bytes = vec![0xffu8; 11];
    assert_eq!(read_var_int(&bytes, 0), Err(Error::VarIntTooBig));
}

#[test]
fn var_int_truncated_mid_value_is_io() {
    let bytes = vec![0x80u8];
    assert_eq!(read_var_int(&bytes, 0), Err(Error::IO));
}

#[test]
fn var_int_reads_at_offset() {
    let mut bytes = vec![0xaau8, 0xbb];
    write_var_int(&mut bytes, 300);
    let (decoded, consumed) = read_var_int(&bytes, 2).unwrap();
    assert_eq!(decoded, 300);
    assert_eq!(consumed, 2);
}

#[test]
fn packet_size_on_empty_buffer_is_no_packet() {
    assert_eq!(get_packet_size(&[], 0), Err(Error::NoPacketToReceive));
}

#[test]
fn packet_size_on_partial_var_int_is_no_packet() {
    assert_eq!(get_packet_size(&[0x80], 0), Err(Error::NoPacketToReceive));
}

#[test]
fn packet_size_still_rejects_oversized_var_int() {
    let bytes = vec![0x80u8, 0x80, 0x80, 0x80, 0x80, 0x01];
    assert_eq!(get_packet_size(&bytes, 0), Err(Error::VarIntTooBig));
}

#[test]
fn packet_size_reads_a_value() {
    let (size, consumed) = get_packet_size(&[0x09, 0x01], 0).unwrap();
    assert_eq!(size, 9);
    assert_eq!(consumed, 1);
}
