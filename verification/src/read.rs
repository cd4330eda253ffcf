//! Decoding side of the wire format: VarInts, big-endian integers and
//! length-prefixed strings, read from a byte buffer at a cursor.
//!
//! Each reader is specified against a total parsing function over the byte
//! sequence that starts at the cursor, so that callers can reason about
//! exactly which bytes a successful read consumed and why a failed one
//! failed.

use crate::error::{error_of, DecodeErr, Error};
use crate::write::pow128;
use vstd::prelude::*;

verus! {

use vstd::slice::{slice_subrange, slice_to_vec};
use vstd::utf8::{decode_utf8, encode_utf8, valid_utf8};

/// Parses a VarInt from the front of `bytes`, reading at most `limit` bytes:
/// the value and the number of bytes it occupied, or how the attempt failed.
pub open spec fn parse_var_int_rec(bytes: Seq<u8>, limit: nat) -> Result<(nat, nat), DecodeErr>
    decreases limit,
{
    if bytes.len() == 0 {
        Err(DecodeErr::Truncated)
    } else if bytes[0] < 128 {
        Ok((bytes[0] as nat, 1))
    } else if limit <= 1 {
        Err(DecodeErr::VarIntTooBig)
    } else {
        match parse_var_int_rec(bytes.skip(1), (limit - 1) as nat) {
            Ok(rest) => Ok(((bytes[0] - 128 + 128 * rest.0) as nat, (rest.1 + 1) as nat)),
            Err(e) => Err(e),
        }
    }
}

/// Parses a VarInt under the protocol's 5-byte (32-significant-bit) limit.
pub open spec fn parse_var_int(bytes: Seq<u8>) -> Result<(nat, nat), DecodeErr> {
    parse_var_int_rec(bytes, 5)
}

/// Parses an envelope's leading size field. Running out of input here means
/// no packet has arrived yet, not that the stream broke.
pub open spec fn parse_packet_size(bytes: Seq<u8>) -> Result<(nat, nat), DecodeErr> {
    match parse_var_int(bytes) {
        Err(DecodeErr::Truncated) => Err(DecodeErr::NoPacket),
        r => r,
    }
}

/// `pow128` is at least 1.
pub proof fn lemma_pow128_pos(k: nat)
    ensures
        pow128(k) >= 1,
    decreases k,
{
    if k > 0 {
        lemma_pow128_pos((k - 1) as nat);
    }
}

/// `pow128` is monotone.
pub proof fn lemma_pow128_mono(a: nat, b: nat)
    requires
        a <= b,
    ensures
        pow128(a) <= pow128(b),
    decreases b,
{
    if a < b {
        lemma_pow128_mono(a, (b - 1) as nat);
        lemma_pow128_pos((b - 1) as nat);
    }
}

/// A successful parse yields a value below `pow128(limit)` and consumes
/// between 1 and `limit` bytes, never more than are there.
pub proof fn lemma_parse_var_int_bound(bytes: Seq<u8>, limit: nat)
    requires
        1 <= limit,
    ensures
        parse_var_int_rec(bytes, limit) matches Ok(v) ==> v.0 < pow128(limit) && 1 <= v.1
            <= limit && v.1 <= bytes.len(),
    decreases limit,
{
    if bytes.len() == 0 {
    } else if bytes[0] < 128 {
        lemma_pow128_pos((limit - 1) as nat);
    } else if limit <= 1 {
    } else {
        lemma_parse_var_int_bound(bytes.skip(1), (limit - 1) as nat);
    }
}

/// A VarInt parse fails only by running out of input or by running past
/// the byte limit.
pub proof fn lemma_parse_var_int_err(bytes: Seq<u8>, limit: nat)
    ensures
        parse_var_int_rec(bytes, limit) matches Err(e) ==> e is Truncated || e is VarIntTooBig,
    decreases limit,
{
    if bytes.len() > 0 && bytes[0] >= 128 && limit > 1 {
        lemma_parse_var_int_err(bytes.skip(1), (limit - 1) as nat);
    }
}

/// What a VarInt parse finds in a prefix, it finds unchanged in any
/// extension of that prefix.
pub proof fn lemma_parse_var_int_prefix(s: Seq<u8>, t: Seq<u8>, limit: nat)
    requires
        parse_var_int_rec(s, limit) is Ok,
    ensures
        parse_var_int_rec(s + t, limit) == parse_var_int_rec(s, limit),
    decreases limit,
{
    assert(s.len() > 0);
    assert((s + t)[0] == s[0]);
    if s[0] < 128 {
    } else {
        assert(limit > 1);
        assert((s + t).skip(1) =~= s.skip(1) + t);
        lemma_parse_var_int_prefix(s.skip(1), t, (limit - 1) as nat);
    }
}

fn read_var_int_limited(buf: &[u8], pos: usize, limit: usize) -> (r: Result<(u64, usize), Error>)
    requires
        pos <= buf@.len(),
        1 <= limit <= 5,
    ensures
        ({
            let p = parse_var_int_rec(buf@.skip(pos as int), limit as nat);
            match p {
                Ok(v) => r matches Ok(x) && x.0 == v.0 && x.1 == v.1 && pos + v.1 <= buf@.len(),
                Err(e) => r == Err::<(u64, usize), Error>(error_of(e)),
            }
        }),
    decreases limit,
{
    if pos == buf.len() {
        return Err(Error::IO);
    }
    let b = buf[pos];
    if b < 128 {
        return Ok((b as u64, 1));
    }
    if limit == 1 {
        return Err(Error::VarIntTooBig);
    }
    proof {
        assert(buf@.skip(pos as int).skip(1) =~= buf@.skip(pos as int + 1));
        lemma_parse_var_int_bound(buf@.skip(pos as int + 1), (limit - 1) as nat);
        lemma_pow128_mono((limit - 1) as nat, 4);
        assert(pow128(4) == 0x10000000) by {
            reveal_with_fuel(pow128, 5);
        }
    }
    match read_var_int_limited(buf, pos + 1, limit - 1) {
        Ok((value, n)) => Ok(((b - 128) as u64 + 128 * value, n + 1)),
        Err(e) => Err(e),
    }
}

/// Reads one VarInt from `buf` at `pos`: the value and how many bytes it
/// occupied. Fails with `VarIntTooBig` past the 5-byte limit and with `IO`
/// when the buffer ends mid-value.
pub fn read_var_int(buf: &[u8], pos: usize) -> (r: Result<(u64, usize), Error>)
    requires
        pos <= buf@.len(),
    ensures
        ({
            let p = parse_var_int(buf@.skip(pos as int));
            match p {
                Ok(v) => r matches Ok(x) && x.0 == v.0 && x.1 == v.1 && pos + v.1 <= buf@.len(),
                Err(e) => r == Err::<(u64, usize), Error>(error_of(e)),
            }
        }),
{
    read_var_int_limited(buf, pos, 5)
}

/// Reads an envelope's leading size field at `pos`. A buffer that ends
/// before the size field is complete means "no packet available yet".
pub fn get_packet_size(buf: &[u8], pos: usize) -> (r: Result<(u64, usize), Error>)
    requires
        pos <= buf@.len(),
    ensures
        ({
            let p = parse_packet_size(buf@.skip(pos as int));
            match p {
                Ok(v) => r matches Ok(x) && x.0 == v.0 && x.1 == v.1 && pos + v.1 <= buf@.len(),
                Err(e) => r == Err::<(u64, usize), Error>(error_of(e)),
            }
        }),
{
    proof {
        lemma_parse_var_int_err(buf@.skip(pos as int), 5);
    }
    match read_var_int(buf, pos) {
        Ok(v) => Ok(v),
        Err(Error::IO) => Err(Error::NoPacketToReceive),
        Err(e) => Err(e),
    }
}

/// 256 to the power `k`; the range of values `k` bytes can hold.
pub open spec fn pow256(k: nat) -> nat
    decreases k,
{
    if k == 0 {
        1
    } else {
        256 * pow256((k - 1) as nat)
    }
}

/// `pow256` is at least 1.
pub proof fn lemma_pow256_pos(k: nat)
    ensures
        pow256(k) >= 1,
    decreases k,
{
    if k > 0 {
        lemma_pow256_pos((k - 1) as nat);
    }
}

/// `pow256` is monotone.
pub proof fn lemma_pow256_mono(a: nat, b: nat)
    requires
        a <= b,
    ensures
        pow256(a) <= pow256(b),
    decreases b,
{
    if a < b {
        lemma_pow256_mono(a, (b - 1) as nat);
        lemma_pow256_pos((b - 1) as nat);
    }
}

/// The big-endian value of a byte sequence: the last byte holds the lowest
/// 8 bits.
pub open spec fn be_value(bytes: Seq<u8>) -> nat
    decreases bytes.len(),
{
    if bytes.len() == 0 {
        0
    } else {
        (256 * be_value(bytes.drop_last()) + bytes.last()) as nat
    }
}

/// `k` bytes hold a value below `pow256(k)`.
pub proof fn lemma_be_value_bound(bytes: Seq<u8>)
    ensures
        be_value(bytes) < pow256(bytes.len()),
    decreases bytes.len(),
{
    if bytes.len() > 0 {
        lemma_be_value_bound(bytes.drop_last());
    }
}

/// Parses a big-endian `u16` from the front of `bytes`.
pub open spec fn parse_u16_be(bytes: Seq<u8>) -> Result<(u16, nat), DecodeErr> {
    if bytes.len() < 2 {
        Err(DecodeErr::Truncated)
    } else {
        Ok((be_value(bytes.take(2)) as u16, 2))
    }
}

/// Parses a big-endian `u64` from the front of `bytes`.
pub open spec fn parse_u64_be(bytes: Seq<u8>) -> Result<(u64, nat), DecodeErr> {
    if bytes.len() < 8 {
        Err(DecodeErr::Truncated)
    } else {
        Ok((be_value(bytes.take(8)) as u64, 8))
    }
}

/// Reads a big-endian `u16` at `pos`.
pub fn read_u16_be(buf: &[u8], pos: usize) -> (r: Result<(u16, usize), Error>)
    requires
        pos <= buf@.len(),
    ensures
        ({
            let p = parse_u16_be(buf@.skip(pos as int));
            match p {
                Ok(v) => r matches Ok(x) && x.0 == v.0 && x.1 == v.1 && pos + 2 <= buf@.len(),
                Err(e) => r == Err::<(u16, usize), Error>(error_of(e)),
            }
        }),
{
    if buf.len() - pos < 2 {
        return Err(Error::IO);
    }
    let b0 = buf[pos];
    let b1 = buf[pos + 1];
    proof {
        let s = buf@.skip(pos as int);
        assert(s.take(2).drop_last() =~= s.take(1));
        assert(s.take(1).drop_last() =~= Seq::<u8>::empty());
        assert(s.take(2).last() == b1);
        assert(s.take(1).last() == b0);
        assert(be_value(Seq::<u8>::empty()) == 0);
        assert(be_value(s.take(1)) == b0);
        assert(be_value(s.take(2)) == 256 * (b0 as nat) + b1);
    }
    Ok((b0 as u16 * 256 + b1 as u16, 2))
}

/// Reads a big-endian `u64` at `pos`.
pub fn read_u64_be(buf: &[u8], pos: usize) -> (r: Result<(u64, usize), Error>)
    requires
        pos <= buf@.len(),
    ensures
        ({
            let p = parse_u64_be(buf@.skip(pos as int));
            match p {
                Ok(v) => r matches Ok(x) && x.0 == v.0 && x.1 == v.1 && pos + 8 <= buf@.len(),
                Err(e) => r == Err::<(u64, usize), Error>(error_of(e)),
            }
        }),
{
    let buf_len = buf.len();
    if buf_len - pos < 8 {
        return Err(Error::IO);
    }
    let ghost s = buf@.skip(pos as int);
    let mut value: u64 = 0;
    let mut i: usize = 0;
    while i < 8
        invariant
            pos + 8 <= buf_len,
            buf_len == buf@.len(),
            i <= 8,
            s == buf@.skip(pos as int),
            value == be_value(s.take(i as int)),
            value < pow256(i as nat),
        decreases 8 - i,
    {
        proof {
            assert(s.take(i + 1).drop_last() =~= s.take(i as int));
            assert(s.take(i + 1).last() == s[i as int]);
            lemma_pow256_mono(i as nat, 7);
            assert(pow256(7) == 0x100000000000000) by {
                reveal_with_fuel(pow256, 8);
            }
        }
        value = value * 256 + (buf[pos + i] as u64);
        i = i + 1;
    }
    proof {
        lemma_be_value_bound(s.take(8));
        assert(pow256(8) == 0x10000000000000000) by {
            reveal_with_fuel(pow256, 9);
        }
    }
    Ok((value, 8))
}

/// Relies on `String::from_utf8`: it succeeds exactly on valid UTF-8, and
/// the returned string's UTF-8 encoding is the input itself.
#[verifier::external_body]
fn string_from_utf8(bytes: Vec<u8>) -> (r: Option<String>)
    ensures
        r is Some <==> valid_utf8(bytes@),
        r matches Some(s) ==> encode_utf8(s@) == bytes@,
{
    String::from_utf8(bytes).ok()
}

/// Parses a length-prefixed UTF-8 string from the front of `bytes`.
pub open spec fn parse_string(bytes: Seq<u8>) -> Result<(Seq<char>, nat), DecodeErr> {
    match parse_var_int(bytes) {
        Err(e) => Err(e),
        Ok((len, n)) => if bytes.len() < n + len {
            Err(DecodeErr::Truncated)
        } else {
            let payload = bytes.subrange(n as int, (n + len) as int);
            if valid_utf8(payload) {
                Ok((decode_utf8(payload), (n + len) as nat))
            } else {
                Err(DecodeErr::BadUtf8)
            }
        },
    }
}

/// Reads a length-prefixed UTF-8 string at `pos`: the string and the total
/// bytes consumed including the length field. Fails with `IO` when the
/// buffer ends early or the payload is not valid UTF-8.
pub fn read_string(buf: &[u8], pos: usize) -> (r: Result<(String, usize), Error>)
    requires
        pos <= buf@.len(),
    ensures
        ({
            let p = parse_string(buf@.skip(pos as int));
            match p {
                Ok(v) => r matches Ok(x) && x.0@ == v.0 && x.1 == v.1 && pos + v.1 <= buf@.len(),
                Err(e) => r == Err::<(String, usize), Error>(error_of(e)),
            }
        }),
{
    let (len, n) = match read_var_int(buf, pos) {
        Ok(v) => v,
        Err(e) => {
            return Err(e);
        },
    };
    if len > (buf.len() - (pos + n)) as u64 {
        return Err(Error::IO);
    }
    let len_usize = len as usize;
    let payload = slice_subrange(buf, pos + n, pos + n + len_usize);
    let bytes = slice_to_vec(payload);
    proof {
        let s = buf@.skip(pos as int);
        assert(bytes@ =~= s.subrange(n as int, n as int + len as int));
    }
    match string_from_utf8(bytes) {
        Some(string) => {
            proof {
                vstd::utf8::encode_utf8_decode_utf8(string@);
            }
            Ok((string, n + len_usize))
        },
        None => Err(Error::IO),
    }
}

} // verus!
