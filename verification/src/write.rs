//! Encoding side of the wire format: VarInts, length-prefixed strings and
//! big-endian integers, written by appending to a byte buffer.

use vstd::prelude::*;

verus! {

use vstd::utf8::encode_utf8;

/// Number of bytes the VarInt encoding of `v` occupies: one per 7-bit group.
pub open spec fn var_int_len_spec(v: nat) -> nat
    decreases v,
{
    if v < 128 {
        1
    } else {
        1 + var_int_len_spec(v / 128)
    }
}

/// The VarInt wire encoding itself: little-endian 7-bit groups, the high bit
/// set on every byte except the last.
pub open spec fn encode_var_int_spec(v: nat) -> Seq<u8>
    decreases v,
{
    if v < 128 {
        seq![v as u8]
    } else {
        seq![(v % 128 + 128) as u8] + encode_var_int_spec(v / 128)
    }
}

/// 128 to the power `k`; the range of values whose encoding fits in `k` bytes.
pub open spec fn pow128(k: nat) -> nat
    decreases k,
{
    if k == 0 {
        1
    } else {
        128 * pow128((k - 1) as nat)
    }
}

/// The encoding is as long as `var_int_len_spec` says.
pub proof fn lemma_encode_var_int_len(v: nat)
    ensures
        encode_var_int_spec(v).len() == var_int_len_spec(v),
    decreases v,
{
    if v >= 128 {
        lemma_encode_var_int_len(v / 128);
    }
}

/// Values below `pow128(k)` encode in at most `k` bytes.
pub proof fn lemma_var_int_len_le(v: nat, k: nat)
    requires
        1 <= k,
        v < pow128(k),
    ensures
        var_int_len_spec(v) <= k,
    decreases k,
{
    if v >= 128 {
        assert(v / 128 < pow128((k - 1) as nat)) by (nonlinear_arith)
            requires
                v < 128 * pow128((k - 1) as nat),
        ;
        lemma_var_int_len_le(v / 128, (k - 1) as nat);
    }
}

/// Every `u64` encodes in at most 10 bytes.
pub proof fn lemma_var_int_len_u64(v: u64)
    ensures
        var_int_len_spec(v as nat) <= 10,
{
    assert(pow128(10) > u64::MAX) by {
        reveal_with_fuel(pow128, 11);
    }
    lemma_var_int_len_le(v as nat, 10);
}

/// Number of bytes `write_var_int` would produce for `var_int`.
pub fn var_int_len(var_int: u64) -> (bytes: usize)
    ensures
        bytes == var_int_len_spec(var_int as nat),
{
    proof {
        lemma_var_int_len_u64(var_int);
    }
    let mut v = var_int;
    let mut bytes: usize = 1;
    while v >= 128
        invariant
            1 <= bytes,
            bytes + var_int_len_spec(v as nat) == 1 + var_int_len_spec(var_int as nat),
            var_int_len_spec(var_int as nat) <= 10,
        decreases v,
    {
        assert(v / 128 < v) by (nonlinear_arith)
            requires
                v >= 128,
        ;
        v = v / 128;
        bytes = bytes + 1;
    }
    bytes
}

/// Appends the VarInt encoding of `var_int` to `out`; returns how many bytes
/// were written.
pub fn write_var_int(out: &mut Vec<u8>, var_int: u64) -> (bytes: usize)
    ensures
        final(out)@ == old(out)@ + encode_var_int_spec(var_int as nat),
        bytes == var_int_len_spec(var_int as nat),
    decreases var_int,
{
    if var_int < 128 {
        out.push(var_int as u8);
        assert(final(out)@ =~= old(out)@ + encode_var_int_spec(var_int as nat));
        1
    } else {
        out.push((var_int % 128 + 128) as u8);
        assert(var_int / 128 < var_int) by (nonlinear_arith)
            requires
                var_int >= 128,
        ;
        let rest = write_var_int(out, var_int / 128);
        proof {
            lemma_var_int_len_u64(var_int);
        }
        assert(final(out)@ =~= old(out)@ + encode_var_int_spec(var_int as nat));
        rest + 1
    }
}

/// Wire encoding of a string: VarInt byte length, then the UTF-8 bytes.
pub open spec fn encode_string_spec(s: Seq<char>) -> Seq<u8> {
    encode_var_int_spec(encode_utf8(s).len()) + encode_utf8(s)
}

/// Appends the wire encoding of `string` to `out`; returns how many bytes
/// were written.
pub fn write_string(out: &mut Vec<u8>, string: &str) -> (size: usize)
    requires
        encode_utf8(string@).len() + 10 <= usize::MAX,
    ensures
        final(out)@ == old(out)@ + encode_string_spec(string@),
        size == encode_string_spec(string@).len(),
{
    let len = string.len();
    proof {
        lemma_var_int_len_u64(len as u64);
    }
    let size = write_var_int(out, len as u64);
    out.extend_from_slice(string.as_bytes());
    proof {
        lemma_encode_var_int_len(len as nat);
        assert(final(out)@ =~= old(out)@ + encode_string_spec(string@));
    }
    size + len
}

/// The `k`-byte big-endian encoding of `v % 256^k`: the last byte holds the
/// lowest 8 bits.
pub open spec fn be_bytes(v: nat, k: nat) -> Seq<u8>
    decreases k,
{
    if k == 0 {
        Seq::empty()
    } else {
        be_bytes(v / 256, (k - 1) as nat) + seq![(v % 256) as u8]
    }
}

/// The encoding is exactly `k` bytes long.
pub proof fn lemma_be_bytes_len(v: nat, k: nat)
    ensures
        be_bytes(v, k).len() == k,
    decreases k,
{
    if k > 0 {
        lemma_be_bytes_len(v / 256, (k - 1) as nat);
    }
}

fn write_be(out: &mut Vec<u8>, v: u64, k: usize) -> (bytes: usize)
    ensures
        final(out)@ == old(out)@ + be_bytes(v as nat, k as nat),
        bytes == k,
    decreases k,
{
    if k == 0 {
        assert(final(out)@ =~= old(out)@ + be_bytes(v as nat, 0));
        0
    } else {
        let done = write_be(out, v / 256, k - 1);
        out.push((v % 256) as u8);
        assert(final(out)@ =~= old(out)@ + be_bytes(v as nat, k as nat));
        done + 1
    }
}

/// Appends the 8-byte big-endian encoding of `n` to `out`.
pub fn write_u64_be(out: &mut Vec<u8>, n: u64)
    ensures
        final(out)@ == old(out)@ + be_bytes(n as nat, 8),
{
    write_be(out, n, 8);
}

} // verus!
