//! The library's laws: properties that relate the encoders, the decoders
//! and the state machine, proved once and for all inputs.

use crate::connection::{
    spec_handshake_step, spec_tick, ConnectionV, CLOSE_AFTER_PING, MAX_TICKS_SKIPPED,
};
use crate::error::{error_of, DecodeErr, Error};
use crate::packet::to_server::handshake::parse_handshake_packet;
use crate::read::{be_value, lemma_be_value_bound, parse_string, parse_var_int, parse_var_int_rec, pow256};
use crate::scheduler::spec_classify;
use crate::write::{
    be_bytes, encode_string_spec, encode_var_int_spec, lemma_encode_var_int_len,
    lemma_var_int_len_le, pow128, var_int_len_spec,
};
use vstd::prelude::*;

verus! {

use vstd::arithmetic::div_mod::{lemma_fundamental_div_mod, lemma_fundamental_div_mod_converse};
use vstd::utf8::{
    decode_utf8, encode_utf8, encode_utf8_decode_utf8, encode_utf8_valid_utf8, valid_utf8,
};

proof fn lemma_parse_encode_var_int(v: nat, limit: nat)
    requires
        var_int_len_spec(v) <= limit,
    ensures
        parse_var_int_rec(encode_var_int_spec(v), limit) == Ok::<(nat, nat), DecodeErr>(
            (v, var_int_len_spec(v)),
        ),
    decreases v,
{
    if v < 128 {
    } else {
        let first = (v % 128 + 128) as u8;
        assert(encode_var_int_spec(v)[0] == first);
        assert(encode_var_int_spec(v).skip(1) =~= encode_var_int_spec(v / 128));
        assert(v / 128 < v) by (nonlinear_arith)
            requires
                v >= 128,
        ;
        lemma_parse_encode_var_int(v / 128, (limit - 1) as nat);
        lemma_fundamental_div_mod(v as int, 128);
    }
}

/// VarInt round trip: every value below 2^32 decodes back from its own
/// encoding, consuming exactly `var_int_len_spec` bytes, and the encoding
/// is exactly that long.
pub proof fn lemma_var_int_round_trip(v: u64)
    requires
        v < 0x100000000,
    ensures
        parse_var_int(encode_var_int_spec(v as nat)) == Ok::<(nat, nat), DecodeErr>(
            (v as nat, var_int_len_spec(v as nat)),
        ),
        encode_var_int_spec(v as nat).len() == var_int_len_spec(v as nat),
{
    assert(pow128(5) == 0x800000000) by {
        reveal_with_fuel(pow128, 6);
    }
    lemma_var_int_len_le(v as nat, 5);
    lemma_parse_encode_var_int(v as nat, 5);
    lemma_encode_var_int_len(v as nat);
}

/// VarInt malformed input: a sequence beginning with six (or more)
/// continuation-flagged bytes fails with `VarIntTooBig`.
pub proof fn lemma_var_int_malformed(bytes: Seq<u8>)
    requires
        bytes.len() >= 6,
        forall|i: int| 0 <= i < 6 ==> bytes[i] >= 128,
    ensures
        parse_var_int(bytes) == Err::<(nat, nat), DecodeErr>(DecodeErr::VarIntTooBig),
{
    let s1 = bytes.skip(1);
    let s2 = bytes.skip(2);
    let s3 = bytes.skip(3);
    let s4 = bytes.skip(4);
    assert(s1.skip(1) =~= s2);
    assert(s2.skip(1) =~= s3);
    assert(s3.skip(1) =~= s4);
    assert(s1[0] == bytes[1] && s2[0] == bytes[2] && s3[0] == bytes[3] && s4[0] == bytes[4]);
    assert(parse_var_int_rec(s4, 1) == Err::<(nat, nat), DecodeErr>(DecodeErr::VarIntTooBig));
    assert(parse_var_int_rec(s3, 2) == Err::<(nat, nat), DecodeErr>(DecodeErr::VarIntTooBig));
    assert(parse_var_int_rec(s2, 3) == Err::<(nat, nat), DecodeErr>(DecodeErr::VarIntTooBig));
    assert(parse_var_int_rec(s1, 4) == Err::<(nat, nat), DecodeErr>(DecodeErr::VarIntTooBig));
}

/// String round trip: every character sequence decodes back from its own
/// wire encoding, consuming the whole encoding. The length bound is the
/// VarInt length field's own 5-byte range.
pub proof fn lemma_string_round_trip(s: Seq<char>)
    requires
        encode_utf8(s).len() < 0x800000000,
    ensures
        parse_string(encode_string_spec(s)) == Ok::<(Seq<char>, nat), DecodeErr>(
            (s, encode_string_spec(s).len() as nat),
        ),
{
    let utf8 = encode_utf8(s);
    let blen = utf8.len();
    let prefix = encode_var_int_spec(blen);
    assert(pow128(5) == 0x800000000) by {
        reveal_with_fuel(pow128, 6);
    }
    lemma_var_int_len_le(blen, 5);
    lemma_parse_encode_var_int(blen, 5);
    lemma_encode_var_int_len(blen);
    crate::read::lemma_parse_var_int_prefix(prefix, utf8, 5);
    let all = encode_string_spec(s);
    assert(all =~= prefix + utf8);
    let n = var_int_len_spec(blen);
    assert(parse_var_int(all) == Ok::<(nat, nat), DecodeErr>((blen, n)));
    assert(all.subrange(n as int, (n + blen) as int) =~= utf8);
    encode_utf8_valid_utf8(s);
    encode_utf8_decode_utf8(s);
}

/// String malformed input: a length-prefixed payload that is not valid
/// UTF-8 fails to decode.
pub proof fn lemma_string_invalid_utf8(bytes: Seq<u8>, len: nat, n: nat)
    requires
        parse_var_int(bytes) == Ok::<(nat, nat), DecodeErr>((len, n)),
        bytes.len() >= n + len,
        !valid_utf8(bytes.subrange(n as int, (n + len) as int)),
    ensures
        parse_string(bytes) == Err::<(Seq<char>, nat), DecodeErr>(DecodeErr::BadUtf8),
{
}

/// After one successful handshake step the connection stands in exactly the
/// state the packet asked for, which is always Status or Login, and nothing
/// was written; a failed decode leaves the connection untouched.
pub proof fn lemma_handshake_transition(c: ConnectionV)
    requires
        c.state is Handshake,
    ensures
        ({
            let (post, r) = spec_handshake_step(c);
            match parse_handshake_packet(c.inbound) {
                Ok(v) => {
                    &&& post.state == v.0.next_state
                    &&& (v.0.next_state is Status || v.0.next_state is Login)
                    &&& post.outbound == c.outbound
                    &&& r is Ok
                },
                Err(e) => post == c && r == Err::<(), Error>(error_of(e)),
            }
        }),
{
}

/// The connection after `n` consecutive ticks on an empty inbound buffer.
pub open spec fn spec_ticks_on_empty(c: ConnectionV, json: Seq<char>, n: nat) -> ConnectionV
    decreases n,
{
    if n == 0 {
        c
    } else {
        spec_tick(spec_ticks_on_empty(c, json, (n - 1) as nat), json).0
    }
}

/// Timeout policy: a connection that sees an empty inbound buffer on every
/// tick makes no progress — each tick leaves everything but the skip
/// counter unchanged and reports `NoPacketToReceive`, which the scheduler
/// classifies Keep — until the `MAX_TICKS_SKIPPED`-th consecutive empty
/// tick, which reports `TimedOut` and is classified Evict: eviction on
/// exactly that tick, and not before.
pub proof fn lemma_timeout_on_empty_ticks(c: ConnectionV, json: Seq<char>, n: nat)
    requires
        c.state !is Login,
        c.inbound == Seq::<u8>::empty(),
        c.skipped_ticks == 0,
        1 <= n <= MAX_TICKS_SKIPPED,
    ensures
        ({
            let before = spec_ticks_on_empty(c, json, (n - 1) as nat);
            let (after, result) = spec_tick(before, json);
            &&& before.state == c.state && before.inbound == c.inbound && before.outbound
                == c.outbound
            &&& before.skipped_ticks == n - 1
            &&& after.skipped_ticks == n
            &&& n < MAX_TICKS_SKIPPED ==> result == Err::<(), Error>(Error::NoPacketToReceive)
                && spec_classify(result) is Keep
            &&& n == MAX_TICKS_SKIPPED ==> result == Err::<(), Error>(Error::TimedOut)
                && spec_classify(result) is Evict
        }),
    decreases n,
{
    if n > 1 {
        lemma_timeout_on_empty_ticks(c, json, (n - 1) as nat);
    }
}

proof fn lemma_be_bytes_of_value(b: Seq<u8>)
    ensures
        be_bytes(be_value(b), b.len()) == b,
    decreases b.len(),
{
    if b.len() == 0 {
        assert(be_bytes(0, 0) =~= b);
    } else {
        let v = be_value(b);
        lemma_be_bytes_of_value(b.drop_last());
        lemma_fundamental_div_mod_converse(
            v as int,
            256,
            be_value(b.drop_last()) as int,
            b.last() as int,
        );
        assert(be_bytes(v, b.len()) =~= b);
    }
}

/// Echo at the byte level: decoding an 8-byte big-endian payload and
/// encoding the value again reproduces the original bytes exactly — the
/// pong's payload bytes are the ping's.
pub proof fn lemma_u64_payload_round_trip(b: Seq<u8>)
    requires
        b.len() == 8,
    ensures
        ({
            let value = be_value(b) as u64;
            be_bytes(value as nat, 8) == b
        }),
{
    lemma_be_value_bound(b);
    assert(pow256(8) == 0x10000000000000000) by {
        reveal_with_fuel(pow256, 9);
    }
    lemma_be_bytes_of_value(b);
}

/// A status request is answered with exactly one status-response envelope
/// carrying the collaborator's payload, the step succeeds, and the
/// connection stays in the live set and in Status state, open for a ping.
pub proof fn lemma_status_request_is_answered(c: ConnectionV, json: Seq<char>)
    requires
        c.state is Status,
        parse_status_packet_gives_request(c.inbound),
    ensures
        ({
            let (post, result) = crate::connection::spec_status_step(c, json);
            &&& post.outbound == c.outbound + crate::packet::to_client::status::status_response_bytes(
                json,
            )
            &&& post.state is Status
            &&& result is Ok
            &&& spec_classify(result) is Keep
        }),
{
}

/// Whether the Status-state parse of `bytes` yields the status request.
pub open spec fn parse_status_packet_gives_request(bytes: Seq<u8>) -> bool {
    match crate::packet::to_server::status::parse_status_packet(bytes) {
        Ok(v) => v.0 == crate::packet::to_server::status::StatusPacketToServer::Status,
        Err(_) => false,
    }
}

/// The pong a connection answers a ping with carries the ping's payload
/// verbatim, and the exchange ends in the expected `ConnectionAborted`
/// close, never in an operator-visible failure.
pub proof fn lemma_ping_is_echoed(c: ConnectionV, json: Seq<char>, payload: u64)
    requires
        c.state is Status,
        parse_status_packet_gives_ping(c.inbound, payload),
    ensures
        ({
            let (post, result) = crate::connection::spec_status_step(c, json);
            &&& post.outbound == c.outbound + crate::packet::to_client::status::pong_bytes(payload)
            &&& result == Err::<(), Error>(Error::ConnectionAborted(CLOSE_AFTER_PING))
            &&& spec_classify(result) is Evict
        }),
{
}

/// Whether the Status-state parse of `bytes` yields a ping with `payload`.
pub open spec fn parse_status_packet_gives_ping(bytes: Seq<u8>, payload: u64) -> bool {
    match crate::packet::to_server::status::parse_status_packet(bytes) {
        Ok(v) => v.0 == crate::packet::to_server::status::StatusPacketToServer::Ping(payload),
        Err(_) => false,
    }
}

} // verus!
