//! Control tokens: the three fixed ASCII, newline-terminated messages that
//! the receiver sends back on the shared channel — `RDY(n)`, `ACK(i)` and
//! `OK(c)` — with `n`, `i`, `c` rendered as unsigned decimal integers with no
//! leading zeros. Only emission is needed here; the other side recognizes a
//! token by scanning for its exact byte representation.

use vstd::prelude::*;

verus! {

/// ASCII decimal digits of `n`, most significant first, with no leading
/// zeros (a single `0` digit for zero).
pub open spec fn dec_digits(n: nat) -> Seq<u8>
    decreases n,
{
    if n < 10 {
        seq![(0x30 + n) as u8]
    } else {
        dec_digits(n / 10).push((0x30 + n % 10) as u8)
    }
}

/// A token: `prefix` then `(`, the decimal digits of `value`, `)` and a
/// single linefeed.
pub open spec fn token_bytes(prefix: Seq<u8>, value: nat) -> Seq<u8> {
    prefix + seq![0x28u8] + dec_digits(value) + seq![0x29u8, 0x0au8]
}

/// Bytes of `RDY(n)\n`: readiness plus the announced chunk size.
pub open spec fn rdy_token(n: nat) -> Seq<u8> {
    token_bytes(seq![0x52u8, 0x44u8, 0x59u8], n)
}

/// Bytes of `ACK(i)\n`: chunk `i` stored.
pub open spec fn ack_token(i: nat) -> Seq<u8> {
    token_bytes(seq![0x41u8, 0x43u8, 0x4bu8], i)
}

/// Bytes of `OK(c)\n`: the emitting side's checksum of the just-completed
/// phase.
pub open spec fn ok_token(c: nat) -> Seq<u8> {
    token_bytes(seq![0x4fu8, 0x4bu8], c)
}

/// Render `n` as ASCII decimal digits, most significant first, no leading
/// zeros, no padding.
pub fn format_decimal(n: u64) -> (r: Vec<u8>)
    ensures
        r@ == dec_digits(n as nat),
    decreases n,
{
    if n < 10 {
        let mut r: Vec<u8> = Vec::new();
        r.push(0x30u8 + n as u8);
        assert(r@ =~= dec_digits(n as nat));
        r
    } else {
        let mut r = format_decimal(n / 10);
        r.push(0x30u8 + (n % 10) as u8);
        assert(r@ =~= dec_digits(n as nat));
        r
    }
}

/// Build the byte representation of a token from its textual prefix and its
/// decimal argument.
fn encode_token(prefix: &[u8], value: u64) -> (r: Vec<u8>)
    ensures
        r@ == token_bytes(prefix@, value as nat),
{
    let mut r: Vec<u8> = Vec::new();
    let mut i: usize = 0;
    while i < prefix.len()
        invariant
            i <= prefix@.len(),
            r@ == prefix@.take(i as int),
        decreases prefix@.len() - i,
    {
        r.push(prefix[i]);
        assert(r@ =~= prefix@.take(i + 1));
        i = i + 1;
    }
    assert(r@ =~= prefix@);
    r.push(0x28u8);
    let mut digits = format_decimal(value);
    r.append(&mut digits);
    r.push(0x29u8);
    r.push(0x0au8);
    assert(r@ =~= token_bytes(prefix@, value as nat));
    r
}

/// Encode `RDY(n)\n`.
pub fn encode_rdy(n: u64) -> (r: Vec<u8>)
    ensures
        r@ == rdy_token(n as nat),
{
    let r = encode_token(&[0x52u8, 0x44u8, 0x59u8], n);
    assert(r@ =~= rdy_token(n as nat));
    r
}

/// Encode `ACK(i)\n`.
pub fn encode_ack(i: u64) -> (r: Vec<u8>)
    ensures
        r@ == ack_token(i as nat),
{
    let r = encode_token(&[0x41u8, 0x43u8, 0x4bu8], i);
    assert(r@ =~= ack_token(i as nat));
    r
}

/// Encode `OK(c)\n` for a 16-bit checksum value.
pub fn encode_ok(c: u16) -> (r: Vec<u8>)
    ensures
        r@ == ok_token(c as nat),
{
    let r = encode_token(&[0x4fu8, 0x4bu8], c as u64);
    assert(r@ =~= ok_token(c as nat));
    r
}

} // verus!
