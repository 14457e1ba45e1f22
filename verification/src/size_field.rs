//! The size field: an 8-byte big-endian encoding of the image's 64-bit
//! length, transmitted as a single framing unit before the payload. Because
//! it is only 8 bytes it always occupies exactly one chunk, so exactly one
//! acknowledgement is expected for it.

use vstd::prelude::*;

verus! {

/// The 8-byte big-endian encoding of a 64-bit length.
pub open spec fn spec_size_field(n: u64) -> Seq<u8> {
    seq![
        (n >> 56u64) as u8,
        (n >> 48u64) as u8,
        (n >> 40u64) as u8,
        (n >> 32u64) as u8,
        (n >> 24u64) as u8,
        (n >> 16u64) as u8,
        (n >> 8u64) as u8,
        n as u8,
    ]
}

/// The 64-bit value an 8-byte big-endian size field stands for.
pub open spec fn spec_size_value(b: Seq<u8>) -> u64
    recommends
        b.len() == 8,
{
    ((b[0] as int) * 0x100000000000000 + (b[1] as int) * 0x1000000000000 + (b[2] as int)
        * 0x10000000000 + (b[3] as int) * 0x100000000 + (b[4] as int) * 0x1000000 + (b[5] as int)
        * 0x10000 + (b[6] as int) * 0x100 + (b[7] as int)) as u64
}

/// Encode a 64-bit length as its 8-byte big-endian size field.
pub fn encode_size(n: u64) -> (r: Vec<u8>)
    ensures
        r@ == spec_size_field(n),
        r@.len() == 8,
{
    let mut r: Vec<u8> = Vec::new();
    r.push((n >> 56u64) as u8);
    r.push((n >> 48u64) as u8);
    r.push((n >> 40u64) as u8);
    r.push((n >> 32u64) as u8);
    r.push((n >> 24u64) as u8);
    r.push((n >> 16u64) as u8);
    r.push((n >> 8u64) as u8);
    r.push(n as u8);
    assert(r@ =~= spec_size_field(n));
    r
}

/// Decode an 8-byte big-endian size field; the result is the unique value
/// whose size field is `b`.
pub fn decode_size(b: &[u8]) -> (r: u64)
    requires
        b@.len() == 8,
    ensures
        spec_size_field(r) == b@,
        r == spec_size_value(b@),
{
    let b0 = b[0];
    let b1 = b[1];
    let b2 = b[2];
    let b3 = b[3];
    let b4 = b[4];
    let b5 = b[5];
    let b6 = b[6];
    let b7 = b[7];
    let r = ((b0 as u64) << 56u64) | ((b1 as u64) << 48u64) | ((b2 as u64) << 40u64) | ((b3
        as u64) << 32u64) | ((b4 as u64) << 24u64) | ((b5 as u64) << 16u64) | ((b6 as u64)
        << 8u64) | (b7 as u64);
    proof {
        assert((r >> 56u64) as u8 == b0 && (r >> 48u64) as u8 == b1 && (r >> 40u64) as u8 == b2
            && (r >> 32u64) as u8 == b3 && (r >> 24u64) as u8 == b4 && (r >> 16u64) as u8 == b5
            && (r >> 8u64) as u8 == b6 && r as u8 == b7) by (bit_vector)
            requires
                r == ((b0 as u64) << 56u64) | ((b1 as u64) << 48u64) | ((b2 as u64) << 40u64) | ((
                b3 as u64) << 32u64) | ((b4 as u64) << 24u64) | ((b5 as u64) << 16u64) | ((b6
                as u64) << 8u64) | (b7 as u64),
        ;
        assert(spec_size_field(r) =~= b@);
        lemma_size_field_value(r);
    }
    r
}

/// Decoding the size field of `n` yields `n` again: the 8-byte big-endian
/// encoding loses nothing.
pub proof fn lemma_size_field_value(n: u64)
    ensures
        spec_size_value(spec_size_field(n)) == n,
{
    assert(((n >> 56u64) as u8 as int) * 0x100000000000000 + ((n >> 48u64) as u8 as int)
        * 0x1000000000000 + ((n >> 40u64) as u8 as int) * 0x10000000000 + ((n >> 32u64) as u8
        as int) * 0x100000000 + ((n >> 24u64) as u8 as int) * 0x1000000 + ((n >> 16u64) as u8
        as int) * 0x10000 + ((n >> 8u64) as u8 as int) * 0x100 + (n as u8 as int) == n)
        by (bit_vector);
}

/// The size field determines the length: equal encodings come from equal
/// values, so decoding is unambiguous.
pub proof fn lemma_size_field_injective(m: u64, n: u64)
    requires
        spec_size_field(m) == spec_size_field(n),
    ensures
        m == n,
{
    assert((m >> 56u64) as u8 == (n >> 56u64) as u8) by {
        assert(spec_size_field(m)[0] == spec_size_field(n)[0]);
    };
    assert((m >> 48u64) as u8 == (n >> 48u64) as u8) by {
        assert(spec_size_field(m)[1] == spec_size_field(n)[1]);
    };
    assert((m >> 40u64) as u8 == (n >> 40u64) as u8) by {
        assert(spec_size_field(m)[2] == spec_size_field(n)[2]);
    };
    assert((m >> 32u64) as u8 == (n >> 32u64) as u8) by {
        assert(spec_size_field(m)[3] == spec_size_field(n)[3]);
    };
    assert((m >> 24u64) as u8 == (n >> 24u64) as u8) by {
        assert(spec_size_field(m)[4] == spec_size_field(n)[4]);
    };
    assert((m >> 16u64) as u8 == (n >> 16u64) as u8) by {
        assert(spec_size_field(m)[5] == spec_size_field(n)[5]);
    };
    assert((m >> 8u64) as u8 == (n >> 8u64) as u8) by {
        assert(spec_size_field(m)[6] == spec_size_field(n)[6]);
    };
    assert(m as u8 == n as u8) by {
        assert(spec_size_field(m)[7] == spec_size_field(n)[7]);
    };
    assert(m == n) by (bit_vector)
        requires
            (m >> 56u64) as u8 == (n >> 56u64) as u8,
            (m >> 48u64) as u8 == (n >> 48u64) as u8,
            (m >> 40u64) as u8 == (n >> 40u64) as u8,
            (m >> 32u64) as u8 == (n >> 32u64) as u8,
            (m >> 24u64) as u8 == (n >> 24u64) as u8,
            (m >> 16u64) as u8 == (n >> 16u64) as u8,
            (m >> 8u64) as u8 == (n >> 8u64) as u8,
            m as u8 == n as u8,
    ;
}

} // verus!
