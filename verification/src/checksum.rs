//! 16-bit integrity checksum used by both protocol roles.
//!
//! The parameterization is CRC-16/X.25: polynomial 0x1021 in reflected form,
//! initial register 0xFFFF, reflected input and output, final XOR 0xFFFF.
//! Both roles must use bit-identical parameters; a divergence silently breaks
//! the protocol, surfacing only as a sender-side timeout.

use vstd::prelude::*;

verus! {

/// The CRC-16/X.25 value of a byte sequence. The value is a pure function of
/// the bytes alone: total, deterministic, the same in every process.
pub uninterp spec fn crc16_x25_of(data: Seq<u8>) -> u16;

/// Relies on `crc::Crc::<u16>::checksum` with the `CRC_16_IBM_SDLC`
/// parameterization (the X.25 one): the result depends on the input bytes
/// alone.
#[verifier::external_body]
fn crc16_x25(msg: &[u8]) -> (r: u16)
    ensures
        r == crc16_x25_of(msg@),
{
    crc::Crc::<u16>::new(&crc::CRC_16_IBM_SDLC).checksum(msg)
}

/// Integrity checksum over a byte sequence, defined for the empty sequence as
/// well. Computed independently over the size field and over the full image
/// payload.
pub fn checksum(msg: &[u8]) -> (r: u16)
    ensures
        r == crc16_x25_of(msg@),
{
    crc16_x25(msg)
}

} // verus!
