//! Verified big-endian and little-endian byte codecs used by the packet
//! encoders and the advertisement decoder.

use vstd::prelude::*;

verus! {

/// The big-endian two-byte encoding of a 16-bit value.
pub open spec fn spec_be16(x: u16) -> Seq<u8> {
    seq![(x / 256) as u8, (x % 256) as u8]
}

/// The big-endian four-byte encoding of a 32-bit value.
pub open spec fn spec_be32(x: u32) -> Seq<u8> {
    seq![
        (x / 0x1000000) as u8,
        ((x / 0x10000) % 256) as u8,
        ((x / 256) % 256) as u8,
        (x % 256) as u8,
    ]
}

/// The big-endian three-byte encoding of a value below 2^24.
pub open spec fn spec_be24(x: u32) -> Seq<u8> {
    seq![(x / 0x10000) as u8, ((x / 256) % 256) as u8, (x % 256) as u8]
}

/// The 16-bit value read little-endian from two bytes: the first byte is
/// the least significant.
pub open spec fn spec_le16(lo: u8, hi: u8) -> u16 {
    (lo + hi * 256) as u16
}

/// The two's-complement reinterpretation of a signed 32-bit value as an
/// unsigned one, as a cast on the machine performs it.
pub open spec fn spec_u32_of_i32(x: i32) -> u32 {
    if x >= 0 {
        x as u32
    } else {
        ((x as int) + 0x1_0000_0000) as u32
    }
}

/// Appends the big-endian two-byte encoding of `x`.
pub fn push_u16_be(buf: &mut Vec<u8>, x: u16)
    ensures
        final(buf)@ == old(buf)@ + spec_be16(x),
{
    buf.push((x / 256) as u8);
    buf.push((x % 256) as u8);
    proof {
        assert(buf@ =~= old(buf)@ + spec_be16(x));
    }
}

/// Appends the big-endian four-byte encoding of `x`.
pub fn push_u32_be(buf: &mut Vec<u8>, x: u32)
    ensures
        final(buf)@ == old(buf)@ + spec_be32(x),
{
    buf.push((x / 0x1000000) as u8);
    buf.push(((x / 0x10000) % 256) as u8);
    buf.push(((x / 256) % 256) as u8);
    buf.push((x % 256) as u8);
    proof {
        assert(buf@ =~= old(buf)@ + spec_be32(x));
    }
}

/// Appends the big-endian three-byte encoding of `x`, which must fit in 24
/// bits.
pub fn push_u24_be(buf: &mut Vec<u8>, x: u32)
    requires
        x < 0x1000000,
    ensures
        final(buf)@ == old(buf)@ + spec_be24(x),
{
    buf.push((x / 0x10000) as u8);
    buf.push(((x / 256) % 256) as u8);
    buf.push((x % 256) as u8);
    proof {
        assert(buf@ =~= old(buf)@ + spec_be24(x));
    }
}

/// Reads a 16-bit value little-endian from two bytes.
pub fn read_u16_le(lo: u8, hi: u8) -> (r: u16)
    ensures
        r == spec_le16(lo, hi),
{
    (lo as u16) + (hi as u16) * 256
}

/// Reinterprets a signed 32-bit value as its two's-complement unsigned
/// image, without relying on a truncating cast.
pub fn u32_of_i32(x: i32) -> (r: u32)
    ensures
        r == spec_u32_of_i32(x),
{
    if x >= 0 {
        x as u32
    } else {
        let wide: i64 = (x as i64) + 0x1_0000_0000i64;
        wide as u32
    }
}

/// Law: the big-endian 16-bit encoding is lossless — the two bytes read
/// back as the value that was written.
pub proof fn lemma_be16_round_trip(x: u16)
    ensures
        spec_be16(x).len() == 2,
        spec_be16(x)[0] * 256 + spec_be16(x)[1] == x,
{
}

} // verus!
