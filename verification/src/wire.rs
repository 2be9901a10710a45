//! Big-endian readers for the wire encodings that the decoders consume.

use vstd::prelude::*;

verus! {

/// Big-endian value of the two bytes of `b` starting at offset `i`.
pub open spec fn be_u16_at(b: Seq<u8>, i: int) -> u16 {
    (b[i] * 0x100 + b[i + 1]) as u16
}

/// Big-endian value of the four bytes of `b` starting at offset `i`.
pub open spec fn be_u32_at(b: Seq<u8>, i: int) -> u32 {
    (b[i] * 0x100_0000 + b[i + 1] * 0x1_0000 + b[i + 2] * 0x100 + b[i + 3]) as u32
}

/// Big-endian value of the eight bytes of `b` starting at offset `i`.
pub open spec fn be_u64_at(b: Seq<u8>, i: int) -> u64 {
    (be_u32_at(b, i) * 0x1_0000_0000 + be_u32_at(b, i + 4)) as u64
}

/// Reads a big-endian 16-bit unsigned integer from `b` at offset `pos`.
pub fn read_be_u16(b: &[u8], pos: usize) -> (r: u16)
    requires
        pos + 2 <= b@.len(),
    ensures
        r == be_u16_at(b@, pos as int),
{
    (b[pos] as u16) * 0x100 + (b[pos + 1] as u16)
}

/// Reads a big-endian 32-bit unsigned integer from `b` at offset `pos`.
pub fn read_be_u32(b: &[u8], pos: usize) -> (r: u32)
    requires
        pos + 4 <= b@.len(),
    ensures
        r == be_u32_at(b@, pos as int),
{
    (b[pos] as u32) * 0x100_0000 + (b[pos + 1] as u32) * 0x1_0000 + (b[pos + 2] as u32) * 0x100
        + (b[pos + 3] as u32)
}

/// Reads a big-endian 64-bit unsigned integer from `b` at offset `pos`.
pub fn read_be_u64(b: &[u8], pos: usize) -> (r: u64)
    requires
        pos + 8 <= b@.len(),
    ensures
        r == be_u64_at(b@, pos as int),
{
    let n = b.len();
    proof {
        assert(pos + 8 <= n);
    }
    let hi = read_be_u32(b, pos);
    let lo = read_be_u32(b, pos + 4);
    (hi as u64) * 0x1_0000_0000 + (lo as u64)
}

} // verus!
