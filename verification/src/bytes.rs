//! Little-endian decoding of 32-bit words from a byte buffer.

use vstd::prelude::*;

verus! {

/// The unsigned value of the four little-endian bytes starting at `off`.
pub open spec fn le32(b: Seq<u8>, off: int) -> u32
    recommends
        0 <= off,
        off + 4 <= b.len(),
{
    ((b[off] as int) + (b[off + 1] as int) * 0x100 + (b[off + 2] as int) * 0x1_0000
        + (b[off + 3] as int) * 0x100_0000) as u32
}

/// The signed 32-bit integer with the same bits as `v` (two's complement).
pub open spec fn as_i32(v: u32) -> i32 {
    if v >= 0x8000_0000 {
        (v - 0x1_0000_0000) as i32
    } else {
        v as i32
    }
}

/// Reads the little-endian 32-bit word at `off`.
pub fn read_u32(b: &Vec<u8>, off: usize) -> (r: u32)
    requires
        off + 4 <= b@.len(),
    ensures
        r == le32(b@, off as int),
{
    let n = b.len();
    assert(off + 4 <= n);
    (b[off] as u32) + (b[off + 1] as u32) * 0x100 + (b[off + 2] as u32) * 0x1_0000 + (b[off
        + 3] as u32) * 0x100_0000
}

/// Reinterprets a 32-bit word as the signed integer with the same bits.
pub fn to_i32(v: u32) -> (r: i32)
    ensures
        r == as_i32(v),
{
    if v >= 0x8000_0000 {
        ((v as i64) - 0x1_0000_0000) as i32
    } else {
        v as i32
    }
}

/// Reads the little-endian signed 32-bit integer at `off`.
pub fn read_i32(b: &Vec<u8>, off: usize) -> (r: i32)
    requires
        off + 4 <= b@.len(),
    ensures
        r == as_i32(le32(b@, off as int)),
{
    to_i32(read_u32(b, off))
}

} // verus!
