//! Little-endian integers read at a byte offset of a slice.
use vstd::prelude::*;

verus! {

/// The 16-bit little-endian value of `b[off..off + 2]`.
pub open spec fn le_u16(b: Seq<u8>, off: int) -> int {
    b[off] + 256 * b[off + 1]
}

/// The 24-bit little-endian value of `b[off..off + 3]`.
pub open spec fn le_u24(b: Seq<u8>, off: int) -> int {
    le_u16(b, off) + 65536 * b[off + 2]
}

/// The 32-bit little-endian value of `b[off..off + 4]`.
pub open spec fn le_u32(b: Seq<u8>, off: int) -> int {
    le_u16(b, off) + 65536 * le_u16(b, off + 2)
}

/// The 40-bit little-endian value of `b[off..off + 5]`.
pub open spec fn le_u40(b: Seq<u8>, off: int) -> int {
    le_u32(b, off) + 4294967296 * b[off + 4]
}

/// The 64-bit little-endian value of `b[off..off + 8]`.
pub open spec fn le_u64(b: Seq<u8>, off: int) -> int {
    le_u32(b, off) + 4294967296 * le_u32(b, off + 4)
}

pub fn read_u16(b: &[u8], off: usize) -> (r: u16)
    requires
        off + 2 <= b.len(),
    ensures
        r == le_u16(b@, off as int),
{
    b[off] as u16 + 256 * (b[off + 1] as u16)
}

pub fn read_u24(b: &[u8], off: usize) -> (r: u32)
    requires
        off + 3 <= b.len(),
    ensures
        r == le_u24(b@, off as int),
{
    read_u16(b, off) as u32 + 65536 * (b[off + 2] as u32)
}

pub fn read_u32(b: &[u8], off: usize) -> (r: u32)
    requires
        off + 4 <= b.len(),
    ensures
        r == le_u32(b@, off as int),
{
    read_u16(b, off) as u32 + 65536 * (read_u16(b, off + 2) as u32)
}

pub fn read_u40(b: &[u8], off: usize) -> (r: u64)
    requires
        off + 5 <= b.len(),
    ensures
        r == le_u40(b@, off as int),
        r < 0x100_0000_0000,
{
    read_u32(b, off) as u64 + 4294967296 * (b[off + 4] as u64)
}

pub fn read_u64(b: &[u8], off: usize) -> (r: u64)
    requires
        off + 8 <= b.len(),
    ensures
        r == le_u64(b@, off as int),
{
    read_u32(b, off) as u64 + 4294967296 * (read_u32(b, off + 4) as u64)
}

} // verus!
