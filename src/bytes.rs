//! Little-endian field reads over a byte view, each checked against the view's bounds.
use vstd::prelude::*;

verus! {

/// The 16-bit little-endian value stored at `off`.
pub open spec fn le16(b: Seq<u8>, off: int) -> int {
    b[off] as int + 256 * (b[off + 1] as int)
}

/// The 32-bit little-endian value stored at `off`.
pub open spec fn le32(b: Seq<u8>, off: int) -> int {
    le16(b, off) + 65536 * le16(b, off + 2)
}

/// The 64-bit little-endian value stored at `off`.
pub open spec fn le64(b: Seq<u8>, off: int) -> int {
    le32(b, off) + 4294967296 * le32(b, off + 4)
}

pub fn read_u16(b: &[u8], off: usize) -> (r: u16)
    requires
        off + 2 <= b@.len(),
    ensures
        r as int == le16(b@, off as int),
{
    (b[off] as u16) + 256 * (b[off + 1] as u16)
}

pub fn read_u32(b: &[u8], off: usize) -> (r: u32)
    requires
        off + 4 <= b@.len(),
    ensures
        r as int == le32(b@, off as int),
{
    assert(off + 4 <= b.len());
    let lo = read_u16(b, off);
    let hi = read_u16(b, off + 2);
    (lo as u32) + 65536 * (hi as u32)
}

pub fn read_u64(b: &[u8], off: usize) -> (r: u64)
    requires
        off + 8 <= b@.len(),
    ensures
        r as int == le64(b@, off as int),
{
    assert(off + 8 <= b.len());
    let lo = read_u32(b, off);
    let hi = read_u32(b, off + 4);
    (lo as u64) + 4294967296 * (hi as u64)
}

} // verus!
