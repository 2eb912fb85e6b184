use vstd::prelude::*;

verus! {

/// The unsigned little-endian integer held by `b[i]` and `b[i + 1]`.
pub open spec fn le_u16(b: Seq<u8>, i: int) -> int {
    b[i] as int + 256 * b[i + 1] as int
}

/// The unsigned little-endian integer held by the four bytes from `b[i]`.
pub open spec fn le_u32(b: Seq<u8>, i: int) -> int {
    le_u16(b, i) + 65536 * le_u16(b, i + 2)
}

/// The unsigned little-endian integer held by the eight bytes from `b[i]`.
pub open spec fn le_u64(b: Seq<u8>, i: int) -> int {
    le_u32(b, i) + 4294967296 * le_u32(b, i + 4)
}

/// Whether `n` bytes starting at offset `pos` lie within `b`.
pub open spec fn in_bounds(b: Seq<u8>, pos: int, n: int) -> bool {
    0 <= pos && pos + n <= b.len()
}

/// Whether `n` bytes starting at offset `pos` lie both within the reader `b`
/// and within a byte range of length `len`.
pub open spec fn readable(b: Seq<u8>, len: u64, pos: int, n: int) -> bool {
    in_bounds(b, pos, n) && pos + n <= len
}

/// Tells whether `n` bytes starting at `pos` can be read from `b` without
/// leaving a byte range of length `len`.
pub fn can_read(b: &[u8], len: u64, pos: u64, n: u64) -> (r: bool)
    ensures
        r == readable(b@, len, pos as int, n as int),
        b@.len() <= usize::MAX,
{
    has_bytes(b, pos, n) && n <= len && pos <= len - n
}

/// Tells whether `n` bytes starting at `pos` can be read from `b`.
pub fn has_bytes(b: &[u8], pos: u64, n: u64) -> (r: bool)
    ensures
        r == in_bounds(b@, pos as int, n as int),
        b@.len() <= usize::MAX,
{
    let len = b.len() as u64;
    pos <= len && n <= len - pos
}

pub fn read_u16_le(b: &[u8], i: usize) -> (r: u16)
    requires
        i + 2 <= b@.len(),
    ensures
        r as int == le_u16(b@, i as int),
{
    b[i] as u16 + 256 * (b[i + 1] as u16)
}

pub fn read_u32_le(b: &[u8], i: usize) -> (r: u32)
    requires
        i + 4 <= b@.len(),
    ensures
        r as int == le_u32(b@, i as int),
{
    let _len = b.len();
    let lo = read_u16_le(b, i);
    let hi = read_u16_le(b, i + 2);
    lo as u32 + 65536 * (hi as u32)
}

pub fn read_u64_le(b: &[u8], i: usize) -> (r: u64)
    requires
        i + 8 <= b@.len(),
    ensures
        r as int == le_u64(b@, i as int),
{
    let _len = b.len();
    let lo = read_u32_le(b, i);
    let hi = read_u32_le(b, i + 4);
    lo as u64 + 4294967296 * (hi as u64)
}

} // verus!
