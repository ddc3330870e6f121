//! Little-endian integer reads.
use vstd::prelude::*;

verus! {

/// The little-endian value of four bytes.
pub open spec fn le32(b0: u8, b1: u8, b2: u8, b3: u8) -> nat {
    b0 as nat + 256 * (b1 as nat) + 65536 * (b2 as nat) + 16777216 * (b3 as nat)
}

/// Reads the little-endian `u32` stored at `d[at..at + 4]`.
pub fn read_u32_le(d: &[u8], at: usize) -> (r: u32)
    requires
        at + 4 <= d@.len(),
    ensures
        r as nat == le32(d@[at as int], d@[at + 1], d@[at + 2], d@[at + 3]),
{
    (d[at] as u32) + (d[at + 1] as u32) * 256 + (d[at + 2] as u32) * 65536 + (d[at + 3] as u32)
        * 16777216
}

/// The little-endian value of eight bytes starting at `at`.
pub open spec fn le64(d: Seq<u8>, at: int) -> nat {
    le32(d[at], d[at + 1], d[at + 2], d[at + 3]) + 4294967296 * le32(
        d[at + 4],
        d[at + 5],
        d[at + 6],
        d[at + 7],
    )
}

/// Reads the little-endian `u64` stored at `d[at..at + 8]`.
pub fn read_u64_le(d: &[u8], at: usize) -> (r: u64)
    requires
        at + 8 <= d@.len(),
    ensures
        r as nat == le64(d@, at as int),
{
    let n = d.len();
    assert(at + 4 < n);
    let lo = read_u32_le(d, at) as u64;
    let hi = read_u32_le(d, at + 4) as u64;
    lo + hi * 4294967296
}

} // verus!
