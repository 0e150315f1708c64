//! Little-endian integer fields read out of raw configuration bytes.
//!
//! Every structure this crate decodes (MCFG entries, device headers, BARs,
//! MSI-X capabilities, vector-table entries) is a packed little-endian
//! layout; these are the shared field readers with their mathematical
//! meaning.

use vstd::prelude::*;

verus! {

/// The 16-bit little-endian value stored at byte offset `i`.
pub open spec fn u16_le(b: Seq<u8>, i: int) -> int {
    b[i] + 0x100 * b[i + 1]
}

/// The 32-bit little-endian value stored at byte offset `i`.
pub open spec fn u32_le(b: Seq<u8>, i: int) -> int {
    u16_le(b, i) + 0x1_0000 * u16_le(b, i + 2)
}

/// The 64-bit little-endian value stored at byte offset `i`.
pub open spec fn u64_le(b: Seq<u8>, i: int) -> int {
    u32_le(b, i) + 0x1_0000_0000 * u32_le(b, i + 4)
}

pub proof fn lemma_u32_le_bounds(b: Seq<u8>, i: int)
    requires
        0 <= i,
        i + 4 <= b.len(),
    ensures
        0 <= u32_le(b, i) < 0x1_0000_0000,
{
}

pub fn read_u16(b: &Vec<u8>, i: usize) -> (r: u16)
    requires
        i + 2 <= b@.len(),
    ensures
        r == u16_le(b@, i as int),
{
    let _n: usize = b.len();  // the byte length fits in usize
    b[i] as u16 + b[i + 1] as u16 * 0x100
}

pub fn read_u32(b: &Vec<u8>, i: usize) -> (r: u32)
    requires
        i + 4 <= b@.len(),
    ensures
        r == u32_le(b@, i as int),
{
    let _n: usize = b.len();  // the byte length fits in usize
    read_u16(b, i) as u32 + read_u16(b, i + 2) as u32 * 0x1_0000
}

pub fn read_u64(b: &Vec<u8>, i: usize) -> (r: u64)
    requires
        i + 8 <= b@.len(),
    ensures
        r == u64_le(b@, i as int),
{
    proof {
        lemma_u32_le_bounds(b@, i as int);
        lemma_u32_le_bounds(b@, i + 4);
    }
    let _n: usize = b.len();  // the byte length fits in usize
    read_u32(b, i) as u64 + read_u32(b, i + 4) as u64 * 0x1_0000_0000
}

} // verus!
