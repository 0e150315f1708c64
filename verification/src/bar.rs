//! The Base Address Register resolver.
//!
//! One raw 32-bit register decodes into `{is_io, bar_type, prefetchable,
//! address}`; a 64-bit window spans two consecutive raw registers.  The
//! resolver decodes, it does not validate: garbage input yields a garbage
//! but well-typed result.

use vstd::prelude::*;

verus! {

/// Type field value of a 32-bit memory BAR.
pub const BAR_TYPE_32_BIT: u8 = 0;

/// Type field value of a 64-bit memory BAR, whose window continues in the
/// next raw register.
pub const BAR_TYPE_64_BIT: u8 = 2;

/// One decoded Base Address Register.
#[derive(Clone, Copy, Debug)]
pub struct BAR {
    /// Bit 0: the window is in I/O space rather than memory space.
    pub is_io: bool,
    /// Bits 1..=2: the memory-BAR type field.
    pub bar_type: u8,
    /// Bit 3: reads through the window may be prefetched.
    pub prefetchable: bool,
    /// Bits 4..=31: the significant address bits; the low four address
    /// bits are implicitly zero.
    pub address: u32,
}

/// Field-by-field decoding of a raw register.
pub open spec fn spec_decode_bar(reg: u32) -> BAR {
    BAR {
        is_io: reg & 1 == 1,
        bar_type: ((reg >> 1) & 3) as u8,
        prefetchable: (reg >> 3) & 1 == 1,
        address: reg >> 4,
    }
}

/// The raw register a decoded BAR stands for.
pub open spec fn spec_encode_bar(bar: BAR) -> u32 {
    (bar.address << 4) | ((if bar.prefetchable {
        1u32
    } else {
        0u32
    }) << 3) | ((bar.bar_type as u32) << 1) | (if bar.is_io {
        1u32
    } else {
        0u32
    })
}

/// The 64-bit window base described by a (low, high) register pair: the
/// low register with its four flag bits masked off, the high register as
/// the upper half.
pub open spec fn spec_bar_64_address(bar_l: u32, bar_h: u32) -> u64 {
    ((bar_l & 0xFFFF_FFF0) as u64) | ((bar_h as u64) << 32)
}

impl BAR {
    /// Decodes one raw 32-bit register.
    pub fn from(reg: u32) -> (r: BAR)
        ensures
            r == spec_decode_bar(reg),
    {
        BAR {
            is_io: reg & 1 == 1,
            bar_type: ((reg >> 1) & 3) as u8,
            prefetchable: (reg >> 3) & 1 == 1,
            address: reg >> 4,
        }
    }

    /// Reassembles the raw register this decoded BAR stands for.
    pub fn encode(&self) -> (r: u32)
        requires
            self.bar_type < 4,
        ensures
            r == spec_encode_bar(*self),
    {
        (self.address << 4u32) | ((if self.prefetchable {
            1u32
        } else {
            0u32
        }) << 3u32) | ((self.bar_type as u32) << 1u32) | (if self.is_io {
            1u32
        } else {
            0u32
        })
    }
}

/// Law: decoding a raw register and re-encoding it reproduces the register
/// exactly — in particular the type and prefetchable control bits.
pub proof fn lemma_bar_round_trip(reg: u32)
    ensures
        spec_encode_bar(spec_decode_bar(reg)) == reg,
{
    assert(((reg >> 4) << 4) | ((if (reg >> 3) & 1 == 1 {
        1u32
    } else {
        0u32
    }) << 3) | ((((reg >> 1) & 3) as u8 as u32) << 1) | (if reg & 1 == 1 {
        1u32
    } else {
        0u32
    }) == reg) by (bit_vector);
}

/// Reconstructs the 64-bit window base from the two raw registers of a
/// 64-bit BAR.
pub fn bar_64_address(bar_l: u32, bar_h: u32) -> (r: u64)
    ensures
        r == spec_bar_64_address(bar_l, bar_h),
{
    ((bar_l & 0xFFFF_FFF0) as u64) | ((bar_h as u64) << 32u64)
}

/// Kernel address of the structure a 32-bit BAR points at: the raw
/// register taken as a physical address, translated by the
/// physical-memory offset.
pub fn bar_to_struct(bar: u32, physical_memory_offset: u64) -> (r: u64)
    requires
        bar + physical_memory_offset <= u64::MAX,
    ensures
        r == bar + physical_memory_offset,
{
    bar as u64 + physical_memory_offset
}

/// Kernel address of the structure a 64-bit BAR register pair points at:
/// the reconstructed window base — low register with its four flag bits
/// masked off, high register as the upper half — translated by the
/// physical-memory offset.
pub fn bar_to_struct_64(bar_l: u32, bar_h: u32, physical_memory_offset: u64) -> (r: u64)
    requires
        spec_bar_64_address(bar_l, bar_h) + physical_memory_offset <= u64::MAX,
    ensures
        r == spec_bar_64_address(bar_l, bar_h) + physical_memory_offset,
{
    bar_64_address(bar_l, bar_h) + physical_memory_offset
}

} // verus!
