//! The ECAM address translator.
//!
//! A (region, bus, device, function) coordinate maps to the physical
//! configuration-space address
//! `region_base + (bus << 20) + (device << 15) + (function << 12)`, and a
//! physical hardware address maps to a kernel-addressable one by adding the
//! fixed physical-memory offset the memory subsystem supplies.

use vstd::prelude::*;

use crate::mcfg::PCIDeviceConfiguration;

verus! {

/// The largest coordinate offset inside one region:
/// bus 255, device 31, function 7 stay strictly below `0x1000_0000`.
pub const REGION_SPAN: u64 = 0xFFF_FFFF;

/// The ECAM formula as a mathematical function of the coordinate.
pub open spec fn spec_config_address(
    region: PCIDeviceConfiguration,
    bus: int,
    device: int,
    function: int,
) -> int {
    region.base_address + bus * 0x10_0000 + device * 0x8000 + function * 0x1000
}

/// True when every coordinate of `region` fits in a `u64` address.
pub open spec fn region_fits(region: PCIDeviceConfiguration) -> bool {
    region.base_address + REGION_SPAN <= u64::MAX
}

/// Physical configuration-space address of a bus/device/function
/// coordinate inside `region`.  Coordinates must be in range before the
/// call; the translation itself never fails.
pub fn config_address(region: &PCIDeviceConfiguration, bus: u8, device: u8, function: u8) -> (r:
    u64)
    requires
        region.start_bus <= bus < region.end_bus,
        device < 32,
        function < 8,
        region_fits(*region),
    ensures
        r == spec_config_address(*region, bus as int, device as int, function as int),
{
    region.base_address + (bus as u64) * 0x10_0000 + (device as u64) * 0x8000 + (function as u64)
        * 0x1000
}

/// Kernel-addressable counterpart of a physical address: the fixed
/// physical-memory offset added on top.
pub fn to_kernel_address(physical: u64, physical_memory_offset: u64) -> (r: u64)
    requires
        physical + physical_memory_offset <= u64::MAX,
    ensures
        r == physical + physical_memory_offset,
{
    physical + physical_memory_offset
}

/// Law: within one region the configuration address of function 0 of
/// device 0 is strictly increasing in the bus number.
pub proof fn lemma_config_address_increasing_in_bus(
    region: PCIDeviceConfiguration,
    b1: int,
    b2: int,
)
    requires
        region.start_bus <= b1 < b2 < region.end_bus,
    ensures
        spec_config_address(region, b1, 0, 0) < spec_config_address(region, b2, 0, 0),
{
    assert(b1 * 0x10_0000 < b2 * 0x10_0000) by (nonlinear_arith)
        requires
            b1 < b2,
    ;
}

} // verus!
