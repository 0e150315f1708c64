//! The configuration-header decoder.
//!
//! The first 16 configuration bytes of every function form the common
//! device header; when the header type's low seven bits are zero the first
//! 64 bytes additionally form a type-0 header with six Base Address
//! Registers, the capabilities pointer and the interrupt routing fields.

use vstd::prelude::*;

use crate::bytes::{read_u16, read_u32, u16_le, u32_le};
use crate::space::ConfigSpace;

verus! {

/// Bytes of the common device header.
pub const DEVICE_HEADER_BYTES: usize = 16;

/// Bytes of a type-0 header.
pub const HEADER_TYPE_0_BYTES: usize = 64;

/// The common configuration header every function starts with.
#[derive(Clone, Copy, Debug)]
pub struct PCIDeviceHeader {
    pub vendor_id: u16,
    pub device_id: u16,
    pub command: u16,
    pub status: u16,
    pub revision_id: u8,
    pub prog_if: u8,
    pub subclass: u8,
    pub class: u8,
    pub cache_line_size: u8,
    pub latency_timer: u8,
    pub header_type: u8,
    pub bist: u8,
}

/// The extended type-0 header of an endpoint function.
#[derive(Clone, Copy, Debug)]
pub struct PCIHeaderType0 {
    pub pci_device_header: PCIDeviceHeader,
    pub bar_0: u32,
    pub bar_1: u32,
    pub bar_2: u32,
    pub bar_3: u32,
    pub bar_4: u32,
    pub bar_5: u32,
    pub cardbus_cis_pointer: u32,
    pub subsystem_vendor_id: u16,
    pub subsystem_id: u16,
    pub expansion_rom_base_address: u32,
    pub capabilities_pointer: u8,
    pub interrupt_line: u8,
    pub interrupt_pin: u8,
    pub min_grant: u8,
    pub max_latency: u8,
}

/// The common header decoded from the first 16 configuration bytes.
pub open spec fn spec_device_header(c: Seq<u8>) -> PCIDeviceHeader {
    PCIDeviceHeader {
        vendor_id: u16_le(c, 0) as u16,
        device_id: u16_le(c, 2) as u16,
        command: u16_le(c, 4) as u16,
        status: u16_le(c, 6) as u16,
        revision_id: c[8],
        prog_if: c[9],
        subclass: c[10],
        class: c[11],
        cache_line_size: c[12],
        latency_timer: c[13],
        header_type: c[14],
        bist: c[15],
    }
}

/// True when the header type announces a type-0 layout: the low seven
/// bits are zero (the top bit only flags a multi-function device).
pub open spec fn spec_is_type_0(c: Seq<u8>) -> bool {
    c[14] % 0x80 == 0
}

/// The type-0 header decoded from the first 64 configuration bytes.
pub open spec fn spec_header_type_0(c: Seq<u8>) -> PCIHeaderType0 {
    PCIHeaderType0 {
        pci_device_header: spec_device_header(c),
        bar_0: u32_le(c, 0x10) as u32,
        bar_1: u32_le(c, 0x14) as u32,
        bar_2: u32_le(c, 0x18) as u32,
        bar_3: u32_le(c, 0x1C) as u32,
        bar_4: u32_le(c, 0x20) as u32,
        bar_5: u32_le(c, 0x24) as u32,
        cardbus_cis_pointer: u32_le(c, 0x28) as u32,
        subsystem_vendor_id: u16_le(c, 0x2C) as u16,
        subsystem_id: u16_le(c, 0x2E) as u16,
        expansion_rom_base_address: u32_le(c, 0x30) as u32,
        capabilities_pointer: c[0x34],
        interrupt_line: c[0x3C],
        interrupt_pin: c[0x3D],
        min_grant: c[0x3E],
        max_latency: c[0x3F],
    }
}

impl PCIDeviceHeader {
    /// Decodes the common header from a function's configuration bytes.
    pub fn from_bytes(config: &Vec<u8>) -> (r: PCIDeviceHeader)
        requires
            config@.len() >= DEVICE_HEADER_BYTES,
        ensures
            r == spec_device_header(config@),
    {
        PCIDeviceHeader {
            vendor_id: read_u16(config, 0),
            device_id: read_u16(config, 2),
            command: read_u16(config, 4),
            status: read_u16(config, 6),
            revision_id: config[8],
            prog_if: config[9],
            subclass: config[10],
            class: config[11],
            cache_line_size: config[12],
            latency_timer: config[13],
            header_type: config[14],
            bist: config[15],
        }
    }
}

impl PCIHeaderType0 {
    /// Decodes the type-0 header.  The caller must have tested the header
    /// type first: any other layout decodes into unrelated bytes.
    pub fn from_bytes(config: &Vec<u8>) -> (r: PCIHeaderType0)
        requires
            config@.len() >= HEADER_TYPE_0_BYTES,
            spec_is_type_0(config@),
        ensures
            r == spec_header_type_0(config@),
    {
        PCIHeaderType0 {
            pci_device_header: PCIDeviceHeader::from_bytes(config),
            bar_0: read_u32(config, 0x10),
            bar_1: read_u32(config, 0x14),
            bar_2: read_u32(config, 0x18),
            bar_3: read_u32(config, 0x1C),
            bar_4: read_u32(config, 0x20),
            bar_5: read_u32(config, 0x24),
            cardbus_cis_pointer: read_u32(config, 0x28),
            subsystem_vendor_id: read_u16(config, 0x2C),
            subsystem_id: read_u16(config, 0x2E),
            expansion_rom_base_address: read_u32(config, 0x30),
            capabilities_pointer: config[0x34],
            interrupt_line: config[0x3C],
            interrupt_pin: config[0x3D],
            min_grant: config[0x3E],
            max_latency: config[0x3F],
        }
    }

    /// The guarded upgrade from raw bytes to a type-0 view: succeeds
    /// exactly when there are enough bytes and the header type announces
    /// layout 0.
    pub fn try_from_bytes(config: &Vec<u8>) -> (r: Option<PCIHeaderType0>)
        ensures
            (config@.len() >= HEADER_TYPE_0_BYTES && spec_is_type_0(config@)) ==> r == Some(
                spec_header_type_0(config@),
            ),
            !(config@.len() >= HEADER_TYPE_0_BYTES && spec_is_type_0(config@)) ==> r == None::<
                PCIHeaderType0,
            >,
    {
        if config.len() < HEADER_TYPE_0_BYTES {
            return None;
        }
        if config[14] % 0x80 != 0 {
            return None;
        }
        Some(PCIHeaderType0::from_bytes(config))
    }
}

/// The opaque handle an enumerated function is known by: its
/// configuration-space kernel address.
#[derive(Clone, Copy, Debug)]
pub struct PCIFunction {
    pub function_address: u64,
}

impl PCIFunction {
    /// Decodes the function's common device header out of the snapshot,
    /// when the snapshot maps enough bytes at this address.
    pub fn device_header(&self, space: &ConfigSpace) -> (r: Option<PCIDeviceHeader>)
        requires
            space.wf(),
        ensures
            match space.cfg_at(self.function_address) {
                Some(c) => if c.len() >= DEVICE_HEADER_BYTES {
                    r == Some(spec_device_header(c))
                } else {
                    r == None::<PCIDeviceHeader>
                },
                None => r == None::<PCIDeviceHeader>,
            },
    {
        match self.config_index(space) {
            Some(i) => {
                let c = &space.funcs[i].config;
                if c.len() >= DEVICE_HEADER_BYTES {
                    Some(PCIDeviceHeader::from_bytes(c))
                } else {
                    None
                }
            },
            None => None,
        }
    }

    /// The guarded upgrade of this function to a type-0 header view.
    pub fn header_type_0(&self, space: &ConfigSpace) -> (r: Option<PCIHeaderType0>)
        requires
            space.wf(),
        ensures
            match space.cfg_at(self.function_address) {
                Some(c) => if c.len() >= HEADER_TYPE_0_BYTES && spec_is_type_0(c) {
                    r == Some(spec_header_type_0(c))
                } else {
                    r == None::<PCIHeaderType0>
                },
                None => r == None::<PCIHeaderType0>,
            },
    {
        match self.config_index(space) {
            Some(i) => PCIHeaderType0::try_from_bytes(&space.funcs[i].config),
            None => None,
        }
    }

    /// Index of this function's snapshot record.
    fn config_index(&self, space: &ConfigSpace) -> (r: Option<usize>)
        requires
            space.wf(),
        ensures
            match r {
                Some(i) => {
                    &&& i < space.funcs@.len()
                    &&& space.funcs@[i as int].address == self.function_address
                    &&& space.cfg_at(self.function_address) == Some(
                        space.funcs@[i as int].config@,
                    )
                },
                None => space.cfg_at(self.function_address) == None::<Seq<u8>>,
            },
    {
        let mut i: usize = 0;
        while i < space.funcs.len()
            invariant
                space.wf(),
                i <= space.funcs@.len(),
                forall|j: int| 0 <= j < i ==> space.funcs@[j].address != self.function_address,
            decreases space.funcs@.len() - i,
        {
            if space.funcs[i].address == self.function_address {
                return Some(i);
            }
            i = i + 1;
        }
        None
    }
}

} // verus!
