//! The firmware MCFG table: the directory of ECAM configuration-space
//! regions.
//!
//! The table is a generic ACPI header (36 bytes) followed by 8 reserved
//! bytes and then a packed array of 16-byte region records
//! `{base_address: u64, segment_group: u16, start_bus: u8, end_bus: u8,
//! reserved: u32}`.  A table whose declared length is shorter than the
//! header, or longer than the bytes actually handed over, is malformed and
//! yields no regions.

use vstd::prelude::*;

use crate::bytes::{read_u16, read_u64, read_u32, u16_le, u32_le, u64_le};

verus! {

/// Bytes of the fixed part of the table: the ACPI header plus the reserved
/// doubleword that precedes the region records.
pub const MCFG_HEADER_BYTES: usize = 44;

/// Bytes of one region record.
pub const MCFG_ENTRY_BYTES: usize = 16;

/// One ECAM configuration-space region: all buses in
/// `[start_bus, end_bus)` of one segment group, reachable from one
/// physical base address.
#[derive(Clone, Copy, Debug)]
pub struct PCIDeviceConfiguration {
    pub base_address: u64,
    pub segment_group: u16,
    pub start_bus: u8,
    pub end_bus: u8,
}

/// The raw MCFG table, exactly as the firmware laid it out in memory.
pub struct MCFGTable {
    pub bytes: Vec<u8>,
}

impl MCFGTable {
    /// The byte length the ACPI header declares for the whole table.
    pub open spec fn spec_declared_length(self) -> int {
        u32_le(self.bytes@, 4)
    }

    /// A table is well formed when its declared length covers the fixed
    /// header and does not reach past the bytes that are actually there.
    pub open spec fn spec_valid(self) -> bool {
        &&& self.bytes@.len() >= MCFG_HEADER_BYTES
        &&& MCFG_HEADER_BYTES <= self.spec_declared_length() <= self.bytes@.len()
    }

    /// How many region records the table holds; a malformed table holds
    /// none.
    pub open spec fn spec_entry_count(self) -> int {
        if self.spec_valid() {
            (self.spec_declared_length() - MCFG_HEADER_BYTES) / MCFG_ENTRY_BYTES as int
        } else {
            0
        }
    }

    /// The region record at index `i`, decoded field by field.
    pub open spec fn spec_entry(self, i: int) -> PCIDeviceConfiguration {
        let base = MCFG_HEADER_BYTES + MCFG_ENTRY_BYTES * i;
        PCIDeviceConfiguration {
            base_address: u64_le(self.bytes@, base) as u64,
            segment_group: u16_le(self.bytes@, base + 8) as u16,
            start_bus: self.bytes@[base + 10],
            end_bus: self.bytes@[base + 11],
        }
    }

    /// Number of region records that follow the table header:
    /// `(declared length - header size) / entry size`, or zero for a
    /// malformed table.
    pub fn entry_count(&self) -> (r: usize)
        ensures
            r == self.spec_entry_count(),
    {
        if self.bytes.len() < MCFG_HEADER_BYTES {
            return 0;
        }
        let declared = read_u32(&self.bytes, 4);
        if declared < MCFG_HEADER_BYTES as u32 || declared as usize > self.bytes.len() {
            return 0;
        }
        (declared as usize - MCFG_HEADER_BYTES) / MCFG_ENTRY_BYTES
    }

    /// Decodes the region record at index `i`.
    pub fn entry(&self, i: usize) -> (r: PCIDeviceConfiguration)
        requires
            i < self.spec_entry_count(),
        ensures
            r == self.spec_entry(i as int),
    {
        proof {
            let d = self.spec_declared_length();
            assert(MCFG_ENTRY_BYTES * ((d - MCFG_HEADER_BYTES) / MCFG_ENTRY_BYTES as int) <= d
                - MCFG_HEADER_BYTES) by {
                vstd::arithmetic::div_mod::lemma_fundamental_div_mod(
                    d - MCFG_HEADER_BYTES,
                    MCFG_ENTRY_BYTES as int,
                );
            };
            assert(MCFG_ENTRY_BYTES * (i + 1) <= MCFG_ENTRY_BYTES * ((d - MCFG_HEADER_BYTES)
                / MCFG_ENTRY_BYTES as int)) by (nonlinear_arith)
                requires
                    i + 1 <= (d - MCFG_HEADER_BYTES) / MCFG_ENTRY_BYTES as int,
            ;
        }
        let base = MCFG_HEADER_BYTES + MCFG_ENTRY_BYTES * i;
        PCIDeviceConfiguration {
            base_address: read_u64(&self.bytes, base),
            segment_group: read_u16(&self.bytes, base + 8),
            start_bus: self.bytes[base + 10],
            end_bus: self.bytes[base + 11],
        }
    }

    /// A fresh cursor over the table's region records.
    pub fn iter(&self) -> (r: MCFGIterator)
        ensures
            r.index == 0,
    {
        MCFGIterator { index: 0 }
    }
}

/// Cursor over the region records of an [`MCFGTable`].
#[derive(Clone, Copy, Debug)]
pub struct MCFGIterator {
    pub index: usize,
}

impl MCFGIterator {
    /// Yields the next region record, or `None` once the table's declared
    /// length is exhausted.
    pub fn next(&mut self, table: &MCFGTable) -> (r: Option<PCIDeviceConfiguration>)
        ensures
            old(self).index < table.spec_entry_count() ==> (r == Some(
                table.spec_entry(old(self).index as int),
            ) && final(self).index == old(self).index + 1),
            old(self).index >= table.spec_entry_count() ==> (r == None::<PCIDeviceConfiguration>
                && final(self).index == old(self).index),
    {
        let count = table.entry_count();
        if self.index < count {
            let e = table.entry(self.index);
            self.index = self.index + 1;
            Some(e)
        } else {
            None
        }
    }
}

} // verus!
