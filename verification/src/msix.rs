//! The MSI-X manager: locating the capability in a device's capability
//! list, enabling it, and resolving the vector table and pending-bit
//! array.
//!
//! The capability is 12 bytes: identifier, next pointer, the message
//! control word (11-bit table size encoding N-1 entries, function mask,
//! enable), then one doubleword each for the table and the pending-bit
//! array, holding a 3-bit BAR index and a 29-bit offset that must be
//! shifted left by 3 to give a byte offset.

use vstd::prelude::*;

use crate::bar::{bar_64_address, spec_bar_64_address};
use crate::bytes::{lemma_u32_le_bounds, read_u16, read_u32, u16_le, u32_le, u64_le};

verus! {

/// Capability identifier of MSI-X.
pub const MSIX_CAPABILITY_ID: u8 = 0x11;

/// Bytes of the MSI-X capability structure.
pub const MSIX_CAPABILITY_BYTES: usize = 12;

/// Bytes of one vector-table entry.
pub const MSIX_TABLE_ENTRY_BYTES: usize = 16;

/// Most steps a capability-list walk may take before it is treated as a
/// fatal configuration error: the list lives in 256 bytes of
/// configuration space, so a longer walk can only be a cycle.
pub const CAPABILITY_WALK_BOUND: u32 = 256;

/// The decoded MSI-X capability of one function.
#[derive(Clone, Copy, Debug)]
pub struct MSIXCapability {
    pub capability_id: u8,
    pub next_pointer: u8,
    /// 11-bit field encoding the number of vector-table entries minus
    /// one.
    pub table_size: u16,
    pub function_mask: bool,
    pub enable: bool,
    /// 3-bit index of the BAR that holds the vector table.
    pub bir: u8,
    /// 29-bit raw table offset; shift left by 3 for the byte offset.
    pub table_offset_raw: u32,
    pub pending_bit_bir: u8,
    pub pending_bit_offset_raw: u32,
}

/// One vector-table entry as it lies in the BAR window.
#[derive(Clone, Copy, Debug)]
pub struct MSIXTableEntry {
    pub message_address: u64,
    pub message_data: u32,
    pub vector_control: u32,
}

impl MSIXCapability {
    /// Field ranges that any capability decoded from bytes satisfies.
    pub open spec fn wf(self) -> bool {
        &&& self.table_size < 0x800
        &&& self.bir < 8
        &&& self.table_offset_raw < 0x2000_0000
        &&& self.pending_bit_bir < 8
        &&& self.pending_bit_offset_raw < 0x2000_0000
    }
}

/// The capability decoded from the 12 bytes at offset `o`.
pub open spec fn spec_msix_capability(c: Seq<u8>, o: int) -> MSIXCapability {
    MSIXCapability {
        capability_id: c[o],
        next_pointer: c[o + 1],
        table_size: (u16_le(c, o + 2) % 0x800) as u16,
        function_mask: (u16_le(c, o + 2) / 0x4000) % 2 == 1,
        enable: (u16_le(c, o + 2) / 0x8000) % 2 == 1,
        bir: (u32_le(c, o + 4) % 8) as u8,
        table_offset_raw: (u32_le(c, o + 4) / 8) as u32,
        pending_bit_bir: (u32_le(c, o + 8) % 8) as u8,
        pending_bit_offset_raw: (u32_le(c, o + 8) / 8) as u32,
    }
}

/// The vector-table entry decoded from the 16 bytes at offset `o`.
pub open spec fn spec_table_entry(m: Seq<u8>, o: int) -> MSIXTableEntry {
    MSIXTableEntry {
        message_address: u64_le(m, o) as u64,
        message_data: u32_le(m, o + 8) as u32,
        vector_control: u32_le(m, o + 12) as u32,
    }
}

/// Outcome of walking the capability list from pointer `ptr` with `fuel`
/// steps left: the offset of the first record whose identifier is `id`,
/// or `None` when a null pointer, a truncated record or exhausted fuel
/// ends the walk.
pub open spec fn spec_find_capability(c: Seq<u8>, ptr: u8, id: u8, fuel: nat) -> Option<u8>
    decreases fuel,
{
    if fuel == 0 || ptr == 0 {
        None
    } else if ptr + 2 > c.len() {
        None
    } else if c[ptr as int] == id {
        Some(ptr)
    } else {
        spec_find_capability(c, c[ptr + 1], id, (fuel - 1) as nat)
    }
}

/// Walks the singly linked capability list embedded in a function's
/// configuration bytes, starting at the capabilities pointer, until it
/// finds the identifier, hits the null pointer, or exceeds the cycle
/// bound.  "Not found" is an explicit outcome, distinct from device
/// absence.
pub fn find_capability(config: &Vec<u8>, capabilities_pointer: u8, capability_id: u8) -> (r: Option<
    u8,
>)
    ensures
        r == spec_find_capability(
            config@,
            capabilities_pointer,
            capability_id,
            CAPABILITY_WALK_BOUND as nat,
        ),
{
    let mut ptr: u8 = capabilities_pointer;
    let mut fuel: u32 = CAPABILITY_WALK_BOUND;
    loop
        invariant
            fuel <= CAPABILITY_WALK_BOUND,
            spec_find_capability(config@, capabilities_pointer, capability_id, CAPABILITY_WALK_BOUND as nat)
                == spec_find_capability(config@, ptr, capability_id, fuel as nat),
        decreases fuel,
    {
        if fuel == 0 || ptr == 0 {
            return None;
        }
        if ptr as usize + 2 > config.len() {
            return None;
        }
        if config[ptr as usize] == capability_id {
            return Some(ptr);
        }
        ptr = config[ptr as usize + 1];
        fuel = fuel - 1;
    }
}

impl MSIXCapability {
    /// Decodes the capability structure at `offset` in a function's
    /// configuration bytes.
    pub fn from_bytes(config: &Vec<u8>, offset: usize) -> (r: MSIXCapability)
        requires
            offset + MSIX_CAPABILITY_BYTES <= config@.len(),
        ensures
            r == spec_msix_capability(config@, offset as int),
            r.wf(),
    {
        proof {
            lemma_u32_le_bounds(config@, offset + 4);
            lemma_u32_le_bounds(config@, offset + 8);
        }
        let _n: usize = config.len();  // the byte length fits in usize
        let control = read_u16(config, offset + 2);
        let table = read_u32(config, offset + 4);
        let pending = read_u32(config, offset + 8);
        MSIXCapability {
            capability_id: config[offset],
            next_pointer: config[offset + 1],
            table_size: control % 0x800,
            function_mask: (control / 0x4000) % 2 == 1,
            enable: (control / 0x8000) % 2 == 1,
            bir: (table % 8) as u8,
            table_offset_raw: table / 8,
            pending_bit_bir: (pending % 8) as u8,
            pending_bit_offset_raw: pending / 8,
        }
    }

    /// Byte offset of the vector table inside its BAR window: the raw
    /// 29-bit field shifted left by 3, hence always a multiple of 8.
    pub fn table_offset(&self) -> (r: u32)
        requires
            self.wf(),
        ensures
            r == self.table_offset_raw * 8,
            r % 8 == 0,
    {
        proof {
            vstd::arithmetic::div_mod::lemma_mod_multiples_basic(self.table_offset_raw as int, 8);
        }
        self.table_offset_raw * 8
    }

    /// Byte offset of the pending-bit array inside its BAR window; a
    /// multiple of 8 by the same shift rule.
    pub fn pending_bit_offset(&self) -> (r: u32)
        requires
            self.wf(),
        ensures
            r == self.pending_bit_offset_raw * 8,
            r % 8 == 0,
    {
        proof {
            vstd::arithmetic::div_mod::lemma_mod_multiples_basic(
                self.pending_bit_offset_raw as int,
                8,
            );
        }
        self.pending_bit_offset_raw * 8
    }

    /// The message control word this capability stands for, as it is
    /// written back to the device — for instance after setting the
    /// enable bit.  Only the decoded fields are carried: the reserved
    /// bits 11 to 13 are written back as zero, as the contract states.
    pub fn control_word(&self) -> (r: u16)
        requires
            self.wf(),
        ensures
            r == self.table_size + (if self.function_mask {
                0x4000int
            } else {
                0int
            }) + (if self.enable {
                0x8000int
            } else {
                0int
            }),
    {
        self.table_size + (if self.function_mask {
            0x4000u16
        } else {
            0u16
        }) + (if self.enable {
            0x8000u16
        } else {
            0u16
        })
    }

    /// Number of vector-table entries: the 11-bit field encodes one less
    /// than the count.
    pub fn table_entry_count(&self) -> (r: u16)
        requires
            self.wf(),
        ensures
            r == self.table_size + 1,
    {
        self.table_size + 1
    }

    /// The raw BAR register pair the vector table lives behind: the
    /// doublewords at `0x10 + 4 * bir` of the function's header.
    pub open spec fn spec_table_bar_pair(self, c: Seq<u8>) -> (int, int) {
        (u32_le(c, 0x10 + 4 * self.bir), u32_le(c, 0x14 + 4 * self.bir))
    }

    /// Kernel address of the vector table: the BAR window named by `bir`,
    /// low flag bits masked, translated by the physical-memory offset,
    /// plus the shifted table offset.
    pub open spec fn spec_table_address(self, c: Seq<u8>, physical_memory_offset: u64) -> int {
        spec_bar_64_address(
            u32_le(c, 0x10 + 4 * self.bir) as u32,
            u32_le(c, 0x14 + 4 * self.bir) as u32,
        ) + self.table_offset_raw * 8 + physical_memory_offset
    }

    /// Kernel address of the pending-bit array, resolved the same way
    /// through `pending_bit_bir`.
    pub open spec fn spec_pending_bit_address(
        self,
        c: Seq<u8>,
        physical_memory_offset: u64,
    ) -> int {
        spec_bar_64_address(
            u32_le(c, 0x10 + 4 * self.pending_bit_bir) as u32,
            u32_le(c, 0x14 + 4 * self.pending_bit_bir) as u32,
        ) + self.pending_bit_offset_raw * 8 + physical_memory_offset
    }

    /// Resolves the vector table's kernel address from the owning
    /// function's configuration bytes.
    pub fn table_address(&self, config: &Vec<u8>, physical_memory_offset: u64) -> (r: u64)
        requires
            self.wf(),
            config@.len() >= crate::header::HEADER_TYPE_0_BYTES,
            self.spec_table_address(config@, physical_memory_offset) <= u64::MAX,
        ensures
            r == self.spec_table_address(config@, physical_memory_offset),
    {
        let _n: usize = config.len();  // the byte length fits in usize
        let bar_l = read_u32(config, 0x10 + 4 * (self.bir as usize));
        let bar_h = read_u32(config, 0x14 + 4 * (self.bir as usize));
        let base = bar_64_address(bar_l, bar_h);
        base + self.table_offset() as u64 + physical_memory_offset
    }

    /// Resolves the pending-bit array's kernel address.
    pub fn pending_bit_address(&self, config: &Vec<u8>, physical_memory_offset: u64) -> (r: u64)
        requires
            self.wf(),
            config@.len() >= crate::header::HEADER_TYPE_0_BYTES,
            self.spec_pending_bit_address(config@, physical_memory_offset) <= u64::MAX,
        ensures
            r == self.spec_pending_bit_address(config@, physical_memory_offset),
    {
        let _n: usize = config.len();  // the byte length fits in usize
        let bar_l = read_u32(config, 0x10 + 4 * (self.pending_bit_bir as usize));
        let bar_h = read_u32(config, 0x14 + 4 * (self.pending_bit_bir as usize));
        let base = bar_64_address(bar_l, bar_h);
        base + self.pending_bit_offset() as u64 + physical_memory_offset
    }

    /// Enables MSI-X delivery and resolves the vector table: sets the
    /// enable bit of the control word and returns the table's kernel
    /// address, computed from the owning function's header bytes.  The
    /// caller writes the updated control word back to the device;
    /// enabling MSI-X implicitly disables the function's legacy INTx
    /// line.
    pub fn init(&mut self, config: &Vec<u8>, physical_memory_offset: u64) -> (r: u64)
        requires
            old(self).wf(),
            config@.len() >= crate::header::HEADER_TYPE_0_BYTES,
            old(self).spec_table_address(config@, physical_memory_offset) <= u64::MAX,
        ensures
            *final(self) == (MSIXCapability { enable: true, ..*old(self) }),
            r == old(self).spec_table_address(config@, physical_memory_offset),
    {
        self.enable = true;
        self.table_address(config, physical_memory_offset)
    }
}

impl MSIXTableEntry {
    /// Decodes one vector-table entry from the table's memory bytes.
    pub fn from_bytes(table: &Vec<u8>, offset: usize) -> (r: MSIXTableEntry)
        requires
            offset + MSIX_TABLE_ENTRY_BYTES <= table@.len(),
        ensures
            r == spec_table_entry(table@, offset as int),
    {
        let _n: usize = table.len();  // the byte length fits in usize
        MSIXTableEntry {
            message_address: crate::bytes::read_u64(table, offset),
            message_data: read_u32(table, offset + 8),
            vector_control: read_u32(table, offset + 12),
        }
    }

    /// Bit 0 of the vector control word masks the vector.
    pub fn is_masked(&self) -> (r: bool)
        ensures
            r == (self.vector_control % 2 == 1),
    {
        self.vector_control % 2 == 1
    }
}

/// Enumerates `count` vector-table entries from the table's memory,
/// sixteen bytes apart from offset 0 on.
pub fn vector_table(table: &Vec<u8>, count: usize) -> (r: Vec<MSIXTableEntry>)
    requires
        count * MSIX_TABLE_ENTRY_BYTES <= table@.len(),
    ensures
        r@.len() == count,
        forall|i: int|
            0 <= i < count ==> r@[i] == spec_table_entry(table@, i * MSIX_TABLE_ENTRY_BYTES),
{
    let _n: usize = table.len();  // the byte length fits in usize
    let mut r: Vec<MSIXTableEntry> = Vec::new();
    let mut i: usize = 0;
    while i < count
        invariant
            count * MSIX_TABLE_ENTRY_BYTES <= table@.len(),
            table@.len() <= usize::MAX,
            i <= count,
            r@.len() == i,
            forall|k: int|
                0 <= k < i ==> r@[k] == spec_table_entry(table@, k * MSIX_TABLE_ENTRY_BYTES),
        decreases count - i,
    {
        proof {
            assert((i + 1) * MSIX_TABLE_ENTRY_BYTES <= count * MSIX_TABLE_ENTRY_BYTES)
                by (nonlinear_arith)
                requires
                    i + 1 <= count,
            ;
        }
        r.push(MSIXTableEntry::from_bytes(table, i * MSIX_TABLE_ENTRY_BYTES));
        i = i + 1;
    }
    r
}

} // verus!
