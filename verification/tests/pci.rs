use neutrino_pci::addr::{config_address, to_kernel_address};
use neutrino_pci::bar::{bar_64_address, bar_to_struct, bar_to_struct_64, BAR};
use neutrino_pci::enumerate::{enumerate_region, enumerate_table, PCIBusIterator, PCIConfigurationIterator, PCIDeviceIterator};
use neutrino_pci::header::{PCIDeviceHeader, PCIFunction, PCIHeaderType0};
use neutrino_pci::mcfg::{MCFGTable, PCIDeviceConfiguration};
use neutrino_pci::msix::{find_capability, vector_table, MSIXCapability, MSIXTableEntry, MSIX_CAPABILITY_ID};
use neutrino_pci::space::ConfigSpace;

fn put16(bytes: &mut Vec<u8>, at: usize, v: u16) {
    bytes[at] = (v & 0xFF) as u8;
    bytes[at + 1] = (v >> 8) as u8;
}

fn put32(bytes: &mut Vec<u8>, at: usize, v: u32) {
    put16(bytes, at, (v & 0xFFFF) as u16);
    put16(bytes, at + 2, (v >> 16) as u16);
}

fn put64(bytes: &mut Vec<u8>, at: usize, v: u64) {
    put32(bytes, at, (v & 0xFFFF_FFFF) as u32);
    put32(bytes, at + 4, (v >> 32) as u32);
}

/// One MCFG table with the given region records.
fn mcfg_with(entries: &[(u64, u16, u8, u8)]) -> MCFGTable {
    let len = 44 + 16 * entries.len();
    let mut bytes = vec![0u8; len];
    put32(&mut bytes, 4, len as u32);
    for (k, &(base, seg, start, end)) in entries.iter().enumerate() {
        let at = 44 + 16 * k;
        put64(&mut bytes, at, base);
        put16(&mut bytes, at + 8, seg);
        bytes[at + 10] = start;
        bytes[at + 11] = end;
    }
    MCFGTable { bytes }
}

/// Configuration bytes of the sample endpoint: device id 0x1234, header
/// type 0, a 64-bit non-prefetchable BAR 0, and one MSI-X capability at
/// offset 0x40 with table size field 3, both offsets behind BAR 0.
fn sample_endpoint_config() -> Vec<u8> {
    let mut cfg = vec![0u8; 256];
    put16(&mut cfg, 0, 0x8086); // vendor id
    put16(&mut cfg, 2, 0x1234); // device id
    put16(&mut cfg, 6, 0x0010); // status: capability list
    cfg[14] = 0x00; // header type 0
    put32(&mut cfg, 0x10, 0xFE00_0004); // BAR 0 low: 64-bit, not prefetchable
    put32(&mut cfg, 0x14, 0x0000_0000); // BAR 0 high
    cfg[0x34] = 0x40; // capabilities pointer
    cfg[0x40] = 0x11; // MSI-X capability id
    cfg[0x41] = 0x00; // end of the list
    put16(&mut cfg, 0x42, 0x0003); // message control: table size field 3
    put32(&mut cfg, 0x44, 0x0000_0800); // table: BIR 0, raw offset 0x100
    put32(&mut cfg, 0x48, 0x0000_1000); // pending bits: BIR 0, raw offset 0x200
    cfg
}

fn sample_region() -> PCIDeviceConfiguration {
    PCIDeviceConfiguration { base_address: 0x3000_0000, segment_group: 0, start_bus: 0, end_bus: 1 }
}

#[test]
fn mcfg_entry_count_and_fields() {
    let table = mcfg_with(&[(0x3000_0000, 0, 0, 1), (0xE000_0000, 1, 2, 6)]);
    assert_eq!(table.entry_count(), 2);
    let e0 = table.entry(0);
    assert_eq!(e0.base_address, 0x3000_0000);
    assert_eq!(e0.segment_group, 0);
    assert_eq!(e0.start_bus, 0);
    assert_eq!(e0.end_bus, 1);
    let e1 = table.entry(1);
    assert_eq!(e1.base_address, 0xE000_0000);
    assert_eq!(e1.segment_group, 1);
    assert_eq!(e1.start_bus, 2);
    assert_eq!(e1.end_bus, 6);
}

#[test]
fn mcfg_iterator_walks_all_entries() {
    let table = mcfg_with(&[(0x3000_0000, 0, 0, 1), (0xE000_0000, 1, 2, 6)]);
    let mut it = table.iter();
    assert_eq!(it.next(&table).unwrap().base_address, 0x3000_0000);
    assert_eq!(it.next(&table).unwrap().base_address, 0xE000_0000);
    assert!(it.next(&table).is_none());
}

#[test]
fn mcfg_malformed_table_has_no_regions() {
    // Too short for even the fixed header.
    let short = MCFGTable { bytes: vec![0u8; 20] };
    assert_eq!(short.entry_count(), 0);
    // Declared length reaches past the bytes that are there.
    let mut bytes = vec![0u8; 44];
    put32(&mut bytes, 4, 60);
    let overlong = MCFGTable { bytes };
    assert_eq!(overlong.entry_count(), 0);
}

#[test]
fn config_address_matches_the_ecam_formula() {
    let region = PCIDeviceConfiguration {
        base_address: 0x3000_0000,
        segment_group: 0,
        start_bus: 0,
        end_bus: 8,
    };
    assert_eq!(config_address(&region, 0, 0, 0), 0x3000_0000);
    assert_eq!(
        config_address(&region, 1, 2, 3),
        0x3000_0000 + (1 << 20) + (2 << 15) + (3 << 12)
    );
}

#[test]
fn config_address_increases_with_the_bus() {
    let region = PCIDeviceConfiguration {
        base_address: 0x3000_0000,
        segment_group: 0,
        start_bus: 0,
        end_bus: 8,
    };
    let mut previous = config_address(&region, 0, 0, 0);
    for b in 1..8 {
        let next = config_address(&region, b, 0, 0);
        assert!(previous < next);
        previous = next;
    }
}

#[test]
fn kernel_address_adds_the_fixed_offset() {
    assert_eq!(to_kernel_address(0x3000_0000, 0xFFFF_8000_0000_0000), 0xFFFF_8000_3000_0000);
}

#[test]
fn probing_twice_yields_the_same_result() {
    let mut space = ConfigSpace::new();
    assert!(space.add_function(0x3000_0000, sample_endpoint_config()));
    let first = space.probe(0x3000_0000);
    let second = space.probe(0x3000_0000);
    assert_eq!(first, second);
    assert!(first);
    let absent_first = space.probe(0x3000_8000);
    let absent_second = space.probe(0x3000_8000);
    assert_eq!(absent_first, absent_second);
    assert!(!absent_first);
}

#[test]
fn sentinel_device_ids_probe_absent() {
    let mut space = ConfigSpace::new();
    let mut all_ones = vec![0u8; 16];
    put16(&mut all_ones, 2, 0xFFFF);
    assert!(space.add_function(0x3000_0000, all_ones));
    let zero_id = vec![0u8; 16];
    assert!(space.add_function(0x3000_8000, zero_id));
    assert!(!space.probe(0x3000_0000));
    assert!(!space.probe(0x3000_8000));
}

#[test]
fn bar_decodes_the_sample_register() {
    let bar = BAR::from(0xFE00_0004);
    assert!(!bar.is_io);
    assert_eq!(bar.bar_type, 2);
    assert!(!bar.prefetchable);
    assert_eq!((bar.address as u64) << 4, 0xFE00_0000);
}

#[test]
fn bar_round_trips_through_decode_and_encode() {
    for &raw in &[0xFE00_0004u32, 0xFFFF_FFFF, 0x0000_0001, 0x1234_5678, 0x0000_0000, 0x0000_000E] {
        let bar = BAR::from(raw);
        let back = bar.encode();
        assert_eq!(back, raw);
        // In particular the type and prefetchable control bits survive.
        assert_eq!((back >> 1) & 3, (raw >> 1) & 3);
        assert_eq!((back >> 3) & 1, (raw >> 3) & 1);
    }
}

#[test]
fn bar_64_reconstruction_masks_low_flags() {
    assert_eq!(bar_64_address(0xFE00_0004, 0x0000_0001), 0x0000_0001_FE00_0000);
    let low = 0xABCD_EF1Fu32;
    let high = 0x1234_5678u32;
    assert_eq!(
        bar_64_address(low, high),
        ((low & 0xFFFF_FFF0) as u64) | ((high as u64) << 32)
    );
}

#[test]
fn bar_to_struct_translates_addresses() {
    assert_eq!(bar_to_struct(0xFE00_0000, 0x1000), 0xFE00_1000);
    assert_eq!(bar_to_struct_64(0xFE00_0000, 0x1, 0x1000), 0x1_FE00_1000);
    // The low register's four flag bits are masked off first.
    assert_eq!(bar_to_struct_64(0xFE00_0004, 0, 0), 0xFE00_0000);
}

#[test]
fn device_header_decodes_every_field() {
    let cfg = sample_endpoint_config();
    let header = PCIDeviceHeader::from_bytes(&cfg);
    assert_eq!(header.vendor_id, 0x8086);
    assert_eq!(header.device_id, 0x1234);
    assert_eq!(header.status, 0x0010);
    assert_eq!(header.header_type, 0);
}

#[test]
fn header_type_0_guard_rejects_other_layouts() {
    let mut cfg = sample_endpoint_config();
    let h0 = PCIHeaderType0::try_from_bytes(&cfg).unwrap();
    assert_eq!(h0.bar_0, 0xFE00_0004);
    assert_eq!(h0.bar_1, 0);
    assert_eq!(h0.capabilities_pointer, 0x40);
    cfg[14] = 0x01; // a bridge header
    assert!(PCIHeaderType0::try_from_bytes(&cfg).is_none());
    let short = vec![0u8; 32];
    assert!(PCIHeaderType0::try_from_bytes(&short).is_none());
}

#[test]
fn multi_function_flag_still_counts_as_type_0() {
    let mut cfg = sample_endpoint_config();
    cfg[14] = 0x80; // type 0, multi-function
    assert!(PCIHeaderType0::try_from_bytes(&cfg).is_some());
}

#[test]
fn enumerating_the_sample_region_finds_the_endpoint() {
    let mut space = ConfigSpace::new();
    assert!(space.add_function(0x3000_0000, sample_endpoint_config()));
    let functions = enumerate_region(&space, &sample_region(), 0);
    assert_eq!(functions.len(), 1);
    assert_eq!(functions[0].function_address, 0x3000_0000);
    let header = functions[0].device_header(&space).unwrap();
    assert_eq!(header.device_id, 0x1234);
    let h0 = functions[0].header_type_0(&space).unwrap();
    assert_eq!(h0.bar_0, 0xFE00_0004);
}

#[test]
fn enumeration_is_ordered_and_skips_dead_slots() {
    let mut space = ConfigSpace::new();
    let mut live = vec![0u8; 16];
    put16(&mut live, 2, 0x1234);
    // Function 0 of device 0, functions 0 and 2 of device 3.
    assert!(space.add_function(0x3000_0000, live.clone()));
    assert!(space.add_function(0x3001_8000, live.clone()));
    assert!(space.add_function(0x3001_A000, live.clone()));
    // A live function of a device whose function 0 is absent is missed:
    // the device-level probe checks function 0 only.
    assert!(space.add_function(0x3000_9000, live.clone()));
    let functions = enumerate_region(&space, &sample_region(), 0);
    let addresses: Vec<u64> = functions.iter().map(|f| f.function_address).collect();
    assert_eq!(addresses, vec![0x3000_0000, 0x3001_8000, 0x3001_A000]);
}

#[test]
fn a_bus_whose_device_0_slot_is_absent_is_skipped() {
    let mut space = ConfigSpace::new();
    let mut live = vec![0u8; 16];
    put16(&mut live, 2, 0x1234);
    // Bus 0: device 0 live.  Bus 1: device 0 absent but device 1 live —
    // the bus-level probe reads the device-0/function-0 slot and skips
    // the whole bus on a sentinel.
    assert!(space.add_function(0x3000_0000, live.clone()));
    assert!(space.add_function(0x3010_8000, live.clone()));
    let region = PCIDeviceConfiguration {
        base_address: 0x3000_0000,
        segment_group: 0,
        start_bus: 0,
        end_bus: 2,
    };
    let addresses: Vec<u64> =
        enumerate_region(&space, &region, 0).iter().map(|f| f.function_address).collect();
    assert_eq!(addresses, vec![0x3000_0000]);
}

#[test]
fn enumerating_an_empty_table_yields_nothing() {
    let space = ConfigSpace::new();
    let table = mcfg_with(&[]);
    assert_eq!(table.entry_count(), 0);
    assert!(enumerate_table(&space, &table, 0).is_empty());
}

#[test]
fn enumerating_all_sentinel_slots_yields_nothing() {
    let mut space = ConfigSpace::new();
    let mut all_ones = vec![0u8; 16];
    put16(&mut all_ones, 2, 0xFFFF);
    for d in 0..32u64 {
        space.add_function(0x3000_0000 + (d << 15), all_ones.clone());
    }
    let table = mcfg_with(&[(0x3000_0000, 0, 0, 1)]);
    assert!(enumerate_table(&space, &table, 0).is_empty());
    assert!(enumerate_region(&space, &sample_region(), 0).is_empty());
}

#[test]
fn enumerate_table_covers_every_region() {
    let mut space = ConfigSpace::new();
    let mut live = vec![0u8; 16];
    put16(&mut live, 2, 0x5678);
    assert!(space.add_function(0x3000_0000, live.clone()));
    assert!(space.add_function(0xE020_0000, live.clone()));
    let table = mcfg_with(&[(0x3000_0000, 0, 0, 1), (0xE000_0000, 1, 2, 6)]);
    let addresses: Vec<u64> =
        enumerate_table(&space, &table, 0).iter().map(|f| f.function_address).collect();
    assert_eq!(addresses, vec![0x3000_0000, 0xE020_0000]);
}

#[test]
fn iterators_step_through_the_levels() {
    let mut space = ConfigSpace::new();
    assert!(space.add_function(0x3000_0000, sample_endpoint_config()));
    let mut buses: PCIConfigurationIterator = sample_region().iter(0);
    let mut bus: PCIBusIterator = buses.next(&space).unwrap();
    assert!(buses.next(&space).is_none());
    let mut device: PCIDeviceIterator = bus.next(&space).unwrap();
    let function: PCIFunction = device.next(&space).unwrap();
    assert_eq!(function.function_address, 0x3000_0000);
    assert!(device.next(&space).is_none());
    assert!(bus.next(&space).is_none());
}

#[test]
fn capability_walk_finds_msix() {
    let cfg = sample_endpoint_config();
    assert_eq!(find_capability(&cfg, 0x40, MSIX_CAPABILITY_ID), Some(0x40));
}

#[test]
fn capability_walk_reports_not_found() {
    let mut cfg = sample_endpoint_config();
    assert_eq!(find_capability(&cfg, 0x40, 0x05), None);
    // A cycle between two records still terminates as not found.
    cfg[0x41] = 0x48;
    cfg[0x48] = 0x10;
    cfg[0x49] = 0x40;
    assert_eq!(find_capability(&cfg, 0x40, 0x05), None);
}

#[test]
fn msix_capability_decodes_the_sample_fields() {
    let cfg = sample_endpoint_config();
    let cap = MSIXCapability::from_bytes(&cfg, 0x40);
    assert_eq!(cap.capability_id, 0x11);
    assert_eq!(cap.next_pointer, 0);
    assert_eq!(cap.table_size, 3);
    assert_eq!(cap.table_entry_count(), 4);
    assert!(!cap.enable);
    assert!(!cap.function_mask);
    assert_eq!(cap.bir, 0);
    assert_eq!(cap.pending_bit_bir, 0);
}

#[test]
fn msix_offsets_are_multiples_of_eight() {
    let cfg = sample_endpoint_config();
    let cap = MSIXCapability::from_bytes(&cfg, 0x40);
    assert_eq!(cap.table_offset(), 0x800);
    assert_eq!(cap.pending_bit_offset(), 0x1000);
    assert_eq!(cap.table_offset() % 8, 0);
    assert_eq!(cap.pending_bit_offset() % 8, 0);
    // The shift rule holds for an odd raw field too.
    let mut other = cfg.clone();
    put32(&mut other, 0x44, 0x0000_0F08);
    let odd = MSIXCapability::from_bytes(&other, 0x40);
    assert_eq!(odd.table_offset() % 8, 0);
}

#[test]
fn msix_init_enables_and_resolves_the_table() {
    let cfg = sample_endpoint_config();
    let mut cap = MSIXCapability::from_bytes(&cfg, 0x40);
    let table = cap.init(&cfg, 0);
    assert!(cap.enable);
    assert_eq!(table, 0xFE00_0800);
    assert_eq!(cap.table_address(&cfg, 0x1000), 0xFE00_1800);
    assert_eq!(cap.pending_bit_address(&cfg, 0), 0xFE00_1000);
}

#[test]
fn control_word_reencodes_the_capability() {
    let cfg = sample_endpoint_config();
    let mut cap = MSIXCapability::from_bytes(&cfg, 0x40);
    assert_eq!(cap.control_word(), 0x0003);
    cap.init(&cfg, 0);
    assert_eq!(cap.control_word(), 0x8003);
}

#[test]
fn vector_table_yields_table_size_plus_one_entries() {
    let cfg = sample_endpoint_config();
    let cap = MSIXCapability::from_bytes(&cfg, 0x40);
    let count = cap.table_entry_count() as usize;
    let mut memory = vec![0u8; count * 16];
    for i in 0..count {
        put64(&mut memory, i * 16, 0xFEE0_0000 + i as u64);
        put32(&mut memory, i * 16 + 8, 0x30 + i as u32);
        put32(&mut memory, i * 16 + 12, (i % 2) as u32);
    }
    let entries: Vec<MSIXTableEntry> = vector_table(&memory, count);
    assert_eq!(entries.len(), 4);
    for (i, entry) in entries.iter().enumerate() {
        assert_eq!(entry.message_address, 0xFEE0_0000 + i as u64);
        assert_eq!(entry.message_data, 0x30 + i as u32);
        assert_eq!(entry.is_masked(), i % 2 == 1);
    }
}
