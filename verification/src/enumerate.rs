//! The hierarchical enumerator: region, bus, device and function level.
//!
//! A bus is descended into only when its device-0/function-0 slot probes
//! live; a device only when its own function 0 probes live; a function is
//! yielded only when it probes live itself.  The result of a full
//! enumeration is pinned by the recursive specification functions below:
//! the functions appear in ascending (region, bus, device, function)
//! order, and a coordinate appears exactly when its own probe, its
//! device's probe and its bus's probe are all live.

use vstd::prelude::*;

use crate::addr::REGION_SPAN;
use crate::header::PCIFunction;
use crate::mcfg::{MCFGTable, PCIDeviceConfiguration};
use crate::space::ConfigSpace;

verus! {

/// Address of bus `b` inside a region rooted at `base_address`.
pub open spec fn spec_bus_address(base_address: u64, b: int) -> u64 {
    (base_address + b * 0x10_0000) as u64
}

/// Address of device `d` on the bus rooted at `bus_address`.
pub open spec fn spec_device_address(bus_address: u64, d: int) -> u64 {
    (bus_address + d * 0x8000) as u64
}

/// Address of function `f` of the device rooted at `device_address`.
pub open spec fn spec_function_address(device_address: u64, f: int) -> u64 {
    (device_address + f * 0x1000) as u64
}

/// The live functions of one device, from function number `f` on, in
/// ascending order.
pub open spec fn spec_functions_of_device(
    space: ConfigSpace,
    device_address: u64,
    f: int,
) -> Seq<PCIFunction>
    decreases 8 - f,
{
    if f < 0 || f >= 8 {
        Seq::empty()
    } else {
        let a = spec_function_address(device_address, f);
        let rest = spec_functions_of_device(space, device_address, f + 1);
        if space.live(a) {
            seq![PCIFunction { function_address: a }] + rest
        } else {
            rest
        }
    }
}

/// The live functions of one bus, from device number `d` on: a device is
/// entered only when its function 0 slot probes live.  A device that
/// exposes only functions above 0 is therefore missed — a known
/// limitation of the probe order, kept rather than silently fixed.
pub open spec fn spec_functions_of_bus(space: ConfigSpace, bus_address: u64, d: int) -> Seq<
    PCIFunction,
>
    decreases 32 - d,
{
    if d < 0 || d >= 32 {
        Seq::empty()
    } else {
        let a = spec_device_address(bus_address, d);
        let rest = spec_functions_of_bus(space, bus_address, d + 1);
        if space.live(a) {
            spec_functions_of_device(space, a, 0) + rest
        } else {
            rest
        }
    }
}

/// The live functions of one region, from bus number `b` on up to
/// `end_bus` (exclusive): a bus is entered only when its
/// device-0/function-0 slot — the bus's own base address — probes live.
pub open spec fn spec_functions_of_region(
    space: ConfigSpace,
    base_address: u64,
    b: int,
    end_bus: int,
) -> Seq<PCIFunction>
    decreases end_bus - b,
{
    if b < 0 || b >= end_bus {
        Seq::empty()
    } else {
        let a = spec_bus_address(base_address, b);
        let rest = spec_functions_of_region(space, base_address, b + 1, end_bus);
        if space.live(a) {
            spec_functions_of_bus(space, a, 0) + rest
        } else {
            rest
        }
    }
}

/// True when every coordinate of `region`, translated by the
/// physical-memory offset, still fits in a `u64` kernel address.
pub open spec fn spec_region_translates(
    region: PCIDeviceConfiguration,
    physical_memory_offset: u64,
) -> bool {
    region.base_address + physical_memory_offset + REGION_SPAN <= u64::MAX
}

/// The live functions of every region of an MCFG table, from record `i`
/// on.  A record whose translated addresses would not fit is skipped.
pub open spec fn spec_functions_of_table(
    space: ConfigSpace,
    table: MCFGTable,
    physical_memory_offset: u64,
    i: int,
) -> Seq<PCIFunction>
    decreases table.spec_entry_count() - i,
{
    if i < 0 || i >= table.spec_entry_count() {
        Seq::empty()
    } else {
        let region = table.spec_entry(i);
        let rest = spec_functions_of_table(space, table, physical_memory_offset, i + 1);
        if spec_region_translates(region, physical_memory_offset) {
            spec_functions_of_region(
                space,
                (region.base_address + physical_memory_offset) as u64,
                region.start_bus as int,
                region.end_bus as int,
            ) + rest
        } else {
            rest
        }
    }
}

/// Cursor over the buses of one region, rooted at the region's
/// kernel-addressable base.
#[derive(Clone, Copy, Debug)]
pub struct PCIConfigurationIterator {
    pub base_address: u64,
    pub end_bus: u8,
    pub current_bus: u8,
}

/// Cursor over the devices of one bus.
#[derive(Clone, Copy, Debug)]
pub struct PCIBusIterator {
    pub bus_address: u64,
    pub current_device: u64,
}

/// Cursor over the functions of one device.
#[derive(Clone, Copy, Debug)]
pub struct PCIDeviceIterator {
    pub device_address: u64,
    pub current_function: u64,
}

impl PCIConfigurationIterator {
    /// Every bus coordinate of the region fits in a `u64`.
    pub open spec fn wf(self) -> bool {
        self.base_address + REGION_SPAN <= u64::MAX
    }

    /// Probes the device-0/function-0 slot of each bus in ascending
    /// order and yields a device-level cursor for the first bus that
    /// probes live; `None` once the region holds no further live bus.
    pub fn next(&mut self, space: &ConfigSpace) -> (r: Option<PCIBusIterator>)
        requires
            space.wf(),
            old(self).wf(),
        ensures
            final(self).wf(),
            final(self).base_address == old(self).base_address,
            final(self).end_bus == old(self).end_bus,
            match r {
                Some(bi) => {
                    &&& old(self).current_bus < final(self).current_bus <= old(self).end_bus
                    &&& bi == (PCIBusIterator {
                        bus_address: spec_bus_address(
                            old(self).base_address,
                            final(self).current_bus - 1,
                        ),
                        current_device: 0u64,
                    })
                    &&& bi.wf()
                    &&& space.live(bi.bus_address)
                    &&& spec_functions_of_region(
                        *space,
                        old(self).base_address,
                        old(self).current_bus as int,
                        old(self).end_bus as int,
                    ) == spec_functions_of_bus(*space, bi.bus_address, 0)
                        + spec_functions_of_region(
                        *space,
                        old(self).base_address,
                        final(self).current_bus as int,
                        old(self).end_bus as int,
                    )
                },
                None => {
                    &&& final(self).current_bus >= final(self).end_bus
                    &&& (old(self).current_bus <= old(self).end_bus ==> final(self).current_bus
                        == old(self).end_bus)
                    &&& spec_functions_of_region(
                        *space,
                        old(self).base_address,
                        old(self).current_bus as int,
                        old(self).end_bus as int,
                    ) == Seq::<PCIFunction>::empty()
                },
            },
    {
        while self.current_bus < self.end_bus
            invariant
                space.wf(),
                self.wf(),
                self.base_address == old(self).base_address,
                self.end_bus == old(self).end_bus,
                old(self).current_bus <= self.current_bus,
                old(self).current_bus <= old(self).end_bus ==> self.current_bus <= self.end_bus,
                old(self).current_bus > old(self).end_bus ==> self.current_bus == old(
                    self,
                ).current_bus,
                spec_functions_of_region(
                    *space,
                    self.base_address,
                    old(self).current_bus as int,
                    self.end_bus as int,
                ) == spec_functions_of_region(
                    *space,
                    self.base_address,
                    self.current_bus as int,
                    self.end_bus as int,
                ),
            decreases self.end_bus - self.current_bus,
        {
            let bus_address = self.base_address + (self.current_bus as u64) * 0x10_0000;
            self.current_bus = self.current_bus + 1;
            if space.probe(bus_address) {
                return Some(PCIBusIterator { bus_address, current_device: 0 });
            }
        }
        None
    }
}

impl PCIBusIterator {
    /// Every device and function coordinate of the bus fits in a `u64`.
    pub open spec fn wf(self) -> bool {
        &&& self.bus_address + 0xF_FFFF <= u64::MAX
        &&& self.current_device <= 32
    }

    /// Probes device slots in ascending order and yields a
    /// function-level cursor for the first live one; `None` once the bus
    /// holds no further live device.
    pub fn next(&mut self, space: &ConfigSpace) -> (r: Option<PCIDeviceIterator>)
        requires
            space.wf(),
            old(self).wf(),
        ensures
            final(self).wf(),
            final(self).bus_address == old(self).bus_address,
            match r {
                Some(di) => {
                    &&& old(self).current_device < final(self).current_device <= 32
                    &&& di == (PCIDeviceIterator {
                        device_address: spec_device_address(
                            old(self).bus_address,
                            final(self).current_device - 1,
                        ),
                        current_function: 0u64,
                    })
                    &&& di.wf()
                    &&& space.live(di.device_address)
                    &&& spec_functions_of_bus(
                        *space,
                        old(self).bus_address,
                        old(self).current_device as int,
                    ) == spec_functions_of_device(*space, di.device_address, 0)
                        + spec_functions_of_bus(
                        *space,
                        old(self).bus_address,
                        final(self).current_device as int,
                    )
                },
                None => {
                    &&& final(self).current_device == 32
                    &&& spec_functions_of_bus(
                        *space,
                        old(self).bus_address,
                        old(self).current_device as int,
                    ) == Seq::<PCIFunction>::empty()
                },
            },
    {
        while self.current_device < 32
            invariant
                space.wf(),
                self.wf(),
                self.bus_address == old(self).bus_address,
                old(self).current_device <= self.current_device,
                spec_functions_of_bus(
                    *space,
                    self.bus_address,
                    old(self).current_device as int,
                ) == spec_functions_of_bus(*space, self.bus_address, self.current_device as int),
            decreases 32 - self.current_device,
        {
            let device_address = self.bus_address + self.current_device * 0x8000;
            self.current_device = self.current_device + 1;
            if space.probe(device_address) {
                return Some(PCIDeviceIterator { device_address, current_function: 0 });
            }
        }
        None
    }
}

impl PCIDeviceIterator {
    /// Every function coordinate of the device fits in a `u64`.
    pub open spec fn wf(self) -> bool {
        &&& self.device_address + 0x7FFF <= u64::MAX
        &&& self.current_function <= 8
    }

    /// Probes function slots in ascending order and yields a handle for
    /// the first live one; `None` once the device holds no further live
    /// function.
    pub fn next(&mut self, space: &ConfigSpace) -> (r: Option<PCIFunction>)
        requires
            space.wf(),
            old(self).wf(),
        ensures
            final(self).wf(),
            final(self).device_address == old(self).device_address,
            match r {
                Some(f) => {
                    &&& old(self).current_function < final(self).current_function <= 8
                    &&& f == (PCIFunction {
                        function_address: spec_function_address(
                            old(self).device_address,
                            final(self).current_function - 1,
                        ),
                    })
                    &&& space.live(f.function_address)
                    &&& spec_functions_of_device(
                        *space,
                        old(self).device_address,
                        old(self).current_function as int,
                    ) == seq![f] + spec_functions_of_device(
                        *space,
                        old(self).device_address,
                        final(self).current_function as int,
                    )
                },
                None => {
                    &&& final(self).current_function == 8
                    &&& spec_functions_of_device(
                        *space,
                        old(self).device_address,
                        old(self).current_function as int,
                    ) == Seq::<PCIFunction>::empty()
                },
            },
    {
        while self.current_function < 8
            invariant
                space.wf(),
                self.wf(),
                self.device_address == old(self).device_address,
                old(self).current_function <= self.current_function,
                spec_functions_of_device(
                    *space,
                    self.device_address,
                    old(self).current_function as int,
                ) == spec_functions_of_device(
                    *space,
                    self.device_address,
                    self.current_function as int,
                ),
            decreases 8 - self.current_function,
        {
            let function_address = self.device_address + self.current_function * 0x1000;
            self.current_function = self.current_function + 1;
            if space.probe(function_address) {
                return Some(PCIFunction { function_address });
            }
        }
        None
    }
}

impl PCIDeviceConfiguration {
    /// A bus-level cursor over this region, rooted at the region's base
    /// translated into a kernel address.
    pub fn iter(&self, physical_memory_offset: u64) -> (r: PCIConfigurationIterator)
        requires
            spec_region_translates(*self, physical_memory_offset),
        ensures
            r.wf(),
            r.base_address == self.base_address + physical_memory_offset,
            r.current_bus == self.start_bus,
            r.end_bus == self.end_bus,
    {
        PCIConfigurationIterator {
            base_address: self.base_address + physical_memory_offset,
            end_bus: self.end_bus,
            current_bus: self.start_bus,
        }
    }
}

/// Whether the region's addresses, translated by the physical-memory
/// offset, fit in a `u64`.
pub fn region_translates(region: &PCIDeviceConfiguration, physical_memory_offset: u64) -> (r: bool)
    ensures
        r == spec_region_translates(*region, physical_memory_offset),
{
    region.base_address <= u64::MAX - REGION_SPAN && physical_memory_offset <= u64::MAX
        - REGION_SPAN - region.base_address
}

/// Enumerates every live function of one region, in ascending bus,
/// device, function order.
pub fn enumerate_region(
    space: &ConfigSpace,
    region: &PCIDeviceConfiguration,
    physical_memory_offset: u64,
) -> (r: Vec<PCIFunction>)
    requires
        space.wf(),
        spec_region_translates(*region, physical_memory_offset),
    ensures
        r@ == spec_functions_of_region(
            *space,
            (region.base_address + physical_memory_offset) as u64,
            region.start_bus as int,
            region.end_bus as int,
        ),
{
    let mut result: Vec<PCIFunction> = Vec::new();
    let mut it = region.iter(physical_memory_offset);
    let ghost base = it.base_address;
    let ghost full = spec_functions_of_region(
        *space,
        base,
        region.start_bus as int,
        region.end_bus as int,
    );
    while it.current_bus < it.end_bus
        invariant
            space.wf(),
            it.wf(),
            it.base_address == base,
            it.end_bus == region.end_bus,
            full == spec_functions_of_region(
                *space,
                base,
                region.start_bus as int,
                region.end_bus as int,
            ),
            result@ + spec_functions_of_region(
                *space,
                base,
                it.current_bus as int,
                it.end_bus as int,
            ) == full,
        decreases it.end_bus - it.current_bus,
    {
        let next_bus = it.next(space);
        if next_bus.is_none() {
            continue;
        }
        let mut bi = next_bus.unwrap();
        proof {
            assert((result@ + spec_functions_of_bus(*space, bi.bus_address, 0))
                + spec_functions_of_region(*space, base, it.current_bus as int, it.end_bus as int)
                =~= result@ + (spec_functions_of_bus(*space, bi.bus_address, 0)
                + spec_functions_of_region(
                *space,
                base,
                it.current_bus as int,
                it.end_bus as int,
            )));
        }
        while bi.current_device < 32
            invariant
                space.wf(),
                bi.wf(),
                it.wf(),
                it.base_address == base,
                it.end_bus == region.end_bus,
                full == spec_functions_of_region(
                    *space,
                    base,
                    region.start_bus as int,
                    region.end_bus as int,
                ),
                result@ + spec_functions_of_bus(
                    *space,
                    bi.bus_address,
                    bi.current_device as int,
                ) + spec_functions_of_region(
                    *space,
                    base,
                    it.current_bus as int,
                    it.end_bus as int,
                ) == full,
            decreases 32 - bi.current_device,
        {
            let next_device = bi.next(space);
            if let Some(mut di) = next_device {
                while di.current_function < 8
                    invariant
                        space.wf(),
                        di.wf(),
                        bi.wf(),
                        it.wf(),
                        it.base_address == base,
                        it.end_bus == region.end_bus,
                        full == spec_functions_of_region(
                            *space,
                            base,
                            region.start_bus as int,
                            region.end_bus as int,
                        ),
                        result@ + spec_functions_of_device(
                            *space,
                            di.device_address,
                            di.current_function as int,
                        ) + spec_functions_of_bus(
                            *space,
                            bi.bus_address,
                            bi.current_device as int,
                        ) + spec_functions_of_region(
                            *space,
                            base,
                            it.current_bus as int,
                            it.end_bus as int,
                        ) == full,
                    decreases 8 - di.current_function,
                {
                    let next_function = di.next(space);
                    if let Some(f) = next_function {
                        proof {
                            assert(result@ + seq![f] =~= result@.push(f));
                        }
                        result.push(f);
                    }
                }
            }
        }
    }
    result
}

/// Enumerates every live function of every region of an MCFG table.  A
/// malformed table yields nothing; a region whose translated addresses
/// would overflow is skipped.
pub fn enumerate_table(
    space: &ConfigSpace,
    table: &MCFGTable,
    physical_memory_offset: u64,
) -> (r: Vec<PCIFunction>)
    requires
        space.wf(),
    ensures
        r@ == spec_functions_of_table(*space, *table, physical_memory_offset, 0),
{
    let mut result: Vec<PCIFunction> = Vec::new();
    let mut mi = table.iter();
    let ghost full = spec_functions_of_table(*space, *table, physical_memory_offset, 0);
    loop
        invariant
            space.wf(),
            mi.index <= table.spec_entry_count() || mi.index == 0,
            full == spec_functions_of_table(*space, *table, physical_memory_offset, 0),
            result@ + spec_functions_of_table(
                *space,
                *table,
                physical_memory_offset,
                mi.index as int,
            ) == full,
        decreases table.spec_entry_count() - mi.index + 1,
    {
        let ghost entry_index = mi.index as int;
        let next_entry = mi.next(table);
        match next_entry {
            None => {
                return result;
            },
            Some(region) => {
                if region_translates(&region, physical_memory_offset) {
                    let mut more = enumerate_region(space, &region, physical_memory_offset);
                    result.append(&mut more);
                }
            },
        }
    }
}

/// Law: a table that declares no region records yields no functions.
pub proof fn lemma_empty_table_functions(
    space: ConfigSpace,
    table: MCFGTable,
    physical_memory_offset: u64,
)
    requires
        table.spec_entry_count() == 0,
    ensures
        spec_functions_of_table(space, table, physical_memory_offset, 0) == Seq::<
            PCIFunction,
        >::empty(),
{
}

/// Law: a region enumerated over a snapshot in which every slot reads as
/// absent — the sentinel device identifiers 0 or 0xFFFF, or nothing
/// mapped — yields no functions: every bus-level probe fails.
pub proof fn lemma_no_live_functions_of_region(
    space: ConfigSpace,
    base_address: u64,
    b: int,
    end_bus: int,
)
    requires
        forall|a: u64| !space.live(a),
    ensures
        spec_functions_of_region(space, base_address, b, end_bus) == Seq::<PCIFunction>::empty(),
    decreases end_bus - b,
{
    if 0 <= b < end_bus {
        assert(!space.live(spec_bus_address(base_address, b)));
        lemma_no_live_functions_of_region(space, base_address, b + 1, end_bus);
    }
}

/// Law: a whole table enumerated over an all-absent snapshot yields no
/// functions.
pub proof fn lemma_no_live_functions_of_table(
    space: ConfigSpace,
    table: MCFGTable,
    physical_memory_offset: u64,
    i: int,
)
    requires
        forall|a: u64| !space.live(a),
    ensures
        spec_functions_of_table(space, table, physical_memory_offset, i) == Seq::<
            PCIFunction,
        >::empty(),
    decreases table.spec_entry_count() - i,
{
    if 0 <= i < table.spec_entry_count() {
        let region = table.spec_entry(i);
        lemma_no_live_functions_of_region(
            space,
            (region.base_address + physical_memory_offset) as u64,
            region.start_bus as int,
            region.end_bus as int,
        );
        lemma_no_live_functions_of_table(space, table, physical_memory_offset, i + 1);
    }
}

} // verus!
