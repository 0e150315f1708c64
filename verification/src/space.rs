//! A snapshot of memory-mapped PCI configuration space.
//!
//! On hardware every read goes straight to a live register.  Here the
//! enumerator works over a snapshot: the configuration bytes of each mapped
//! function, keyed by its kernel-addressable configuration address.  A
//! coordinate with no entry reads like unpopulated hardware (all ones), so
//! the liveness check treats it as absent.

use vstd::prelude::*;

use crate::bytes::u16_le;

verus! {

/// The configuration bytes visible at one mapped configuration address.
pub struct FunctionConfig {
    pub address: u64,
    pub config: Vec<u8>,
}

/// Snapshot of configuration space: one record per mapped function
/// address.  Addresses must be pairwise distinct ([`ConfigSpace::wf`]).
pub struct ConfigSpace {
    pub funcs: Vec<FunctionConfig>,
}

/// Sentinel read back from an absent slot: unmapped configuration space
/// reads as all ones.
pub const ABSENT_DEVICE_ID: u16 = 0xFFFF;

impl ConfigSpace {
    /// Every mapped address occurs once.
    pub open spec fn wf(self) -> bool {
        forall|i: int, j: int|
            0 <= i < j < self.funcs@.len() ==> self.funcs@[i].address != self.funcs@[j].address
    }

    /// Whether `address` is mapped at all.
    pub open spec fn is_mapped(self, address: u64) -> bool {
        exists|i: int| 0 <= i < self.funcs@.len() && self.funcs@[i].address == address
    }

    /// The configuration bytes mapped at `address`, when there are any.
    pub open spec fn cfg_at(self, address: u64) -> Option<Seq<u8>> {
        if self.is_mapped(address) {
            let i = choose|i: int| 0 <= i < self.funcs@.len() && self.funcs@[i].address == address;
            Some(self.funcs@[i].config@)
        } else {
            None
        }
    }

    /// The liveness criterion of the enumerator: a slot holds a
    /// functioning device exactly when its device identifier reads as
    /// neither 0 nor 0xFFFF.
    pub open spec fn live(self, address: u64) -> bool {
        match self.cfg_at(address) {
            Some(c) => c.len() >= 4 && u16_le(c, 2) != 0 && u16_le(c, 2) != ABSENT_DEVICE_ID,
            None => false,
        }
    }

    /// An empty snapshot: nothing mapped, nothing live.
    pub fn new() -> (r: ConfigSpace)
        ensures
            r.wf(),
            forall|a: u64| !r.is_mapped(a),
    {
        ConfigSpace { funcs: Vec::new() }
    }

    /// Maps `config` at `address`.  Returns false and changes nothing when
    /// the address is already mapped.
    pub fn add_function(&mut self, address: u64, config: Vec<u8>) -> (r: bool)
        requires
            old(self).wf(),
        ensures
            final(self).wf(),
            r == !old(self).is_mapped(address),
            r ==> final(self).funcs@ == old(self).funcs@.push(
                FunctionConfig { address, config: config },
            ),
            !r ==> *final(self) == *old(self),
    {
        let i = self.find(address);
        if i.is_some() {
            return false;
        }
        self.funcs.push(FunctionConfig { address, config });
        true
    }

    /// Index of the record mapped at `address`, if any.
    fn find(&self, address: u64) -> (r: Option<usize>)
        ensures
            match r {
                Some(i) => i < self.funcs@.len() && self.funcs@[i as int].address == address,
                None => !self.is_mapped(address),
            },
    {
        let mut i: usize = 0;
        while i < self.funcs.len()
            invariant
                i <= self.funcs@.len(),
                forall|j: int| 0 <= j < i ==> self.funcs@[j].address != address,
            decreases self.funcs@.len() - i,
        {
            if self.funcs[i].address == address {
                return Some(i);
            }
            i = i + 1;
        }
        None
    }

    /// The liveness probe: reads the device identifier at `address` and
    /// tests it against the absent-slot sentinels.  The result is a pure
    /// function of the snapshot and the address, so probing the same
    /// coordinate twice without a state change yields the same answer.
    pub fn probe(&self, address: u64) -> (r: bool)
        requires
            self.wf(),
        ensures
            r == self.live(address),
    {
        match self.find(address) {
            Some(i) => {
                let c = &self.funcs[i].config;
                if c.len() < 4 {
                    return false;
                }
                let id = crate::bytes::read_u16(c, 2);
                id != 0 && id != ABSENT_DEVICE_ID
            },
            None => false,
        }
    }
}

/// Law: the liveness check is idempotent.  Any two results that the
/// probe's contract admits for the same snapshot and the same coordinate
/// are equal.
pub proof fn lemma_probe_idempotent(space: ConfigSpace, address: u64, first: bool, second: bool)
    requires
        first == space.live(address),
        second == space.live(address),
    ensures
        first == second,
{
}

} // verus!
