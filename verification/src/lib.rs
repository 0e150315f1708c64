//! PCI/PCIe device discovery for a freestanding kernel, modelled over
//! snapshots of memory-mapped configuration space.
//!
//! The crate covers the Enhanced Configuration Access Mechanism (ECAM):
//! locating configuration-space regions in the firmware MCFG table,
//! translating bus/device/function coordinates into addresses, enumerating
//! populated functions, decoding configuration headers and Base Address
//! Registers, and provisioning the MSI-X interrupt capability.  A small
//! resource namespace stores what enumeration discovers.

pub mod addr;
pub mod bar;
pub mod bytes;
pub mod enumerate;
pub mod header;
pub mod mcfg;
pub mod msix;
pub mod namespace;
pub mod space;
