//! Virtual virtio devices on a PCI bus, as a hypervisor shows them to its guests:
//! their capabilities in configuration space, the structures in their BARs, the
//! vectors of their interrupts, and the entropy device that is made of them.

pub mod area;
pub mod bar;
pub mod bits;
pub mod bridge;
pub mod bus;
pub mod capability;
pub mod capability_handler;
pub mod common_cfg;
pub mod config_space;
pub mod error;
pub mod isr;
pub mod locked;
pub mod mmio;
pub mod msix_cap;
pub mod msix_manager;
pub mod msix_table;
pub mod notify;
pub mod rng;
pub mod virtqueue;
