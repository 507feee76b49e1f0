//! Early-boot memory management for an x86-64 bootloader: typed physical and
//! virtual addresses, the bit-level model of page-table entries and flags,
//! identity-mapped page tables with a free-slot search, the flat descriptor
//! table, and the real-mode / unreal-mode / protected-mode transition
//! protocol expressed as an explicit sequence of hardware steps.

pub mod address_types;
pub mod bios_enums;
pub mod constants;
pub mod disk;
pub mod enums;
pub mod memory;
pub mod page_tables;
pub mod protected_mode;
