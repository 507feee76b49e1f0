//! Fixed memory-layout constants of the boot image and the page-size
//! granularities of 4-level x86-64 paging. Every address this crate uses is
//! one of these compile-time constants or derived from them.

use vstd::prelude::*;

verus! {

/// The BIOS loads the first boot stage at this offset.
pub const FIRST_STAGE_OFFSET: u16 = 0x7c00;

/// The master boot record sits at the end of the first 446 bytes of the
/// first stage.
pub const MASTER_BOOT_RECORD_OFFSET: u16 = FIRST_STAGE_OFFSET + 446;

/// The second boot stage is loaded directly after the 512-byte first sector.
pub const SECOND_STAGE_OFFSET: u16 = FIRST_STAGE_OFFSET + 512;

/// The BIOS leaves the boot disk number at the very start of the first stage.
pub const DISK_NUMBER_OFFSET: u16 = FIRST_STAGE_OFFSET;

/// Memory-mapped VGA text buffer.
pub const VGA_BUFFER_PTR: u32 = 0xb8000;

/// The kernel image is loaded at this offset.
pub const KERNEL_OFFSET: u64 = 0x9000;

/// Physical address of the root (level 4) identity page table.
pub const IDENTITY_PAGE_TABLE_L4_OFFSET: u64 = 0x10000;

/// Physical address of the level 3 identity page table.
pub const IDENTITY_PAGE_TABLE_L3_OFFSET: u64 = 0x11000;

/// Physical address of the level 2 identity page table.
pub const IDENTITY_PAGE_TABLE_L2_OFFSET: u64 = 0x12000;

/// Physical address of the level 3 table of the higher-half identity map.
pub const TOP_IDENTITY_PAGE_TABLE_L3_OFFSET: u64 = 0x13000;

/// Physical address of the level 2 table of the higher-half identity map.
pub const TOP_IDENTITY_PAGE_TABLE_L2_OFFSET: u64 = 0x14000;

/// First physical address available to the boot-time page allocator.
pub const PAGE_ALLOCATOR_OFFSET: u64 = 0x15000;

/// Canonical higher-half virtual offset at which all of physical memory is
/// mapped once 64-bit mode is reached.
pub const PHYSICAL_MEMORY_OFFSET: u64 = 0xffff800000000000;

/// Size in bytes of a regular page and of one page table.
pub const REGULAR_PAGE_SIZE: u64 = 4096;

/// Alignment required of every frame mapped by a regular entry, and of every
/// page table.
pub const REGULAR_PAGE_ALIGNMENT: u64 = 4096;

/// Size in bytes of a big (level 2 huge) page: 512 regular pages.
pub const BIG_PAGE_SIZE: u64 = 512 * 4096;

/// Number of entries in one page table at every level.
pub const PAGE_DIRECTORY_ENTRIES: usize = 512;

/// The page size a caller asks `find_available_page` for: a regular 4 KiB
/// leaf at level 1, or a big leaf occupying a whole level 2 slot.
#[derive(Clone, Copy, Debug, PartialEq, Eq, Structural)]
pub enum PageSize {
    Regular,
    Big,
}

} // verus!
