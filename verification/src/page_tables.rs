//! The bit-level model of one page-table slot: the architecturally defined
//! attribute flags, the 64-bit entry word combining flags with a 4 KiB-aligned
//! frame address in bits 12..51, and the fixed 512-entry table itself.

use vstd::prelude::*;

verus! {

use crate::address_types::PhysicalAddress;
use crate::constants::PAGE_DIRECTORY_ENTRIES;
use crate::constants::REGULAR_PAGE_ALIGNMENT;

/// Bit position of the `present` flag.
pub const PRESENT_BIT: u64 = 0;

/// Bit position of the `writable` flag.
pub const WRITABLE_BIT: u64 = 1;

/// Bit position of the `user accessible` flag.
pub const USR_ACCESS_BIT: u64 = 2;

/// Bit position of the `write-through cache` flag.
pub const WRITE_THROUGH_CACHE_BIT: u64 = 3;

/// Bit position of the `disable cache` flag.
pub const DISABLE_CACHE_BIT: u64 = 4;

/// Bit position of the `huge page` flag: the entry is a leaf above level 1.
pub const HUGE_PAGE_BIT: u64 = 7;

/// Bit position of the `global` flag.
pub const GLOBAL_BIT: u64 = 8;

/// Bit position of the `full` flag: a subtree-exhausted marker reserved for
/// a future pruning optimization; the free-slot search never consults it.
pub const FULL_BIT: u64 = 9;

/// Bit position of the `is table` flag: the entry points to a child table
/// rather than mapping a data frame.
pub const IS_TABLE_BIT: u64 = 10;

/// Bit position of the `not executable` flag.
pub const NOT_EXECUTABLE_BIT: u64 = 63;

/// The frame-address bits of an entry word: bits 12..51, holding a 40-bit
/// 4 KiB-aligned physical frame address.
pub const ADDRESS_MASK: u64 = 0x000f_ffff_ffff_f000;

/// Whether the given bit of a 64-bit word is set.
pub open spec fn bit_is_set(word: u64, bit: u64) -> bool {
    word & (1u64 << bit) != 0
}

/// A semantic bit-set over a single 64-bit word holding the attribute bits
/// of one page-table slot. Pure bit algebra: every setter returns an updated
/// value, so flag words are built by chaining.
#[derive(Clone, Copy, Debug, PartialEq, Eq, Structural)]
pub struct PageEntryFlags(pub u64);

impl PageEntryFlags {
    /// Flag words never carry frame-address bits: flags and address occupy
    /// disjoint bit ranges by construction.
    pub open spec fn wf(self) -> bool {
        self.0 & ADDRESS_MASK == 0
    }

    pub open spec fn spec_present(self) -> bool {
        bit_is_set(self.0, PRESENT_BIT)
    }

    pub open spec fn spec_writable(self) -> bool {
        bit_is_set(self.0, WRITABLE_BIT)
    }

    pub open spec fn spec_usr_access(self) -> bool {
        bit_is_set(self.0, USR_ACCESS_BIT)
    }

    pub open spec fn spec_write_through_cache(self) -> bool {
        bit_is_set(self.0, WRITE_THROUGH_CACHE_BIT)
    }

    pub open spec fn spec_disable_cache(self) -> bool {
        bit_is_set(self.0, DISABLE_CACHE_BIT)
    }

    pub open spec fn spec_huge_page(self) -> bool {
        bit_is_set(self.0, HUGE_PAGE_BIT)
    }

    pub open spec fn spec_global(self) -> bool {
        bit_is_set(self.0, GLOBAL_BIT)
    }

    pub open spec fn spec_full(self) -> bool {
        bit_is_set(self.0, FULL_BIT)
    }

    pub open spec fn spec_is_table(self) -> bool {
        bit_is_set(self.0, IS_TABLE_BIT)
    }

    pub open spec fn spec_not_executable(self) -> bool {
        bit_is_set(self.0, NOT_EXECUTABLE_BIT)
    }

    /// The all-clear flag word: every attribute defaults to false.
    pub fn new() -> (r: Self)
        ensures
            r.0 == 0,
            r.wf(),
    {
        proof {
            assert(0u64 & 0x000f_ffff_ffff_f000u64 == 0) by (bit_vector);
        }
        PageEntryFlags(0)
    }

    /// The canonical flags of an entry that points to a child table:
    /// present, writable and is-table, with everything else clear.
    pub fn table_flags() -> (r: Self)
        ensures
            r.0 == 0x403,
            r.wf(),
            r.spec_present(),
            r.spec_writable(),
            r.spec_is_table(),
            !r.spec_huge_page(),
            !r.spec_usr_access(),
            !r.spec_write_through_cache(),
            !r.spec_disable_cache(),
            !r.spec_global(),
            !r.spec_full(),
            !r.spec_not_executable(),
    {
        let r = Self::new().set_chain_present().set_chain_writable().set_chain_is_table();
        proof {
            let v = r.0;
            assert(v == 0x403 && v & 0x000f_ffff_ffff_f000u64 == 0 && bit_is_set(v, 0)
                && bit_is_set(v, 1) && bit_is_set(v, 10) && !bit_is_set(v, 7) && !bit_is_set(v, 2)
                && !bit_is_set(v, 3) && !bit_is_set(v, 4) && !bit_is_set(v, 8) && !bit_is_set(v, 9)
                && !bit_is_set(v, 63)) by (bit_vector)
                requires
                    v == ((0u64 | (1u64 << 0u64)) | (1u64 << 1u64)) | (1u64 << 10u64),
            ;
        }
        r
    }

    /// The canonical flags of a huge-leaf entry: present, writable and huge,
    /// with everything else clear.
    pub fn huge_page_flags() -> (r: Self)
        ensures
            r.0 == 0x83,
            r.wf(),
            r.spec_present(),
            r.spec_writable(),
            r.spec_huge_page(),
            !r.spec_is_table(),
            !r.spec_usr_access(),
            !r.spec_write_through_cache(),
            !r.spec_disable_cache(),
            !r.spec_global(),
            !r.spec_full(),
            !r.spec_not_executable(),
    {
        let r = Self::new().set_chain_present().set_chain_writable().set_chain_huge_page();
        proof {
            let v = r.0;
            assert(v == 0x83 && v & 0x000f_ffff_ffff_f000u64 == 0 && bit_is_set(v, 0)
                && bit_is_set(v, 1) && bit_is_set(v, 7) && !bit_is_set(v, 10) && !bit_is_set(v, 2)
                && !bit_is_set(v, 3) && !bit_is_set(v, 4) && !bit_is_set(v, 8) && !bit_is_set(v, 9)
                && !bit_is_set(v, 63)) by (bit_vector)
                requires
                    v == ((0u64 | (1u64 << 0u64)) | (1u64 << 1u64)) | (1u64 << 7u64),
            ;
        }
        r
    }

    /// The canonical flags of a regular 4 KiB leaf entry: present and
    /// writable, with everything else clear.
    pub fn regular_page_flags() -> (r: Self)
        ensures
            r.0 == 0x3,
            r.wf(),
            r.spec_present(),
            r.spec_writable(),
            !r.spec_huge_page(),
            !r.spec_is_table(),
            !r.spec_usr_access(),
            !r.spec_write_through_cache(),
            !r.spec_disable_cache(),
            !r.spec_global(),
            !r.spec_full(),
            !r.spec_not_executable(),
    {
        let r = Self::new().set_chain_present().set_chain_writable();
        proof {
            let v = r.0;
            assert(v == 0x3 && v & 0x000f_ffff_ffff_f000u64 == 0 && bit_is_set(v, 0)
                && bit_is_set(v, 1) && !bit_is_set(v, 7) && !bit_is_set(v, 10) && !bit_is_set(
                v,
                2,
            ) && !bit_is_set(v, 3) && !bit_is_set(v, 4) && !bit_is_set(v, 8) && !bit_is_set(v, 9)
                && !bit_is_set(v, 63)) by (bit_vector)
                requires
                    v == (0u64 | (1u64 << 0u64)) | (1u64 << 1u64),
            ;
        }
        r
    }

    /// The raw 64-bit flag word.
    pub fn as_u64(&self) -> (r: u64)
        ensures
            r == self.0,
    {
        self.0
    }

    pub fn set_chain_present(self) -> (r: Self)
        ensures
            r.0 == self.0 | (1u64 << PRESENT_BIT),
    {
        PageEntryFlags(self.0 | (1u64 << PRESENT_BIT))
    }

    pub fn set_chain_writable(self) -> (r: Self)
        ensures
            r.0 == self.0 | (1u64 << WRITABLE_BIT),
    {
        PageEntryFlags(self.0 | (1u64 << WRITABLE_BIT))
    }

    pub fn set_chain_usr_access(self) -> (r: Self)
        ensures
            r.0 == self.0 | (1u64 << USR_ACCESS_BIT),
    {
        PageEntryFlags(self.0 | (1u64 << USR_ACCESS_BIT))
    }

    pub fn set_chain_write_through_cache(self) -> (r: Self)
        ensures
            r.0 == self.0 | (1u64 << WRITE_THROUGH_CACHE_BIT),
    {
        PageEntryFlags(self.0 | (1u64 << WRITE_THROUGH_CACHE_BIT))
    }

    pub fn set_chain_disable_cache(self) -> (r: Self)
        ensures
            r.0 == self.0 | (1u64 << DISABLE_CACHE_BIT),
    {
        PageEntryFlags(self.0 | (1u64 << DISABLE_CACHE_BIT))
    }

    pub fn set_chain_huge_page(self) -> (r: Self)
        ensures
            r.0 == self.0 | (1u64 << HUGE_PAGE_BIT),
    {
        PageEntryFlags(self.0 | (1u64 << HUGE_PAGE_BIT))
    }

    pub fn set_chain_global(self) -> (r: Self)
        ensures
            r.0 == self.0 | (1u64 << GLOBAL_BIT),
    {
        PageEntryFlags(self.0 | (1u64 << GLOBAL_BIT))
    }

    pub fn set_chain_full(self) -> (r: Self)
        ensures
            r.0 == self.0 | (1u64 << FULL_BIT),
    {
        PageEntryFlags(self.0 | (1u64 << FULL_BIT))
    }

    pub fn set_chain_is_table(self) -> (r: Self)
        ensures
            r.0 == self.0 | (1u64 << IS_TABLE_BIT),
    {
        PageEntryFlags(self.0 | (1u64 << IS_TABLE_BIT))
    }

    pub fn set_chain_not_executable(self) -> (r: Self)
        ensures
            r.0 == self.0 | (1u64 << NOT_EXECUTABLE_BIT),
    {
        PageEntryFlags(self.0 | (1u64 << NOT_EXECUTABLE_BIT))
    }

    pub fn present(&self) -> (r: bool)
        ensures
            r == self.spec_present(),
    {
        self.0 & (1u64 << PRESENT_BIT) != 0
    }

    pub fn writable(&self) -> (r: bool)
        ensures
            r == self.spec_writable(),
    {
        self.0 & (1u64 << WRITABLE_BIT) != 0
    }

    pub fn usr_access(&self) -> (r: bool)
        ensures
            r == self.spec_usr_access(),
    {
        self.0 & (1u64 << USR_ACCESS_BIT) != 0
    }

    pub fn write_through_cache(&self) -> (r: bool)
        ensures
            r == self.spec_write_through_cache(),
    {
        self.0 & (1u64 << WRITE_THROUGH_CACHE_BIT) != 0
    }

    pub fn disable_cache(&self) -> (r: bool)
        ensures
            r == self.spec_disable_cache(),
    {
        self.0 & (1u64 << DISABLE_CACHE_BIT) != 0
    }

    pub fn huge_page(&self) -> (r: bool)
        ensures
            r == self.spec_huge_page(),
    {
        self.0 & (1u64 << HUGE_PAGE_BIT) != 0
    }

    pub fn global(&self) -> (r: bool)
        ensures
            r == self.spec_global(),
    {
        self.0 & (1u64 << GLOBAL_BIT) != 0
    }

    pub fn full(&self) -> (r: bool)
        ensures
            r == self.spec_full(),
    {
        self.0 & (1u64 << FULL_BIT) != 0
    }

    pub fn is_table(&self) -> (r: bool)
        ensures
            r == self.spec_is_table(),
    {
        self.0 & (1u64 << IS_TABLE_BIT) != 0
    }

    pub fn not_executable(&self) -> (r: bool)
        ensures
            r == self.spec_not_executable(),
    {
        self.0 & (1u64 << NOT_EXECUTABLE_BIT) != 0
    }
}

/// The error a refused mapping reports. Below any fault-handling
/// infrastructure the architectural behaviour would be a page fault; here
/// the violation is reported to the caller instead of silently overwriting
/// a live mapping.
#[derive(Clone, Copy, Debug, PartialEq, Eq, Structural)]
pub enum MapError {
    /// The entry is already present: mapping over a live mapping is never
    /// allowed.
    AlreadyMapped,
    /// The frame is not aligned to the regular page size.
    MisalignedFrame,
}

/// One slot of a page table: a 64-bit word holding all of `PageEntryFlags`
/// plus the 4 KiB-aligned frame address in bits 12..51.
#[derive(Clone, Copy, Debug, PartialEq, Eq, Structural)]
pub struct PageTableEntry(pub u64);

impl PageTableEntry {
    pub open spec fn spec_present(self) -> bool {
        bit_is_set(self.0, PRESENT_BIT)
    }

    pub open spec fn spec_writable(self) -> bool {
        bit_is_set(self.0, WRITABLE_BIT)
    }

    pub open spec fn spec_usr_access(self) -> bool {
        bit_is_set(self.0, USR_ACCESS_BIT)
    }

    pub open spec fn spec_write_through_cache(self) -> bool {
        bit_is_set(self.0, WRITE_THROUGH_CACHE_BIT)
    }

    pub open spec fn spec_disable_cache(self) -> bool {
        bit_is_set(self.0, DISABLE_CACHE_BIT)
    }

    pub open spec fn spec_huge_page(self) -> bool {
        bit_is_set(self.0, HUGE_PAGE_BIT)
    }

    pub open spec fn spec_global(self) -> bool {
        bit_is_set(self.0, GLOBAL_BIT)
    }

    pub open spec fn spec_full(self) -> bool {
        bit_is_set(self.0, FULL_BIT)
    }

    pub open spec fn spec_is_table(self) -> bool {
        bit_is_set(self.0, IS_TABLE_BIT)
    }

    pub open spec fn spec_not_executable(self) -> bool {
        bit_is_set(self.0, NOT_EXECUTABLE_BIT)
    }

    /// The frame-address bits of the entry word.
    pub open spec fn spec_addr_bits(self) -> u64 {
        self.0 & ADDRESS_MASK
    }

    /// The zero word: not present, no address.
    pub fn empty() -> (r: Self)
        ensures
            r.0 == 0,
            !r.spec_present(),
            r.spec_addr_bits() == 0,
    {
        proof {
            assert(!bit_is_set(0u64, 0u64) && 0u64 & 0x000f_ffff_ffff_f000u64 == 0) by (bit_vector);
        }
        PageTableEntry(0)
    }

    /// Replaces all non-address bits with the given flags, preserving the
    /// frame-address bits: flags and address occupy disjoint bit ranges.
    pub fn set_flags(&mut self, flags: PageEntryFlags)
        ensures
            final (self).0 == (old(self).0 & ADDRESS_MASK) | flags.0,
            flags.wf() ==> final (self).spec_addr_bits() == old(self).spec_addr_bits(),
    {
        let word = self.0;
        self.0 = (word & ADDRESS_MASK) | flags.as_u64();
        proof {
            let w = old(self).0;
            let f = flags.0;
            assert(f & 0x000f_ffff_ffff_f000u64 == 0 ==> ((w & 0x000f_ffff_ffff_f000u64) | f)
                & 0x000f_ffff_ffff_f000u64 == w & 0x000f_ffff_ffff_f000u64) by (bit_vector);
        }
    }

    /// Installs the given flags and frame into a non-present entry. The
    /// present bit is forced on even when the caller's flags omitted it.
    /// Mapping an already-present entry is a caller error excluded by
    /// precondition (architecturally it faults), and frame ownership is the
    /// caller's contract: nothing here checks that the frame is unused
    /// elsewhere.
    pub fn map_unchecked(&mut self, frame: PhysicalAddress, flags: PageEntryFlags)
        requires
            !old(self).spec_present(),
            flags.wf(),
            frame.0 as int % 4096 == 0,
            frame.0 < 0x0010_0000_0000_0000,
        ensures
            final (self).0 == (((old(self).0 & ADDRESS_MASK) | flags.0) | (1u64 << PRESENT_BIT)) | (
            frame.0 & ADDRESS_MASK),
            final (self).spec_present(),
            old(self).spec_addr_bits() == 0 ==> final (self).spec_addr_bits() == frame.0,
    {
        self.set_flags(flags);
        let word = self.0;
        self.0 = word | (1u64 << PRESENT_BIT);
        let word = self.0;
        self.0 = word | (frame.as_u64() & ADDRESS_MASK);
        proof {
            let w = old(self).0;
            let f = flags.0;
            let fr = frame.0;
            assert(bit_is_set((((w & 0x000f_ffff_ffff_f000u64) | f) | (1u64 << 0u64)) | (fr
                & 0x000f_ffff_ffff_f000u64), 0u64)) by (bit_vector);
            assert((w & 0x000f_ffff_ffff_f000u64 == 0 && f & 0x000f_ffff_ffff_f000u64 == 0 && fr
                % 4096 == 0 && fr < 0x0010_0000_0000_0000u64) ==> ((((w
                & 0x000f_ffff_ffff_f000u64) | f) | (1u64 << 0u64)) | (fr
                & 0x000f_ffff_ffff_f000u64)) & 0x000f_ffff_ffff_f000u64 == fr) by (bit_vector);
        }
    }

    /// The checked form of mapping: refuses an already-present entry and a
    /// misaligned frame, leaving the entry untouched, instead of faulting.
    pub fn map(&mut self, frame: PhysicalAddress, flags: PageEntryFlags) -> (r: Result<
        (),
        MapError,
    >)
        requires
            flags.wf(),
        ensures
            old(self).spec_present() ==> r == Err::<(), MapError>(MapError::AlreadyMapped)
                && *final (self) == *old(self),
            !old(self).spec_present() && frame.0 as int % 4096 != 0 ==> r == Err::<(), MapError>(
                MapError::MisalignedFrame,
            ) && *final (self) == *old(self),
            !old(self).spec_present() && frame.0 as int % 4096 == 0 ==> {
                &&& r == Ok::<(), MapError>(())
                &&& final (self).0 == (((old(self).0 & ADDRESS_MASK) | flags.0) | (1u64
                    << PRESENT_BIT)) | (frame.0 & ADDRESS_MASK)
                &&& final (self).spec_present()
                &&& (old(self).spec_addr_bits() == 0 ==> final (self).spec_addr_bits() == frame.0
                    & ADDRESS_MASK)
            },
    {
        if self.present() {
            Err(MapError::AlreadyMapped)
        } else if !frame.is_aligned(REGULAR_PAGE_ALIGNMENT) {
            Err(MapError::MisalignedFrame)
        } else {
            self.set_flags(flags);
            let word = self.0;
            self.0 = word | (1u64 << PRESENT_BIT);
            let word = self.0;
            self.0 = word | (frame.as_u64() & ADDRESS_MASK);
            proof {
                let w = old(self).0;
                let f = flags.0;
                let fr = frame.0;
                assert(bit_is_set((((w & 0x000f_ffff_ffff_f000u64) | f) | (1u64 << 0u64)) | (fr
                    & 0x000f_ffff_ffff_f000u64), 0u64)) by (bit_vector);
                assert((w & 0x000f_ffff_ffff_f000u64 == 0 && f & 0x000f_ffff_ffff_f000u64 == 0 && fr
                    % 4096 == 0) ==> ((((w & 0x000f_ffff_ffff_f000u64) | f) | (1u64 << 0u64)) | (fr
                    & 0x000f_ffff_ffff_f000u64)) & 0x000f_ffff_ffff_f000u64 == fr
                    & 0x000f_ffff_ffff_f000u64) by (bit_vector);
            }
            Ok(())
        }
    }

    /// The frame address mapped by this entry, or nothing when the entry is
    /// not present: a non-present slot never hands out a stale address.
    pub fn mapped_address(&self) -> (r: Option<PhysicalAddress>)
        ensures
            self.spec_present() ==> r == Some(PhysicalAddress(self.spec_addr_bits())),
            !self.spec_present() ==> r is None,
    {
        if self.present() {
            Some(self.mapped_address_unchecked())
        } else {
            None
        }
    }

    /// The mapped address read as the location of a child table, meaningful
    /// only under the identity-mapping invariant: the table at that address
    /// is reached through `IdentityMappedRegion::table_at`. A huge leaf maps
    /// a data frame rather than a table, so it yields nothing, as does an
    /// entry not marked as a table pointer or not present.
    pub fn as_table_address(&self) -> (r: Option<PhysicalAddress>)
        ensures
            r == (if !self.spec_huge_page() && self.spec_is_table() && self.spec_present() {
                Some(PhysicalAddress(self.spec_addr_bits()))
            } else {
                None::<PhysicalAddress>
            }),
    {
        if !self.huge_page() && self.is_table() {
            match self.mapped_address() {
                Some(mapped_address) => Some(mapped_address),
                None => None,
            }
        } else {
            None
        }
    }

    /// The frame-address bits, read without checking the present flag.
    pub fn mapped_address_unchecked(&self) -> (r: PhysicalAddress)
        ensures
            r.0 == self.spec_addr_bits(),
    {
        PhysicalAddress(self.0 & ADDRESS_MASK)
    }

    /// The raw 64-bit entry word.
    pub fn as_u64(&self) -> (r: u64)
        ensures
            r == self.0,
    {
        self.0
    }

    pub fn present(&self) -> (r: bool)
        ensures
            r == self.spec_present(),
    {
        self.0 & (1u64 << PRESENT_BIT) != 0
    }

    pub fn writable(&self) -> (r: bool)
        ensures
            r == self.spec_writable(),
    {
        self.0 & (1u64 << WRITABLE_BIT) != 0
    }

    pub fn usr_access(&self) -> (r: bool)
        ensures
            r == self.spec_usr_access(),
    {
        self.0 & (1u64 << USR_ACCESS_BIT) != 0
    }

    pub fn write_through_cache(&self) -> (r: bool)
        ensures
            r == self.spec_write_through_cache(),
    {
        self.0 & (1u64 << WRITE_THROUGH_CACHE_BIT) != 0
    }

    pub fn disable_cache(&self) -> (r: bool)
        ensures
            r == self.spec_disable_cache(),
    {
        self.0 & (1u64 << DISABLE_CACHE_BIT) != 0
    }

    pub fn huge_page(&self) -> (r: bool)
        ensures
            r == self.spec_huge_page(),
    {
        self.0 & (1u64 << HUGE_PAGE_BIT) != 0
    }

    pub fn global(&self) -> (r: bool)
        ensures
            r == self.spec_global(),
    {
        self.0 & (1u64 << GLOBAL_BIT) != 0
    }

    pub fn full(&self) -> (r: bool)
        ensures
            r == self.spec_full(),
    {
        self.0 & (1u64 << FULL_BIT) != 0
    }

    pub fn is_table(&self) -> (r: bool)
        ensures
            r == self.spec_is_table(),
    {
        self.0 & (1u64 << IS_TABLE_BIT) != 0
    }

    pub fn not_executable(&self) -> (r: bool)
        ensures
            r == self.spec_not_executable(),
    {
        self.0 & (1u64 << NOT_EXECUTABLE_BIT) != 0
    }
}

/// Recovers the base address of the table containing an entry from the
/// entry's own identity-mapped location, by masking the location down to
/// page alignment. This substitutes for a stored parent pointer: every
/// table is exactly one page and identity-mapped.
pub fn parent_page_table_unchecked(entry_location: PhysicalAddress) -> (r: PhysicalAddress)
    ensures
        r.0 == entry_location.0 & 0xffff_ffff_ffff_f000u64,
{
    PhysicalAddress(entry_location.0 & 0xffff_ffff_ffff_f000)
}

/// Why masking recovers the parent: the location of slot `index` of a table
/// based at a page-aligned `base` masks back down to `base` itself.
pub proof fn lemma_parent_table_recovery(base: u64, index: u64)
    by (bit_vector)
    requires
        base % 4096 == 0,
        base <= 0xffff_ffff_ffff_f000u64,
        index < 512,
    ensures
        ((base + 8 * index) as u64) & 0xffff_ffff_ffff_f000u64 == base,
{
}

/// A fixed array of 512 entries representing one level of the 4-level
/// radix-tree translation structure. A table occupies exactly one 4 KiB
/// page and must sit page-aligned at its identity-mapped address.
#[derive(Debug)]
pub struct PageTable {
    pub entries: Vec<PageTableEntry>,
}

impl PageTable {
    /// A table always holds exactly 512 entries.
    pub open spec fn wf(self) -> bool {
        self.entries@.len() == PAGE_DIRECTORY_ENTRIES
    }

    /// A freshly zeroed table: all 512 entries non-present.
    pub fn empty() -> (r: Self)
        ensures
            r.wf(),
            forall|i: int| 0 <= i < 512 ==> r.entries@[i].0 == 0,
            forall|i: int| 0 <= i < 512 ==> !r.entries@[i].spec_present(),
    {
        let mut entries: Vec<PageTableEntry> = Vec::new();
        let mut i: usize = 0;
        while i < PAGE_DIRECTORY_ENTRIES
            invariant
                entries@.len() == i,
                i <= PAGE_DIRECTORY_ENTRIES,
                forall|j: int| 0 <= j < i ==> entries@[j].0 == 0,
                forall|j: int| 0 <= j < i ==> !entries@[j].spec_present(),
            decreases PAGE_DIRECTORY_ENTRIES - i,
        {
            entries.push(PageTableEntry::empty());
            i = i + 1;
        }
        PageTable { entries }
    }
}

} // verus!
