use boot_paging::address_types::PhysicalAddress;
use boot_paging::page_tables::{
    parent_page_table_unchecked, MapError, PageEntryFlags, PageTable, PageTableEntry,
};

#[test]
fn table_flags_algebra() {
    let f = PageEntryFlags::table_flags();
    assert!(f.present());
    assert!(f.writable());
    assert!(f.is_table());
    assert!(!f.huge_page());
    assert!(!f.usr_access());
    assert!(!f.write_through_cache());
    assert!(!f.disable_cache());
    assert!(!f.global());
    assert!(!f.full());
    assert!(!f.not_executable());
    assert_eq!(f.as_u64(), 0x403);
}

#[test]
fn huge_page_flags_algebra() {
    let f = PageEntryFlags::huge_page_flags();
    assert!(f.present());
    assert!(f.writable());
    assert!(f.huge_page());
    assert!(!f.is_table());
    assert!(!f.usr_access());
    assert!(!f.global());
    assert_eq!(f.as_u64(), 0x83);
}

#[test]
fn regular_page_flags_algebra() {
    let f = PageEntryFlags::regular_page_flags();
    assert!(f.present());
    assert!(f.writable());
    assert!(!f.huge_page());
    assert!(!f.is_table());
    assert_eq!(f.as_u64(), 0x3);
}

#[test]
fn new_flags_default_to_all_clear() {
    let f = PageEntryFlags::new();
    assert_eq!(f.as_u64(), 0);
    assert!(!f.present());
    assert!(!f.writable());
    assert!(!f.usr_access());
    assert!(!f.write_through_cache());
    assert!(!f.disable_cache());
    assert!(!f.huge_page());
    assert!(!f.global());
    assert!(!f.full());
    assert!(!f.is_table());
    assert!(!f.not_executable());
}

#[test]
fn chained_setters_accumulate() {
    let f = PageEntryFlags::new()
        .set_chain_usr_access()
        .set_chain_write_through_cache()
        .set_chain_disable_cache()
        .set_chain_global()
        .set_chain_full()
        .set_chain_not_executable();
    assert!(f.usr_access());
    assert!(f.write_through_cache());
    assert!(f.disable_cache());
    assert!(f.global());
    assert!(f.full());
    assert!(f.not_executable());
    assert!(!f.present());
    assert_eq!(f.as_u64(), (1 << 2) | (1 << 3) | (1 << 4) | (1 << 8) | (1 << 9) | (1 << 63));
}

#[test]
fn empty_entry_is_not_present_and_maps_nothing() {
    let e = PageTableEntry::empty();
    assert_eq!(e.as_u64(), 0);
    assert!(!e.present());
    assert_eq!(e.mapped_address(), None);
}

#[test]
fn mapping_installs_frame_and_forces_present() {
    let mut e = PageTableEntry::empty();
    let frame = PhysicalAddress::new_unchecked(0x7000);
    let r = e.map(frame, PageEntryFlags::regular_page_flags());
    assert_eq!(r, Ok(()));
    assert!(e.present());
    assert!(e.writable());
    assert!(!e.huge_page());
    assert_eq!(e.mapped_address(), Some(frame));
}

#[test]
fn second_map_attempt_is_refused() {
    let mut e = PageTableEntry::empty();
    let frame = PhysicalAddress::new_unchecked(0x7000);
    e.map(frame, PageEntryFlags::regular_page_flags()).unwrap();
    let before = e.as_u64();
    let other = PhysicalAddress::new_unchecked(0x8000);
    let r = e.map(other, PageEntryFlags::regular_page_flags());
    assert_eq!(r, Err(MapError::AlreadyMapped));
    assert_eq!(e.as_u64(), before);
    assert_eq!(e.mapped_address(), Some(frame));
}

#[test]
fn misaligned_frame_is_refused() {
    let mut e = PageTableEntry::empty();
    let frame = PhysicalAddress::new_unchecked(0x7001);
    let r = e.map(frame, PageEntryFlags::regular_page_flags());
    assert_eq!(r, Err(MapError::MisalignedFrame));
    assert!(!e.present());
    assert_eq!(e.as_u64(), 0);
}

#[test]
fn map_unchecked_installs_frame() {
    let mut e = PageTableEntry::empty();
    let frame = PhysicalAddress::new_unchecked(0x3f000);
    e.map_unchecked(frame, PageEntryFlags::huge_page_flags());
    assert!(e.present());
    assert!(e.huge_page());
    assert_eq!(e.mapped_address(), Some(frame));
}

#[test]
fn set_flags_preserves_frame_address() {
    let mut e = PageTableEntry::empty();
    let frame = PhysicalAddress::new_unchecked(0x9000);
    e.map(frame, PageEntryFlags::regular_page_flags()).unwrap();
    e.set_flags(PageEntryFlags::huge_page_flags());
    assert!(e.huge_page());
    assert!(e.present());
    assert!(!e.is_table());
    assert_eq!(e.mapped_address(), Some(frame));
}

#[test]
fn entry_flag_accessors_mirror_word_bits() {
    let e = PageTableEntry::empty();
    assert!(!e.writable());
    assert!(!e.usr_access());
    assert!(!e.write_through_cache());
    assert!(!e.disable_cache());
    assert!(!e.global());
    assert!(!e.full());
    assert!(!e.is_table());
    assert!(!e.not_executable());
    let mut mapped = PageTableEntry::empty();
    mapped
        .map(
            PhysicalAddress::new_unchecked(0x4000),
            PageEntryFlags::new().set_chain_not_executable().set_chain_global(),
        )
        .unwrap();
    assert!(mapped.present());
    assert!(mapped.global());
    assert!(mapped.not_executable());
    assert!(!mapped.writable());
}

#[test]
fn address_bits_cut_off_above_bit_51() {
    let mut e = PageTableEntry::empty();
    let frame = PhysicalAddress::new_unchecked(0x8018_0000_0000_1000);
    let r = e.map(frame, PageEntryFlags::regular_page_flags());
    assert_eq!(r, Ok(()));
    assert_eq!(
        e.mapped_address(),
        Some(PhysicalAddress::new_unchecked(0x0008_0000_0000_1000))
    );
}

#[test]
fn table_address_only_for_table_pointers() {
    let child = PhysicalAddress::new_unchecked(0x11000);
    let mut pointer = PageTableEntry::empty();
    pointer.map(child, PageEntryFlags::table_flags()).unwrap();
    assert_eq!(pointer.as_table_address(), Some(child));

    let mut huge = PageTableEntry::empty();
    huge.map(child, PageEntryFlags::huge_page_flags()).unwrap();
    assert_eq!(huge.as_table_address(), None);

    let mut leaf = PageTableEntry::empty();
    leaf.map(child, PageEntryFlags::regular_page_flags()).unwrap();
    assert_eq!(leaf.as_table_address(), None);

    assert_eq!(PageTableEntry::empty().as_table_address(), None);
}

#[test]
fn parent_table_recovered_by_masking() {
    for slot in [0u64, 1, 5, 511] {
        let entry_location = PhysicalAddress::new_unchecked(0x10000 + 8 * slot);
        assert_eq!(parent_page_table_unchecked(entry_location).as_u64(), 0x10000);
    }
    let aligned = PhysicalAddress::new_unchecked(0x23000);
    assert_eq!(parent_page_table_unchecked(aligned).as_u64(), 0x23000);
}

#[test]
fn fresh_table_has_no_present_entry() {
    let t = PageTable::empty();
    assert_eq!(t.entries.len(), 512);
    for e in &t.entries {
        assert!(!e.present());
        assert_eq!(e.as_u64(), 0);
    }
}
