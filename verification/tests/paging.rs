use boot_paging::address_types::{PhysicalAddress, VirtualAddress};
use boot_paging::constants::PageSize;
use boot_paging::memory::IdentityMappedRegion;
use boot_paging::page_tables::{PageEntryFlags, PageTable, PageTableEntry};

/// An entry pointing at a child table, as the boot code wires levels together.
fn table_pointer(child: PhysicalAddress) -> PageTableEntry {
    let mut e = PageTableEntry::empty();
    e.map(child, PageEntryFlags::table_flags()).unwrap();
    e
}

/// A present huge-leaf entry mapping the given frame.
fn huge_leaf(frame: PhysicalAddress) -> PageTableEntry {
    let mut e = PageTableEntry::empty();
    e.map(frame, PageEntryFlags::huge_page_flags()).unwrap();
    e
}

/// A present regular-leaf entry mapping the given frame.
fn regular_leaf(frame: PhysicalAddress) -> PageTableEntry {
    let mut e = PageTableEntry::empty();
    e.map(frame, PageEntryFlags::regular_page_flags()).unwrap();
    e
}

#[test]
fn region_new_is_all_empty() {
    let region = IdentityMappedRegion::new(0x10000, 3);
    assert_eq!(region.table_count(), 3);
    assert_eq!(region.base_address(), 0x10000);
    for k in 0..3 {
        let addr = region.table_address(k);
        assert_eq!(addr.as_u64(), 0x10000 + 4096 * k as u64);
        assert!(region.contains_table(addr));
        for i in 0..512 {
            assert!(!region.read_entry(addr, i).present());
        }
    }
    assert!(!region.contains_table(PhysicalAddress::new_unchecked(0x13000)));
    assert!(!region.contains_table(PhysicalAddress::new_unchecked(0x10008)));
    assert!(!region.contains_table(PhysicalAddress::new_unchecked(0xf000)));
}

#[test]
fn empty_from_ptr_clears_every_entry() {
    let mut region = IdentityMappedRegion::new(0x10000, 2);
    let target = region.table_address(0);
    let other = region.table_address(1);
    for i in 0..512 {
        region.write_entry(target, i, huge_leaf(PhysicalAddress::new_unchecked(0x40000)));
    }
    region.write_entry(other, 7, regular_leaf(PhysicalAddress::new_unchecked(0x5000)));
    PageTable::empty_from_ptr(&mut region, target);
    for i in 0..512 {
        let e = region.read_entry(target, i);
        assert!(!e.present());
        assert_eq!(e.as_u64(), 0);
    }
    // the rest of the region is untouched
    assert!(region.read_entry(other, 7).present());
}

#[test]
fn search_returns_first_absent_level3_slot() {
    // L4[0] points to an L3 table whose slots 0..5 are present (non-huge)
    // table pointers to fully huge-populated L2 tables; slot 5 is absent.
    let mut region = IdentityMappedRegion::new(0x10000, 7);
    let l4 = region.table_address(0);
    let l3 = region.table_address(1);
    region.write_entry(l4, 0, table_pointer(l3));
    for i3 in 0..5 {
        let l2 = region.table_address(2 + i3);
        region.write_entry(l3, i3, table_pointer(l2));
        for i2 in 0..512 {
            region.write_entry(l2, i2, huge_leaf(PhysicalAddress::new_unchecked(0x200000)));
        }
    }
    let root = region.table_at(l4);
    let found = root.find_available_page(&region, PageSize::Regular);
    assert_eq!(found, Some(VirtualAddress::from_indexes(0, 5, 0, 0)));
    assert_eq!(found.unwrap().as_u64(), 5u64 << 30);
}

#[test]
fn search_reports_no_space_in_full_tree() {
    // Every L4 slot points to one shared L3 table that is entirely huge
    // leaves: nothing is available at any size.
    let mut region = IdentityMappedRegion::new(0x10000, 2);
    let l4 = region.table_address(0);
    let l3 = region.table_address(1);
    for i3 in 0..512 {
        region.write_entry(l3, i3, huge_leaf(PhysicalAddress::new_unchecked(0x200000)));
    }
    for i4 in 0..512 {
        region.write_entry(l4, i4, table_pointer(l3));
    }
    let root = region.table_at(l4);
    assert_eq!(root.find_available_page(&region, PageSize::Regular), None);
    assert_eq!(root.find_available_page(&region, PageSize::Big), None);
}

#[test]
fn search_skips_huge_level3_leaf_for_regular_request() {
    // L3[0] is a huge leaf: a regular request must not descend into it, and
    // the first usable slot is the absent L3[1].
    let mut region = IdentityMappedRegion::new(0x10000, 2);
    let l4 = region.table_address(0);
    let l3 = region.table_address(1);
    region.write_entry(l4, 0, table_pointer(l3));
    region.write_entry(l3, 0, huge_leaf(PhysicalAddress::new_unchecked(0x0)));
    let root = region.table_at(l4);
    assert_eq!(
        root.find_available_page(&region, PageSize::Regular),
        Some(VirtualAddress::from_indexes(0, 1, 0, 0))
    );
}

#[test]
fn search_finds_absent_level2_slot_for_big_request() {
    // A big request stops at level 2: the first absent L2 slot wins, and
    // present L2 slots are skipped without descending to level 1.
    let mut region = IdentityMappedRegion::new(0x10000, 3);
    let l4 = region.table_address(0);
    let l3 = region.table_address(1);
    let l2 = region.table_address(2);
    region.write_entry(l4, 0, table_pointer(l3));
    region.write_entry(l3, 0, table_pointer(l2));
    region.write_entry(l2, 0, huge_leaf(PhysicalAddress::new_unchecked(0x200000)));
    let root = region.table_at(l4);
    assert_eq!(
        root.find_available_page(&region, PageSize::Big),
        Some(VirtualAddress::from_indexes(0, 0, 1, 0))
    );
}

#[test]
fn end_to_end_map_then_search_returns_next_leaf() {
    // Build an empty 4-level path at a fixed offset, map one regular frame
    // at (0,0,0,0), and expect the search to hand out (0,0,0,1) next.
    let mut region = IdentityMappedRegion::new(0x10000, 4);
    let l4 = region.table_address(0);
    let l3 = region.table_address(1);
    let l2 = region.table_address(2);
    let l1 = region.table_address(3);
    PageTable::empty_from_ptr(&mut region, l4);
    region.write_entry(l4, 0, table_pointer(l3));
    region.write_entry(l3, 0, table_pointer(l2));
    region.write_entry(l2, 0, table_pointer(l1));

    // map the frame into L1[0] through the entry interface
    let mut leaf = region.read_entry(l1, 0);
    leaf.map(
        PhysicalAddress::new_unchecked(0x5000),
        PageEntryFlags::regular_page_flags(),
    )
    .unwrap();
    region.write_entry(l1, 0, leaf);

    let root = region.table_at(l4);
    let found = root.find_available_page(&region, PageSize::Regular);
    assert_eq!(found, Some(VirtualAddress::from_indexes(0, 0, 0, 1)));
    assert_eq!(found.unwrap().as_u64(), 0x1000);
}

#[test]
fn search_on_empty_root_skips_absent_subtrees() {
    // Nothing is present at the root: every L4 slot is skipped, so even an
    // otherwise empty region reports no space.
    let region = IdentityMappedRegion::new(0x10000, 1);
    let l4 = region.table_address(0);
    let root = region.table_at(l4);
    assert_eq!(root.find_available_page(&region, PageSize::Regular), None);
}
