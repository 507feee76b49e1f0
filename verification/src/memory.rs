//! The identity-mapped region of physical memory holding the boot-time page
//! tables, and the operations that walk it: zero-initializing a table in
//! place and the depth-first search for the first unmapped virtual address.
//!
//! During boot the tables are identity-mapped: a table's physical address,
//! used directly as a data pointer, reaches the table's contents. The region
//! models that flat window as a run of page-sized tables starting at a
//! page-aligned base address, so parent-to-child links (the frame-address
//! bits of an entry) resolve by index arithmetic instead of raw pointers.

use vstd::prelude::*;

verus! {

use crate::address_types::PhysicalAddress;
use crate::address_types::VirtualAddress;
use crate::address_types::spec_compose;
use crate::constants::PAGE_DIRECTORY_ENTRIES;
use crate::constants::PageSize;
use crate::page_tables::PageTable;
use crate::page_tables::PageTableEntry;

/// A contiguous, page-aligned run of identity-mapped page tables: the table
/// with index `k` occupies the 4 KiB frame at `base + 4096 * k`.
pub struct IdentityMappedRegion {
    /// Physical address of the first table; a multiple of 4096.
    pub base: u64,
    /// The tables, in address order.
    pub tables: Vec<PageTable>,
}

impl IdentityMappedRegion {
    /// The base is page-aligned, the run fits in the address space, and
    /// every table holds exactly 512 entries.
    pub open spec fn wf(self) -> bool {
        &&& self.base as int % 4096 == 0
        &&& self.base as int + 4096 * self.tables@.len() <= 0x1_0000_0000_0000_0000
        &&& forall|k: int| 0 <= k < self.tables@.len() ==> (#[trigger] self.tables@[k]).wf()
    }

    /// Whether `addr` is the identity-mapped base address of one of the
    /// region's tables.
    pub open spec fn spec_contains_table(self, addr: u64) -> bool {
        &&& self.base <= addr
        &&& (addr - self.base) % 4096 == 0
        &&& (addr - self.base) / 4096 < self.tables@.len()
    }

    /// The index of the table based at `addr`.
    pub open spec fn spec_table_index(self, addr: u64) -> int {
        (addr - self.base) / 4096
    }

    /// The entries of the table based at `addr`.
    pub open spec fn spec_table_at(self, addr: u64) -> Seq<PageTableEntry> {
        self.tables@[self.spec_table_index(addr)].entries@
    }

    /// A region of `table_count` zeroed tables starting at `base`.
    pub fn new(base: u64, table_count: usize) -> (r: Self)
        requires
            base as int % 4096 == 0,
            base as int + 4096 * (table_count as int) <= 0x1_0000_0000_0000_0000,
        ensures
            r.wf(),
            r.base == base,
            r.tables@.len() == table_count,
            forall|k: int, i: int|
                #![auto]
                0 <= k < table_count && 0 <= i < 512 ==> r.tables@[k].entries@[i].0 == 0,
    {
        let mut tables: Vec<PageTable> = Vec::new();
        let mut k: usize = 0;
        while k < table_count
            invariant
                tables@.len() == k,
                k <= table_count,
                forall|j: int| 0 <= j < k ==> (#[trigger] tables@[j]).wf(),
                forall|j: int, i: int|
                    #![auto]
                    0 <= j < k && 0 <= i < 512 ==> tables@[j].entries@[i].0 == 0,
            decreases table_count - k,
        {
            tables.push(PageTable::empty());
            k = k + 1;
        }
        IdentityMappedRegion { base, tables }
    }

    /// The number of tables in the region.
    pub fn table_count(&self) -> (r: usize)
        ensures
            r == self.tables@.len(),
    {
        self.tables.len()
    }

    /// The region's page-aligned base address.
    pub fn base_address(&self) -> (r: u64)
        ensures
            r == self.base,
    {
        self.base
    }

    /// The identity-mapped address of the table with index `k`.
    pub fn table_address(&self, k: usize) -> (r: PhysicalAddress)
        requires
            self.wf(),
            k < self.tables@.len(),
        ensures
            r.0 == self.base + 4096 * k,
            self.spec_contains_table(r.0),
            self.spec_table_index(r.0) == k,
    {
        PhysicalAddress(self.base + 4096 * (k as u64))
    }

    /// Whether `addr` is the base address of one of the region's tables.
    pub fn contains_table(&self, addr: PhysicalAddress) -> (r: bool)
        requires
            self.wf(),
        ensures
            r == self.spec_contains_table(addr.0),
    {
        addr.0 >= self.base && (addr.0 - self.base) % 4096 == 0 && (addr.0 - self.base) / 4096 < (
        self.tables.len() as u64)
    }

    /// The index of the table based at `addr`.
    pub fn table_index(&self, addr: PhysicalAddress) -> (r: usize)
        requires
            self.wf(),
            self.spec_contains_table(addr.0),
        ensures
            r as int == self.spec_table_index(addr.0),
    {
        let table_count: usize = self.tables.len();
        let k: u64 = (addr.0 - self.base) / 4096;
        proof {
            assert(k < table_count as u64);
        }
        k as usize
    }

    /// A reference to the table based at `addr`: the identity-map analogue
    /// of turning a physical address into a table pointer.
    pub fn table_at(&self, addr: PhysicalAddress) -> (t: &PageTable)
        requires
            self.wf(),
            self.spec_contains_table(addr.0),
        ensures
            t.entries@ == self.spec_table_at(addr.0),
            t.wf(),
    {
        let k = self.table_index(addr);
        &self.tables[k]
    }

    /// The entry with the given index of the table based at `addr`.
    pub fn read_entry(&self, addr: PhysicalAddress, index: usize) -> (r: PageTableEntry)
        requires
            self.wf(),
            self.spec_contains_table(addr.0),
            index < PAGE_DIRECTORY_ENTRIES,
        ensures
            r == self.spec_table_at(addr.0)[index as int],
    {
        let t = self.table_at(addr);
        t.entries[index]
    }

    /// Replaces the entry with the given index of the table based at `addr`,
    /// leaving every other slot of the region untouched.
    pub fn write_entry(&mut self, addr: PhysicalAddress, index: usize, entry: PageTableEntry)
        requires
            old(self).wf(),
            old(self).spec_contains_table(addr.0),
            index < PAGE_DIRECTORY_ENTRIES,
        ensures
            final (self).wf(),
            final (self).base == old(self).base,
            final (self).tables@.len() == old(self).tables@.len(),
            final (self).spec_table_at(addr.0) == old(self).spec_table_at(addr.0).update(
                index as int,
                entry,
            ),
            forall|k: int|
                0 <= k < old(self).tables@.len() && k != old(self).spec_table_index(addr.0)
                    ==> final (self).tables@[k] == old(self).tables@[k],
    {
        let k = self.table_index(addr);
        let ghost before = self.tables@;
        let mut t = self.tables.remove(k);
        t.entries.set(index, entry);
        self.tables.insert(k, t);
        proof {
            before.remove_ensures(k as int);
            before.remove(k as int).insert_ensures(k as int, t);
            assert forall|j: int|
                0 <= j < before.len() && j != k implies self.tables@[j] == before[j] by {
                if j < k {
                    assert(self.tables@[j] == before.remove(k as int)[j]);
                } else {
                    assert(self.tables@[j] == before.remove(k as int)[j - 1]);
                    assert(before.remove(k as int)[j - 1] == before[j]);
                }
            }
            assert(self.tables@[k as int] == t);
        }
    }
}

/// Whether `entries` is a sound table at the given level of the radix tree:
/// a table holds 512 entries, and above the lowest level every present entry
/// that is not a huge leaf carries the identity-mapped address of a sound
/// child table inside the region. The root level is 4; a present root entry
/// always points to a table, since no huge leaf exists at the root.
pub open spec fn wf_tree(
    region: IdentityMappedRegion,
    entries: Seq<PageTableEntry>,
    level: int,
) -> bool
    decreases level,
{
    &&& entries.len() == 512
    &&& (level > 1 ==> forall|i: int|
        0 <= i < 512 && (#[trigger] entries[i]).spec_present() && (level == 4
            || !entries[i].spec_huge_page()) ==> region.spec_contains_table(
            entries[i].spec_addr_bits(),
        ) && wf_tree(region, region.spec_table_at(entries[i].spec_addr_bits()), level - 1))
}

/// The first non-present slot of a level 1 table at index `i` or beyond.
pub open spec fn spec_find_l1(entries: Seq<PageTableEntry>, i: int) -> Option<int>
    decreases 512 - i,
{
    if i >= 512 {
        None
    } else if !entries[i].spec_present() {
        Some(i)
    } else {
        spec_find_l1(entries, i + 1)
    }
}

/// The first available `(i2, i1)` index pair of a level 2 table at index
/// `i` or beyond: a non-present level 2 slot hosts a whole free subtree, a
/// huge leaf is skipped, and descent to level 1 happens only for regular
/// requests.
pub open spec fn spec_find_l2(
    region: IdentityMappedRegion,
    entries: Seq<PageTableEntry>,
    i: int,
    page_size: PageSize,
) -> Option<(int, int)>
    decreases 512 - i,
{
    if i >= 512 {
        None
    } else if !entries[i].spec_present() {
        Some((i, 0))
    } else if entries[i].spec_huge_page() || page_size != PageSize::Regular {
        spec_find_l2(region, entries, i + 1, page_size)
    } else {
        match spec_find_l1(region.spec_table_at(entries[i].spec_addr_bits()), 0) {
            Some(i1) => Some((i, i1)),
            None => spec_find_l2(region, entries, i + 1, page_size),
        }
    }
}

/// The first available `(i3, i2, i1)` index triple of a level 3 table at
/// index `i` or beyond.
pub open spec fn spec_find_l3(
    region: IdentityMappedRegion,
    entries: Seq<PageTableEntry>,
    i: int,
    page_size: PageSize,
) -> Option<(int, int, int)>
    decreases 512 - i,
{
    if i >= 512 {
        None
    } else if !entries[i].spec_present() {
        Some((i, 0, 0))
    } else if entries[i].spec_huge_page() || !(page_size == PageSize::Big || page_size
        == PageSize::Regular) {
        spec_find_l3(region, entries, i + 1, page_size)
    } else {
        match spec_find_l2(
            region,
            region.spec_table_at(entries[i].spec_addr_bits()),
            0,
            page_size,
        ) {
            Some(pair) => Some((i, pair.0, pair.1)),
            None => spec_find_l3(region, entries, i + 1, page_size),
        }
    }
}

/// The first available `(i4, i3, i2, i1)` index path of the whole tree,
/// scanning root slots at index `i` or beyond. A non-present root slot is
/// skipped: the search only descends into subtrees that exist.
pub open spec fn spec_find_l4(
    region: IdentityMappedRegion,
    entries: Seq<PageTableEntry>,
    i: int,
    page_size: PageSize,
) -> Option<(int, int, int, int)>
    decreases 512 - i,
{
    if i >= 512 {
        None
    } else if !entries[i].spec_present() {
        spec_find_l4(region, entries, i + 1, page_size)
    } else {
        match spec_find_l3(
            region,
            region.spec_table_at(entries[i].spec_addr_bits()),
            0,
            page_size,
        ) {
            Some(triple) => Some((i, triple.0, triple.1, triple.2)),
            None => spec_find_l4(region, entries, i + 1, page_size),
        }
    }
}

/// Whether the level 2 slot `(a, b)` can host a page of the requested size:
/// a non-present level 2 slot hosts a big page or a whole free subtree (the
/// level 1 index must be zero, the base of the subtree); below a present,
/// non-huge level 2 entry only a regular page fits, in a non-present level 1
/// slot.
pub open spec fn spec_l2_slot_available(
    region: IdentityMappedRegion,
    entries: Seq<PageTableEntry>,
    a: int,
    b: int,
    page_size: PageSize,
) -> bool {
    let e2 = entries[a];
    if !e2.spec_present() {
        b == 0
    } else {
        &&& !e2.spec_huge_page()
        &&& page_size == PageSize::Regular
        &&& !region.spec_table_at(e2.spec_addr_bits())[b].spec_present()
    }
}

/// Whether the level 3 slot `(a, b, c)` can host a page of the requested
/// size: a non-present level 3 slot always can (a whole subtree is free),
/// and a present, non-huge one can when a level 2 slot below it can.
pub open spec fn spec_l3_slot_available(
    region: IdentityMappedRegion,
    entries: Seq<PageTableEntry>,
    a: int,
    b: int,
    c: int,
    page_size: PageSize,
) -> bool {
    let e3 = entries[a];
    if !e3.spec_present() {
        b == 0 && c == 0
    } else {
        &&& !e3.spec_huge_page()
        &&& (page_size == PageSize::Big || page_size == PageSize::Regular)
        &&& spec_l2_slot_available(
            region,
            region.spec_table_at(e3.spec_addr_bits()),
            b,
            c,
            page_size,
        )
    }
}

/// Whether the index path can host a page of the requested size in the tree
/// rooted at `entries`: the root slot must be present (the search never
/// invents subtrees), and some slot on the path below it must be free.
pub open spec fn spec_path_available(
    region: IdentityMappedRegion,
    entries: Seq<PageTableEntry>,
    path: (int, int, int, int),
    page_size: PageSize,
) -> bool {
    &&& entries[path.0].spec_present()
    &&& spec_l3_slot_available(
        region,
        region.spec_table_at(entries[path.0].spec_addr_bits()),
        path.1,
        path.2,
        path.3,
        page_size,
    )
}

proof fn lemma_find_l1_sound(entries: Seq<PageTableEntry>, i: int)
    ensures
        (match spec_find_l1(entries, i) {
            Some(j) => i <= j < 512 && !entries[j].spec_present(),
            None => forall|j: int| i <= j < 512 ==> (#[trigger] entries[j]).spec_present(),
        }),
    decreases 512 - i,
{
    if i >= 512 {
    } else if !entries[i].spec_present() {
    } else {
        lemma_find_l1_sound(entries, i + 1);
    }
}

proof fn lemma_find_l2_sound(
    region: IdentityMappedRegion,
    entries: Seq<PageTableEntry>,
    i: int,
    page_size: PageSize,
)
    ensures
        (match spec_find_l2(region, entries, i, page_size) {
            Some(p) => i <= p.0 < 512 && 0 <= p.1 < 512 && spec_l2_slot_available(
                region,
                entries,
                p.0,
                p.1,
                page_size,
            ),
            None => forall|a: int, b: int|
                i <= a < 512 && 0 <= b < 512 ==> !spec_l2_slot_available(
                    region,
                    entries,
                    a,
                    b,
                    page_size,
                ),
        }),
    decreases 512 - i,
{
    if i >= 512 {
    } else if !entries[i].spec_present() {
    } else if entries[i].spec_huge_page() || page_size != PageSize::Regular {
        lemma_find_l2_sound(region, entries, i + 1, page_size);
    } else {
        lemma_find_l1_sound(region.spec_table_at(entries[i].spec_addr_bits()), 0);
        lemma_find_l2_sound(region, entries, i + 1, page_size);
    }
}

proof fn lemma_find_l3_sound(
    region: IdentityMappedRegion,
    entries: Seq<PageTableEntry>,
    i: int,
    page_size: PageSize,
)
    ensures
        (match spec_find_l3(region, entries, i, page_size) {
            Some(t) => i <= t.0 < 512 && 0 <= t.1 < 512 && 0 <= t.2 < 512
                && spec_l3_slot_available(region, entries, t.0, t.1, t.2, page_size),
            None => forall|a: int, b: int, c: int|
                i <= a < 512 && 0 <= b < 512 && 0 <= c < 512 ==> !spec_l3_slot_available(
                    region,
                    entries,
                    a,
                    b,
                    c,
                    page_size,
                ),
        }),
    decreases 512 - i,
{
    if i >= 512 {
    } else if !entries[i].spec_present() {
    } else if entries[i].spec_huge_page() || !(page_size == PageSize::Big || page_size
        == PageSize::Regular) {
        lemma_find_l3_sound(region, entries, i + 1, page_size);
    } else {
        lemma_find_l2_sound(region, region.spec_table_at(entries[i].spec_addr_bits()), 0, page_size);
        lemma_find_l3_sound(region, entries, i + 1, page_size);
    }
}

/// What the free-slot search's two answers mean, beyond the search order its
/// definition fixes. An index path handed out is in range and genuinely
/// available: it leads through present, non-huge tables to a free slot able
/// to host the requested size, with the indices below that slot zero. And
/// "no space", scanning root slots at `i` or beyond, means exactly that: no
/// in-range path at or beyond `i` is available at that size.
pub proof fn lemma_find_l4_sound(
    region: IdentityMappedRegion,
    entries: Seq<PageTableEntry>,
    i: int,
    page_size: PageSize,
)
    ensures
        (match spec_find_l4(region, entries, i, page_size) {
            Some(path) => i <= path.0 < 512 && 0 <= path.1 < 512 && 0 <= path.2 < 512 && 0 <= path.3
                < 512 && spec_path_available(region, entries, path, page_size),
            None => forall|path: (int, int, int, int)|
                i <= path.0 < 512 && 0 <= path.1 < 512 && 0 <= path.2 < 512 && 0 <= path.3 < 512
                    ==> !spec_path_available(region, entries, path, page_size),
        }),
    decreases 512 - i,
{
    if i >= 512 {
    } else if !entries[i].spec_present() {
        lemma_find_l4_sound(region, entries, i + 1, page_size);
    } else {
        lemma_find_l3_sound(region, region.spec_table_at(entries[i].spec_addr_bits()), 0, page_size);
        lemma_find_l4_sound(region, entries, i + 1, page_size);
    }
}

impl PageTable {
    /// Zero-initializes the table based at `table_location` in place: all
    /// 512 entries become non-present, and no other table of the region is
    /// touched.
    pub fn empty_from_ptr(region: &mut IdentityMappedRegion, table_location: PhysicalAddress)
        requires
            old(region).wf(),
            old(region).spec_contains_table(table_location.0),
        ensures
            final (region).wf(),
            final (region).base == old(region).base,
            final (region).tables@.len() == old(region).tables@.len(),
            forall|i: int|
                #![auto]
                0 <= i < 512 ==> final (region).spec_table_at(table_location.0)[i].0 == 0
                    && !final (region).spec_table_at(table_location.0)[i].spec_present(),
            forall|k: int|
                0 <= k < old(region).tables@.len() && k != old(region).spec_table_index(
                    table_location.0,
                ) ==> final (region).tables@[k] == old(region).tables@[k],
    {
        let k = region.table_index(table_location);
        region.tables.set(k, PageTable::empty());
    }

    /// Depth-first search, in index order, for the first unmapped virtual
    /// address able to host a page of the requested size, walking this table
    /// as the root of the 4-level tree held in `region`. Returns nothing
    /// only when the whole root range is exhausted; `lemma_find_l4_sound`
    /// states what the two answers mean in terms of slot availability. The
    /// `full` marker bit is never consulted: the search always scans
    /// present/absent state.
    pub fn find_available_page(&self, region: &IdentityMappedRegion, page_size: PageSize) -> (r:
        Option<VirtualAddress>)
        requires
            region.wf(),
            wf_tree(*region, self.entries@, 4),
        ensures
            (match spec_find_l4(*region, self.entries@, 0, page_size) {
                Some(path) => r == Some(
                    VirtualAddress(spec_compose(path.0, path.1, path.2, path.3, 0) as u64),
                ),
                None => r is None,
            }),
    {
        let ghost es4 = self.entries@;
        let mut i4: usize = 0;
        while i4 < 512
            invariant
                region.wf(),
                wf_tree(*region, es4, 4),
                es4 == self.entries@,
                i4 <= 512,
                spec_find_l4(*region, es4, 0, page_size) == spec_find_l4(
                    *region,
                    es4,
                    i4 as int,
                    page_size,
                ),
            decreases 512 - i4,
        {
            let e4 = self.entries[i4];
            if e4.present() {
                proof {
                    assert(es4[i4 as int].spec_present());
                    assert(region.spec_contains_table(es4[i4 as int].spec_addr_bits())
                        && wf_tree(
                        *region,
                        region.spec_table_at(es4[i4 as int].spec_addr_bits()),
                        3,
                    ));
                }
                let t3_location = e4.mapped_address_unchecked();
                let t3 = region.table_at(t3_location);
                let ghost es3 = t3.entries@;
                let mut i3: usize = 0;
                while i3 < 512
                    invariant
                        region.wf(),
                        wf_tree(*region, es4, 4),
                        es4 == self.entries@,
                        i4 < 512,
                        es4[i4 as int].spec_present(),
                        t3_location.0 == es4[i4 as int].spec_addr_bits(),
                        es3 == region.spec_table_at(t3_location.0),
                        es3 == t3.entries@,
                        wf_tree(*region, es3, 3),
                        i3 <= 512,
                        spec_find_l3(*region, es3, 0, page_size) == spec_find_l3(
                            *region,
                            es3,
                            i3 as int,
                            page_size,
                        ),
                        spec_find_l4(*region, es4, 0, page_size) == spec_find_l4(
                            *region,
                            es4,
                            i4 as int,
                            page_size,
                        ),
                    decreases 512 - i3,
                {
                    let e3 = t3.entries[i3];
                    if !e3.present() {
                        proof {
                            assert(spec_find_l3(*region, es3, i3 as int, page_size) == Some(
                                (i3 as int, 0int, 0int),
                            ));
                            assert(spec_find_l4(*region, es4, i4 as int, page_size) == Some(
                                (i4 as int, i3 as int, 0int, 0int),
                            ));
                        }
                        return Some(VirtualAddress::from_indexes(i4, i3, 0, 0));
                    }
                    if !e3.huge_page() && (page_size == PageSize::Big || page_size
                        == PageSize::Regular) {
                        proof {
                            assert(region.spec_contains_table(es3[i3 as int].spec_addr_bits())
                                && wf_tree(
                                *region,
                                region.spec_table_at(es3[i3 as int].spec_addr_bits()),
                                2,
                            ));
                        }
                        let t2_location = e3.mapped_address_unchecked();
                        let t2 = region.table_at(t2_location);
                        let ghost es2 = t2.entries@;
                        let mut i2: usize = 0;
                        while i2 < 512
                            invariant
                                region.wf(),
                                wf_tree(*region, es4, 4),
                                es4 == self.entries@,
                                i4 < 512,
                                es4[i4 as int].spec_present(),
                                t3_location.0 == es4[i4 as int].spec_addr_bits(),
                                es3 == region.spec_table_at(t3_location.0),
                                es3 == t3.entries@,
                                wf_tree(*region, es3, 3),
                                i3 < 512,
                                es3[i3 as int].spec_present(),
                                !es3[i3 as int].spec_huge_page(),
                                page_size == PageSize::Big || page_size == PageSize::Regular,
                                t2_location.0 == es3[i3 as int].spec_addr_bits(),
                                es2 == region.spec_table_at(t2_location.0),
                                es2 == t2.entries@,
                                wf_tree(*region, es2, 2),
                                i2 <= 512,
                                spec_find_l2(*region, es2, 0, page_size) == spec_find_l2(
                                    *region,
                                    es2,
                                    i2 as int,
                                    page_size,
                                ),
                                spec_find_l3(*region, es3, 0, page_size) == spec_find_l3(
                                    *region,
                                    es3,
                                    i3 as int,
                                    page_size,
                                ),
                                spec_find_l4(*region, es4, 0, page_size) == spec_find_l4(
                                    *region,
                                    es4,
                                    i4 as int,
                                    page_size,
                                ),
                            decreases 512 - i2,
                        {
                            let e2 = t2.entries[i2];
                            if !e2.present() {
                                proof {
                                    assert(spec_find_l2(*region, es2, i2 as int, page_size) == Some(
                                        (i2 as int, 0int),
                                    ));
                                    assert(spec_find_l3(*region, es3, i3 as int, page_size) == Some(
                                        (i3 as int, i2 as int, 0int),
                                    ));
                                    assert(spec_find_l4(*region, es4, i4 as int, page_size) == Some(
                                        (i4 as int, i3 as int, i2 as int, 0int),
                                    ));
                                }
                                return Some(VirtualAddress::from_indexes(i4, i3, i2, 0));
                            }
                            if !e2.huge_page() && page_size == PageSize::Regular {
                                proof {
                                    assert(region.spec_contains_table(
                                        es2[i2 as int].spec_addr_bits(),
                                    ) && wf_tree(
                                        *region,
                                        region.spec_table_at(es2[i2 as int].spec_addr_bits()),
                                        1,
                                    ));
                                }
                                let t1_location = e2.mapped_address_unchecked();
                                let t1 = region.table_at(t1_location);
                                let ghost es1 = t1.entries@;
                                let mut i1: usize = 0;
                                while i1 < 512
                                    invariant
                                        region.wf(),
                                        es4 == self.entries@,
                                        i4 < 512,
                                        i3 < 512,
                                        i2 < 512,
                                        es4[i4 as int].spec_present(),
                                        t3_location.0 == es4[i4 as int].spec_addr_bits(),
                                        es3 == region.spec_table_at(t3_location.0),
                                        es3[i3 as int].spec_present(),
                                        !es3[i3 as int].spec_huge_page(),
                                        t2_location.0 == es3[i3 as int].spec_addr_bits(),
                                        es2 == region.spec_table_at(t2_location.0),
                                        es2[i2 as int].spec_present(),
                                        !es2[i2 as int].spec_huge_page(),
                                        page_size == PageSize::Regular,
                                        t1_location.0 == es2[i2 as int].spec_addr_bits(),
                                        es1 == region.spec_table_at(t1_location.0),
                                        es1 == t1.entries@,
                                        es1.len() == 512,
                                        i1 <= 512,
                                        spec_find_l1(es1, 0) == spec_find_l1(es1, i1 as int),
                                        spec_find_l2(*region, es2, 0, page_size) == spec_find_l2(
                                            *region,
                                            es2,
                                            i2 as int,
                                            page_size,
                                        ),
                                        spec_find_l3(*region, es3, 0, page_size) == spec_find_l3(
                                            *region,
                                            es3,
                                            i3 as int,
                                            page_size,
                                        ),
                                        spec_find_l4(*region, es4, 0, page_size) == spec_find_l4(
                                            *region,
                                            es4,
                                            i4 as int,
                                            page_size,
                                        ),
                                    decreases 512 - i1,
                                {
                                    let e1 = t1.entries[i1];
                                    if !e1.present() {
                                        proof {
                                            assert(spec_find_l1(es1, i1 as int) == Some(i1 as int));
                                            assert(spec_find_l2(*region, es2, i2 as int, page_size)
                                                == Some((i2 as int, i1 as int)));
                                            assert(spec_find_l3(*region, es3, i3 as int, page_size)
                                                == Some((i3 as int, i2 as int, i1 as int)));
                                            assert(spec_find_l4(*region, es4, i4 as int, page_size)
                                                == Some(
                                                (i4 as int, i3 as int, i2 as int, i1 as int),
                                            ));
                                        }
                                        return Some(VirtualAddress::from_indexes(i4, i3, i2, i1));
                                    }
                                    i1 = i1 + 1;
                                }
                                proof {
                                    assert(spec_find_l1(es1, 512) is None);
                                    assert(spec_find_l2(*region, es2, i2 as int, page_size)
                                        == spec_find_l2(*region, es2, i2 as int + 1, page_size));
                                }
                            } else {
                                proof {
                                    assert(spec_find_l2(*region, es2, i2 as int, page_size)
                                        == spec_find_l2(*region, es2, i2 as int + 1, page_size));
                                }
                            }
                            i2 = i2 + 1;
                        }
                        proof {
                            assert(spec_find_l2(*region, es2, 512, page_size) is None);
                            assert(spec_find_l3(*region, es3, i3 as int, page_size)
                                == spec_find_l3(*region, es3, i3 as int + 1, page_size));
                        }
                    } else {
                        proof {
                            assert(spec_find_l3(*region, es3, i3 as int, page_size)
                                == spec_find_l3(*region, es3, i3 as int + 1, page_size));
                        }
                    }
                    i3 = i3 + 1;
                }
                proof {
                    assert(spec_find_l3(*region, es3, 512, page_size) is None);
                    assert(spec_find_l4(*region, es4, i4 as int, page_size) == spec_find_l4(
                        *region,
                        es4,
                        i4 as int + 1,
                        page_size,
                    ));
                }
            } else {
                proof {
                    assert(spec_find_l4(*region, es4, i4 as int, page_size) == spec_find_l4(
                        *region,
                        es4,
                        i4 as int + 1,
                        page_size,
                    ));
                }
            }
            i4 = i4 + 1;
        }
        proof {
            assert(spec_find_l4(*region, es4, 512, page_size) is None);
        }
        None
    }
}

} // verus!
