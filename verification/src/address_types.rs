//! Typed wrappers over raw physical and virtual addresses: alignment checks
//! and the exact, bidirectional decomposition of a virtual address into the
//! four 9-bit paging-level indices and the 12-bit page offset.

use vstd::prelude::*;

verus! {

use vstd::arithmetic::div_mod::lemma_fundamental_div_mod_converse;

/// An address into the machine's physical memory space.
#[derive(Clone, Copy, Debug, PartialEq, Eq, Structural)]
pub struct PhysicalAddress(pub u64);

/// An address in the CPU's linear address space.
#[derive(Clone, Copy, Debug, PartialEq, Eq, Structural)]
pub struct VirtualAddress(pub u64);

/// The linear address denoted by four paging-level indices and a page
/// offset, each already reduced to its bit width.
pub open spec fn spec_compose(i4: int, i3: int, i2: int, i1: int, offset: int) -> int {
    (((i4 * 512 + i3) * 512 + i2) * 512 + i1) * 4096 + offset
}

/// The page offset: the low 12 bits of a linear address.
pub open spec fn spec_offset(va: int) -> int {
    va % 4096
}

/// The level 1 index: bits 12..21 of a linear address.
pub open spec fn spec_l1_index(va: int) -> int {
    (va / 4096) % 512
}

/// The level 2 index: bits 21..30 of a linear address.
pub open spec fn spec_l2_index(va: int) -> int {
    (va / 4096 / 512) % 512
}

/// The level 3 index: bits 30..39 of a linear address.
pub open spec fn spec_l3_index(va: int) -> int {
    (va / 4096 / 512 / 512) % 512
}

/// The level 4 index: bits 39..48 of a linear address.
pub open spec fn spec_l4_index(va: int) -> int {
    (va / 4096 / 512 / 512 / 512) % 512
}

impl PhysicalAddress {
    /// Wraps a raw physical address. The wrapper validates nothing: frame
    /// ownership and alignment are the caller's contract.
    pub fn new_unchecked(address: u64) -> (r: Self)
        ensures
            r.0 == address,
    {
        PhysicalAddress(address)
    }

    /// The raw address.
    pub fn as_u64(&self) -> (r: u64)
        ensures
            r == self.0,
    {
        self.0
    }

    /// Whether the address is a multiple of the given granularity.
    pub fn is_aligned(&self, alignment: u64) -> (r: bool)
        requires
            alignment > 0,
        ensures
            r == (self.0 as int % alignment as int == 0),
    {
        self.0 % alignment == 0
    }
}

/// An address is a multiple of the regular page size exactly when reducing
/// it modulo 4096 leaves nothing: aligned addresses are precisely the values
/// `4096 * k`.
pub proof fn lemma_aligned_iff_multiple_of_page_size(address: u64)
    ensures
        (address as int % 4096 == 0) <==> (address as int == 4096 * (address as int / 4096)),
{
    vstd::arithmetic::div_mod::lemma_fundamental_div_mod(address as int, 4096);
}

impl VirtualAddress {
    /// Wraps a raw linear address. The wrapper validates nothing.
    pub fn new_unchecked(address: u64) -> (r: Self)
        ensures
            r.0 == address,
    {
        VirtualAddress(address)
    }

    /// The raw address.
    pub fn as_u64(&self) -> (r: u64)
        ensures
            r == self.0,
    {
        self.0
    }

    /// Composes a linear address from the four paging-level indices and a
    /// page offset. Arguments are reduced to their bit width (9 bits per
    /// index, 12 bits of offset) rather than validated, so callers must pass
    /// indices in [0, 511] and offsets in [0, 4095] for the result to be
    /// meaningful.
    pub fn compose(i4: usize, i3: usize, i2: usize, i1: usize, offset: usize) -> (r: Self)
        ensures
            r.0 as int == spec_compose(
                i4 as int % 512,
                i3 as int % 512,
                i2 as int % 512,
                i1 as int % 512,
                offset as int % 4096,
            ),
    {
        let m4: u64 = i4 as u64 % 512;
        let m3: u64 = i3 as u64 % 512;
        let m2: u64 = i2 as u64 % 512;
        let m1: u64 = i1 as u64 % 512;
        let off: u64 = offset as u64 % 4096;
        VirtualAddress((((m4 * 512 + m3) * 512 + m2) * 512 + m1) * 4096 + off)
    }

    /// The base linear address of the page reached through table slots
    /// `i4 -> i3 -> i2 -> i1`: composition with page offset zero.
    pub fn from_indexes(i4: usize, i3: usize, i2: usize, i1: usize) -> (r: Self)
        ensures
            r.0 as int == spec_compose(
                i4 as int % 512,
                i3 as int % 512,
                i2 as int % 512,
                i1 as int % 512,
                0,
            ),
    {
        Self::compose(i4, i3, i2, i1, 0)
    }

    /// Decomposes the linear address back into the four paging-level indices
    /// and the page offset, returned as `(i4, i3, i2, i1, offset)`.
    pub fn decompose(&self) -> (r: (usize, usize, usize, usize, usize))
        ensures
            r.0 as int == spec_l4_index(self.0 as int),
            r.1 as int == spec_l3_index(self.0 as int),
            r.2 as int == spec_l2_index(self.0 as int),
            r.3 as int == spec_l1_index(self.0 as int),
            r.4 as int == spec_offset(self.0 as int),
    {
        let offset: u64 = self.0 % 4096;
        let n1: u64 = self.0 / 4096;
        let i1: u64 = n1 % 512;
        let n2: u64 = n1 / 512;
        let i2: u64 = n2 % 512;
        let n3: u64 = n2 / 512;
        let i3: u64 = n3 % 512;
        let n4: u64 = n3 / 512;
        let i4: u64 = n4 % 512;
        (i4 as usize, i3 as usize, i2 as usize, i1 as usize, offset as usize)
    }
}

/// Composition then decomposition is exact: for indices in [0, 511] and an
/// offset in [0, 4095], every component of the composed linear address reads
/// back as the value it was built from.
pub proof fn lemma_compose_decompose_round_trip(i4: int, i3: int, i2: int, i1: int, offset: int)
    requires
        0 <= i4 < 512,
        0 <= i3 < 512,
        0 <= i2 < 512,
        0 <= i1 < 512,
        0 <= offset < 4096,
    ensures
        spec_l4_index(spec_compose(i4, i3, i2, i1, offset)) == i4,
        spec_l3_index(spec_compose(i4, i3, i2, i1, offset)) == i3,
        spec_l2_index(spec_compose(i4, i3, i2, i1, offset)) == i2,
        spec_l1_index(spec_compose(i4, i3, i2, i1, offset)) == i1,
        spec_offset(spec_compose(i4, i3, i2, i1, offset)) == offset,
{
    let va = spec_compose(i4, i3, i2, i1, offset);
    let n1 = ((i4 * 512 + i3) * 512 + i2) * 512 + i1;
    let n2 = (i4 * 512 + i3) * 512 + i2;
    let n3 = i4 * 512 + i3;
    lemma_fundamental_div_mod_converse(va, 4096, n1, offset);
    lemma_fundamental_div_mod_converse(n1, 512, n2, i1);
    lemma_fundamental_div_mod_converse(n2, 512, n3, i2);
    lemma_fundamental_div_mod_converse(n3, 512, i4, i3);
    vstd::arithmetic::div_mod::lemma_small_mod(i4 as nat, 512);
}

} // verus!
