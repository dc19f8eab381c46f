//! The page tables that identity-map the first 4 GiB with 2 MiB pages before entering long mode.
use vstd::prelude::*;

verus! {

broadcast use vstd::array::group_array_axioms;

/// Number of entries in one page table.
pub const ENTRIES_PER_TABLE: usize = 512;

/// Physical address of the PML4.
pub const PML4_ADDR: u64 = 0x20000;

/// Physical address of the page-directory-pointer table.
pub const PDPT_ADDR: u64 = 0x21000;

/// Physical addresses of the four page directories, one per GiB.
pub const PD0_ADDR: u64 = 0x22000;
pub const PD1_ADDR: u64 = 0x23000;
pub const PD2_ADDR: u64 = 0x24000;
pub const PD3_ADDR: u64 = 0x25000;

/// Present and writable.
pub const TABLE_FLAGS: u64 = 0b11;

/// Page size (2 MiB), present and writable.
pub const HUGE_PAGE_FLAGS: u64 = 0b1000_0011;

/// Size of a page mapped by a page-directory entry.
pub const HUGE_PAGE_SIZE: u64 = 0x20_0000;

/// Bits of an entry that hold the physical address of the next table.
pub const ADDRESS_MASK: u64 = 0x000F_FFFF_FFFF_F000;

/// One page table: 512 entries of 64 bits.
#[derive(Clone, Copy)]
pub struct PageTable {
    pub entries: [u64; 512],
}

/// The tables the loader builds: a PML4, a PDPT and four page directories.
#[derive(Clone, Copy)]
pub struct PagingTables {
    pub pml4: PageTable,
    pub pdpt: PageTable,
    pub pd0: PageTable,
    pub pd1: PageTable,
    pub pd2: PageTable,
    pub pd3: PageTable,
}

/// Entry `i` of a table, as a number.
pub open spec fn entry(t: PageTable, i: int) -> int {
    t.entries@[i] as int
}

/// Page directory number `k` (0 to 3).
pub open spec fn directory(t: PagingTables, k: int) -> PageTable {
    if k == 0 {
        t.pd0
    } else if k == 1 {
        t.pd1
    } else if k == 2 {
        t.pd2
    } else {
        t.pd3
    }
}

/// A page directory whose entry `i` maps the 2 MiB page `first_page + i`.
pub open spec fn maps_huge_pages_from(pd: PageTable, first_page: int) -> bool {
    forall|i: int|
        0 <= i < 512 ==> #[trigger] entry(pd, i) == (first_page + i) * HUGE_PAGE_SIZE
            + HUGE_PAGE_FLAGS
}

/// The layout that `setup_paging` produces: PML4 entry 0 points at the PDPT, PDPT entries
/// 0 to 3 point at the four page directories, directory `k` maps GiB `k` with 2 MiB pages,
/// and every other entry is zero.
pub open spec fn boot_identity_tables(t: PagingTables) -> bool {
    &&& entry(t.pml4, 0) == PDPT_ADDR + TABLE_FLAGS
    &&& forall|i: int| 1 <= i < 512 ==> #[trigger] entry(t.pml4, i) == 0
    &&& forall|k: int| 0 <= k < 4 ==> #[trigger] entry(t.pdpt, k) == PD0_ADDR + k * 0x1000 + TABLE_FLAGS
    &&& forall|k: int| 4 <= k < 512 ==> #[trigger] entry(t.pdpt, k) == 0
    &&& maps_huge_pages_from(t.pd0, 0)
    &&& maps_huge_pages_from(t.pd1, 512)
    &&& maps_huge_pages_from(t.pd2, 1024)
    &&& maps_huge_pages_from(t.pd3, 1536)
}

/// The table found at a physical address, among the six the loader places.
pub open spec fn table_at(t: PagingTables, addr: u64) -> Option<PageTable> {
    if addr == PML4_ADDR {
        Some(t.pml4)
    } else if addr == PDPT_ADDR {
        Some(t.pdpt)
    } else if addr == PD0_ADDR {
        Some(t.pd0)
    } else if addr == PD1_ADDR {
        Some(t.pd1)
    } else if addr == PD2_ADDR {
        Some(t.pd2)
    } else if addr == PD3_ADDR {
        Some(t.pd3)
    } else {
        None
    }
}

/// Index into a table at the level whose index starts at bit `shift` of a virtual address.
pub open spec fn table_index(va: u64, shift: u64) -> int {
    ((va >> shift) & 0x1FF) as int
}

/// What the four-level walk of the MMU gives for a virtual address, with the tables placed
/// at their physical addresses: `None` where it faults.
pub open spec fn page_walk(t: PagingTables, va: u64) -> Option<u64> {
    let e4 = t.pml4.entries@[table_index(va, 39)];
    if e4 & 1 == 0 {
        None
    } else {
        match table_at(t, e4 & ADDRESS_MASK) {
            None => None,
            Some(pdpt) => {
                let e3 = pdpt.entries@[table_index(va, 30)];
                if e3 & 1 == 0 {
                    None
                } else if e3 & 0x80 != 0 {
                    Some((e3 & 0x000F_FFFF_C000_0000) | (va & 0x3FFF_FFFF))
                } else {
                    match table_at(t, e3 & ADDRESS_MASK) {
                        None => None,
                        Some(pd) => {
                            let e2 = pd.entries@[table_index(va, 21)];
                            if e2 & 1 == 0 {
                                None
                            } else if e2 & 0x80 != 0 {
                                Some((e2 & 0x000F_FFFF_FFE0_0000) | (va & 0x1F_FFFF))
                            } else {
                                match table_at(t, e2 & ADDRESS_MASK) {
                                    None => None,
                                    Some(pt) => {
                                        let e1 = pt.entries@[table_index(va, 12)];
                                        if e1 & 1 == 0 {
                                            None
                                        } else {
                                            Some((e1 & ADDRESS_MASK) | (va & 0xFFF))
                                        }
                                    },
                                }
                            }
                        },
                    }
                }
            },
        }
    }
}

/// A table with every entry zero.
fn empty_table() -> (t: PageTable)
    ensures
        forall|i: int| 0 <= i < 512 ==> #[trigger] t.entries@[i] == 0,
{
    PageTable { entries: [0u64; 512] }
}

/// Writes entry `i` of a table.
fn set_entry(t: &mut PageTable, i: usize, value: u64)
    requires
        i < 512,
    ensures
        final(t).entries@ == old(t).entries@.update(i as int, value),
{
    t.entries[i] = value;
}

/// A page directory mapping 512 consecutive 2 MiB pages starting at byte `base`.
fn huge_page_directory(base: u64) -> (pd: PageTable)
    requires
        base == 0 || base == 0x4000_0000 || base == 0x8000_0000 || base == 0xC000_0000,
    ensures
        maps_huge_pages_from(pd, (base / HUGE_PAGE_SIZE) as int),
{
    let mut entries = [0u64; 512];
    for i in 0..512usize
        invariant
            base == 0 || base == 0x4000_0000 || base == 0x8000_0000 || base == 0xC000_0000,
            forall|j: int|
                0 <= j < i ==> #[trigger] entries@[j] as int == ((base / HUGE_PAGE_SIZE) as int + j)
                    * HUGE_PAGE_SIZE + HUGE_PAGE_FLAGS,
    {
        let addr = base + i as u64 * 0x20_0000;
        proof {
            lemma_huge_entry(base, i as u64);
        }
        entries[i] = addr | HUGE_PAGE_FLAGS;
    }
    let pd = PageTable { entries };
    assert forall|i: int| 0 <= i < 512 implies #[trigger] entry(pd, i) == ((base
        / HUGE_PAGE_SIZE) as int + i) * HUGE_PAGE_SIZE + HUGE_PAGE_FLAGS by {}
    pd
}

proof fn lemma_huge_entry(base: u64, i: u64)
    requires
        base == 0 || base == 0x4000_0000 || base == 0x8000_0000 || base == 0xC000_0000,
        i < 512,
    ensures
        ((base + i * 0x20_0000) as u64) | 0x83u64 == (base / 0x20_0000 + i) * 0x20_0000 + 0x83,
        base + i * 0x20_0000 < 0x1_0000_0000,
{
    assert(((base + i * 0x20_0000) as u64) | 0x83u64 == (base / 0x20_0000 + i) * 0x20_0000 + 0x83
        && base + i * 0x20_0000 < 0x1_0000_0000) by (bit_vector)
        requires
            base == 0 || base == 0x4000_0000 || base == 0x8000_0000 || base == 0xC000_0000,
            i < 512,
    ;
}

/// Builds the tables that identity-map the first 4 GiB: one PML4 entry, four PDPT entries
/// and four directories of 2 MiB pages.
pub fn setup_paging() -> (t: PagingTables)
    ensures
        boot_identity_tables(t),
{
    let mut pml4 = empty_table();
    let mut pdpt = empty_table();
    set_entry(&mut pml4, 0, PDPT_ADDR | TABLE_FLAGS);
    set_entry(&mut pdpt, 0, PD0_ADDR | TABLE_FLAGS);
    set_entry(&mut pdpt, 1, PD1_ADDR | TABLE_FLAGS);
    set_entry(&mut pdpt, 2, PD2_ADDR | TABLE_FLAGS);
    set_entry(&mut pdpt, 3, PD3_ADDR | TABLE_FLAGS);
    assert(PDPT_ADDR | TABLE_FLAGS == 0x21003) by (bit_vector);
    assert(PD0_ADDR | TABLE_FLAGS == 0x22003) by (bit_vector);
    assert(PD1_ADDR | TABLE_FLAGS == 0x23003) by (bit_vector);
    assert(PD2_ADDR | TABLE_FLAGS == 0x24003) by (bit_vector);
    assert(PD3_ADDR | TABLE_FLAGS == 0x25003) by (bit_vector);
    let pd0 = huge_page_directory(0);
    let pd1 = huge_page_directory(0x4000_0000);
    let pd2 = huge_page_directory(0x8000_0000);
    let pd3 = huge_page_directory(0xC000_0000);
    let t = PagingTables { pml4, pdpt, pd0, pd1, pd2, pd3 };
    assert forall|k: int| 0 <= k < 4 implies #[trigger] entry(t.pdpt, k) == PD0_ADDR + k * 0x1000
        + TABLE_FLAGS by {}
    t
}

proof fn lemma_index_bits(va: u64)
    requires
        va < 0x1_0000_0000_0000,
    ensures
        table_index(va, 39) < 512,
        table_index(va, 30) < 512,
        table_index(va, 21) < 512,
        (table_index(va, 39) == 0) == (va < 0x80_0000_0000),
        va < 0x80_0000_0000 ==> table_index(va, 30) == (va >> 30u64),
        va < 0x80_0000_0000 ==> ((va >> 30u64) < 4) == (va < 0x1_0000_0000),
        va < 0x1_0000_0000 ==> table_index(va, 30) * 512 + table_index(va, 21) == (va >> 21u64),
{
    assert(((va >> 39u64) & 0x1FF) < 512 && ((va >> 30u64) & 0x1FF) < 512 && ((va >> 21u64)
        & 0x1FF) < 512) by (bit_vector);
    assert((((va >> 39u64) & 0x1FF) == 0) == (va < 0x80_0000_0000)) by (bit_vector)
        requires
            va < 0x1_0000_0000_0000,
    ;
    assert(va < 0x80_0000_0000 ==> ((va >> 30u64) & 0x1FF) == (va >> 30u64) && ((va >> 30u64)
        < 4) == (va < 0x1_0000_0000)) by (bit_vector);
    assert(va < 0x1_0000_0000 ==> ((va >> 30u64) & 0x1FF) * 512 + ((va >> 21u64) & 0x1FF) == (va
        >> 21u64)) by (bit_vector);
}

proof fn lemma_table_entry_bits(k: u64)
    requires
        k < 4,
    ensures
        (0x22003 + k * 0x1000) as u64 & 1 == 1,
        (0x22003 + k * 0x1000) as u64 & 0x80 == 0,
        (0x22003 + k * 0x1000) as u64 & ADDRESS_MASK == 0x22000 + k * 0x1000,
        0x21003u64 & 1 == 1,
        0x21003u64 & ADDRESS_MASK == PDPT_ADDR,
        0u64 & 1 == 0,
{
    assert((0x22003 + k * 0x1000) as u64 & 1 == 1 && (0x22003 + k * 0x1000) as u64 & 0x80 == 0
        && (0x22003 + k * 0x1000) as u64 & 0x000F_FFFF_FFFF_F000 == 0x22000 + k * 0x1000)
        by (bit_vector)
        requires
            k < 4,
    ;
    assert(0x21003u64 & 1 == 1 && 0x21003u64 & 0x000F_FFFF_FFFF_F000 == 0x21000 && 0u64 & 1
        == 0) by (bit_vector);
}

proof fn lemma_huge_page_bits(va: u64, e2: u64)
    requires
        va < 0x1_0000_0000,
        e2 == (va >> 21u64) * 0x20_0000 + 0x83,
    ensures
        e2 & 1 == 1,
        e2 & 0x80 != 0,
        (e2 & 0x000F_FFFF_FFE0_0000) | (va & 0x1F_FFFF) == va,
{
    assert(e2 & 1 == 1 && e2 & 0x80 != 0 && (e2 & 0x000F_FFFF_FFE0_0000) | (va & 0x1F_FFFF) == va)
        by (bit_vector)
        requires
            va < 0x1_0000_0000,
            e2 == (va >> 21u64) * 0x20_0000 + 0x83,
    ;
}

/// The tables built by `setup_paging` identity-map the first 4 GiB: the MMU walk gives
/// back every address below 4 GiB unchanged, and faults on every other address of the
/// 48-bit space.
pub proof fn lemma_identity_map(t: PagingTables, va: u64)
    requires
        boot_identity_tables(t),
        va < 0x1_0000_0000_0000,
    ensures
        page_walk(t, va) == (if va < 0x1_0000_0000 {
            Some(va)
        } else {
            None::<u64>
        }),
{
    lemma_index_bits(va);
    let i4 = table_index(va, 39);
    lemma_table_entry_bits(0);
    if i4 != 0 {
        assert(entry(t.pml4, i4) == 0);
        assert(t.pml4.entries@[i4] == 0u64);
    } else {
        assert(t.pml4.entries@[0] == 0x21003u64);
        assert(table_at(t, 0x21003u64 & ADDRESS_MASK) == Some(t.pdpt));
        let i3 = table_index(va, 30);
        if i3 >= 4 {
            assert(entry(t.pdpt, i3) == 0);
            assert(t.pdpt.entries@[i3] == 0u64);
        } else {
            let k = i3 as u64;
            lemma_table_entry_bits(k);
            assert(entry(t.pdpt, i3) == PD0_ADDR + i3 * 0x1000 + TABLE_FLAGS);
            let e3 = t.pdpt.entries@[i3];
            assert(e3 == (0x22003 + k * 0x1000) as u64);
            let pd = directory(t, i3);
            assert(table_at(t, e3 & ADDRESS_MASK) == Some(pd)) by {
                if k == 0 {
                } else if k == 1 {
                } else if k == 2 {
                } else {
                }
            }
            let i2 = table_index(va, 21);
            assert(maps_huge_pages_from(pd, i3 * 512));
            assert(entry(pd, i2) == (i3 * 512 + i2) * HUGE_PAGE_SIZE + HUGE_PAGE_FLAGS);
            let e2 = pd.entries@[i2];
            assert(e2 == (va >> 21u64) * 0x20_0000 + 0x83);
            lemma_huge_page_bits(va, e2);
        }
    }
}

} // verus!
