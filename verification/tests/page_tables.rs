use lib::paging::{setup_paging, PagingTables, PageTable, PDPT_ADDR, PD0_ADDR, PD1_ADDR, PD2_ADDR, PD3_ADDR, PML4_ADDR};

fn table_at(t: &PagingTables, addr: u64) -> Option<&PageTable> {
    match addr {
        a if a == PML4_ADDR => Some(&t.pml4),
        a if a == PDPT_ADDR => Some(&t.pdpt),
        a if a == PD0_ADDR => Some(&t.pd0),
        a if a == PD1_ADDR => Some(&t.pd1),
        a if a == PD2_ADDR => Some(&t.pd2),
        a if a == PD3_ADDR => Some(&t.pd3),
        _ => None,
    }
}

fn walk(t: &PagingTables, va: u64) -> Option<u64> {
    let mask = 0x000F_FFFF_FFFF_F000u64;
    let e4 = t.pml4.entries[((va >> 39) & 0x1FF) as usize];
    if e4 & 1 == 0 {
        return None;
    }
    let pdpt = table_at(t, e4 & mask)?;
    let e3 = pdpt.entries[((va >> 30) & 0x1FF) as usize];
    if e3 & 1 == 0 {
        return None;
    }
    if e3 & 0x80 != 0 {
        return Some((e3 & 0x000F_FFFF_C000_0000) | (va & 0x3FFF_FFFF));
    }
    let pd = table_at(t, e3 & mask)?;
    let e2 = pd.entries[((va >> 21) & 0x1FF) as usize];
    if e2 & 1 == 0 {
        return None;
    }
    if e2 & 0x80 != 0 {
        return Some((e2 & 0x000F_FFFF_FFE0_0000) | (va & 0x1F_FFFF));
    }
    None
}

#[test]
fn top_levels_point_at_the_directories() {
    let t = setup_paging();
    assert_eq!(t.pml4.entries[0], 0x21003);
    assert!(t.pml4.entries[1..].iter().all(|&e| e == 0));
    assert_eq!(&t.pdpt.entries[..4], &[0x22003, 0x23003, 0x24003, 0x25003]);
    assert!(t.pdpt.entries[4..].iter().all(|&e| e == 0));
}

#[test]
fn directories_map_two_megabyte_pages() {
    let t = setup_paging();
    assert_eq!(t.pd0.entries[0], 0x83);
    assert_eq!(t.pd0.entries[1], 0x20_0083);
    assert_eq!(t.pd0.entries[511], 0x3FE0_0083);
    assert_eq!(t.pd1.entries[0], 0x4000_0083);
    assert_eq!(t.pd2.entries[0], 0x8000_0083);
    assert_eq!(t.pd3.entries[511], 0xFFE0_0083);
}

#[test]
fn first_four_gigabytes_are_identity_mapped() {
    let t = setup_paging();
    for va in [0u64, 0x7C00, 0xB8000, 0x10_0000, 0x1F_FFFF, 0x20_0000, 0x3FFF_FFFF, 0x4000_0000, 0xFD00_0000, 0xFFFF_FFFF] {
        assert_eq!(walk(&t, va), Some(va));
    }
}

#[test]
fn addresses_above_four_gigabytes_fault() {
    let t = setup_paging();
    for va in [0x1_0000_0000u64, 0x1_2345_6789, 0x80_0000_0000, 0xFFFF_FFFF_FFFF] {
        assert_eq!(walk(&t, va), None);
    }
}
