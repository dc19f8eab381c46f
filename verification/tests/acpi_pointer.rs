use lib::rsdp::{find_rsdp_offset, get_rsdp, Rsdp, RSDP_AREA_SIZE};

fn area_with(at: usize) -> Vec<u8> {
    let mut a = vec![0u8; RSDP_AREA_SIZE];
    a[at..at + 8].copy_from_slice(b"RSD PTR ");
    a[at + 8] = 0x42;
    a[at + 9..at + 15].copy_from_slice(b"BOCHS ");
    a[at + 15] = 2;
    a[at + 16..at + 20].copy_from_slice(&0x07FE_14D5u32.to_le_bytes());
    a
}

#[test]
fn finds_pointer_on_paragraph_boundary() {
    let a = area_with(0xF6A0);
    assert_eq!(find_rsdp_offset(&a), Some(0xF6A0));
    let r = get_rsdp(&a);
    assert_eq!(&r.signature, b"RSD PTR ");
    assert_eq!(r.checksum, 0x42);
    assert_eq!(&r.oem_id, b"BOCHS ");
    assert_eq!(r.revision, 2);
    assert_eq!(r.rsdt_address, 0x07FE_14D5);
}

#[test]
fn misaligned_signature_is_not_found() {
    let a = area_with(0x1008);
    assert_eq!(find_rsdp_offset(&a), None);
    let r = get_rsdp(&a);
    assert_eq!(r.signature, [0; 8]);
    assert_eq!(r.rsdt_address, 0);
}

#[test]
fn first_of_two_signatures_wins() {
    let mut a = area_with(0x200);
    a[0x40..0x48].copy_from_slice(b"RSD PTR ");
    assert_eq!(find_rsdp_offset(&a), Some(0x40));
}

#[test]
fn last_paragraph_is_searched() {
    let a = area_with(0x1FFF0);
    assert_eq!(find_rsdp_offset(&a), Some(0x1FFF0));
    assert_eq!(get_rsdp(&a).rsdt_address, 0x07FE_14D5);
}

#[test]
fn nothing_found_gives_zeroed_pointer() {
    let a = vec![0xFFu8; RSDP_AREA_SIZE];
    let r = get_rsdp(&a);
    let z = Rsdp::zeroed();
    assert_eq!(r.signature, z.signature);
    assert_eq!(r.oem_id, [0; 6]);
    assert_eq!(r.checksum, 0);
    assert_eq!(r.revision, 0);
}

#[test]
fn from_bytes_reads_at_offset() {
    let a = area_with(16);
    let r = Rsdp::from_bytes(&a, 16);
    assert_eq!(r.revision, 2);
}
