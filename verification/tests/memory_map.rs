use lib::mmap::{e820_next, E820Step, MemoryMap, MemoryMapEntry};

#[test]
fn entry_fields_are_little_endian() {
    let mut b = vec![0u8; 24];
    b[0..8].copy_from_slice(&0x0010_0000u64.to_le_bytes());
    b[8..16].copy_from_slice(&0x3FEF_0000u64.to_le_bytes());
    b[16..20].copy_from_slice(&1u32.to_le_bytes());
    b[20..24].copy_from_slice(&0xDEAD_BEEFu32.to_le_bytes());
    let e = MemoryMapEntry::from_bytes(&b, 0);
    assert_eq!(e, MemoryMapEntry { base: 0x10_0000, length: 0x3FEF_0000, memory_type: 1, reserved_acpi: 0xDEAD_BEEF });
}

#[test]
fn zeroed_map() {
    let m = MemoryMap::zeroed();
    assert!(m.entries.iter().all(|e| *e == MemoryMapEntry::zeroed()));
    assert_eq!(m.entries.len(), 32);
}

#[test]
fn scan_stops_on_zero_continuation() {
    assert_eq!(e820_next(0, 0), E820Step::Done(1));
    assert_eq!(e820_next(5, 0), E820Step::Done(6));
    assert_eq!(e820_next(31, 0), E820Step::Done(32));
}

#[test]
fn scan_goes_on_while_room_remains() {
    assert_eq!(e820_next(0, 0x14), E820Step::Next(1));
    assert_eq!(e820_next(30, 7), E820Step::Next(31));
}

#[test]
fn scan_overflows_after_last_slot() {
    assert_eq!(e820_next(31, 1), E820Step::Overflow);
}

#[test]
fn full_scan_counts_entries() {
    let conts = [1u32, 2, 3, 0];
    let mut slot = 0u32;
    let count = loop {
        match e820_next(slot, conts[slot as usize]) {
            E820Step::Next(s) => slot = s,
            E820Step::Done(n) => break n,
            E820Step::Overflow => panic!("overflow"),
        }
    };
    assert_eq!(count, 4);
}

#[test]
fn table_round_trips_through_bytes() {
    let mut m = MemoryMap::zeroed();
    m.entries[0] = MemoryMapEntry { base: 0, length: 0x9FC00, memory_type: 1, reserved_acpi: 1 };
    m.entries[31] = MemoryMapEntry { base: 0xFFFC_0000, length: 0x4_0000, memory_type: 2, reserved_acpi: 0 };
    let mut b = Vec::new();
    m.push_bytes(&mut b);
    assert_eq!(b.len(), 768);
    assert_eq!(&b[8..16], &0x9FC00u64.to_le_bytes());
    let back = MemoryMap::from_bytes(&b, 0);
    assert!(back.entries.iter().zip(m.entries.iter()).all(|(x, y)| x == y));
    assert_eq!(MemoryMapEntry::from_bytes(&b, 31 * 24), m.entries[31]);
}

#[test]
fn scan_with_overflowing_bios() {
    let mut slot = 0u32;
    let outcome = loop {
        match e820_next(slot, 1) {
            E820Step::Next(s) => slot = s,
            other => break other,
        }
    };
    assert_eq!(outcome, E820Step::Overflow);
    assert_eq!(slot, 31);
}
