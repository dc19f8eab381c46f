use lib::disk::{read_stub, Dap};
use lib::load::{load_kernel, move_memory_block, stage_reads, DiskRead, KernelChunk, MoveGdt};

#[test]
fn first_stage_reads_second_stage() {
    let d = read_stub();
    assert_eq!(d, Dap { size: 16, zero: 0, sectors: 32, offset: 0x7e00, segment: 0, lba: 2048 });
    assert_eq!(d.to_bytes(), vec![16, 0, 32, 0, 0x00, 0x7e, 0, 0, 0x00, 0x08, 0, 0, 0, 0, 0, 0]);
}

#[test]
fn packet_bytes_are_little_endian() {
    let d = Dap::new(0x1234, 0x5678, 0x0102_0304_0506_0708, 0x9ABC);
    assert_eq!(
        d.to_bytes(),
        vec![16, 0, 0xBC, 0x9A, 0x78, 0x56, 0x34, 0x12, 0x08, 0x07, 0x06, 0x05, 0x04, 0x03, 0x02, 0x01]
    );
}

#[test]
fn second_stage_reads_stages_three_and_four() {
    assert_eq!(
        stage_reads(),
        vec![
            DiskRead { segment: 0, offset: 0xFE00, lba: 3072, sectors: 32 },
            DiskRead { segment: 0x1000, offset: 0x7E00, lba: 5120, sectors: 32 },
        ]
    );
}

#[test]
fn kernel_loads_in_256_chunks() {
    let chunks = load_kernel();
    assert_eq!(chunks.len(), 256);
    assert_eq!(
        chunks[0],
        KernelChunk {
            read: DiskRead { segment: 0x8000, offset: 0, lba: 6144, sectors: 64 },
            source: 0x80000,
            dest: 0x100000,
            words: 0x4000,
        }
    );
    assert_eq!(chunks[1].read.lba, 6208);
    assert_eq!(chunks[1].dest, 0x108000);
    assert_eq!(chunks[255].read.lba, 6144 + 255 * 64);
    assert_eq!(chunks[255].dest, 0x100000 + 255 * 0x8000);
    for w in chunks.windows(2) {
        assert_eq!(w[1].read.lba, w[0].read.lba + w[0].read.sectors as u64);
        assert_eq!(w[1].dest, w[0].dest + 2 * w[0].words as u32);
    }
    let last = chunks[255];
    assert_eq!(last.dest + 2 * last.words as u32, 0x900000);
}

#[test]
fn block_move_table() {
    let m = move_memory_block(0x80000, 0x100000, 0x4000);
    assert_eq!(m.words, 0x4000);
    assert_eq!(
        m.gdt,
        MoveGdt {
            null1: 0,
            null2: 0,
            source: 0x0000_9308_0000_FFFF,
            dest: 0x0000_9310_0000_FFFF,
            null3: 0,
            null4: 0,
        }
    );
    let b = m.gdt.to_bytes();
    assert_eq!(b.len(), 48);
    assert!(b[0..16].iter().all(|&x| x == 0));
    assert_eq!(&b[16..24], &[0xFF, 0xFF, 0x00, 0x00, 0x08, 0x93, 0x00, 0x00]);
    assert_eq!(&b[24..32], &[0xFF, 0xFF, 0x00, 0x00, 0x10, 0x93, 0x00, 0x00]);
    assert!(b[32..48].iter().all(|&x| x == 0));
}
