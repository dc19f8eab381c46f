use lib::disk::{read_stub, NEXT_STAGE_LBA};
use lib::image::disk_image_layout;
use lib::load::{
    load_kernel, stage_reads, KERNEL_ENTRY, KERNEL_LBA, STACK_ADDRESS, STAGE4_ENTRY,
};
use lib::paging::{PD3_ADDR, PML4_ADDR};
use lib::tss::TaskStateSegment;

fn range(start: u64, len: u64) -> (u64, u64) {
    (start, start + len)
}

fn apart(a: (u64, u64), b: (u64, u64)) -> bool {
    a.1 <= b.0 || b.1 <= a.0
}

#[test]
fn loaded_regions_do_not_overlap() {
    let s2 = read_stub();
    let stage2 = range(s2.segment as u64 * 16 + s2.offset as u64, s2.sectors as u64 * 512);
    let reads = stage_reads();
    let stage3 = range(reads[0].segment as u64 * 16 + reads[0].offset as u64, reads[0].sectors as u64 * 512);
    let stage4 = range(reads[1].segment as u64 * 16 + reads[1].offset as u64, reads[1].sectors as u64 * 512);
    let chunks = load_kernel();
    let bounce = range(chunks[0].source as u64, chunks[0].words as u64 * 2);
    let kernel = range(chunks[0].dest as u64, chunks.len() as u64 * chunks[0].words as u64 * 2);
    let tables = range(PML4_ADDR, PD3_ADDR + 0x1000 - PML4_ADDR);
    let all = [stage2, stage3, stage4, bounce, kernel, tables];
    for i in 0..all.len() {
        for j in i + 1..all.len() {
            assert!(apart(all[i], all[j]), "{:?} {:?}", all[i], all[j]);
        }
    }
    assert!(kernel.1 <= STACK_ADDRESS);
    assert_eq!(stage4.0, STAGE4_ENTRY);
    assert_eq!(kernel.0, KERNEL_ENTRY as u64);
}

#[test]
fn loaders_read_the_image_slots() {
    let layout = disk_image_layout();
    let reads = stage_reads();
    assert_eq!(layout[1].lba, NEXT_STAGE_LBA);
    assert_eq!(layout[1].lba, read_stub().lba);
    assert_eq!(layout[2].lba, reads[0].lba);
    assert_eq!(layout[3].lba, reads[1].lba);
    assert!(read_stub().lba + read_stub().sectors as u64 <= layout[2].lba);
    assert!(reads[0].lba + reads[0].sectors as u64 <= layout[3].lba);
    assert!(reads[1].lba + reads[1].sectors as u64 <= KERNEL_LBA);
    assert_eq!(load_kernel()[0].read.lba, KERNEL_LBA);
}

#[test]
fn kernel_stack_matches_task_state_segment() {
    assert_eq!(TaskStateSegment::base_tss().rsp0, STACK_ADDRESS);
}
