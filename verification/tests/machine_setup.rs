use lib::boot::BootInfo;
use lib::control::{long_mode_cr0, long_mode_cr4, long_mode_efer, protected_mode_cr0};
use lib::image::{disk_image_layout, image_offset, package_name, target_file, ImageSlot, Package, TargetSpec};
use lib::mmap::MemoryMap;
use lib::rsdp::Rsdp;
use lib::tss::TaskStateSegment;
use lib::vbe::{VbeInfoBlock, VbeModeInfoBlock};

#[test]
fn protected_mode_sets_pe() {
    assert_eq!(protected_mode_cr0(0x0000_0010), 0x0000_0011);
    assert_eq!(protected_mode_cr0(0x6000_0011), 0x6000_0011);
}

#[test]
fn long_mode_register_values() {
    assert_eq!(long_mode_cr4(0), 0x620);
    assert_eq!(long_mode_cr4(0x80), 0x6A0);
    assert_eq!(long_mode_efer(0), 0x100);
    assert_eq!(long_mode_efer(0x801), 0x901);
    assert_eq!(long_mode_cr0(0x0000_0011), 0x8000_0013);
    assert_eq!(long_mode_cr0(0x0000_0015), 0x8000_0013);
    assert_eq!(long_mode_cr0(0xFFFF_FFFF), 0xFFFF_FFFB);
}

#[test]
fn base_tss_layout() {
    let t = TaskStateSegment::base_tss();
    assert_eq!(t.rsp0, 0xA0_0000);
    assert_eq!(t.iopb_offset, 0);
    let b = t.to_bytes();
    assert_eq!(b.len(), 104);
    assert_eq!(&b[4..12], &0xA0_0000u64.to_le_bytes());
    assert!(b[..4].iter().all(|&x| x == 0));
    assert!(b[12..].iter().all(|&x| x == 0));
}

#[test]
fn tss_fields_land_at_their_offsets() {
    let mut t = TaskStateSegment::base_tss();
    t.ist1 = 0x1111;
    t.ist7 = 0x7777;
    t.iopb_offset = 0x68;
    let b = t.to_bytes();
    assert_eq!(&b[36..44], &0x1111u64.to_le_bytes());
    assert_eq!(&b[84..92], &0x7777u64.to_le_bytes());
    assert_eq!(&b[102..104], &[0x68, 0]);
}

#[test]
fn boot_info_before_and_after_stage_three() {
    let mode = VbeModeInfoBlock::from_bytes(&[0u8; 255]);
    let vbe = VbeInfoBlock::from_bytes(&[0u8; 512]);
    let mut b = BootInfo::new(MemoryMap::zeroed(), Rsdp::zeroed(), 0x28, vbe, mode);
    assert_eq!(b.tss, 0x28);
    assert_eq!(b.pml4, 0);
    assert_eq!(b.kernel_stack, 0);
    b.prepare_long_mode();
    assert_eq!(b.kernel_stack, 0xA00000);
    assert_eq!(b.pml4, 0x20000);
    assert_eq!(b.tss, 0x28);
}

#[test]
fn image_layout_and_offsets() {
    assert_eq!(
        disk_image_layout(),
        vec![
            ImageSlot { package: Package::Bootloader, target: TargetSpec::Bits16, lba: 0 },
            ImageSlot { package: Package::Stage2, target: TargetSpec::Bits16, lba: 2048 },
            ImageSlot { package: Package::Stage3, target: TargetSpec::Bits32, lba: 3072 },
            ImageSlot { package: Package::Stage4, target: TargetSpec::Bits64, lba: 5120 },
        ]
    );
    assert_eq!(image_offset(0), 0);
    assert_eq!(image_offset(2048), 0x10_0000);
    assert_eq!(image_offset(5120), 2_621_440);
    assert_eq!(package_name(Package::Stage3), "stage3");
    assert_eq!(package_name(Package::Bootloader), "bootloader");
    assert_eq!(target_file(TargetSpec::Bits64), "bits64.json");
}

#[test]
fn boot_info_round_trips_through_bytes() {
    let mut mode_bytes = vec![0u8; 255];
    mode_bytes[18..20].copy_from_slice(&1024u16.to_le_bytes());
    mode_bytes[40..44].copy_from_slice(&0xFD00_0000u32.to_le_bytes());
    let mode = VbeModeInfoBlock::from_bytes(&mode_bytes);
    let mut vbe_bytes = vec![0u8; 512];
    vbe_bytes[0..4].copy_from_slice(b"VESA");
    let vbe = VbeInfoBlock::from_bytes(&vbe_bytes);
    let mut b = BootInfo::new(MemoryMap::zeroed(), Rsdp::zeroed(), 0x28, vbe, mode);
    b.prepare_long_mode();
    let img = b.to_bytes();
    assert_eq!(img.len(), 1573);
    assert_eq!(&img[788..790], &[0x28, 0]);
    assert_eq!(&img[790..794], b"VESA");
    assert_eq!(&img[1302 + 18..1302 + 20], &1024u16.to_le_bytes());
    assert_eq!(&img[1557..1565], &0x20000u64.to_le_bytes());
    assert_eq!(&img[1565..1573], &0xA00000u64.to_le_bytes());
    let back = BootInfo::from_bytes(&img);
    assert_eq!(back.tss, 0x28);
    assert_eq!(back.pml4, 0x20000);
    assert_eq!(back.kernel_stack, 0xA00000);
    assert_eq!(back.mode.width, 1024);
    assert_eq!(back.mode.framebuffer, 0xFD00_0000);
    assert_eq!(&back.vbe.signature, b"VESA");
    assert_eq!(back.to_bytes(), img);
}

#[test]
fn block_images_round_trip() {
    let mut mb = vec![0u8; 255];
    for (i, x) in mb.iter_mut().enumerate() {
        *x = i as u8;
    }
    assert_eq!(VbeModeInfoBlock::from_bytes(&mb).to_bytes(), mb);
    let mut vb = vec![0u8; 512];
    for (i, x) in vb.iter_mut().enumerate() {
        *x = (i * 7) as u8;
    }
    assert_eq!(VbeInfoBlock::from_bytes(&vb).to_bytes(), vb);
    let rb: Vec<u8> = (1..=20).collect();
    assert_eq!(Rsdp::from_bytes(&rb, 0).to_bytes(), rb);
}

#[test]
fn stage_three_changes_only_its_two_fields() {
    let mut img: Vec<u8> = (0..1573u32).map(|i| (i * 31 % 251) as u8).collect();
    img[1557..1573].fill(0);
    let mut b = BootInfo::from_bytes(&img);
    let before = b.to_bytes();
    assert_eq!(before, img);
    b.prepare_long_mode();
    let after = b.to_bytes();
    assert_eq!(&after[..1557], &before[..1557]);
    assert_eq!(&after[1557..1565], &0x20000u64.to_le_bytes());
    assert_eq!(&after[1565..1573], &0xA00000u64.to_le_bytes());
}
