use lib::vbe::{best_vbe_mode_index, find_vbe_mode, mode_list, VbeInfoBlock, VbeModeInfoBlock, FALLBACK_MODE};

struct Mode {
    width: u16,
    height: u16,
    bpp: u8,
    attributes: u16,
    red: u8,
    green: u8,
    blue: u8,
    framebuffer: u32,
}

fn good(width: u16, height: u16, bpp: u8) -> Mode {
    Mode { width, height, bpp, attributes: 0x9B, red: 16, green: 8, blue: 0, framebuffer: 0xFD00_0000 }
}

fn mode_bytes(m: &Mode) -> Vec<u8> {
    let mut b = vec![0u8; 256];
    b[0..2].copy_from_slice(&m.attributes.to_le_bytes());
    b[16..18].copy_from_slice(&(m.width * 4).to_le_bytes());
    b[18..20].copy_from_slice(&m.width.to_le_bytes());
    b[20..22].copy_from_slice(&m.height.to_le_bytes());
    b[25] = m.bpp;
    b[32] = m.red;
    b[34] = m.green;
    b[36] = m.blue;
    b[40..44].copy_from_slice(&m.framebuffer.to_le_bytes());
    b[62..66].copy_from_slice(&0x1234_5678u32.to_le_bytes());
    b[66] = 0xAA;
    b[254] = 0xBB;
    b[255] = 0xCC;
    b
}

fn info(m: &Mode) -> VbeModeInfoBlock {
    VbeModeInfoBlock::from_bytes(&mode_bytes(m))
}

#[test]
fn mode_info_fields_are_read_at_their_offsets() {
    let i = info(&good(1024, 768, 32));
    assert_eq!(i.attributes, 0x9B);
    assert_eq!(i.pitch, 4096);
    assert_eq!(i.width, 1024);
    assert_eq!(i.height, 768);
    assert_eq!(i.bpp, 32);
    assert_eq!(i.red_field_position, 16);
    assert_eq!(i.green_field_position, 8);
    assert_eq!(i.blue_field_position, 0);
    assert_eq!(i.framebuffer, 0xFD00_0000);
    assert_eq!(i.max_pixel_clock, 0x1234_5678);
    assert_eq!(i.reserved3[0], 0xAA);
    assert_eq!(i.reserved3[188], 0xBB);
}

#[test]
fn controller_info_fields_are_read_at_their_offsets() {
    let mut b = vec![0u8; 512];
    b[0..4].copy_from_slice(b"VESA");
    b[4..6].copy_from_slice(&0x0300u16.to_le_bytes());
    b[6..8].copy_from_slice(&0x1111u16.to_le_bytes());
    b[8..10].copy_from_slice(&0x2222u16.to_le_bytes());
    b[14..18].copy_from_slice(&0xC000_0022u32.to_le_bytes());
    b[18..20].copy_from_slice(&256u16.to_le_bytes());
    b[511] = 7;
    let v = VbeInfoBlock::from_bytes(&b);
    assert_eq!(&v.signature, b"VESA");
    assert_eq!(v.version, 0x0300);
    assert_eq!(v.oem, [0x1111, 0x2222]);
    assert_eq!(v.video_ptr, 0xC000_0022);
    assert_eq!(v.memory_size, 256);
    assert_eq!(v.reserved[491], 7);
}

#[test]
fn picks_widest_then_tallest_then_deepest() {
    let modes = [0x100u16, 0x101, 0x102, 0x103, 0x104];
    let infos = [
        info(&good(640, 480, 32)),
        info(&good(1024, 600, 24)),
        info(&good(1024, 768, 24)),
        info(&good(1024, 768, 32)),
        info(&good(800, 600, 32)),
    ];
    assert_eq!(find_vbe_mode(&modes, &infos), 0x103);
    assert_eq!(best_vbe_mode_index(&infos), Some(3));
}

#[test]
fn first_of_equal_modes_wins() {
    let modes = [0x111u16, 0x112];
    let infos = [info(&good(800, 600, 32)), info(&good(800, 600, 32))];
    assert_eq!(find_vbe_mode(&modes, &infos), 0x111);
}

#[test]
fn modes_out_of_bounds_are_skipped() {
    let modes = [0x1u16, 0x2, 0x3, 0x4, 0x5];
    let infos = [
        info(&good(1280, 720, 32)),
        info(&good(1024, 801, 32)),
        info(&good(640, 480, 16)),
        info(&good(640, 480, 33)),
        info(&good(320, 200, 24)),
    ];
    assert_eq!(find_vbe_mode(&modes, &infos), 0x5);
}

#[test]
fn modes_without_rgb_layout_framebuffer_or_lfb_are_skipped() {
    let mut bgr = good(800, 600, 32);
    bgr.red = 0;
    bgr.blue = 16;
    let mut no_fb = good(800, 600, 32);
    no_fb.framebuffer = 0;
    let mut no_lfb = good(800, 600, 32);
    no_lfb.attributes = 0x1B;
    let modes = [0x10u16, 0x11, 0x12];
    let infos = [info(&bgr), info(&no_fb), info(&no_lfb)];
    assert_eq!(find_vbe_mode(&modes, &infos), FALLBACK_MODE);
    assert_eq!(best_vbe_mode_index(&infos), None);
}

#[test]
fn no_modes_gives_vga_fallback() {
    assert_eq!(find_vbe_mode(&[], &[]), 0x0013);
}

#[test]
fn mode_list_stops_at_end_marker() {
    assert_eq!(mode_list(&[0x100, 0x101, 0xFFFF, 0x102]), vec![0x100, 0x101]);
    assert_eq!(mode_list(&[0xFFFF]), Vec::<u16>::new());
    assert_eq!(mode_list(&[0x100, 0x118]), vec![0x100, 0x118]);
}
