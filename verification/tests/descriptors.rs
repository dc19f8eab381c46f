use lib::descriptor::make_desc;

#[test]
fn descriptor_for_bounce_buffer() {
    assert_eq!(make_desc(0x80000, 0xFFFF), 0x0000_9308_0000_FFFF);
}

#[test]
fn descriptor_for_kernel_target() {
    assert_eq!(make_desc(0x100000, 0xFFFF), 0x0000_9310_0000_FFFF);
}

#[test]
fn descriptor_splits_base() {
    let d = make_desc(0x1234_5678, 0xABCD);
    assert_eq!(d, 0x1200_9334_5678_ABCD);
    let base = ((d >> 16) & 0xFF_FFFF) | (((d >> 56) & 0xFF) << 24);
    let limit = (d & 0xFFFF) | (((d >> 48) & 0xF) << 16);
    assert_eq!(base, 0x1234_5678);
    assert_eq!(limit, 0xABCD);
    assert_eq!((d >> 40) & 0xFF, 0x93);
}

#[test]
fn descriptor_extremes() {
    assert_eq!(make_desc(0, 0), 0x0000_9300_0000_0000);
    assert_eq!(make_desc(0xFFFF_FFFF, 0xFFFF), 0xFF00_93FF_FFFF_FFFF);
}
