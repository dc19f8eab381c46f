use lib::serial::{debug, sanitized_writes, write_byte, PortWrite, COM1_PORT, REPLACEMENT_BYTE};
use lib::terminal::Terminal;

fn values(ws: &[PortWrite]) -> Vec<u8> {
    assert!(ws.iter().all(|w| w.port == COM1_PORT));
    ws.iter().map(|w| w.value).collect()
}

#[test]
fn write_byte_sends_byte_to_com1() {
    assert_eq!(write_byte(b'A'), PortWrite { port: 0x3F8, value: b'A' });
    assert_eq!(write_byte(b'\n'), PortWrite { port: 0x3F8, value: b'\n' });
    assert_eq!(write_byte(0x00), PortWrite { port: 0x3F8, value: 0x00 });
    assert_eq!(write_byte(0xff), PortWrite { port: 0x3F8, value: 0xff });
}

#[test]
fn debug_passes_printable_text() {
    let out = debug("[+] Loading stage 3 ...\n");
    assert_eq!(values(&out), b"[+] Loading stage 3 ...\n".to_vec());
}

#[test]
fn debug_replaces_control_and_non_ascii_bytes() {
    let out = debug("a\tb\u{e9}~\r\n");
    assert_eq!(values(&out), vec![b'a', 0xfe, b'b', 0xfe, 0xfe, b'~', 0xfe, b'\n']);
    assert_eq!(REPLACEMENT_BYTE, 0xfe);
}

#[test]
fn debug_of_empty_text_writes_nothing() {
    assert!(debug("").is_empty());
}

#[test]
fn debug_edges_of_printable_range() {
    let out = sanitized_writes(&[0x1f, 0x20, 0x7e, 0x7f, 0x0a, 0x0d]);
    assert_eq!(values(&out), vec![0xfe, 0x20, 0x7e, 0xfe, 0x0a, 0xfe]);
}

#[test]
fn printing_twice_changes_nothing_more() {
    let once = values(&debug("x\u{1b}[0m\u{7f}y"));
    let twice = values(&sanitized_writes(&once));
    assert_eq!(once, twice);
}

#[test]
fn terminal_writes_like_debug() {
    let t = Terminal::new();
    assert_eq!(t.write_byte(b'z'), PortWrite { port: 0x3F8, value: b'z' });
    let s = "[x] Bootloader stage 2 panicked! x_x";
    assert_eq!(t.write_string(s), debug(s));
    assert_eq!(values(&t.write_string("\u{0}")), vec![0xfe]);
}
