//! Debug output on the first serial port (COM1).
use vstd::prelude::*;
use vstd::string::StringSliceAdditionalSpecFns;

verus! {

/// I/O port of the first serial port.
pub const COM1_PORT: u16 = 0x3F8;

/// Byte written in place of a byte that is neither printable ASCII nor a newline.
pub const REPLACEMENT_BYTE: u8 = 0xfe;

/// One `out` instruction: the value written to an I/O port.
#[derive(Clone, Copy, Debug, PartialEq, Eq, Structural)]
pub struct PortWrite {
    pub port: u16,
    pub value: u8,
}

/// A byte is shown as it is when it is printable ASCII (space through tilde) or a newline.
pub open spec fn is_shown(b: u8) -> bool {
    (0x20 <= b && b <= 0x7e) || b == 0x0a
}

/// The byte that goes out on the line for an input byte.
pub open spec fn shown_byte(b: u8) -> u8 {
    if is_shown(b) {
        b
    } else {
        REPLACEMENT_BYTE
    }
}

/// The bytes that go out on the line for a text.
pub open spec fn shown_bytes(s: Seq<u8>) -> Seq<u8> {
    s.map_values(|b: u8| shown_byte(b))
}

/// The port writes that send `bytes` on COM1, one per byte.
pub open spec fn com1_writes(bytes: Seq<u8>) -> Seq<PortWrite> {
    bytes.map_values(|b: u8| PortWrite { port: COM1_PORT, value: b })
}

/// The port write that sends one byte on COM1, unchanged.
pub fn write_byte(byte: u8) -> (w: PortWrite)
    ensures
        w == (PortWrite { port: COM1_PORT, value: byte }),
{
    PortWrite { port: COM1_PORT, value: byte }
}

/// The port writes that print a text on COM1: each byte of its UTF-8 encoding in order,
/// with every byte that is not printable ASCII or a newline replaced by `REPLACEMENT_BYTE`.
pub fn debug(s: &str) -> (out: Vec<PortWrite>)
    ensures
        out@ == com1_writes(shown_bytes(s.spec_bytes())),
{
    sanitized_writes(s.as_bytes())
}

/// The port writes that print the given bytes on COM1, as `debug` does.
pub fn sanitized_writes(bytes: &[u8]) -> (out: Vec<PortWrite>)
    ensures
        out@ == com1_writes(shown_bytes(bytes@)),
{
    let mut out: Vec<PortWrite> = Vec::new();
    let mut i: usize = 0;
    while i < bytes.len()
        invariant
            i <= bytes.len(),
            out@ == com1_writes(shown_bytes(bytes@.subrange(0, i as int))),
        decreases bytes.len() - i,
    {
        let b = bytes[i];
        let w = if (0x20 <= b && b <= 0x7e) || b == 0x0a {
            write_byte(b)
        } else {
            write_byte(REPLACEMENT_BYTE)
        };
        out.push(w);
        proof {
            assert(bytes@.subrange(0, i + 1) =~= bytes@.subrange(0, i as int).push(b));
        }
        i = i + 1;
    }
    proof {
        assert(bytes@.subrange(0, i as int) =~= bytes@);
    }
    out
}

/// Every byte that goes out on the line is printable ASCII, a newline or the replacement
/// byte, and there is one for each input byte.
pub proof fn lemma_shown_bytes_are_printable(s: Seq<u8>)
    ensures
        forall|i: int|
            0 <= i < shown_bytes(s).len() ==> is_shown(#[trigger] shown_bytes(s)[i])
                || shown_bytes(s)[i] == REPLACEMENT_BYTE,
        shown_bytes(s).len() == s.len(),
{
}

/// Byte by byte, what goes out is the input byte when it is 0x20 to 0x7E or a newline (0x0A),
/// and 0xFE otherwise.
pub proof fn lemma_shown_bytes_bytewise(s: Seq<u8>)
    ensures
        shown_bytes(s).len() == s.len(),
        forall|i: int|
            0 <= i < s.len() ==> #[trigger] shown_bytes(s)[i] == (if (0x20 <= s[i] && s[i] <= 0x7e)
                || s[i] == 0x0a {
                s[i]
            } else {
                0xfeu8
            }),
{
}

/// Text made only of printable ASCII and newlines goes out unchanged.
pub proof fn lemma_printable_text_unchanged(s: Seq<u8>)
    requires
        forall|i: int| 0 <= i < s.len() ==> is_shown(#[trigger] s[i]),
    ensures
        shown_bytes(s) == s,
{
    assert(shown_bytes(s) =~= s);
}

/// Printing what was printed changes nothing more.
pub proof fn lemma_shown_bytes_idempotent(s: Seq<u8>)
    ensures
        shown_bytes(shown_bytes(s)) == shown_bytes(s),
{
    assert(shown_bytes(shown_bytes(s)) =~= shown_bytes(s));
}

} // verus!
