//! The terminal used by the kernel and by the last stage for formatted output.
use vstd::prelude::*;
use vstd::string::StringSliceAdditionalSpecFns;
use crate::serial::{COM1_PORT, PortWrite, com1_writes, shown_bytes, write_byte, sanitized_writes};

verus! {

/// A handle on the serial terminal. It holds no state: all output goes to COM1.
pub struct Terminal {}

impl Terminal {
    /// A terminal on COM1.
    pub fn new() -> (t: Self) {
        Terminal {}
    }

    /// The port write that sends one byte to the terminal, unchanged.
    pub fn write_byte(&self, byte: u8) -> (w: PortWrite)
        ensures
            w == (PortWrite { port: COM1_PORT, value: byte }),
    {
        write_byte(byte)
    }

    /// The port writes that print a text on the terminal: each byte of its UTF-8 encoding,
    /// with bytes other than printable ASCII and newline replaced by the replacement byte.
    pub fn write_string(&self, s: &str) -> (out: Vec<PortWrite>)
        ensures
            out@ == com1_writes(shown_bytes(s.spec_bytes())),
    {
        sanitized_writes(s.as_bytes())
    }
}

} // verus!
