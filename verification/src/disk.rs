//! The disk address packet of the BIOS extended read (int 0x13, AH = 0x42) used by the
//! first stage to load the second.
use vstd::prelude::*;
use crate::bytes::{le16, le64, push_u16, push_u64};

verus! {

/// Where the second stage is loaded (segment 0).
pub const NEXT_STAGE_RAM: u16 = 0x7e00;
/// First sector of the second stage on disk.
pub const NEXT_STAGE_LBA: u64 = 2048;
/// Sectors the first stage reads.
pub const STAGE2_SECTORS: u16 = 32;
/// Size in bytes of a disk address packet.
pub const DAP_SIZE: u8 = 16;
/// AX for the extended read.
pub const EXTENDED_READ: u16 = 0x4200;
/// DX for the extended read: the first hard disk.
pub const BOOT_DRIVE: u16 = 0x80;

/// A disk address packet.
#[derive(Clone, Copy, Debug, PartialEq, Eq, Structural)]
pub struct Dap {
    pub size: u8,
    pub zero: u8,
    pub sectors: u16,
    pub offset: u16,
    pub segment: u16,
    pub lba: u64,
}

/// `s` is the packed little-endian image of `d`.
pub open spec fn dap_layout(d: Dap, s: Seq<u8>) -> bool {
    &&& s.len() == DAP_SIZE
    &&& s[0] == d.size
    &&& s[1] == d.zero
    &&& le16(s, 2) == d.sectors as int
    &&& le16(s, 4) == d.offset as int
    &&& le16(s, 6) == d.segment as int
    &&& le64(s, 8) == d.lba as int
}

impl Dap {
    /// The packet that reads `sectors` sectors from `lba` into `segment:offset`.
    pub fn new(segment: u16, offset: u16, lba: u64, sectors: u16) -> (d: Self)
        ensures
            d == (Dap { size: DAP_SIZE, zero: 0, sectors, offset, segment, lba }),
    {
        Dap { size: DAP_SIZE, zero: 0, sectors, offset, segment, lba }
    }

    /// The 16 bytes the BIOS reads.
    pub fn to_bytes(&self) -> (out: Vec<u8>)
        ensures
            dap_layout(*self, out@),
    {
        let mut out: Vec<u8> = Vec::new();
        out.push(self.size);
        out.push(self.zero);
        push_u16(&mut out, self.sectors);
        push_u16(&mut out, self.offset);
        push_u16(&mut out, self.segment);
        push_u64(&mut out, self.lba);
        out
    }
}

/// The packet with which the first stage loads the second: 32 sectors from LBA 2048 to
/// 0000:7E00.
pub fn read_stub() -> (d: Dap)
    ensures
        d == (Dap {
            size: DAP_SIZE,
            zero: 0,
            sectors: STAGE2_SECTORS,
            offset: NEXT_STAGE_RAM,
            segment: 0,
            lba: NEXT_STAGE_LBA,
        }),
{
    Dap::new(0, NEXT_STAGE_RAM, NEXT_STAGE_LBA, STAGE2_SECTORS)
}

/// Size in bytes of field `k` of `Dap`, in declaration order.
pub open spec fn dap_field_size(k: int) -> int {
    if k == 0 {
        1
    } else     if k == 1 {
        1
    } else     if k == 2 {
        2
    } else     if k == 3 {
        2
    } else     if k == 4 {
        2
    } else     if k == 5 {
        8
    } else {
        0
    }
}

/// Offset of field `k` of `Dap` when the fields are packed in declaration order:
/// the sum of the sizes of the fields declared before it.
pub open spec fn dap_offset(k: nat) -> int
    decreases k,
{
    if k == 0 {
        0
    } else {
        dap_offset((k - 1) as nat) + dap_field_size(k - 1)
    }
}

/// The packet is laid out packed, in the order its fields are declared (the layout of the
/// BIOS extended read): each field starts where the one declared before it ends, and the
/// packet takes 16 bytes.
pub proof fn lemma_dap_packed(d: Dap, s: Seq<u8>)
    requires
        dap_layout(d, s),
    ensures
        s[dap_offset(0)] == d.size,
        s[dap_offset(1)] == d.zero,
        le16(s, dap_offset(2)) == d.sectors as int,
        le16(s, dap_offset(3)) == d.offset as int,
        le16(s, dap_offset(4)) == d.segment as int,
        le64(s, dap_offset(5)) == d.lba as int,
        dap_offset(6) == DAP_SIZE,
{
    assert(dap_offset(0) == 0);
    assert(dap_offset(1) == 1);
    assert(dap_offset(2) == 2);
    assert(dap_offset(3) == 4);
    assert(dap_offset(4) == 6);
    assert(dap_offset(5) == 8);
    assert(dap_offset(6) == 16);
}

} // verus!
