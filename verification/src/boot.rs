//! The boot information the second stage gathers and the later stages hand on to the kernel.
use vstd::prelude::*;
use crate::bytes::{
    le16, le32, le64, push_bytes, push_u16, push_u64, read_u16, read_u64, lemma_le16_bytes,
};
use crate::mmap::{
    MemoryMap, map_layout, entry_layout, lemma_map_layout_unique, lemma_map_bytes, MMAP_ENTRIES,
    MMAP_ENTRY_SIZE,
};
use crate::paging::PML4_ADDR;
use crate::rsdp::{Rsdp, rsdp_layout, lemma_rsdp_layout_unique, lemma_rsdp_bytes, RSDP_SIZE};
use crate::vbe::{
    VbeInfoBlock, VbeModeInfoBlock, vbe_info_layout, vbe_mode_info_layout,
    lemma_vbe_info_layout_unique, lemma_vbe_mode_info_layout_unique, lemma_vbe_info_bytes,
    lemma_vbe_mode_info_bytes, VBE_INFO_SIZE, VBE_MODE_INFO_SIZE,
};
use crate::load::STACK_ADDRESS;

verus! {

/// Everything the loader learned about the machine, passed to the kernel.
#[derive(Clone, Copy)]
pub struct BootInfo {
    pub mmap: MemoryMap,
    pub rsdp: Rsdp,
    pub tss: u16,
    pub vbe: VbeInfoBlock,
    pub mode: VbeModeInfoBlock,
    pub pml4: u64,
    pub kernel_stack: u64,
}

/// Offset of the ACPI pointer in the boot information.
pub const RSDP_OFFSET: usize = 768;
/// Offset of the task state selector.
pub const TSS_OFFSET: usize = 788;
/// Offset of the VBE controller block.
pub const VBE_OFFSET: usize = 790;
/// Offset of the VBE mode block.
pub const MODE_OFFSET: usize = 1302;
/// Offset of the PML4 address.
pub const PML4_OFFSET: usize = 1557;
/// Offset of the kernel stack top.
pub const KERNEL_STACK_OFFSET: usize = 1565;
/// Size in bytes of the boot information.
pub const BOOT_INFO_SIZE: usize = 1573;

/// `s` is the packed image of `b` the stages pass on: the memory map, the ACPI pointer, the
/// task state selector, the controller and mode blocks, the PML4 address and the stack top,
/// one after the other, little-endian.
pub open spec fn boot_info_layout(b: BootInfo, s: Seq<u8>) -> bool {
    &&& s.len() >= BOOT_INFO_SIZE
    &&& map_layout(b.mmap, s.subrange(0, 768), 0)
    &&& rsdp_layout(b.rsdp, s.subrange(768, 788), 0)
    &&& le16(s, 788) == b.tss as int
    &&& vbe_info_layout(b.vbe, s.subrange(790, 1302))
    &&& vbe_mode_info_layout(b.mode, s.subrange(1302, 1557))
    &&& le64(s, 1557) == b.pml4 as int
    &&& le64(s, 1565) == b.kernel_stack as int
}

impl BootInfo {
    /// Reads the boot information from its packed image.
    pub fn from_bytes(s: &[u8]) -> (b: Self)
        requires
            s@.len() >= BOOT_INFO_SIZE,
        ensures
            boot_info_layout(b, s@),
    {
        let mmap = MemoryMap::from_bytes(&s[0..768], 0);
        let rsdp = Rsdp::from_bytes(&s[768..788], 0);
        let tss = read_u16(s, 788);
        let vbe = VbeInfoBlock::from_bytes(&s[790..1302]);
        let mode = VbeModeInfoBlock::from_bytes(&s[1302..1557]);
        let pml4 = read_u64(s, 1557);
        let kernel_stack = read_u64(s, 1565);
        BootInfo { mmap, rsdp, tss, vbe, mode, pml4, kernel_stack }
    }

    /// The packed image of the boot information.
    pub fn to_bytes(&self) -> (out: Vec<u8>)
        ensures
            out@.len() == BOOT_INFO_SIZE,
            boot_info_layout(*self, out@),
    {
        let mut mb: Vec<u8> = Vec::new();
        self.mmap.push_bytes(&mut mb);
        let rb = self.rsdp.to_bytes();
        let vb = self.vbe.to_bytes();
        let mob = self.mode.to_bytes();
        let mut out: Vec<u8> = Vec::new();
        push_bytes(&mut out, mb.as_slice());
        push_bytes(&mut out, rb.as_slice());
        push_u16(&mut out, self.tss);
        push_bytes(&mut out, vb.as_slice());
        push_bytes(&mut out, mob.as_slice());
        push_u64(&mut out, self.pml4);
        push_u64(&mut out, self.kernel_stack);
        assert(out@.subrange(0, 768) =~= mb@);
        assert(out@.subrange(768, 788) =~= rb@);
        assert(out@.subrange(790, 1302) =~= vb@);
        assert(out@.subrange(1302, 1557) =~= mob@);
        out
    }

    /// The boot information as the second stage leaves it before protected mode: the memory
    /// map, ACPI pointer, task state selector, controller and mode blocks it gathered, with no
    /// page table and no kernel stack yet.
    pub fn new(
        mmap: MemoryMap,
        rsdp: Rsdp,
        tss: u16,
        vbe: VbeInfoBlock,
        mode: VbeModeInfoBlock,
    ) -> (b: Self)
        ensures
            b.mmap == mmap,
            b.rsdp == rsdp,
            b.tss == tss,
            b.vbe == vbe,
            b.mode == mode,
            b.pml4 == 0,
            b.kernel_stack == 0,
    {
        BootInfo { mmap, rsdp, tss, vbe, mode, pml4: 0, kernel_stack: 0 }
    }

    /// What the third stage records before long mode: the kernel stack top and the PML4
    /// address; the rest is kept.
    pub fn prepare_long_mode(&mut self)
        ensures
            final(self).kernel_stack == STACK_ADDRESS,
            final(self).pml4 == PML4_ADDR,
            final(self).mmap == old(self).mmap,
            final(self).rsdp == old(self).rsdp,
            final(self).tss == old(self).tss,
            final(self).vbe == old(self).vbe,
            final(self).mode == old(self).mode,
    {
        self.kernel_stack = STACK_ADDRESS;
        self.pml4 = PML4_ADDR;
    }
}

/// The image determines the boot information: what one stage writes, the next reads back
/// unchanged.
pub proof fn lemma_boot_info_layout_unique(a: BootInfo, b: BootInfo, s: Seq<u8>)
    requires
        boot_info_layout(a, s),
        boot_info_layout(b, s),
    ensures
        a == b,
{
    lemma_map_layout_unique(a.mmap, b.mmap, s.subrange(0, 768), 0);
    lemma_rsdp_layout_unique(a.rsdp, b.rsdp, s.subrange(768, 788), 0);
    lemma_vbe_info_layout_unique(a.vbe, b.vbe, s.subrange(790, 1302));
    lemma_vbe_mode_info_layout_unique(a.mode, b.mode, s.subrange(1302, 1557));
}

/// Images of boot information that agree on every field but the PML4 address and the stack
/// top agree on every byte before those two fields.
pub proof fn lemma_boot_info_bytes(a: BootInfo, b: BootInfo, s: Seq<u8>, t: Seq<u8>)
    requires
        boot_info_layout(a, s),
        boot_info_layout(b, t),
        a.mmap == b.mmap,
        a.rsdp == b.rsdp,
        a.tss == b.tss,
        a.vbe == b.vbe,
        a.mode == b.mode,
    ensures
        forall|k: int| 0 <= k < PML4_OFFSET ==> #[trigger] s[k] == t[k],
{
    let sm = s.subrange(0, 768);
    let tm = t.subrange(0, 768);
    lemma_map_bytes(a.mmap, sm, tm, 0);
    let sr = s.subrange(768, 788);
    let tr = t.subrange(768, 788);
    lemma_rsdp_bytes(a.rsdp, sr, tr, 0);
    lemma_le16_bytes(s, t, 788);
    let sv = s.subrange(790, 1302);
    let tv = t.subrange(790, 1302);
    lemma_vbe_info_bytes(a.vbe, sv, tv);
    let so = s.subrange(1302, 1557);
    let to = t.subrange(1302, 1557);
    lemma_vbe_mode_info_bytes(a.mode, so, to);
    assert forall|k: int| 0 <= k < PML4_OFFSET implies #[trigger] s[k] == t[k] by {
        if k < 768 {
            assert(sm[k] == tm[k]);
        } else if k < 788 {
            assert(sr[k - 768] == tr[k - 768]);
        } else if k < 790 {
        } else if k < 1302 {
            assert(sv[k - 790] == tv[k - 790]);
        } else {
            assert(so[k - 1302] == to[k - 1302]);
        }
    }
}

/// What the third stage writes back differs from what it read only in the PML4 address and
/// the stack top: every byte before them is as the second stage left it, and those two
/// fields hold the table address and the stack top.
pub proof fn lemma_prepare_long_mode_image(before: BootInfo, after: BootInfo, s: Seq<u8>, t: Seq<u8>)
    requires
        boot_info_layout(before, s),
        boot_info_layout(after, t),
        after.kernel_stack == STACK_ADDRESS,
        after.pml4 == PML4_ADDR,
        after.mmap == before.mmap,
        after.rsdp == before.rsdp,
        after.tss == before.tss,
        after.vbe == before.vbe,
        after.mode == before.mode,
    ensures
        forall|k: int| 0 <= k < PML4_OFFSET ==> #[trigger] t[k] == s[k],
        le64(t, PML4_OFFSET as int) == PML4_ADDR,
        le64(t, KERNEL_STACK_OFFSET as int) == STACK_ADDRESS,
{
    lemma_boot_info_bytes(after, before, t, s);
}

/// Size in bytes of field `k` of `BootInfo`, in declaration order: the memory map, the ACPI
/// pointer, the task state selector, the controller block, the mode block, the PML4 address
/// and the stack top.
pub open spec fn boot_info_field_size(k: int) -> int {
    if k == 0 {
        MMAP_ENTRIES * MMAP_ENTRY_SIZE
    } else if k == 1 {
        RSDP_SIZE as int
    } else if k == 2 {
        2
    } else if k == 3 {
        VBE_INFO_SIZE as int
    } else if k == 4 {
        VBE_MODE_INFO_SIZE as int
    } else if k == 5 {
        8
    } else if k == 6 {
        8
    } else {
        0
    }
}

/// Offset of field `k` of `BootInfo` when the fields are packed in declaration order.
pub open spec fn boot_info_offset(k: nat) -> int
    decreases k,
{
    if k == 0 {
        0
    } else {
        boot_info_offset((k - 1) as nat) + boot_info_field_size(k - 1)
    }
}

/// The boot information is laid out packed, in the order its fields are declared, as the
/// kernel reads it: each part starts where the one declared before it ends, the offsets the
/// stages use are those, and so entry `i` of the memory map starts at byte `24 i` and the ACPI
/// signature at byte `RSDP_OFFSET`.
pub proof fn lemma_boot_info_packed(b: BootInfo, s: Seq<u8>)
    requires
        boot_info_layout(b, s),
    ensures
        map_layout(b.mmap, s.subrange(boot_info_offset(0), boot_info_offset(1)), 0),
        rsdp_layout(b.rsdp, s.subrange(boot_info_offset(1), boot_info_offset(2)), 0),
        le16(s, boot_info_offset(2)) == b.tss as int,
        vbe_info_layout(b.vbe, s.subrange(boot_info_offset(3), boot_info_offset(4))),
        vbe_mode_info_layout(b.mode, s.subrange(boot_info_offset(4), boot_info_offset(5))),
        le64(s, boot_info_offset(5)) == b.pml4 as int,
        le64(s, boot_info_offset(6)) == b.kernel_stack as int,
        boot_info_offset(7) == BOOT_INFO_SIZE,
        RSDP_OFFSET == boot_info_offset(1),
        TSS_OFFSET == boot_info_offset(2),
        VBE_OFFSET == boot_info_offset(3),
        MODE_OFFSET == boot_info_offset(4),
        PML4_OFFSET == boot_info_offset(5),
        KERNEL_STACK_OFFSET == boot_info_offset(6),
        forall|i: int|
            0 <= i < MMAP_ENTRIES ==> {
                &&& le64(s, 24 * i) == (#[trigger] b.mmap.entries@[i]).base as int
                &&& le64(s, 24 * i + 8) == b.mmap.entries@[i].length as int
                &&& le32(s, 24 * i + 16) == b.mmap.entries@[i].memory_type as int
                &&& le32(s, 24 * i + 20) == b.mmap.entries@[i].reserved_acpi as int
            },
        s.subrange(RSDP_OFFSET as int, RSDP_OFFSET + 8) == b.rsdp.signature@,
        le32(s, RSDP_OFFSET + 16) == b.rsdp.rsdt_address as int,
{
    assert(boot_info_offset(0) == 0);
    assert(boot_info_offset(1) == 768);
    assert(boot_info_offset(2) == 788);
    assert(boot_info_offset(3) == 790);
    assert(boot_info_offset(4) == 1302);
    assert(boot_info_offset(5) == 1557);
    assert(boot_info_offset(6) == 1565);
    assert(boot_info_offset(7) == 1573);
    let sm = s.subrange(0, 768);
    assert forall|i: int| 0 <= i < MMAP_ENTRIES implies {
        &&& le64(s, 24 * i) == (#[trigger] b.mmap.entries@[i]).base as int
        &&& le64(s, 24 * i + 8) == b.mmap.entries@[i].length as int
        &&& le32(s, 24 * i + 16) == b.mmap.entries@[i].memory_type as int
        &&& le32(s, 24 * i + 20) == b.mmap.entries@[i].reserved_acpi as int
    } by {
        assert(entry_layout(b.mmap.entries@[i], sm, i * 24));
        assert forall|k: int| 24 * i <= k < 24 * i + 24 implies #[trigger] sm[k] == s[k] by {}
    }
    let sr = s.subrange(768, 788);
    assert(s.subrange(768, 776) =~= sr.subrange(0, 8));
    assert forall|k: int| 784 <= k < 788 implies #[trigger] sr[k - 768] == s[k] by {}
}

/// A 32-bit task state segment, as the boot information's consumers see it.
#[derive(Clone, Copy)]
pub struct TaskStateSegment {
    pub link: u16,
    pub padding_0: u16,
    pub esp0: u32,
    pub ss0: u16,
    pub padding_1: u16,
    pub esp1: u32,
    pub ss1: u16,
    pub padding_2: u16,
    pub esp2: u32,
    pub ss2: u16,
    pub padding_3: u16,
    pub cr3: u32,
    pub eip: u32,
    pub eflags: u32,
    pub eax: u32,
    pub ecx: u32,
    pub edx: u32,
    pub ebx: u32,
    pub esp: u32,
    pub ebp: u32,
    pub esi: u32,
    pub edi: u32,
    pub es: u16,
    pub padding_4: u16,
    pub cs: u16,
    pub padding_5: u16,
    pub ss: u16,
    pub padding_6: u16,
    pub ds: u16,
    pub padding_7: u16,
    pub fs: u16,
    pub padding_8: u16,
    pub gs: u16,
    pub padding_9: u16,
    pub ldtr: u16,
    pub padding_10: u16,
    pub padding_11: u16,
    pub iopb: u16,
    pub ssp: u32,
}

} // verus!
