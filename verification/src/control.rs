//! The control-register and EFER values written on the way to protected and long mode.
use vstd::prelude::*;

verus! {

/// CR0.PE: protection enable.
pub const CR0_PE: u32 = 0x1;
/// CR0.MP: monitor coprocessor.
pub const CR0_MP: u32 = 0x2;
/// CR0.EM: x87 emulation.
pub const CR0_EM: u32 = 0x4;
/// CR0.PG: paging.
pub const CR0_PG: u32 = 0x8000_0000;
/// CR4.PAE, CR4.OSFXSR and CR4.OSXMMEXCPT.
pub const CR4_LONG_MODE_BITS: u32 = 0x620;
/// EFER.LME: long mode enable.
pub const EFER_LME: u32 = 0x100;
/// The EFER model-specific register.
pub const EFER_MSR: u32 = 0xC000_0080;

/// CR0 for protected mode: PE set, every other bit kept.
pub fn protected_mode_cr0(cr0: u32) -> (r: u32)
    ensures
        r == cr0 | 1,
        r & CR0_PE == CR0_PE,
        r & !CR0_PE == cr0 & !CR0_PE,
{
    let r = cr0 | 1;
    assert(r & 1 == 1 && r & !1u32 == cr0 & !1u32) by (bit_vector)
        requires
            r == cr0 | 1,
    ;
    r
}

/// CR4 for long mode: PAE, OSFXSR and OSXMMEXCPT set, every other bit kept.
pub fn long_mode_cr4(cr4: u32) -> (r: u32)
    ensures
        r == cr4 | CR4_LONG_MODE_BITS,
        r & CR4_LONG_MODE_BITS == CR4_LONG_MODE_BITS,
        r & !CR4_LONG_MODE_BITS == cr4 & !CR4_LONG_MODE_BITS,
{
    let r = cr4 | 0x620;
    assert(r & 0x620 == 0x620 && r & !0x620u32 == cr4 & !0x620u32) by (bit_vector)
        requires
            r == cr4 | 0x620,
    ;
    r
}

/// EFER for long mode: LME set, every other bit kept.
pub fn long_mode_efer(efer: u32) -> (r: u32)
    ensures
        r == efer | EFER_LME,
        r & EFER_LME == EFER_LME,
        r & !EFER_LME == efer & !EFER_LME,
{
    let r = efer | EFER_LME;
    assert(r & 0x100 == 0x100 && r & !0x100u32 == efer & !0x100u32) by (bit_vector)
        requires
            r == efer | 0x100,
    ;
    r
}

/// CR0 for long mode: EM cleared, PG and MP set, every other bit kept.
pub fn long_mode_cr0(cr0: u32) -> (r: u32)
    ensures
        r == (cr0 & 0xFFFF_FFFB) | 0x8000_0002,
        r & CR0_EM == 0,
        r & (CR0_PG | CR0_MP) == CR0_PG | CR0_MP,
        r & !(CR0_PG | CR0_MP | CR0_EM) == cr0 & !(CR0_PG | CR0_MP | CR0_EM),
{
    let r = (cr0 & 0xFFFFFFFB) | 0x80000002;
    assert(r & 4 == 0 && r & 0x8000_0002 == 0x8000_0002 && r & !0x8000_0006u32 == cr0
        & !0x8000_0006u32) by (bit_vector)
        requires
            r == (cr0 & 0xFFFF_FFFB) | 0x8000_0002,
    ;
    assert(CR0_PG | CR0_MP == 0x8000_0002) by (bit_vector);
    assert(CR0_PG | CR0_MP | CR0_EM == 0x8000_0006) by (bit_vector);
    r
}

} // verus!
