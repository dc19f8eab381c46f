//! Segment descriptors for the BIOS block-move service.
use vstd::prelude::*;

verus! {

/// Access byte of a present, writable data segment (ring 0, accessed).
pub const DATA_SEGMENT_ACCESS: u64 = 0x93;

/// The 64-bit descriptor for a segment with the given base, limit and the data access byte,
/// written as a sum of its bit fields.
pub open spec fn descriptor_value(base: int, limit: int) -> int {
    (limit % 0x1_0000)
        + (base % 0x100_0000) * 0x1_0000
        + 0x93 * 0x100_0000_0000
        + (limit / 0x1_0000 % 0x10) * 0x1_0000_0000_0000
        + (base / 0x100_0000 % 0x100) * 0x100_0000_0000_0000
}

/// Base address held by a descriptor: bits 16..40 and 56..64.
pub open spec fn descriptor_base(desc: u64) -> int {
    ((desc >> 16u64) & 0xFF_FFFF) as int + ((desc >> 56u64) & 0xFF) as int * 0x100_0000
}

/// Segment limit held by a descriptor: bits 0..16 and 48..52.
pub open spec fn descriptor_limit(desc: u64) -> int {
    (desc & 0xFFFF) as int + ((desc >> 48u64) & 0xF) as int * 0x1_0000
}

/// Access byte held by a descriptor: bits 40..48.
pub open spec fn descriptor_access(desc: u64) -> int {
    ((desc >> 40u64) & 0xFF) as int
}

/// Builds the segment descriptor used by the BIOS block move for a segment at `base`
/// with limit `limit`.
pub fn make_desc(base: u32, limit: u16) -> (desc: u64)
    ensures
        desc as int == descriptor_value(base as int, limit as int),
{
    let base = base as u64;
    let limit = limit as u64;
    let access = DATA_SEGMENT_ACCESS;

    let mut desc = limit & 0xFFFF;
    desc |= (base & 0xFFFFFF) << 16u64;
    desc |= access << 40u64;
    desc |= ((limit >> 16u64) & 0xF) << 48u64;
    desc |= ((base >> 24u64) & 0xFF) << 56u64;
    proof {
        lemma_desc_bits(base, limit);
    }
    desc
}

proof fn lemma_desc_bits(base: u64, limit: u64)
    requires
        base < 0x1_0000_0000,
        limit < 0x1_0000,
    ensures
        ((((limit & 0xFFFF) | ((base & 0xFFFFFF) << 16u64)) | (0x93u64 << 40u64)) | (((limit
            >> 16u64) & 0xF) << 48u64)) | (((base >> 24u64) & 0xFF) << 56u64) == limit + (base
            % 0x100_0000) * 0x1_0000 + 0x93 * 0x100_0000_0000 + (base / 0x100_0000)
            * 0x100_0000_0000_0000,
{
    assert(((((limit & 0xFFFF) | ((base & 0xFFFFFF) << 16u64)) | (0x93u64 << 40u64)) | (((limit
        >> 16u64) & 0xF) << 48u64)) | (((base >> 24u64) & 0xFF) << 56u64) == limit + (base
        % 0x100_0000) * 0x1_0000 + 0x93 * 0x100_0000_0000 + (base / 0x100_0000)
        * 0x100_0000_0000_0000) by (bit_vector)
        requires
            base < 0x1_0000_0000,
            limit < 0x1_0000,
    ;
}

/// A descriptor built by `make_desc` gives back the base and limit it was built from,
/// and carries the data-segment access byte.
pub proof fn lemma_descriptor_fields(base: u32, limit: u16, desc: u64)
    requires
        desc as int == descriptor_value(base as int, limit as int),
    ensures
        descriptor_base(desc) == base as int,
        descriptor_limit(desc) == limit as int,
        descriptor_access(desc) == DATA_SEGMENT_ACCESS as int,
{
    let b = base as u64;
    let l = limit as u64;
    assert(desc == l + (b % 0x100_0000) * 0x1_0000 + 0x93 * 0x100_0000_0000 + (b / 0x100_0000)
        * 0x100_0000_0000_0000);
    assert(((desc >> 16u64) & 0xFF_FFFF) == b % 0x100_0000 && ((desc >> 56u64) & 0xFF) == b
        / 0x100_0000 && (desc & 0xFFFF) == l && ((desc >> 48u64) & 0xF) == 0 && ((desc >> 40u64)
        & 0xFF) == 0x93) by (bit_vector)
        requires
            b < 0x1_0000_0000,
            l < 0x1_0000,
            desc == l + (b % 0x100_0000) * 0x1_0000 + 0x93 * 0x100_0000_0000 + (b / 0x100_0000)
                * 0x100_0000_0000_0000,
    ;
}

} // verus!
