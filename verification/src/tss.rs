//! The 64-bit task state segment the third stage installs.
use vstd::prelude::*;
use crate::bytes::{le16, le32, le64, push_u16, push_u32, push_u64};

verus! {

/// Kernel stack top in the initial task state segment.
pub const INITIAL_RSP0: u64 = 0xA0_0000;
/// Size in bytes of a 64-bit task state segment.
pub const TSS_SIZE: usize = 104;

/// A 64-bit task state segment.
#[derive(Clone, Copy, Debug, PartialEq, Eq, Structural)]
pub struct TaskStateSegment {
    pub reserved1: u32,
    pub rsp0: u64,
    pub rsp1: u64,
    pub rsp2: u64,
    pub reserved2: u64,
    pub ist1: u64,
    pub ist2: u64,
    pub ist3: u64,
    pub ist4: u64,
    pub ist5: u64,
    pub ist6: u64,
    pub ist7: u64,
    pub reserved3: u64,
    pub reserved4: u16,
    pub iopb_offset: u16,
}

/// `s` is the packed little-endian image of `t`.
pub open spec fn tss_layout(t: TaskStateSegment, s: Seq<u8>) -> bool {
    &&& s.len() == TSS_SIZE
    &&& le32(s, 0) == t.reserved1 as int
    &&& le64(s, 4) == t.rsp0 as int
    &&& le64(s, 12) == t.rsp1 as int
    &&& le64(s, 20) == t.rsp2 as int
    &&& le64(s, 28) == t.reserved2 as int
    &&& le64(s, 36) == t.ist1 as int
    &&& le64(s, 44) == t.ist2 as int
    &&& le64(s, 52) == t.ist3 as int
    &&& le64(s, 60) == t.ist4 as int
    &&& le64(s, 68) == t.ist5 as int
    &&& le64(s, 76) == t.ist6 as int
    &&& le64(s, 84) == t.ist7 as int
    &&& le64(s, 92) == t.reserved3 as int
    &&& le16(s, 100) == t.reserved4 as int
    &&& le16(s, 102) == t.iopb_offset as int
}

impl TaskStateSegment {
    /// The initial segment: the kernel stack top in RSP0, no interrupt stacks, no I/O bitmap.
    pub fn base_tss() -> (t: Self)
        ensures
            t == (TaskStateSegment {
                reserved1: 0,
                rsp0: INITIAL_RSP0,
                rsp1: 0,
                rsp2: 0,
                reserved2: 0,
                ist1: 0,
                ist2: 0,
                ist3: 0,
                ist4: 0,
                ist5: 0,
                ist6: 0,
                ist7: 0,
                reserved3: 0,
                reserved4: 0,
                iopb_offset: 0,
            }),
    {
        TaskStateSegment {
            reserved1: 0,
            rsp0: INITIAL_RSP0,
            rsp1: 0,
            rsp2: 0,
            reserved2: 0,
            ist1: 0,
            ist2: 0,
            ist3: 0,
            ist4: 0,
            ist5: 0,
            ist6: 0,
            ist7: 0,
            reserved3: 0,
            reserved4: 0,
            iopb_offset: 0,
        }
    }

    /// The 104 bytes the processor reads.
    pub fn to_bytes(&self) -> (out: Vec<u8>)
        ensures
            tss_layout(*self, out@),
    {
        let mut out: Vec<u8> = Vec::new();
        push_u32(&mut out, self.reserved1);
        push_u64(&mut out, self.rsp0);
        push_u64(&mut out, self.rsp1);
        push_u64(&mut out, self.rsp2);
        push_u64(&mut out, self.reserved2);
        push_u64(&mut out, self.ist1);
        push_u64(&mut out, self.ist2);
        push_u64(&mut out, self.ist3);
        push_u64(&mut out, self.ist4);
        push_u64(&mut out, self.ist5);
        push_u64(&mut out, self.ist6);
        push_u64(&mut out, self.ist7);
        push_u64(&mut out, self.reserved3);
        push_u16(&mut out, self.reserved4);
        push_u16(&mut out, self.iopb_offset);
        out
    }
}

/// Size in bytes of field `k` of `TaskStateSegment`, in declaration order.
pub open spec fn tss_field_size(k: int) -> int {
    if k == 0 {
        4
    } else     if k == 1 {
        8
    } else     if k == 2 {
        8
    } else     if k == 3 {
        8
    } else     if k == 4 {
        8
    } else     if k == 5 {
        8
    } else     if k == 6 {
        8
    } else     if k == 7 {
        8
    } else     if k == 8 {
        8
    } else     if k == 9 {
        8
    } else     if k == 10 {
        8
    } else     if k == 11 {
        8
    } else     if k == 12 {
        8
    } else     if k == 13 {
        2
    } else     if k == 14 {
        2
    } else {
        0
    }
}

/// Offset of field `k` of `TaskStateSegment` when the fields are packed in declaration order:
/// the sum of the sizes of the fields declared before it.
pub open spec fn tss_offset(k: nat) -> int
    decreases k,
{
    if k == 0 {
        0
    } else {
        tss_offset((k - 1) as nat) + tss_field_size(k - 1)
    }
}

/// The segment is laid out packed, in the order its fields are declared: each field starts
/// where the one declared before it ends, and the segment takes 104 bytes.
pub proof fn lemma_tss_packed(t: TaskStateSegment, s: Seq<u8>)
    requires
        tss_layout(t, s),
    ensures
        le32(s, tss_offset(0)) == t.reserved1 as int,
        le64(s, tss_offset(1)) == t.rsp0 as int,
        le64(s, tss_offset(2)) == t.rsp1 as int,
        le64(s, tss_offset(3)) == t.rsp2 as int,
        le64(s, tss_offset(4)) == t.reserved2 as int,
        le64(s, tss_offset(5)) == t.ist1 as int,
        le64(s, tss_offset(6)) == t.ist2 as int,
        le64(s, tss_offset(7)) == t.ist3 as int,
        le64(s, tss_offset(8)) == t.ist4 as int,
        le64(s, tss_offset(9)) == t.ist5 as int,
        le64(s, tss_offset(10)) == t.ist6 as int,
        le64(s, tss_offset(11)) == t.ist7 as int,
        le64(s, tss_offset(12)) == t.reserved3 as int,
        le16(s, tss_offset(13)) == t.reserved4 as int,
        le16(s, tss_offset(14)) == t.iopb_offset as int,
        tss_offset(15) == TSS_SIZE,
{
    assert(tss_offset(0) == 0);
    assert(tss_offset(1) == 4);
    assert(tss_offset(2) == 12);
    assert(tss_offset(3) == 20);
    assert(tss_offset(4) == 28);
    assert(tss_offset(5) == 36);
    assert(tss_offset(6) == 44);
    assert(tss_offset(7) == 52);
    assert(tss_offset(8) == 60);
    assert(tss_offset(9) == 68);
    assert(tss_offset(10) == 76);
    assert(tss_offset(11) == 84);
    assert(tss_offset(12) == 92);
    assert(tss_offset(13) == 100);
    assert(tss_offset(14) == 102);
    assert(tss_offset(15) == 104);
}

/// Interrupt stack table entry `n` (1 to 7).
pub open spec fn ist(t: TaskStateSegment, n: int) -> u64 {
    if n == 1 {
        t.ist1
    } else if n == 2 {
        t.ist2
    } else if n == 3 {
        t.ist3
    } else if n == 4 {
        t.ist4
    } else if n == 5 {
        t.ist5
    } else if n == 6 {
        t.ist6
    } else {
        t.ist7
    }
}

/// Stack pointer for privilege level `n` (0 to 2).
pub open spec fn rsp(t: TaskStateSegment, n: int) -> u64 {
    if n == 0 {
        t.rsp0
    } else if n == 1 {
        t.rsp1
    } else {
        t.rsp2
    }
}

/// The image is the 64-bit task state segment of the x86-64 architecture: RSPn at byte
/// 4 + 8n, ISTn at byte 36 + 8(n - 1), the I/O map base at byte 102, 104 bytes in all.
pub proof fn lemma_tss_hardware_format(t: TaskStateSegment, s: Seq<u8>)
    requires
        tss_layout(t, s),
    ensures
        s.len() == 104,
        forall|n: int| 0 <= n <= 2 ==> le64(s, 4 + 8 * n) == #[trigger] rsp(t, n) as int,
        forall|n: int| 1 <= n <= 7 ==> le64(s, 36 + 8 * (n - 1)) == #[trigger] ist(t, n) as int,
        le16(s, 102) == t.iopb_offset as int,
{
    assert forall|n: int| 1 <= n <= 7 implies le64(s, 36 + 8 * (n - 1)) == #[trigger] ist(
        t,
        n,
    ) as int by {
        if n == 1 {
        } else if n == 2 {
        } else if n == 3 {
        } else if n == 4 {
        } else if n == 5 {
        } else if n == 6 {
        } else {
        }
    }
    assert forall|n: int| 0 <= n <= 2 implies le64(s, 4 + 8 * n) == #[trigger] rsp(t, n) as int by {
        if n == 0 {
        } else if n == 1 {
        } else {
        }
    }
}

} // verus!
