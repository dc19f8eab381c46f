//! The E820 memory map: its entries, and the scan that fills the table with them.
use vstd::prelude::*;
use crate::bytes::{
    le32, le64, read_u32, read_u64, push_u32, push_u64, lemma_le32_bytes, lemma_le64_bytes,
};

verus! {

/// Number of entries the table holds.
pub const MMAP_ENTRIES: usize = 32;
/// Size in bytes of one entry as the BIOS writes it.
pub const MMAP_ENTRY_SIZE: usize = 24;
/// EAX for the E820 query.
pub const E820_FUNCTION: u32 = 0xE820;
/// EDX for the E820 query: "SMAP".
pub const E820_SIGNATURE: u32 = 0x534D4150;

/// One region of physical memory.
#[derive(Clone, Copy, Debug, PartialEq, Eq, Structural)]
pub struct MemoryMapEntry {
    pub base: u64,
    pub length: u64,
    pub memory_type: u32,
    pub reserved_acpi: u32,
}

/// The memory map handed to the later stages.
#[derive(Clone, Copy)]
pub struct MemoryMap {
    pub entries: [MemoryMapEntry; 32],
}

/// `e` is the entry laid out in the bytes `s` from offset `o`, packed, little-endian.
pub open spec fn entry_layout(e: MemoryMapEntry, s: Seq<u8>, o: int) -> bool {
    &&& e.base as int == le64(s, o)
    &&& e.length as int == le64(s, o + 8)
    &&& e.memory_type as int == le32(s, o + 16)
    &&& e.reserved_acpi as int == le32(s, o + 20)
}

impl MemoryMapEntry {
    /// The entry with every field zero.
    pub fn zeroed() -> (e: Self)
        ensures
            e == (MemoryMapEntry { base: 0, length: 0, memory_type: 0, reserved_acpi: 0 }),
    {
        MemoryMapEntry { base: 0, length: 0, memory_type: 0, reserved_acpi: 0 }
    }

    /// Reads the entry laid out in `b` from offset `o`.
    pub fn from_bytes(b: &[u8], o: usize) -> (e: Self)
        requires
            o + MMAP_ENTRY_SIZE <= b@.len(),
        ensures
            entry_layout(e, b@, o as int),
    {
        let _n = b.len();
        MemoryMapEntry {
            base: read_u64(b, o),
            length: read_u64(b, o + 8),
            memory_type: read_u32(b, o + 16),
            reserved_acpi: read_u32(b, o + 20),
        }
    }

    /// Appends the 24 bytes of the entry.
    pub fn push_bytes(&self, out: &mut Vec<u8>)
        ensures
            final(out)@.len() == old(out)@.len() + MMAP_ENTRY_SIZE,
            forall|k: int| 0 <= k < old(out)@.len() ==> #[trigger] final(out)@[k] == old(out)@[k],
            entry_layout(*self, final(out)@, old(out)@.len() as int),
    {
        push_u64(out, self.base);
        push_u64(out, self.length);
        push_u32(out, self.memory_type);
        push_u32(out, self.reserved_acpi);
    }
}

/// An entry's layout depends only on its 24 bytes.
pub proof fn lemma_entry_layout_frame(e: MemoryMapEntry, s1: Seq<u8>, s2: Seq<u8>, o: int)
    requires
        entry_layout(e, s1, o),
        0 <= o,
        o + 24 <= s1.len(),
        forall|k: int| 0 <= k < s1.len() ==> #[trigger] s2[k] == s1[k],
    ensures
        entry_layout(e, s2, o),
{
    assert(s2[o] == s1[o] && s2[o + 1] == s1[o + 1] && s2[o + 2] == s1[o + 2] && s2[o + 3] == s1[o + 3]);
    assert(s2[o + 4] == s1[o + 4] && s2[o + 5] == s1[o + 5] && s2[o + 6] == s1[o + 6] && s2[o + 7] == s1[o + 7]);
    assert(s2[o + 8] == s1[o + 8] && s2[o + 9] == s1[o + 9] && s2[o + 10] == s1[o + 10] && s2[o + 11] == s1[o + 11]);
    assert(s2[o + 12] == s1[o + 12] && s2[o + 13] == s1[o + 13] && s2[o + 14] == s1[o + 14] && s2[o + 15] == s1[o + 15]);
    assert(s2[o + 16] == s1[o + 16] && s2[o + 17] == s1[o + 17] && s2[o + 18] == s1[o + 18] && s2[o + 19] == s1[o + 19]);
    assert(s2[o + 20] == s1[o + 20] && s2[o + 21] == s1[o + 21] && s2[o + 22] == s1[o + 22] && s2[o + 23] == s1[o + 23]);
}

/// `m` is the table laid out in `s` from offset `o`: its entries one after the other.
pub open spec fn map_layout(m: MemoryMap, s: Seq<u8>, o: int) -> bool {
    forall|i: int| 0 <= i < MMAP_ENTRIES ==> entry_layout(#[trigger] m.entries@[i], s, o + i * 24)
}

impl MemoryMap {
    /// The table with every entry zero, as the loader's boot information starts.
    pub fn zeroed() -> (m: Self)
        ensures
            forall|i: int|
                0 <= i < MMAP_ENTRIES ==> #[trigger] m.entries@[i] == (MemoryMapEntry {
                    base: 0,
                    length: 0,
                    memory_type: 0,
                    reserved_acpi: 0,
                }),
    {
        MemoryMap { entries: [MemoryMapEntry::zeroed(); 32] }
    }

    /// Reads the table laid out in `b` from offset `o`.
    pub fn from_bytes(b: &[u8], o: usize) -> (m: Self)
        requires
            o + MMAP_ENTRIES * MMAP_ENTRY_SIZE <= b@.len(),
        ensures
            map_layout(m, b@, o as int),
    {
        let _n = b.len();
        let mut m = MemoryMap::zeroed();
        let mut i: usize = 0;
        while i < MMAP_ENTRIES
            invariant
                o + MMAP_ENTRIES * MMAP_ENTRY_SIZE <= b@.len(),
                b@.len() <= usize::MAX,
                i <= MMAP_ENTRIES,
                forall|k: int| 0 <= k < i ==> entry_layout(#[trigger] m.entries@[k], b@, o + k * 24),
            decreases MMAP_ENTRIES - i,
        {
            let e = MemoryMapEntry::from_bytes(b, o + i * MMAP_ENTRY_SIZE);
            m.entries[i] = e;
            i = i + 1;
        }
        m
    }

    /// Appends the 768 bytes of the table.
    pub fn push_bytes(&self, out: &mut Vec<u8>)
        ensures
            final(out)@.len() == old(out)@.len() + MMAP_ENTRIES * MMAP_ENTRY_SIZE,
            forall|k: int| 0 <= k < old(out)@.len() ==> #[trigger] final(out)@[k] == old(out)@[k],
            map_layout(*self, final(out)@, old(out)@.len() as int),
    {
        let ghost start = out@.len() as int;
        let mut i: usize = 0;
        while i < MMAP_ENTRIES
            invariant
                i <= MMAP_ENTRIES,
                start == old(out)@.len(),
                out@.len() == start + i * 24,
                forall|k: int| 0 <= k < start ==> #[trigger] out@[k] == old(out)@[k],
                forall|k: int| 0 <= k < i ==> entry_layout(#[trigger] self.entries@[k], out@, start + k * 24),
            decreases MMAP_ENTRIES - i,
        {
            let ghost before = out@;
            self.entries[i].push_bytes(out);
            proof {
                assert forall|k: int| 0 <= k < i implies entry_layout(
                    #[trigger] self.entries@[k],
                    out@,
                    start + k * 24,
                ) by {
                    lemma_entry_layout_frame(self.entries@[k], before, out@, start + k * 24);
                }
            }
            i = i + 1;
        }
    }
}

/// What follows an E820 call that wrote the entry in slot `slot`.
#[derive(Clone, Copy, Debug, PartialEq, Eq, Structural)]
pub enum E820Step {
    /// Call again, writing the slot given.
    Next(u32),
    /// The BIOS reported the last entry; the table holds this many.
    Done(u32),
    /// The BIOS has more entries than the table holds: the next slot would be past its end.
    Overflow,
}

/// What the scan does after the call that wrote slot `slot` and gave back the continuation
/// value `cont_id`: it stops when the continuation is zero, and otherwise goes on with the
/// next slot, which exists only while the table has room.
pub open spec fn e820_step(slot: u32, cont_id: u32) -> E820Step {
    if cont_id == 0 {
        E820Step::Done((slot + 1) as u32)
    } else if slot + 1 < MMAP_ENTRIES {
        E820Step::Next((slot + 1) as u32)
    } else {
        E820Step::Overflow
    }
}

/// The step of the E820 scan after the call that wrote slot `slot` (the scan starts at 0).
pub fn e820_next(slot: u32, cont_id: u32) -> (step: E820Step)
    requires
        slot < MMAP_ENTRIES,
    ensures
        step == e820_step(slot, cont_id),
{
    let entries = slot + 1;
    if cont_id == 0 {
        E820Step::Done(entries)
    } else if (entries as usize) < MMAP_ENTRIES {
        E820Step::Next(entries)
    } else {
        E820Step::Overflow
    }
}

/// The outcome of a whole scan from slot 0 for the continuation values the BIOS gives back,
/// one per call: the count of entries written, or `None` when the table overflows.
pub open spec fn e820_scan(conts: Seq<u32>, slot: u32) -> Option<u32>
    decreases MMAP_ENTRIES - slot,
{
    if slot >= MMAP_ENTRIES || slot >= conts.len() {
        None
    } else {
        match e820_step(slot, conts[slot as int]) {
            E820Step::Done(n) => Some(n),
            E820Step::Next(s) => e820_scan(conts, s),
            E820Step::Overflow => None,
        }
    }
}

/// Every call of the scan writes a slot of the table, and a finished scan holds between 1 and
/// 32 entries: the slot after a call is in the table or the scan stops.
pub proof fn lemma_e820_stays_in_table(slot: u32, cont_id: u32)
    requires
        slot < MMAP_ENTRIES,
    ensures
        match e820_step(slot, cont_id) {
            E820Step::Next(s) => s == slot + 1 && s < MMAP_ENTRIES,
            E820Step::Done(n) => 1 <= n <= MMAP_ENTRIES && n == slot + 1,
            E820Step::Overflow => slot == MMAP_ENTRIES - 1 && cont_id != 0,
        },
{
}

/// A scan from slot 0 stops at the first zero continuation value, with one entry per call up
/// to it, and overflows when the first 32 values are all non-zero.
pub proof fn lemma_e820_scan_counts(conts: Seq<u32>, slot: u32, n: u32)
    requires
        slot <= n < MMAP_ENTRIES,
        n < conts.len(),
        conts[n as int] == 0,
        forall|k: int| slot <= k < n ==> #[trigger] conts[k] != 0,
    ensures
        e820_scan(conts, slot) == Some((n + 1) as u32),
    decreases n - slot,
{
    if slot < n {
        lemma_e820_scan_counts(conts, (slot + 1) as u32, n);
    }
}

/// A scan whose first 32 continuation values are all non-zero runs out of table.
pub proof fn lemma_e820_scan_overflows(conts: Seq<u32>, slot: u32)
    requires
        slot < MMAP_ENTRIES,
        conts.len() >= MMAP_ENTRIES,
        forall|k: int| slot <= k < MMAP_ENTRIES ==> #[trigger] conts[k] != 0,
    ensures
        e820_scan(conts, slot) is None,
    decreases MMAP_ENTRIES - slot,
{
    if slot + 1 < MMAP_ENTRIES {
        lemma_e820_scan_overflows(conts, (slot + 1) as u32);
    }
}

/// The bytes determine the table: two tables laid out in the same bytes are equal.
pub proof fn lemma_map_layout_unique(a: MemoryMap, b: MemoryMap, s: Seq<u8>, o: int)
    requires
        map_layout(a, s, o),
        map_layout(b, s, o),
    ensures
        a == b,
{
    assert forall|i: int| 0 <= i < MMAP_ENTRIES implies a.entries@[i] == b.entries@[i] by {
        assert(entry_layout(a.entries@[i], s, o + i * 24));
        assert(entry_layout(b.entries@[i], s, o + i * 24));
    }
    assert(a.entries =~= b.entries);
}

/// An entry has one image: the bytes laid out for the same entry are equal.
pub proof fn lemma_entry_bytes(e: MemoryMapEntry, s: Seq<u8>, t: Seq<u8>, o: int)
    requires
        0 <= o,
        o + 24 <= s.len(),
        o + 24 <= t.len(),
        entry_layout(e, s, o),
        entry_layout(e, t, o),
    ensures
        forall|k: int| o <= k < o + 24 ==> #[trigger] s[k] == t[k],
{
    lemma_le64_bytes(s, t, o);
    lemma_le64_bytes(s, t, o + 8);
    lemma_le32_bytes(s, t, o + 16);
    lemma_le32_bytes(s, t, o + 20);
}

/// A table has one image: the bytes laid out for the same table are equal.
pub proof fn lemma_map_bytes(m: MemoryMap, s: Seq<u8>, t: Seq<u8>, o: int)
    requires
        0 <= o,
        o + 768 <= s.len(),
        o + 768 <= t.len(),
        map_layout(m, s, o),
        map_layout(m, t, o),
    ensures
        forall|k: int| o <= k < o + 768 ==> #[trigger] s[k] == t[k],
{
    assert forall|k: int| o <= k < o + 768 implies #[trigger] s[k] == t[k] by {
        let i = (k - o) / 24;
        assert(0 <= i < 32 && o + i * 24 <= k < o + i * 24 + 24) by (nonlinear_arith)
            requires
                o <= k < o + 768,
                i == (k - o) / 24,
        ;
        assert(entry_layout(m.entries@[i], s, o + i * 24));
        assert(entry_layout(m.entries@[i], t, o + i * 24));
        lemma_entry_bytes(m.entries@[i], s, t, o + i * 24);
    }
}

/// Size in bytes of field `k` of `MemoryMapEntry`, in declaration order.
pub open spec fn entry_field_size(k: int) -> int {
    if k == 0 {
        8
    } else     if k == 1 {
        8
    } else     if k == 2 {
        4
    } else     if k == 3 {
        4
    } else {
        0
    }
}

/// Offset of field `k` of `MemoryMapEntry` when the fields are packed in declaration order:
/// the sum of the sizes of the fields declared before it.
pub open spec fn entry_offset(k: nat) -> int
    decreases k,
{
    if k == 0 {
        0
    } else {
        entry_offset((k - 1) as nat) + entry_field_size(k - 1)
    }
}

/// An entry is laid out packed, in the order its fields are declared: each field starts
/// where the one declared before it ends, and the entry takes 24 bytes.
pub proof fn lemma_entry_packed(e: MemoryMapEntry, s: Seq<u8>)
    requires
        entry_layout(e, s, 0),
    ensures
        le64(s, entry_offset(0)) == e.base as int,
        le64(s, entry_offset(1)) == e.length as int,
        le32(s, entry_offset(2)) == e.memory_type as int,
        le32(s, entry_offset(3)) == e.reserved_acpi as int,
        entry_offset(4) == MMAP_ENTRY_SIZE,
{
    assert(entry_offset(0) == 0);
    assert(entry_offset(1) == 8);
    assert(entry_offset(2) == 16);
    assert(entry_offset(3) == 20);
    assert(entry_offset(4) == 24);
}

} // verus!
