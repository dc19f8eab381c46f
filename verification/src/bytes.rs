//! Little-endian reading and writing of integers in byte buffers.
use vstd::prelude::*;

verus! {

broadcast use vstd::array::group_array_axioms;

/// The 16-bit little-endian number at offset `o`.
pub open spec fn le16(s: Seq<u8>, o: int) -> int {
    s[o] as int + s[o + 1] as int * 0x100
}

/// The 32-bit little-endian number at offset `o`.
pub open spec fn le32(s: Seq<u8>, o: int) -> int {
    le16(s, o) + le16(s, o + 2) * 0x1_0000
}

/// The 64-bit little-endian number at offset `o`.
pub open spec fn le64(s: Seq<u8>, o: int) -> int {
    le32(s, o) + le32(s, o + 4) * 0x1_0000_0000
}

/// Reads the 16-bit little-endian number at offset `o`.
pub fn read_u16(b: &[u8], o: usize) -> (v: u16)
    requires
        o + 2 <= b@.len(),
    ensures
        v as int == le16(b@, o as int),
{
    b[o] as u16 + b[o + 1] as u16 * 0x100
}

/// Reads the 32-bit little-endian number at offset `o`.
pub fn read_u32(b: &[u8], o: usize) -> (v: u32)
    requires
        o + 4 <= b@.len(),
    ensures
        v as int == le32(b@, o as int),
{
    let _n = b.len();
    read_u16(b, o) as u32 + read_u16(b, o + 2) as u32 * 0x1_0000
}

/// Reads the 64-bit little-endian number at offset `o`.
pub fn read_u64(b: &[u8], o: usize) -> (v: u64)
    requires
        o + 8 <= b@.len(),
    ensures
        v as int == le64(b@, o as int),
{
    let _n = b.len();
    read_u32(b, o) as u64 + read_u32(b, o + 4) as u64 * 0x1_0000_0000
}

/// Appends the little-endian bytes of a 16-bit number.
pub fn push_u16(out: &mut Vec<u8>, v: u16)
    ensures
        final(out)@.len() == old(out)@.len() + 2,
        final(out)@.subrange(0, old(out)@.len() as int) == old(out)@,
        forall|k: int| 0 <= k < old(out)@.len() ==> #[trigger] final(out)@[k] == old(out)@[k],
        le16(final(out)@, old(out)@.len() as int) == v as int,
{
    out.push((v % 0x100) as u8);
    out.push((v / 0x100) as u8);
    assert(final(out)@.subrange(0, old(out)@.len() as int) =~= old(out)@);
}

/// Appends the little-endian bytes of a 32-bit number.
pub fn push_u32(out: &mut Vec<u8>, v: u32)
    ensures
        final(out)@.len() == old(out)@.len() + 4,
        final(out)@.subrange(0, old(out)@.len() as int) == old(out)@,
        forall|k: int| 0 <= k < old(out)@.len() ==> #[trigger] final(out)@[k] == old(out)@[k],
        le32(final(out)@, old(out)@.len() as int) == v as int,
{
    let ghost start = out@;
    push_u16(out, (v % 0x1_0000) as u16);
    let ghost mid = out@;
    push_u16(out, (v / 0x1_0000) as u16);
    assert(out@.subrange(0, start.len() as int) =~= mid.subrange(0, start.len() as int));
    assert(out@[start.len() as int] == mid[start.len() as int]);
    assert(out@[start.len() as int + 1] == mid[start.len() as int + 1]);
}

/// Appends the little-endian bytes of a 64-bit number.
pub fn push_u64(out: &mut Vec<u8>, v: u64)
    ensures
        final(out)@.len() == old(out)@.len() + 8,
        final(out)@.subrange(0, old(out)@.len() as int) == old(out)@,
        forall|k: int| 0 <= k < old(out)@.len() ==> #[trigger] final(out)@[k] == old(out)@[k],
        le64(final(out)@, old(out)@.len() as int) == v as int,
{
    let ghost start = out@;
    push_u32(out, (v % 0x1_0000_0000) as u32);
    let ghost mid = out@;
    push_u32(out, (v / 0x1_0000_0000) as u32);
    assert(out@.subrange(0, start.len() as int) =~= mid.subrange(0, start.len() as int));
    assert(forall|k: int| start.len() <= k < start.len() + 4 ==> out@[k] == mid[k]) by {
        assert forall|k: int| start.len() <= k < start.len() + 4 implies out@[k] == mid[k] by {
            assert(out@.subrange(0, mid.len() as int)[k] == mid[k]);
        }
    }
}

/// Copies `N` bytes starting at offset `o`.
pub fn copy_bytes<const N: usize>(b: &[u8], o: usize) -> (r: [u8; N])
    requires
        o + N <= b@.len(),
    ensures
        r@ == b@.subrange(o as int, o + N),
{
    let _n = b.len();
    let mut r = [0u8; N];
    let mut i: usize = 0;
    while i < N
        invariant
            o + N <= b@.len(),
            b@.len() <= usize::MAX,
            i <= N,
            r@.len() == N,
            forall|j: int| 0 <= j < i ==> r@[j] == b@[o + j],
        decreases N - i,
    {
        r[i] = b[o + i];
        i = i + 1;
    }
    assert(r@ =~= b@.subrange(o as int, o + N));
    r
}

/// Appends bytes.
pub fn push_bytes(out: &mut Vec<u8>, b: &[u8])
    ensures
        final(out)@ == old(out)@ + b@,
        forall|k: int| 0 <= k < old(out)@.len() ==> #[trigger] final(out)@[k] == old(out)@[k],
        forall|k: int| 0 <= k < b@.len() ==> #[trigger] final(out)@[old(out)@.len() + k] == b@[k],
{
    let ghost start = out@;
    let mut i: usize = 0;
    while i < b.len()
        invariant
            i <= b@.len(),
            out@ == start + b@.subrange(0, i as int),
        decreases b@.len() - i,
    {
        out.push(b[i]);
        assert(b@.subrange(0, i + 1) =~= b@.subrange(0, i as int).push(b@[i as int]));
        i = i + 1;
    }
    assert(b@.subrange(0, i as int) =~= b@);
}

/// Equal 16-bit numbers have equal bytes.
pub proof fn lemma_le16_bytes(s: Seq<u8>, t: Seq<u8>, o: int)
    requires
        0 <= o,
        o + 2 <= s.len(),
        o + 2 <= t.len(),
        le16(s, o) == le16(t, o),
    ensures
        s[o] == t[o],
        s[o + 1] == t[o + 1],
{
}

/// Equal 32-bit numbers have equal bytes.
pub proof fn lemma_le32_bytes(s: Seq<u8>, t: Seq<u8>, o: int)
    requires
        0 <= o,
        o + 4 <= s.len(),
        o + 4 <= t.len(),
        le32(s, o) == le32(t, o),
    ensures
        forall|k: int| o <= k < o + 4 ==> #[trigger] s[k] == t[k],
{
    lemma_le16_bytes(s, t, o);
    lemma_le16_bytes(s, t, o + 2);
}

/// Equal 64-bit numbers have equal bytes.
pub proof fn lemma_le64_bytes(s: Seq<u8>, t: Seq<u8>, o: int)
    requires
        0 <= o,
        o + 8 <= s.len(),
        o + 8 <= t.len(),
        le64(s, o) == le64(t, o),
    ensures
        forall|k: int| o <= k < o + 8 ==> #[trigger] s[k] == t[k],
{
    lemma_le32_range(s, o);
    lemma_le32_range(s, o + 4);
    lemma_le32_range(t, o);
    lemma_le32_range(t, o + 4);
    let a = le32(s, o);
    let b = le32(s, o + 4);
    let c = le32(t, o);
    let d = le32(t, o + 4);
    assert(a == c && b == d) by (nonlinear_arith)
        requires
            0 <= a < 0x1_0000_0000,
            0 <= b < 0x1_0000_0000,
            0 <= c < 0x1_0000_0000,
            0 <= d < 0x1_0000_0000,
            a + b * 0x1_0000_0000 == c + d * 0x1_0000_0000,
    ;
    lemma_le32_bytes(s, t, o);
    lemma_le32_bytes(s, t, o + 4);
}

/// A 32-bit little-endian number is below 2^32.
pub proof fn lemma_le32_range(s: Seq<u8>, o: int)
    requires
        0 <= o,
        o + 4 <= s.len(),
    ensures
        0 <= le32(s, o) < 0x1_0000_0000,
{
}

} // verus!
