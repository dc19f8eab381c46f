//! The ACPI root system description pointer, and the search for it in the BIOS area.
use vstd::prelude::*;
use crate::bytes::{le32, read_u32, copy_bytes, push_bytes, push_u32, lemma_le32_bytes};

verus! {

broadcast use vstd::array::group_array_axioms;

/// First address searched.
pub const RSDP_SEARCH_START: u32 = 0xE0000;
/// Last address searched.
pub const RSDP_SEARCH_END: u32 = 0xFFFFF;
/// The search looks at every 16-byte boundary.
pub const RSDP_ALIGN: usize = 16;
/// Offset from the search start of the last place looked at.
pub const RSDP_LAST_OFFSET: usize = 0x1FFF0;
/// Size in bytes of the pointer structure the loader reads.
pub const RSDP_SIZE: usize = 20;
/// Bytes of memory from the search start that the search may read.
pub const RSDP_AREA_SIZE: usize = 0x20004;

/// The root system description pointer (ACPI 1.0 part).
#[derive(Clone, Copy, Debug)]
pub struct Rsdp {
    pub signature: [u8; 8],
    pub checksum: u8,
    pub oem_id: [u8; 6],
    pub revision: u8,
    pub rsdt_address: u32,
}

/// The signature "RSD PTR ".
pub open spec fn rsdp_signature() -> Seq<u8> {
    seq![0x52u8, 0x53, 0x44, 0x20, 0x50, 0x54, 0x52, 0x20]
}

/// The bytes at offset `o` start with the signature.
pub open spec fn signature_at(s: Seq<u8>, o: int) -> bool {
    s.subrange(o, o + 8) == rsdp_signature()
}

/// `r` is the pointer laid out in `s` from offset `o`, packed, little-endian.
pub open spec fn rsdp_layout(r: Rsdp, s: Seq<u8>, o: int) -> bool {
    &&& r.signature@ == s.subrange(o, o + 8)
    &&& r.checksum == s[o + 8]
    &&& r.oem_id@ == s.subrange(o + 9, o + 15)
    &&& r.revision == s[o + 15]
    &&& r.rsdt_address as int == le32(s, o + 16)
}

/// The pointer with every field zero: what the search gives when it finds nothing.
pub open spec fn rsdp_is_zero(r: Rsdp) -> bool {
    &&& r.signature@ == seq![0u8; 8]
    &&& r.checksum == 0
    &&& r.oem_id@ == seq![0u8; 6]
    &&& r.revision == 0
    &&& r.rsdt_address == 0
}

/// The offset of the first 16-byte boundary up to `RSDP_LAST_OFFSET` where the signature
/// stands, if any.
pub open spec fn first_signature_offset(area: Seq<u8>, o: int) -> bool {
    &&& 0 <= o <= RSDP_LAST_OFFSET
    &&& o % 16 == 0
    &&& signature_at(area, o)
    &&& forall|p: int| 0 <= p < o && p % 16 == 0 ==> !#[trigger] signature_at(area, p)
}

/// No 16-byte boundary up to `RSDP_LAST_OFFSET` holds the signature.
pub open spec fn no_signature(area: Seq<u8>) -> bool {
    forall|p: int| 0 <= p <= RSDP_LAST_OFFSET && p % 16 == 0 ==> !#[trigger] signature_at(area, p)
}

impl Rsdp {
    /// Reads the pointer laid out in `b` from offset `o`.
    pub fn from_bytes(b: &[u8], o: usize) -> (r: Self)
        requires
            o + RSDP_SIZE <= b@.len(),
        ensures
            rsdp_layout(r, b@, o as int),
    {
        let _n = b.len();
        Rsdp {
            signature: copy_bytes::<8>(b, o),
            checksum: b[o + 8],
            oem_id: copy_bytes::<6>(b, o + 9),
            revision: b[o + 15],
            rsdt_address: read_u32(b, o + 16),
        }
    }

    /// The 20 bytes of the pointer.
    pub fn to_bytes(&self) -> (out: Vec<u8>)
        ensures
            out@.len() == RSDP_SIZE,
            rsdp_layout(*self, out@, 0),
    {
        let mut out: Vec<u8> = Vec::new();
        push_bytes(&mut out, self.signature.as_slice());
        out.push(self.checksum);
        push_bytes(&mut out, self.oem_id.as_slice());
        out.push(self.revision);
        push_u32(&mut out, self.rsdt_address);
        assert(out@.subrange(0, 8) =~= self.signature@);
        assert(out@.subrange(9, 15) =~= self.oem_id@);
        out
    }

    /// The pointer with every field zero.
    pub fn zeroed() -> (r: Self)
        ensures
            rsdp_is_zero(r),
    {
        let r = Rsdp { signature: [0u8; 8], checksum: 0, oem_id: [0u8; 6], revision: 0, rsdt_address: 0 };
        assert(r.signature@ =~= seq![0u8; 8]);
        assert(r.oem_id@ =~= seq![0u8; 6]);
        r
    }
}

/// Whether the signature stands at offset `o`.
fn has_signature(area: &[u8], o: usize) -> (found: bool)
    requires
        o + 8 <= area@.len(),
    ensures
        found == signature_at(area@, o as int),
{
    let _n = area.len();
    let sig: [u8; 8] = [0x52, 0x53, 0x44, 0x20, 0x50, 0x54, 0x52, 0x20];
    let mut k: usize = 0;
    while k < 8
        invariant
            o + 8 <= area@.len(),
            area@.len() <= usize::MAX,
            k <= 8,
            sig@ == rsdp_signature(),
            forall|j: int| 0 <= j < k ==> area@[o + j] == sig@[j],
        decreases 8 - k,
    {
        if area[o + k] != sig[k] {
            assert(area@.subrange(o as int, o + 8)[k as int] != rsdp_signature()[k as int]);
            return false;
        }
        k = k + 1;
    }
    assert(area@.subrange(o as int, o + 8) =~= rsdp_signature());
    true
}

/// The offset from the search start of the first 16-byte boundary whose bytes start with the
/// signature, looking no further than `RSDP_LAST_OFFSET`.
pub fn find_rsdp_offset(area: &[u8]) -> (found: Option<usize>)
    requires
        area@.len() >= RSDP_AREA_SIZE,
    ensures
        match found {
            Some(o) => first_signature_offset(area@, o as int),
            None => no_signature(area@),
        },
{
    let mut o: usize = 0;
    while o <= RSDP_LAST_OFFSET
        invariant
            area@.len() >= RSDP_AREA_SIZE,
            o % 16 == 0,
            o <= RSDP_LAST_OFFSET + 16,
            forall|p: int| 0 <= p < o && p % 16 == 0 ==> !#[trigger] signature_at(area@, p),
        decreases RSDP_LAST_OFFSET + 16 - o,
    {
        if has_signature(area, o) {
            return Some(o);
        }
        o = o + RSDP_ALIGN;
    }
    None
}

/// Searches the BIOS area for the root system description pointer. `area` is the memory from
/// `RSDP_SEARCH_START`. The result is the pointer at the first 16-byte boundary that starts
/// with "RSD PTR ", or all zeros when there is none.
pub fn get_rsdp(area: &[u8]) -> (r: Rsdp)
    requires
        area@.len() >= RSDP_AREA_SIZE,
    ensures
        (exists|o: int| first_signature_offset(area@, o) && rsdp_layout(r, area@, o))
            || (no_signature(area@) && rsdp_is_zero(r)),
{
    match find_rsdp_offset(area) {
        Some(o) => Rsdp::from_bytes(area, o),
        None => Rsdp::zeroed(),
    }
}

/// What the search gives, said over the BIOS area from 0xE0000: when some paragraph (16-byte
/// boundary) up to 0xFFFF0 starts with the bytes "RSD PTR ", the pointer read at the first such
/// paragraph, whose signature is those bytes; otherwise a pointer of zeros, and no paragraph up
/// to 0xFFFF0 starts with them.
pub proof fn lemma_rsdp_search_result(area: Seq<u8>, r: Rsdp)
    requires
        area.len() >= RSDP_AREA_SIZE,
        (exists|o: int| first_signature_offset(area, o) && rsdp_layout(r, area, o)) || (
        no_signature(area) && rsdp_is_zero(r)),
    ensures
        (exists|o: int|
            {
                &&& 0 <= o <= 0xFFFF0 - 0xE0000
                &&& o % 16 == 0
                &&& #[trigger] area.subrange(o, o + 8) == seq![0x52u8, 0x53, 0x44, 0x20, 0x50, 0x54, 0x52, 0x20]
                &&& r.signature@ == seq![0x52u8, 0x53, 0x44, 0x20, 0x50, 0x54, 0x52, 0x20]
                &&& r.rsdt_address as int == le32(area, o + 16)
                &&& forall|p: int|
                    0 <= p < o && p % 16 == 0 ==> #[trigger] area.subrange(p, p + 8) != seq![
                        0x52u8,
                        0x53,
                        0x44,
                        0x20,
                        0x50,
                        0x54,
                        0x52,
                        0x20,
                    ]
            }) || ({
            &&& forall|p: int|
                0 <= p <= 0xFFFF0 - 0xE0000 && p % 16 == 0 ==> #[trigger] area.subrange(p, p + 8)
                    != seq![0x52u8, 0x53, 0x44, 0x20, 0x50, 0x54, 0x52, 0x20]
            &&& r.signature@ == seq![0u8; 8]
            &&& r.rsdt_address == 0
        }),
{
    if exists|o: int| first_signature_offset(area, o) && rsdp_layout(r, area, o) {
        let o = choose|o: int| first_signature_offset(area, o) && rsdp_layout(r, area, o);
        assert forall|p: int| 0 <= p < o && p % 16 == 0 implies #[trigger] area.subrange(p, p + 8)
            != seq![0x52u8, 0x53, 0x44, 0x20, 0x50, 0x54, 0x52, 0x20] by {
            assert(!signature_at(area, p));
        }
    } else {
        assert forall|p: int| 0 <= p <= 0xFFFF0 - 0xE0000 && p % 16 == 0 implies #[trigger] area.subrange(
            p,
            p + 8,
        ) != seq![0x52u8, 0x53, 0x44, 0x20, 0x50, 0x54, 0x52, 0x20] by {
            assert(!signature_at(area, p));
        }
    }
}

/// There is at most one first place of the signature, so the search result is determined by
/// the area.
pub proof fn lemma_first_signature_unique(area: Seq<u8>, o1: int, o2: int)
    requires
        first_signature_offset(area, o1),
        first_signature_offset(area, o2),
    ensures
        o1 == o2,
{
    if o1 < o2 {
        assert(!signature_at(area, o1));
    } else if o2 < o1 {
        assert(!signature_at(area, o2));
    }
}

/// The bytes determine the pointer: two pointers laid out at the same place are equal.
pub proof fn lemma_rsdp_layout_unique(a: Rsdp, b: Rsdp, s: Seq<u8>, o: int)
    requires
        rsdp_layout(a, s, o),
        rsdp_layout(b, s, o),
    ensures
        a == b,
{
    assert(a.signature =~= b.signature);
    assert(a.oem_id =~= b.oem_id);
}

/// A pointer has one image: the bytes laid out for the same pointer are equal.
pub proof fn lemma_rsdp_bytes(r: Rsdp, s: Seq<u8>, t: Seq<u8>, o: int)
    requires
        0 <= o,
        o + 20 <= s.len(),
        o + 20 <= t.len(),
        rsdp_layout(r, s, o),
        rsdp_layout(r, t, o),
    ensures
        forall|k: int| o <= k < o + 20 ==> #[trigger] s[k] == t[k],
{
    lemma_le32_bytes(s, t, o + 16);
    assert forall|k: int| o <= k < o + 20 implies #[trigger] s[k] == t[k] by {
        if k < o + 8 {
            assert(s.subrange(o, o + 8)[k - o] == t.subrange(o, o + 8)[k - o]);
        } else if o + 9 <= k < o + 15 {
            assert(s.subrange(o + 9, o + 15)[k - o - 9] == t.subrange(o + 9, o + 15)[k - o - 9]);
        }
    }
}

/// Size in bytes of field `k` of `Rsdp`, in declaration order.
pub open spec fn rsdp_field_size(k: int) -> int {
    if k == 0 {
        8
    } else     if k == 1 {
        1
    } else     if k == 2 {
        6
    } else     if k == 3 {
        1
    } else     if k == 4 {
        4
    } else {
        0
    }
}

/// Offset of field `k` of `Rsdp` when the fields are packed in declaration order:
/// the sum of the sizes of the fields declared before it.
pub open spec fn rsdp_offset(k: nat) -> int
    decreases k,
{
    if k == 0 {
        0
    } else {
        rsdp_offset((k - 1) as nat) + rsdp_field_size(k - 1)
    }
}

/// The pointer is laid out packed, in the order its fields are declared: each field starts
/// where the one declared before it ends, and the pointer takes 20 bytes.
pub proof fn lemma_rsdp_packed(r: Rsdp, s: Seq<u8>)
    requires
        rsdp_layout(r, s, 0),
    ensures
        r.signature@ == s.subrange(rsdp_offset(0), rsdp_offset(0) + rsdp_field_size(0)),
        s[rsdp_offset(1)] == r.checksum,
        r.oem_id@ == s.subrange(rsdp_offset(2), rsdp_offset(2) + rsdp_field_size(2)),
        s[rsdp_offset(3)] == r.revision,
        le32(s, rsdp_offset(4)) == r.rsdt_address as int,
        rsdp_offset(5) == RSDP_SIZE,
{
    assert(rsdp_offset(0) == 0);
    assert(rsdp_offset(1) == 8);
    assert(rsdp_offset(2) == 9);
    assert(rsdp_offset(3) == 15);
    assert(rsdp_offset(4) == 16);
    assert(rsdp_offset(5) == 20);
}

} // verus!
