//! What the second stage loads from disk, and the block moves that copy the kernel above 1 MiB.
use vstd::prelude::*;
use crate::bytes::{le64, push_u64};
use crate::descriptor::{
    make_desc, descriptor_value, descriptor_base, descriptor_limit, descriptor_access,
    lemma_descriptor_fields,
};
use crate::disk::{NEXT_STAGE_RAM, STAGE2_SECTORS};
use crate::paging::{PML4_ADDR, PD3_ADDR};

verus! {

/// Where the third stage is loaded (segment 0).
pub const STAGE3_RAM: u16 = 0xFE00;
/// First sector of the third stage.
pub const STAGE3_LBA: u64 = 3072;
/// Segment where the fourth stage is loaded.
pub const STAGE4_RAM_SEG: u16 = 0x1000;
/// Offset where the fourth stage is loaded.
pub const STAGE4_RAM_OFF: u16 = 0x7E00;
/// First sector of the fourth stage.
pub const STAGE4_LBA: u64 = 5120;
/// Sectors read for the third and for the fourth stage.
pub const STAGE_SECTORS: u16 = 32;
/// First sector of the kernel.
pub const KERNEL_LBA: u64 = 6144;
/// Physical address the kernel is copied to.
pub const KERNEL_TARGET: u32 = 0x100000;
/// Sectors read per chunk of the kernel.
pub const SECTORS_PER_CHUNK: u16 = 64;
/// Sectors of the kernel image (8 MiB).
pub const KERNEL_SECTORS: u64 = 16384;
/// Number of chunks.
pub const KERNEL_CHUNKS: usize = 256;
/// Segment of the buffer below 1 MiB each chunk is read into.
pub const BOUNCE_SEGMENT: u16 = 0x8000;
/// Physical address of that buffer.
pub const BOUNCE_ADDR: u32 = 0x80000;
/// 16-bit words moved per chunk (32 KiB).
pub const WORDS_PER_CHUNK: u16 = 0x4000;
/// Segment limit of both descriptors of a block move.
pub const MOVE_LIMIT: u16 = 0xFFFF;

/// One BIOS disk read: `sectors` sectors from `lba` to `segment:offset`.
#[derive(Clone, Copy, Debug, PartialEq, Eq, Structural)]
pub struct DiskRead {
    pub segment: u16,
    pub offset: u16,
    pub lba: u64,
    pub sectors: u16,
}

/// One step of loading the kernel: read a chunk into the buffer, then move `words` words from
/// `source` to `dest`.
#[derive(Clone, Copy, Debug, PartialEq, Eq, Structural)]
pub struct KernelChunk {
    pub read: DiskRead,
    pub source: u32,
    pub dest: u32,
    pub words: u16,
}

/// The table the BIOS block move (int 0x15, AH = 0x87) reads: two null descriptors, the
/// source and destination descriptors, and two descriptors the BIOS fills in.
#[derive(Clone, Copy, Debug, PartialEq, Eq, Structural)]
pub struct MoveGdt {
    pub null1: u64,
    pub null2: u64,
    pub source: u64,
    pub dest: u64,
    pub null3: u64,
    pub null4: u64,
}

/// A block move request: the table, and the word count that goes in CX.
#[derive(Clone, Copy, Debug, PartialEq, Eq, Structural)]
pub struct BlockMove {
    pub gdt: MoveGdt,
    pub words: u16,
}

/// Chunk `i` of the kernel: sectors `KERNEL_LBA + 64 i ..` read to 8000:0000, then moved to
/// `KERNEL_TARGET + 32 KiB * i`.
pub open spec fn kernel_chunk(i: int) -> KernelChunk {
    KernelChunk {
        read: DiskRead {
            segment: BOUNCE_SEGMENT,
            offset: 0,
            lba: (KERNEL_LBA + i * SECTORS_PER_CHUNK) as u64,
            sectors: SECTORS_PER_CHUNK,
        },
        source: BOUNCE_ADDR,
        dest: (KERNEL_TARGET + i * 0x8000) as u32,
        words: WORDS_PER_CHUNK,
    }
}

/// A chunk moves the bytes its disk read just wrote, all of them, to the place in memory that
/// mirrors their place on disk: the move starts at the real-mode address the read wrote to, it
/// moves as many bytes as the read brought in, and disk sector `KERNEL_LBA + n` lands at
/// `KERNEL_TARGET + 512 n`.
pub open spec fn moves_what_it_read(c: KernelChunk) -> bool {
    &&& c.source as int == c.read.segment as int * 16 + c.read.offset as int
    &&& c.words as int * 2 == c.read.sectors as int * 512
    &&& c.dest as int == KERNEL_TARGET as int + (c.read.lba as int - KERNEL_LBA as int) * 512
}

/// Every chunk of the kernel moves exactly what its read brought into the buffer, from where
/// the read put it, to the kernel's place for those sectors.
pub proof fn lemma_chunk_moves_what_it_read(i: int)
    requires
        0 <= i < KERNEL_CHUNKS,
    ensures
        moves_what_it_read(kernel_chunk(i)),
{
}

/// The two reads that load the third and fourth stages, in order.
pub fn stage_reads() -> (reads: Vec<DiskRead>)
    ensures
        reads@ == seq![
            DiskRead { segment: 0, offset: STAGE3_RAM, lba: STAGE3_LBA, sectors: STAGE_SECTORS },
            DiskRead {
                segment: STAGE4_RAM_SEG,
                offset: STAGE4_RAM_OFF,
                lba: STAGE4_LBA,
                sectors: STAGE_SECTORS,
            },
        ],
{
    let mut reads: Vec<DiskRead> = Vec::new();
    reads.push(DiskRead { segment: 0, offset: STAGE3_RAM, lba: STAGE3_LBA, sectors: STAGE_SECTORS });
    reads.push(
        DiskRead {
            segment: STAGE4_RAM_SEG,
            offset: STAGE4_RAM_OFF,
            lba: STAGE4_LBA,
            sectors: STAGE_SECTORS,
        },
    );
    reads
}

/// The steps that load the 8 MiB kernel: 256 chunks of 64 sectors, each read below 1 MiB and
/// moved to its place above 1 MiB.
pub fn load_kernel() -> (chunks: Vec<KernelChunk>)
    ensures
        chunks@.len() == KERNEL_CHUNKS,
        forall|i: int| 0 <= i < KERNEL_CHUNKS ==> #[trigger] chunks@[i] == kernel_chunk(i),
        forall|i: int|
            0 <= i < KERNEL_CHUNKS ==> moves_what_it_read(#[trigger] chunks@[i]),
{
    proof {
        assert forall|i: int| 0 <= i < KERNEL_CHUNKS implies moves_what_it_read(
            #[trigger] kernel_chunk(i),
        ) by {
            lemma_chunk_moves_what_it_read(i);
        }
    }
    let sectors_per_chunk: u32 = 64;
    let bytes_per_chunk: u32 = sectors_per_chunk * 512;
    let total_sectors: u32 = 16384;
    let chunk_count: u32 = total_sectors / sectors_per_chunk;
    let mut chunks: Vec<KernelChunk> = Vec::new();
    let mut i: u32 = 0;
    while i < chunk_count
        invariant
            sectors_per_chunk == 64,
            bytes_per_chunk == 0x8000,
            chunk_count == 256,
            i <= chunk_count,
            chunks@.len() == i,
            forall|k: int| 0 <= k < i ==> #[trigger] chunks@[k] == kernel_chunk(k),
        decreases chunk_count - i,
    {
        let lba = KERNEL_LBA + (i as u64 * sectors_per_chunk as u64);
        let target = KERNEL_TARGET + (i * bytes_per_chunk);
        chunks.push(
            KernelChunk {
                read: DiskRead {
                    segment: BOUNCE_SEGMENT,
                    offset: 0,
                    lba,
                    sectors: sectors_per_chunk as u16,
                },
                source: BOUNCE_ADDR,
                dest: target,
                words: WORDS_PER_CHUNK,
            },
        );
        i = i + 1;
    }
    chunks
}

/// The block move of `words` 16-bit words from physical address `source` to `dest`.
pub fn move_memory_block(source: u32, dest: u32, words: u16) -> (m: BlockMove)
    ensures
        m.words == words,
        m.gdt.null1 == 0 && m.gdt.null2 == 0 && m.gdt.null3 == 0 && m.gdt.null4 == 0,
        m.gdt.source as int == descriptor_value(source as int, MOVE_LIMIT as int),
        m.gdt.dest as int == descriptor_value(dest as int, MOVE_LIMIT as int),
        descriptor_base(m.gdt.source) == source as int,
        descriptor_base(m.gdt.dest) == dest as int,
        descriptor_limit(m.gdt.source) == 0xFFFF && descriptor_limit(m.gdt.dest) == 0xFFFF,
        descriptor_access(m.gdt.source) == 0x93 && descriptor_access(m.gdt.dest) == 0x93,
{
    let gdt = MoveGdt {
        null1: 0,
        null2: 0,
        source: make_desc(source, MOVE_LIMIT),
        dest: make_desc(dest, MOVE_LIMIT),
        null3: 0,
        null4: 0,
    };
    proof {
        lemma_descriptor_fields(source, MOVE_LIMIT, gdt.source);
        lemma_descriptor_fields(dest, MOVE_LIMIT, gdt.dest);
    }
    BlockMove { gdt, words }
}

/// `s` is the image of the table: six little-endian 64-bit descriptors in field order.
pub open spec fn move_gdt_layout(g: MoveGdt, s: Seq<u8>) -> bool {
    &&& s.len() == 48
    &&& le64(s, 0) == g.null1 as int
    &&& le64(s, 8) == g.null2 as int
    &&& le64(s, 16) == g.source as int
    &&& le64(s, 24) == g.dest as int
    &&& le64(s, 32) == g.null3 as int
    &&& le64(s, 40) == g.null4 as int
}

impl MoveGdt {
    /// The 48 bytes the BIOS reads.
    pub fn to_bytes(&self) -> (out: Vec<u8>)
        ensures
            move_gdt_layout(*self, out@),
    {
        let mut out: Vec<u8> = Vec::new();
        push_u64(&mut out, self.null1);
        push_u64(&mut out, self.null2);
        push_u64(&mut out, self.source);
        push_u64(&mut out, self.dest);
        push_u64(&mut out, self.null3);
        push_u64(&mut out, self.null4);
        out
    }
}

/// The chunks of the kernel tile it: each moves exactly the bytes it read, the sectors of
/// chunk `i + 1` follow those of chunk `i` on disk and its destination follows in memory, and
/// together they cover the 16384 sectors from `KERNEL_LBA` and the 8 MiB from `KERNEL_TARGET`.
pub proof fn lemma_kernel_chunks_tile(i: int)
    requires
        0 <= i < KERNEL_CHUNKS,
    ensures
        kernel_chunk(i).words * 2 == kernel_chunk(i).read.sectors * 512,
        i + 1 < KERNEL_CHUNKS ==> kernel_chunk(i + 1).read.lba == kernel_chunk(i).read.lba
            + kernel_chunk(i).read.sectors,
        i + 1 < KERNEL_CHUNKS ==> kernel_chunk(i + 1).dest == kernel_chunk(i).dest
            + kernel_chunk(i).words * 2,
        kernel_chunk(0).read.lba == KERNEL_LBA,
        kernel_chunk(0).dest == KERNEL_TARGET,
        kernel_chunk(KERNEL_CHUNKS - 1).read.lba + SECTORS_PER_CHUNK == KERNEL_LBA
            + KERNEL_SECTORS,
        kernel_chunk(KERNEL_CHUNKS - 1).dest + WORDS_PER_CHUNK * 2 == KERNEL_TARGET
            + KERNEL_SECTORS * 512,
{
}

/// Physical address of `segment:offset` in real mode.
pub open spec fn real_address(segment: u16, offset: u16) -> int {
    segment * 16 + offset
}

/// The half-open byte ranges `[a, a + n)` and `[b, b + m)` do not meet.
pub open spec fn disjoint(a: int, n: int, b: int, m: int) -> bool {
    a + n <= b || b + m <= a
}

/// Top of the stack the later stages and the kernel start with.
pub const STACK_ADDRESS: u64 = 0xA00000;

/// Where the third stage jumps to enter the fourth.
pub const STAGE4_ENTRY: u64 = 0x1_7e00;

/// Where the third (in 32-bit mode) or the fourth stage calls the kernel.
pub const KERNEL_ENTRY: u32 = 0x10_0000;

/// Every jump lands on code that was loaded there: the first stage jumps to where it read the
/// second, the second to where it read the third, the third to where the second read the
/// fourth, and the last stage calls the kernel where its first chunk was moved. The kernel
/// stack is the one the task state segment names.
pub proof fn lemma_jumps_land_on_loaded_code()
    ensures
        STAGE4_ENTRY == real_address(STAGE4_RAM_SEG, STAGE4_RAM_OFF),
        KERNEL_ENTRY == kernel_chunk(0).dest,
        STACK_ADDRESS == crate::tss::INITIAL_RSP0,
{
}

/// What the stages load lies in separate places: the second, third and fourth stages, the
/// buffer the kernel passes through, the page tables the third stage builds at 0x20000, and
/// the kernel, which ends below the initial stack top.
pub proof fn lemma_load_regions_disjoint()
    ensures
        ({
            let stage2 = real_address(0, NEXT_STAGE_RAM);
            let stage2_len = STAGE2_SECTORS * 512;
            let stage3 = real_address(0, STAGE3_RAM);
            let stage4 = real_address(STAGE4_RAM_SEG, STAGE4_RAM_OFF);
            let stage_len = STAGE_SECTORS * 512;
            let bounce = real_address(BOUNCE_SEGMENT, 0);
            let bounce_len = WORDS_PER_CHUNK * 2;
            let tables = PML4_ADDR as int;
            let tables_len = PD3_ADDR + 0x1000 - PML4_ADDR;
            let kernel = KERNEL_TARGET as int;
            let kernel_len = KERNEL_SECTORS * 512;
            &&& bounce == BOUNCE_ADDR
            &&& disjoint(stage2, stage2_len, stage3, stage_len)
            &&& disjoint(stage2, stage2_len, stage4, stage_len)
            &&& disjoint(stage3, stage_len, stage4, stage_len)
            &&& disjoint(stage3, stage_len, tables, tables_len)
            &&& disjoint(stage4, stage_len, tables, tables_len)
            &&& disjoint(bounce, bounce_len, stage2, stage2_len)
            &&& disjoint(bounce, bounce_len, stage3, stage_len)
            &&& disjoint(bounce, bounce_len, stage4, stage_len)
            &&& disjoint(bounce, bounce_len, tables, tables_len)
            &&& disjoint(bounce, bounce_len, kernel, kernel_len)
            &&& disjoint(kernel, kernel_len, tables, tables_len)
            &&& kernel + kernel_len <= STACK_ADDRESS
        }),
{
}

/// Size in bytes of field `k` of `MoveGdt`, in declaration order.
pub open spec fn move_gdt_field_size(k: int) -> int {
    if k == 0 {
        8
    } else     if k == 1 {
        8
    } else     if k == 2 {
        8
    } else     if k == 3 {
        8
    } else     if k == 4 {
        8
    } else     if k == 5 {
        8
    } else {
        0
    }
}

/// Offset of field `k` of `MoveGdt` when the fields are packed in declaration order:
/// the sum of the sizes of the fields declared before it.
pub open spec fn move_gdt_offset(k: nat) -> int
    decreases k,
{
    if k == 0 {
        0
    } else {
        move_gdt_offset((k - 1) as nat) + move_gdt_field_size(k - 1)
    }
}

/// The table is laid out packed, in the order its descriptors are declared: each starts where
/// the one declared before it ends, and the table takes 48 bytes.
pub proof fn lemma_move_gdt_packed(g: MoveGdt, s: Seq<u8>)
    requires
        move_gdt_layout(g, s),
    ensures
        le64(s, move_gdt_offset(0)) == g.null1 as int,
        le64(s, move_gdt_offset(1)) == g.null2 as int,
        le64(s, move_gdt_offset(2)) == g.source as int,
        le64(s, move_gdt_offset(3)) == g.dest as int,
        le64(s, move_gdt_offset(4)) == g.null3 as int,
        le64(s, move_gdt_offset(5)) == g.null4 as int,
        move_gdt_offset(6) == 48,
{
    assert(move_gdt_offset(0) == 0);
    assert(move_gdt_offset(1) == 8);
    assert(move_gdt_offset(2) == 16);
    assert(move_gdt_offset(3) == 24);
    assert(move_gdt_offset(4) == 32);
    assert(move_gdt_offset(5) == 40);
    assert(move_gdt_offset(6) == 48);
}

} // verus!
