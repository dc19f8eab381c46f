//! VESA BIOS Extensions: the controller and mode information blocks, and the choice of the
//! graphics mode the loader switches to.
use vstd::prelude::*;
use crate::paging::{PagingTables, boot_identity_tables, page_walk, lemma_identity_map};
use crate::bytes::{
    le16, le32, read_u16, read_u32, copy_bytes, push_bytes, push_u16, push_u32, lemma_le16_bytes,
    lemma_le32_bytes,
};

verus! {

broadcast use vstd::array::group_array_axioms;

/// Largest colour depth the loader accepts.
pub const MAX_BPP: u8 = 32;
/// Smallest colour depth the loader accepts.
pub const MIN_BPP: u8 = 24;
/// Largest width the loader accepts.
pub const MAX_WIDTH: u16 = 1024;
/// Smallest width the loader accepts.
pub const MIN_WIDTH: u16 = 0;
/// Largest height the loader accepts.
pub const MAX_HEIGHT: u16 = 800;
/// Smallest height the loader accepts.
pub const MIN_HEIGHT: u16 = 0;

/// Display mode: 0 keeps VGA text, anything else switches to a VBE graphics mode.
pub const MODE: u16 = 0x1;

/// The mode used when no VBE mode qualifies (VGA 320x200, 256 colours).
pub const FALLBACK_MODE: u16 = 0x0013;
/// The word that ends the list of mode numbers.
pub const MODE_LIST_END: u16 = 0xFFFF;
/// Mode attribute bit: a linear framebuffer is available.
pub const LINEAR_FRAMEBUFFER: u16 = 0x80;

/// Size in bytes of the controller information block.
pub const VBE_INFO_SIZE: usize = 512;
/// Size in bytes of the mode information block as the loader lays it out.
pub const VBE_MODE_INFO_SIZE: usize = 255;

/// The VBE controller information block (function 0x4F00).
#[derive(Clone, Copy)]
pub struct VbeInfoBlock {
    pub signature: [u8; 4],
    pub version: u16,
    pub oem: [u16; 2],
    pub dunno: [u8; 4],
    pub video_ptr: u32,
    pub memory_size: u16,
    pub reserved: [u8; 492],
}

/// The VBE mode information block (function 0x4F01).
#[derive(Clone, Copy)]
pub struct VbeModeInfoBlock {
    pub attributes: u16,
    pub window_a: u8,
    pub window_b: u8,
    pub granularity: u16,
    pub window_size: u16,
    pub segment_a: u16,
    pub segment_b: u16,
    pub win_func_ptr: u32,
    pub pitch: u16,
    pub width: u16,
    pub height: u16,
    pub w_char: u8,
    pub y_char: u8,
    pub planes: u8,
    pub bpp: u8,
    pub banks: u8,
    pub memory_model: u8,
    pub bank_size: u8,
    pub image_pages: u8,
    pub reserved0: u8,
    pub red_mask_size: u8,
    pub red_field_position: u8,
    pub green_mask_size: u8,
    pub green_field_position: u8,
    pub blue_mask_size: u8,
    pub blue_field_position: u8,
    pub reserved_mask_size: u8,
    pub reserved_field_position: u8,
    pub direct_color_mode_info: u8,
    pub framebuffer: u32,
    pub reserved1: u32,
    pub reserved2: u16,
    pub lin_bytes_per_scan_line: u16,
    pub bnk_image_pages: u8,
    pub lin_image_pages: u8,
    pub lin_red_mask_size: u8,
    pub lin_red_field_position: u8,
    pub lin_green_mask_size: u8,
    pub lin_green_field_position: u8,
    pub lin_blue_mask_size: u8,
    pub lin_blue_field_position: u8,
    pub lin_reserved_mask_size: u8,
    pub lin_reserved_field_position: u8,
    pub max_pixel_clock: u32,
    pub reserved3: [u8; 189],
}

/// `info` is the controller block laid out in the bytes `s`, packed, little-endian.
pub open spec fn vbe_info_layout(info: VbeInfoBlock, s: Seq<u8>) -> bool {
    &&& info.signature@ == s.subrange(0, 4)
    &&& info.version as int == le16(s, 4)
    &&& info.oem@[0] as int == le16(s, 6)
    &&& info.oem@[1] as int == le16(s, 8)
    &&& info.dunno@ == s.subrange(10, 14)
    &&& info.video_ptr as int == le32(s, 14)
    &&& info.memory_size as int == le16(s, 18)
    &&& info.reserved@ == s.subrange(20, 512)
}

/// `info` is the mode block laid out in the bytes `s`, packed, little-endian.
pub open spec fn vbe_mode_info_layout(info: VbeModeInfoBlock, s: Seq<u8>) -> bool {
    &&& info.attributes as int == le16(s, 0)
    &&& info.window_a == s[2]
    &&& info.window_b == s[3]
    &&& info.granularity as int == le16(s, 4)
    &&& info.window_size as int == le16(s, 6)
    &&& info.segment_a as int == le16(s, 8)
    &&& info.segment_b as int == le16(s, 10)
    &&& info.win_func_ptr as int == le32(s, 12)
    &&& info.pitch as int == le16(s, 16)
    &&& info.width as int == le16(s, 18)
    &&& info.height as int == le16(s, 20)
    &&& info.w_char == s[22]
    &&& info.y_char == s[23]
    &&& info.planes == s[24]
    &&& info.bpp == s[25]
    &&& info.banks == s[26]
    &&& info.memory_model == s[27]
    &&& info.bank_size == s[28]
    &&& info.image_pages == s[29]
    &&& info.reserved0 == s[30]
    &&& info.red_mask_size == s[31]
    &&& info.red_field_position == s[32]
    &&& info.green_mask_size == s[33]
    &&& info.green_field_position == s[34]
    &&& info.blue_mask_size == s[35]
    &&& info.blue_field_position == s[36]
    &&& info.reserved_mask_size == s[37]
    &&& info.reserved_field_position == s[38]
    &&& info.direct_color_mode_info == s[39]
    &&& info.framebuffer as int == le32(s, 40)
    &&& info.reserved1 as int == le32(s, 44)
    &&& info.reserved2 as int == le16(s, 48)
    &&& info.lin_bytes_per_scan_line as int == le16(s, 50)
    &&& info.bnk_image_pages == s[52]
    &&& info.lin_image_pages == s[53]
    &&& info.lin_red_mask_size == s[54]
    &&& info.lin_red_field_position == s[55]
    &&& info.lin_green_mask_size == s[56]
    &&& info.lin_green_field_position == s[57]
    &&& info.lin_blue_mask_size == s[58]
    &&& info.lin_blue_field_position == s[59]
    &&& info.lin_reserved_mask_size == s[60]
    &&& info.lin_reserved_field_position == s[61]
    &&& info.max_pixel_clock as int == le32(s, 62)
    &&& info.reserved3@ == s.subrange(66, 255)
}

impl VbeInfoBlock {
    /// Reads the controller block from the bytes the BIOS wrote.
    pub fn from_bytes(b: &[u8]) -> (info: Self)
        requires
            b@.len() >= VBE_INFO_SIZE,
        ensures
            vbe_info_layout(info, b@),
    {
        let signature = copy_bytes::<4>(b, 0);
        let version = read_u16(b, 4);
        let oem = [read_u16(b, 6), read_u16(b, 8)];
        let dunno = copy_bytes::<4>(b, 10);
        let video_ptr = read_u32(b, 14);
        let memory_size = read_u16(b, 18);
        let reserved = copy_bytes::<492>(b, 20);
        VbeInfoBlock { signature, version, oem, dunno, video_ptr, memory_size, reserved }
    }

    /// The 512 bytes of the block, laid out as the BIOS writes it.
    pub fn to_bytes(&self) -> (out: Vec<u8>)
        ensures
            out@.len() == VBE_INFO_SIZE,
            vbe_info_layout(*self, out@),
    {
        let mut out: Vec<u8> = Vec::new();
        push_bytes(&mut out, self.signature.as_slice());
        push_u16(&mut out, self.version);
        push_u16(&mut out, self.oem[0]);
        push_u16(&mut out, self.oem[1]);
        push_bytes(&mut out, self.dunno.as_slice());
        push_u32(&mut out, self.video_ptr);
        push_u16(&mut out, self.memory_size);
        push_bytes(&mut out, self.reserved.as_slice());
        assert(out@.subrange(0, 4) =~= self.signature@);
        assert(out@.subrange(10, 14) =~= self.dunno@);
        assert(out@.subrange(20, 512) =~= self.reserved@);
        out
    }
}

impl VbeModeInfoBlock {
    /// Reads the mode block from the bytes the BIOS wrote.
    pub fn from_bytes(b: &[u8]) -> (info: Self)
        requires
            b@.len() >= VBE_MODE_INFO_SIZE,
        ensures
            vbe_mode_info_layout(info, b@),
    {
        let attributes = read_u16(b, 0);
        let window_a = b[2];
        let window_b = b[3];
        let granularity = read_u16(b, 4);
        let window_size = read_u16(b, 6);
        let segment_a = read_u16(b, 8);
        let segment_b = read_u16(b, 10);
        let win_func_ptr = read_u32(b, 12);
        let pitch = read_u16(b, 16);
        let width = read_u16(b, 18);
        let height = read_u16(b, 20);
        let w_char = b[22];
        let y_char = b[23];
        let planes = b[24];
        let bpp = b[25];
        let banks = b[26];
        let memory_model = b[27];
        let bank_size = b[28];
        let image_pages = b[29];
        let reserved0 = b[30];
        let red_mask_size = b[31];
        let red_field_position = b[32];
        let green_mask_size = b[33];
        let green_field_position = b[34];
        let blue_mask_size = b[35];
        let blue_field_position = b[36];
        let reserved_mask_size = b[37];
        let reserved_field_position = b[38];
        let direct_color_mode_info = b[39];
        let framebuffer = read_u32(b, 40);
        let reserved1 = read_u32(b, 44);
        let reserved2 = read_u16(b, 48);
        let lin_bytes_per_scan_line = read_u16(b, 50);
        let bnk_image_pages = b[52];
        let lin_image_pages = b[53];
        let lin_red_mask_size = b[54];
        let lin_red_field_position = b[55];
        let lin_green_mask_size = b[56];
        let lin_green_field_position = b[57];
        let lin_blue_mask_size = b[58];
        let lin_blue_field_position = b[59];
        let lin_reserved_mask_size = b[60];
        let lin_reserved_field_position = b[61];
        let max_pixel_clock = read_u32(b, 62);
        let reserved3 = copy_bytes::<189>(b, 66);
        VbeModeInfoBlock { attributes, window_a, window_b, granularity, window_size, segment_a, segment_b, win_func_ptr, pitch, width, height, w_char, y_char, planes, bpp, banks, memory_model, bank_size, image_pages, reserved0, red_mask_size, red_field_position, green_mask_size, green_field_position, blue_mask_size, blue_field_position, reserved_mask_size, reserved_field_position, direct_color_mode_info, framebuffer, reserved1, reserved2, lin_bytes_per_scan_line, bnk_image_pages, lin_image_pages, lin_red_mask_size, lin_red_field_position, lin_green_mask_size, lin_green_field_position, lin_blue_mask_size, lin_blue_field_position, lin_reserved_mask_size, lin_reserved_field_position, max_pixel_clock, reserved3 }
    }

    /// The 255 bytes of the block, laid out as the BIOS writes it.
    pub fn to_bytes(&self) -> (out: Vec<u8>)
        ensures
            out@.len() == VBE_MODE_INFO_SIZE,
            vbe_mode_info_layout(*self, out@),
    {
        let mut out: Vec<u8> = Vec::new();
        push_u16(&mut out, self.attributes);
        out.push(self.window_a);
        out.push(self.window_b);
        push_u16(&mut out, self.granularity);
        push_u16(&mut out, self.window_size);
        push_u16(&mut out, self.segment_a);
        push_u16(&mut out, self.segment_b);
        push_u32(&mut out, self.win_func_ptr);
        push_u16(&mut out, self.pitch);
        push_u16(&mut out, self.width);
        push_u16(&mut out, self.height);
        out.push(self.w_char);
        out.push(self.y_char);
        out.push(self.planes);
        out.push(self.bpp);
        out.push(self.banks);
        out.push(self.memory_model);
        out.push(self.bank_size);
        out.push(self.image_pages);
        out.push(self.reserved0);
        out.push(self.red_mask_size);
        out.push(self.red_field_position);
        out.push(self.green_mask_size);
        out.push(self.green_field_position);
        out.push(self.blue_mask_size);
        out.push(self.blue_field_position);
        out.push(self.reserved_mask_size);
        out.push(self.reserved_field_position);
        out.push(self.direct_color_mode_info);
        push_u32(&mut out, self.framebuffer);
        push_u32(&mut out, self.reserved1);
        push_u16(&mut out, self.reserved2);
        push_u16(&mut out, self.lin_bytes_per_scan_line);
        out.push(self.bnk_image_pages);
        out.push(self.lin_image_pages);
        out.push(self.lin_red_mask_size);
        out.push(self.lin_red_field_position);
        out.push(self.lin_green_mask_size);
        out.push(self.lin_green_field_position);
        out.push(self.lin_blue_mask_size);
        out.push(self.lin_blue_field_position);
        out.push(self.lin_reserved_mask_size);
        out.push(self.lin_reserved_field_position);
        push_u32(&mut out, self.max_pixel_clock);
        push_bytes(&mut out, self.reserved3.as_slice());
        assert(out@.subrange(66, 255) =~= self.reserved3@);
        out
    }
}

/// A mode the loader may pick: 8:8:8 colour with red at bit 16, green at bit 8 and blue at
/// bit 0, a framebuffer address, a linear framebuffer, and size and depth within bounds.
pub open spec fn qualifies(info: VbeModeInfoBlock) -> bool {
    &&& info.red_field_position == 16
    &&& info.green_field_position == 8
    &&& info.blue_field_position == 0
    &&& info.framebuffer != 0
    &&& MIN_WIDTH <= info.width <= MAX_WIDTH
    &&& MIN_HEIGHT <= info.height <= MAX_HEIGHT
    &&& MIN_BPP <= info.bpp <= MAX_BPP
    &&& info.attributes & LINEAR_FRAMEBUFFER != 0
}

/// `(w, h, bpp)` is greater than `(bw, bh, bb)` in the order of width, then height, then depth.
pub open spec fn outranks(w: u16, h: u16, bpp: u8, bw: u16, bh: u16, bb: u8) -> bool {
    w > bw || (w == bw && h > bh) || (w == bw && h == bh && bpp > bb)
}

/// Mode `a` has a greater (width, height, depth) than mode `b`.
pub open spec fn outranks_mode(a: VbeModeInfoBlock, b: VbeModeInfoBlock) -> bool {
    outranks(a.width, a.height, a.bpp, b.width, b.height, b.bpp)
}

/// Mode `a` outranks the best choice so far; with no choice yet, the bar is all zeros.
pub open spec fn outranks_choice(a: VbeModeInfoBlock, infos: Seq<VbeModeInfoBlock>, best: Option<int>) -> bool {
    match best {
        None => outranks(a.width, a.height, a.bpp, 0, 0, 0),
        Some(j) => outranks_mode(a, infos[j]),
    }
}

/// The index of the mode the loader picks among `infos`, scanned in order: a qualifying mode
/// replaces the current choice when it outranks it.
pub open spec fn best_mode_index(infos: Seq<VbeModeInfoBlock>) -> Option<int>
    decreases infos.len(),
{
    if infos.len() == 0 {
        None
    } else {
        let prev = best_mode_index(infos.drop_last());
        let cur = infos.last();
        if qualifies(cur) && outranks_choice(cur, infos.drop_last(), prev) {
            Some(infos.len() - 1)
        } else {
            prev
        }
    }
}

/// The mode number the loader switches to: the number of the chosen mode, or the VGA
/// fallback when none qualifies.
pub open spec fn chosen_mode(modes: Seq<u16>, infos: Seq<VbeModeInfoBlock>) -> u16 {
    match best_mode_index(infos) {
        None => FALLBACK_MODE,
        Some(j) => modes[j],
    }
}

/// The index of the mode to switch to among the modes whose information blocks are `infos`,
/// in the order the controller lists them; `None` when no mode qualifies.
pub fn best_vbe_mode_index(infos: &[VbeModeInfoBlock]) -> (best: Option<usize>)
    ensures
        match best {
            None => best_mode_index(infos@) is None,
            Some(j) => best_mode_index(infos@) == Some(j as int),
        },
{
    let mut best: Option<usize> = None;
    let mut best_width: u16 = 0;
    let mut best_height: u16 = 0;
    let mut best_bpp: u8 = 0;
    let mut i: usize = 0;
    while i < infos.len()
        invariant
            i <= infos@.len(),
            match best {
                None => best_mode_index(infos@.subrange(0, i as int)) is None && best_width == 0
                    && best_height == 0 && best_bpp == 0,
                Some(j) => best_mode_index(infos@.subrange(0, i as int)) == Some(j as int) && j
                    < i && best_width == infos@[j as int].width && best_height
                    == infos@[j as int].height && best_bpp == infos@[j as int].bpp,
            },
        decreases infos@.len() - i,
    {
        let info = &infos[i];
        let mode_width = info.width;
        let mode_height = info.height;
        let mode_bpp = info.bpp;
        let ghost prefix = infos@.subrange(0, i as int);
        let ghost next = infos@.subrange(0, i + 1);
        assert(next.drop_last() =~= prefix);
        assert(next.last() == infos@[i as int]);
        proof {
            match best {
                None => {},
                Some(j) => {
                    assert(prefix[j as int] == infos@[j as int]);
                },
            }
        }
        if info.red_field_position == 16 && info.green_field_position == 8
            && info.blue_field_position == 0 && info.framebuffer != 0 {
            if mode_width >= MIN_WIDTH && mode_width <= MAX_WIDTH && mode_height >= MIN_HEIGHT
                && mode_height <= MAX_HEIGHT && mode_bpp >= MIN_BPP && mode_bpp <= MAX_BPP
                && (info.attributes & LINEAR_FRAMEBUFFER) != 0 && (mode_width > best_width || (
            mode_width == best_width && mode_height > best_height) || (mode_width == best_width
                && mode_height == best_height && mode_bpp > best_bpp)) {
                best = Some(i);
                best_width = mode_width;
                best_height = mode_height;
                best_bpp = mode_bpp;
            }
        }
        i = i + 1;
    }
    assert(infos@.subrange(0, i as int) =~= infos@);
    best
}

/// The number of the VBE mode to switch to, given the mode numbers the controller lists and
/// the information block of each: the widest qualifying mode, then the tallest, then the
/// deepest, the first of equals; the VGA fallback when none qualifies.
pub fn find_vbe_mode(modes: &[u16], infos: &[VbeModeInfoBlock]) -> (mode: u16)
    requires
        modes@.len() == infos@.len(),
    ensures
        mode == chosen_mode(modes@, infos@),
{
    proof {
        lemma_best_mode_is_first_maximum(infos@);
    }
    match best_vbe_mode_index(infos) {
        None => FALLBACK_MODE,
        Some(j) => modes[j],
    }
}

/// The mode numbers of the controller's list: the words before the first end marker, or all
/// of them when there is none.
pub fn mode_list(words: &[u16]) -> (modes: Vec<u16>)
    ensures
        modes@ == words@.subrange(0, modes@.len() as int),
        forall|i: int| 0 <= i < modes@.len() ==> #[trigger] modes@[i] != MODE_LIST_END,
        modes@.len() < words@.len() ==> words@[modes@.len() as int] == MODE_LIST_END,
{
    let mut modes: Vec<u16> = Vec::new();
    let mut i: usize = 0;
    while i < words.len()
        invariant
            i <= words@.len(),
            modes@ == words@.subrange(0, i as int),
            forall|k: int| 0 <= k < i ==> #[trigger] words@[k] != MODE_LIST_END,
        ensures
            i <= words@.len(),
            modes@ == words@.subrange(0, i as int),
            forall|k: int| 0 <= k < i ==> #[trigger] words@[k] != MODE_LIST_END,
            i < words@.len() ==> words@[i as int] == MODE_LIST_END,
        decreases words@.len() - i,
    {
        let mode = words[i];
        if mode == MODE_LIST_END {
            break;
        }
        modes.push(mode);
        assert(modes@ =~= words@.subrange(0, i + 1));
        i = i + 1;
    }
    modes
}

/// A mode that outranks `b` outranks every mode that does not outrank `b`.
proof fn lemma_outranks_above(a: VbeModeInfoBlock, b: VbeModeInfoBlock, c: VbeModeInfoBlock)
    requires
        outranks_mode(a, b),
        !outranks_mode(c, b),
    ensures
        outranks_mode(a, c),
{
}

/// The mode the loader switches to, compared field by field: it is an 8:8:8 mode with red at
/// bit 16, green at 8 and blue at 0, a framebuffer, a linear framebuffer, at most 1024x800 and
/// 24 to 32 bits deep; no such mode is wider, or as wide and taller, or as wide and as tall and
/// deeper; every such mode before it is narrower, or as wide and shorter, or as wide and as
/// tall and shallower; and the VGA fallback is taken exactly when no mode is such a mode.
pub proof fn lemma_chosen_mode_widest_then_tallest_then_deepest(
    modes: Seq<u16>,
    infos: Seq<VbeModeInfoBlock>,
)
    requires
        modes.len() == infos.len(),
    ensures
        match best_mode_index(infos) {
            None => {
                &&& chosen_mode(modes, infos) == 0x13
                &&& forall|i: int| 0 <= i < infos.len() ==> !(#[trigger] infos[i].red_field_position == 16 && #[trigger] infos[i].green_field_position == 8 && #[trigger] infos[i].blue_field_position == 0 && #[trigger] infos[i].framebuffer != 0 && #[trigger] infos[i].width <= 1024 && #[trigger] infos[i].height <= 800 && 24 <= #[trigger] infos[i].bpp <= 32 && #[trigger] infos[i].attributes & 0x80 != 0)
            },
            Some(j) => {
                &&& 0 <= j < infos.len()
                &&& chosen_mode(modes, infos) == modes[j]
                &&& (infos[j].red_field_position == 16 && infos[j].green_field_position == 8 && infos[j].blue_field_position == 0 && infos[j].framebuffer != 0 && infos[j].width <= 1024 && infos[j].height <= 800 && 24 <= infos[j].bpp <= 32 && infos[j].attributes & 0x80 != 0)
                &&& forall|i: int|
                    0 <= i < infos.len() && (#[trigger] infos[i].red_field_position == 16 && #[trigger] infos[i].green_field_position == 8 && #[trigger] infos[i].blue_field_position == 0 && #[trigger] infos[i].framebuffer != 0 && #[trigger] infos[i].width <= 1024 && #[trigger] infos[i].height <= 800 && 24 <= #[trigger] infos[i].bpp <= 32 && #[trigger] infos[i].attributes & 0x80 != 0) ==> !(infos[i].width
                        > infos[j].width || (infos[i].width == infos[j].width && infos[i].height
                        > infos[j].height) || (infos[i].width == infos[j].width && infos[i].height
                        == infos[j].height && infos[i].bpp > infos[j].bpp))
                &&& forall|i: int|
                    0 <= i < j && (#[trigger] infos[i].red_field_position == 16 && #[trigger] infos[i].green_field_position == 8 && #[trigger] infos[i].blue_field_position == 0 && #[trigger] infos[i].framebuffer != 0 && #[trigger] infos[i].width <= 1024 && #[trigger] infos[i].height <= 800 && 24 <= #[trigger] infos[i].bpp <= 32 && #[trigger] infos[i].attributes & 0x80 != 0) ==> (infos[i].width
                        < infos[j].width || (infos[i].width == infos[j].width && infos[i].height
                        < infos[j].height) || (infos[i].width == infos[j].width && infos[i].height
                        == infos[j].height && infos[i].bpp < infos[j].bpp))
            },
        },
{
    lemma_best_mode_is_first_maximum(infos);
    assert forall|i: int| 0 <= i < infos.len() implies qualifies(#[trigger] infos[i]) == (infos[i].red_field_position == 16 && infos[i].green_field_position == 8 && infos[i].blue_field_position == 0 && infos[i].framebuffer != 0 && infos[i].width <= 1024 && infos[i].height <= 800 && 24 <= infos[i].bpp <= 32 && infos[i].attributes & 0x80 != 0) by {}
}

/// The loader's choice is the first qualifying mode with the greatest (width, height, depth):
/// no qualifying mode outranks it, every qualifying mode before it ranks lower, and there is
/// no choice exactly when no mode qualifies.
pub proof fn lemma_best_mode_is_first_maximum(infos: Seq<VbeModeInfoBlock>)
    ensures
        match best_mode_index(infos) {
            None => forall|i: int| 0 <= i < infos.len() ==> !qualifies(#[trigger] infos[i]),
            Some(j) => {
                &&& 0 <= j < infos.len()
                &&& qualifies(infos[j])
                &&& forall|i: int|
                    0 <= i < infos.len() && qualifies(#[trigger] infos[i]) ==> !outranks_mode(
                        infos[i],
                        infos[j],
                    )
                &&& forall|i: int|
                    0 <= i < j && qualifies(#[trigger] infos[i]) ==> outranks_mode(infos[j], infos[i])
            },
        },
    decreases infos.len(),
{
    if infos.len() > 0 {
        let prefix = infos.drop_last();
        lemma_best_mode_is_first_maximum(prefix);
        let n = infos.len() - 1;
        let cur = infos[n];
        assert(infos.last() == cur);
        assert(forall|i: int| 0 <= i < n ==> #[trigger] prefix[i] == infos[i]);
        let prev = best_mode_index(prefix);
        if qualifies(cur) && outranks_choice(cur, prefix, prev) {
            assert(best_mode_index(infos) == Some(n));
            match prev {
                None => {
                    assert forall|i: int| 0 <= i < infos.len() && qualifies(
                        #[trigger] infos[i],
                    ) implies !outranks_mode(infos[i], infos[n]) by {
                        if i < n {
                            assert(!qualifies(prefix[i]));
                        }
                    }
                    assert forall|i: int| 0 <= i < n && qualifies(#[trigger] infos[i]) implies outranks_mode(
                        infos[n],
                        infos[i],
                    ) by {
                        assert(!qualifies(prefix[i]));
                    }
                },
                Some(j) => {
                    assert(prefix[j] == infos[j]);
                    assert forall|i: int| 0 <= i < infos.len() && qualifies(
                        #[trigger] infos[i],
                    ) implies !outranks_mode(infos[i], infos[n]) by {
                        if i < n {
                            assert(qualifies(prefix[i]));
                            assert(!outranks_mode(prefix[i], prefix[j]));
                        }
                    }
                    assert forall|i: int| 0 <= i < n && qualifies(#[trigger] infos[i]) implies outranks_mode(
                        infos[n],
                        infos[i],
                    ) by {
                        assert(qualifies(prefix[i]));
                        assert(!outranks_mode(prefix[i], prefix[j]));
                        lemma_outranks_above(infos[n], infos[j], infos[i]);
                    }
                },
            }
        } else {
            assert(best_mode_index(infos) == prev);
            match prev {
                None => {
                    assert forall|i: int| 0 <= i < infos.len() implies !qualifies(
                        #[trigger] infos[i],
                    ) by {
                        if i < n {
                            assert(!qualifies(prefix[i]));
                        }
                    }
                },
                Some(j) => {
                    assert(prefix[j] == infos[j]);
                    assert forall|i: int| 0 <= i < infos.len() && qualifies(
                        #[trigger] infos[i],
                    ) implies !outranks_mode(infos[i], infos[j]) by {
                        if i < n {
                            assert(qualifies(prefix[i]));
                        }
                    }
                    assert forall|i: int| 0 <= i < j && qualifies(#[trigger] infos[i]) implies outranks_mode(
                        infos[j],
                        infos[i],
                    ) by {
                        assert(qualifies(prefix[i]));
                    }
                },
            }
        }
    }
}

/// The bytes determine the controller block: two blocks laid out in the same bytes are equal.
pub proof fn lemma_vbe_info_layout_unique(a: VbeInfoBlock, b: VbeInfoBlock, s: Seq<u8>)
    requires
        vbe_info_layout(a, s),
        vbe_info_layout(b, s),
    ensures
        a == b,
{
    assert(a.signature =~= b.signature);
    assert(a.oem =~= b.oem);
    assert(a.dunno =~= b.dunno);
    assert(a.reserved =~= b.reserved);
}

/// The bytes determine the mode block: two blocks laid out in the same bytes are equal.
pub proof fn lemma_vbe_mode_info_layout_unique(a: VbeModeInfoBlock, b: VbeModeInfoBlock, s: Seq<u8>)
    requires
        vbe_mode_info_layout(a, s),
        vbe_mode_info_layout(b, s),
    ensures
        a == b,
{
    assert(a.reserved3 =~= b.reserved3);
}

/// The identity map of the first 4 GiB covers every framebuffer a mode block can name: its
/// 32-bit address maps to itself, as does every byte of the framebuffer below 4 GiB.
pub proof fn lemma_framebuffer_identity_mapped(t: PagingTables, info: VbeModeInfoBlock, offset: u64)
    requires
        boot_identity_tables(t),
        info.framebuffer as int + offset < 0x1_0000_0000,
    ensures
        page_walk(t, (info.framebuffer as int + offset) as u64) == Some(
            (info.framebuffer as int + offset) as u64,
        ),
{
    lemma_identity_map(t, (info.framebuffer as int + offset) as u64);
}

/// A controller block has one image: the bytes laid out for the same block are equal.
pub proof fn lemma_vbe_info_bytes(info: VbeInfoBlock, s: Seq<u8>, t: Seq<u8>)
    requires
        s.len() >= VBE_INFO_SIZE,
        t.len() >= VBE_INFO_SIZE,
        vbe_info_layout(info, s),
        vbe_info_layout(info, t),
    ensures
        forall|k: int| 0 <= k < VBE_INFO_SIZE ==> #[trigger] s[k] == t[k],
{
    lemma_le16_bytes(s, t, 4);
    lemma_le16_bytes(s, t, 6);
    lemma_le16_bytes(s, t, 8);
    lemma_le32_bytes(s, t, 14);
    lemma_le16_bytes(s, t, 18);
    assert forall|k: int| 0 <= k < VBE_INFO_SIZE implies #[trigger] s[k] == t[k] by {
        if k < 4 {
            assert(s.subrange(0, 4)[k] == t.subrange(0, 4)[k]);
        } else if 10 <= k < 14 {
            assert(s.subrange(10, 14)[k - 10] == t.subrange(10, 14)[k - 10]);
        } else if 20 <= k {
            assert(s.subrange(20, 512)[k - 20] == t.subrange(20, 512)[k - 20]);
        }
    }
}

/// A mode block has one image: the bytes laid out for the same block are equal.
pub proof fn lemma_vbe_mode_info_bytes(info: VbeModeInfoBlock, s: Seq<u8>, t: Seq<u8>)
    requires
        s.len() >= VBE_MODE_INFO_SIZE,
        t.len() >= VBE_MODE_INFO_SIZE,
        vbe_mode_info_layout(info, s),
        vbe_mode_info_layout(info, t),
    ensures
        forall|k: int| 0 <= k < VBE_MODE_INFO_SIZE ==> #[trigger] s[k] == t[k],
{
    lemma_le16_bytes(s, t, 0);
    lemma_le16_bytes(s, t, 4);
    lemma_le16_bytes(s, t, 6);
    lemma_le16_bytes(s, t, 8);
    lemma_le16_bytes(s, t, 10);
    lemma_le32_bytes(s, t, 12);
    lemma_le16_bytes(s, t, 16);
    lemma_le16_bytes(s, t, 18);
    lemma_le16_bytes(s, t, 20);
    lemma_le32_bytes(s, t, 40);
    lemma_le32_bytes(s, t, 44);
    lemma_le16_bytes(s, t, 48);
    lemma_le16_bytes(s, t, 50);
    lemma_le32_bytes(s, t, 62);
    assert forall|k: int| 66 <= k < 255 implies #[trigger] s[k] == t[k] by {
        assert(s.subrange(66, 255)[k - 66] == t.subrange(66, 255)[k - 66]);
    }
}

/// Size in bytes of field `k` of `VbeModeInfoBlock`, in declaration order.
pub open spec fn mode_info_field_size(k: int) -> int {
    if k == 0 {
        2
    } else     if k == 1 {
        1
    } else     if k == 2 {
        1
    } else     if k == 3 {
        2
    } else     if k == 4 {
        2
    } else     if k == 5 {
        2
    } else     if k == 6 {
        2
    } else     if k == 7 {
        4
    } else     if k == 8 {
        2
    } else     if k == 9 {
        2
    } else     if k == 10 {
        2
    } else     if k == 11 {
        1
    } else     if k == 12 {
        1
    } else     if k == 13 {
        1
    } else     if k == 14 {
        1
    } else     if k == 15 {
        1
    } else     if k == 16 {
        1
    } else     if k == 17 {
        1
    } else     if k == 18 {
        1
    } else     if k == 19 {
        1
    } else     if k == 20 {
        1
    } else     if k == 21 {
        1
    } else     if k == 22 {
        1
    } else     if k == 23 {
        1
    } else     if k == 24 {
        1
    } else     if k == 25 {
        1
    } else     if k == 26 {
        1
    } else     if k == 27 {
        1
    } else     if k == 28 {
        1
    } else     if k == 29 {
        4
    } else     if k == 30 {
        4
    } else     if k == 31 {
        2
    } else     if k == 32 {
        2
    } else     if k == 33 {
        1
    } else     if k == 34 {
        1
    } else     if k == 35 {
        1
    } else     if k == 36 {
        1
    } else     if k == 37 {
        1
    } else     if k == 38 {
        1
    } else     if k == 39 {
        1
    } else     if k == 40 {
        1
    } else     if k == 41 {
        1
    } else     if k == 42 {
        1
    } else     if k == 43 {
        4
    } else     if k == 44 {
        189
    } else {
        0
    }
}

/// Offset of field `k` of `VbeModeInfoBlock` when the fields are packed in declaration order:
/// the sum of the sizes of the fields declared before it.
pub open spec fn mode_info_offset(k: nat) -> int
    decreases k,
{
    if k == 0 {
        0
    } else {
        mode_info_offset((k - 1) as nat) + mode_info_field_size(k - 1)
    }
}

/// The mode block is laid out packed, in the order its fields are declared (the layout the
/// VBE standard fixes): each field starts where the one declared before it ends, and the
/// block takes 255 bytes.
pub proof fn lemma_mode_info_packed(info: VbeModeInfoBlock, s: Seq<u8>)
    requires
        vbe_mode_info_layout(info, s),
    ensures
        le16(s, mode_info_offset(0)) == info.attributes as int,
        s[mode_info_offset(1)] == info.window_a,
        s[mode_info_offset(2)] == info.window_b,
        le16(s, mode_info_offset(3)) == info.granularity as int,
        le16(s, mode_info_offset(4)) == info.window_size as int,
        le16(s, mode_info_offset(5)) == info.segment_a as int,
        le16(s, mode_info_offset(6)) == info.segment_b as int,
        le32(s, mode_info_offset(7)) == info.win_func_ptr as int,
        le16(s, mode_info_offset(8)) == info.pitch as int,
        le16(s, mode_info_offset(9)) == info.width as int,
        le16(s, mode_info_offset(10)) == info.height as int,
        s[mode_info_offset(11)] == info.w_char,
        s[mode_info_offset(12)] == info.y_char,
        s[mode_info_offset(13)] == info.planes,
        s[mode_info_offset(14)] == info.bpp,
        s[mode_info_offset(15)] == info.banks,
        s[mode_info_offset(16)] == info.memory_model,
        s[mode_info_offset(17)] == info.bank_size,
        s[mode_info_offset(18)] == info.image_pages,
        s[mode_info_offset(19)] == info.reserved0,
        s[mode_info_offset(20)] == info.red_mask_size,
        s[mode_info_offset(21)] == info.red_field_position,
        s[mode_info_offset(22)] == info.green_mask_size,
        s[mode_info_offset(23)] == info.green_field_position,
        s[mode_info_offset(24)] == info.blue_mask_size,
        s[mode_info_offset(25)] == info.blue_field_position,
        s[mode_info_offset(26)] == info.reserved_mask_size,
        s[mode_info_offset(27)] == info.reserved_field_position,
        s[mode_info_offset(28)] == info.direct_color_mode_info,
        le32(s, mode_info_offset(29)) == info.framebuffer as int,
        le32(s, mode_info_offset(30)) == info.reserved1 as int,
        le16(s, mode_info_offset(31)) == info.reserved2 as int,
        le16(s, mode_info_offset(32)) == info.lin_bytes_per_scan_line as int,
        s[mode_info_offset(33)] == info.bnk_image_pages,
        s[mode_info_offset(34)] == info.lin_image_pages,
        s[mode_info_offset(35)] == info.lin_red_mask_size,
        s[mode_info_offset(36)] == info.lin_red_field_position,
        s[mode_info_offset(37)] == info.lin_green_mask_size,
        s[mode_info_offset(38)] == info.lin_green_field_position,
        s[mode_info_offset(39)] == info.lin_blue_mask_size,
        s[mode_info_offset(40)] == info.lin_blue_field_position,
        s[mode_info_offset(41)] == info.lin_reserved_mask_size,
        s[mode_info_offset(42)] == info.lin_reserved_field_position,
        le32(s, mode_info_offset(43)) == info.max_pixel_clock as int,
        info.reserved3@ == s.subrange(mode_info_offset(44), mode_info_offset(44) + mode_info_field_size(44)),
        mode_info_offset(45) == VBE_MODE_INFO_SIZE,
{
    assert(mode_info_offset(0) == 0);
    assert(mode_info_offset(1) == 2);
    assert(mode_info_offset(2) == 3);
    assert(mode_info_offset(3) == 4);
    assert(mode_info_offset(4) == 6);
    assert(mode_info_offset(5) == 8);
    assert(mode_info_offset(6) == 10);
    assert(mode_info_offset(7) == 12);
    assert(mode_info_offset(8) == 16);
    assert(mode_info_offset(9) == 18);
    assert(mode_info_offset(10) == 20);
    assert(mode_info_offset(11) == 22);
    assert(mode_info_offset(12) == 23);
    assert(mode_info_offset(13) == 24);
    assert(mode_info_offset(14) == 25);
    assert(mode_info_offset(15) == 26);
    assert(mode_info_offset(16) == 27);
    assert(mode_info_offset(17) == 28);
    assert(mode_info_offset(18) == 29);
    assert(mode_info_offset(19) == 30);
    assert(mode_info_offset(20) == 31);
    assert(mode_info_offset(21) == 32);
    assert(mode_info_offset(22) == 33);
    assert(mode_info_offset(23) == 34);
    assert(mode_info_offset(24) == 35);
    assert(mode_info_offset(25) == 36);
    assert(mode_info_offset(26) == 37);
    assert(mode_info_offset(27) == 38);
    assert(mode_info_offset(28) == 39);
    assert(mode_info_offset(29) == 40);
    assert(mode_info_offset(30) == 44);
    assert(mode_info_offset(31) == 48);
    assert(mode_info_offset(32) == 50);
    assert(mode_info_offset(33) == 52);
    assert(mode_info_offset(34) == 53);
    assert(mode_info_offset(35) == 54);
    assert(mode_info_offset(36) == 55);
    assert(mode_info_offset(37) == 56);
    assert(mode_info_offset(38) == 57);
    assert(mode_info_offset(39) == 58);
    assert(mode_info_offset(40) == 59);
    assert(mode_info_offset(41) == 60);
    assert(mode_info_offset(42) == 61);
    assert(mode_info_offset(43) == 62);
    assert(mode_info_offset(44) == 66);
    assert(mode_info_offset(45) == 255);
}

/// Size in bytes of field `k` of `VbeInfoBlock`, in declaration order.
pub open spec fn vbe_info_field_size(k: int) -> int {
    if k == 0 {
        4
    } else     if k == 1 {
        2
    } else     if k == 2 {
        4
    } else     if k == 3 {
        4
    } else     if k == 4 {
        4
    } else     if k == 5 {
        2
    } else     if k == 6 {
        492
    } else {
        0
    }
}

/// Offset of field `k` of `VbeInfoBlock` when the fields are packed in declaration order:
/// the sum of the sizes of the fields declared before it.
pub open spec fn vbe_info_offset(k: nat) -> int
    decreases k,
{
    if k == 0 {
        0
    } else {
        vbe_info_offset((k - 1) as nat) + vbe_info_field_size(k - 1)
    }
}

/// The controller block is laid out packed, in the order its fields are declared: each field
/// starts where the one declared before it ends, and the block takes 512 bytes.
pub proof fn lemma_vbe_info_packed(info: VbeInfoBlock, s: Seq<u8>)
    requires
        vbe_info_layout(info, s),
    ensures
        info.signature@ == s.subrange(vbe_info_offset(0), vbe_info_offset(0) + vbe_info_field_size(0)),
        le16(s, vbe_info_offset(1)) == info.version as int,
        le16(s, vbe_info_offset(2) + 0) == info.oem@[0] as int,
        le16(s, vbe_info_offset(2) + 2) == info.oem@[1] as int,
        info.dunno@ == s.subrange(vbe_info_offset(3), vbe_info_offset(3) + vbe_info_field_size(3)),
        le32(s, vbe_info_offset(4)) == info.video_ptr as int,
        le16(s, vbe_info_offset(5)) == info.memory_size as int,
        info.reserved@ == s.subrange(vbe_info_offset(6), vbe_info_offset(6) + vbe_info_field_size(6)),
        vbe_info_offset(7) == VBE_INFO_SIZE,
{
    assert(vbe_info_offset(0) == 0);
    assert(vbe_info_offset(1) == 4);
    assert(vbe_info_offset(2) == 6);
    assert(vbe_info_offset(3) == 10);
    assert(vbe_info_offset(4) == 14);
    assert(vbe_info_offset(5) == 18);
    assert(vbe_info_offset(6) == 20);
    assert(vbe_info_offset(7) == 512);
}

} // verus!
