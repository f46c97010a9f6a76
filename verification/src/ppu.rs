// The picture processing unit: registers, object attribute memory, sprite evaluation and the
// dot-by-dot rendering loop.
use vstd::prelude::*;
use crate::bits::{wadd16, wadd8};
use crate::memory::{spec_read_n, MemMapConfig, MemMapped};
use crate::ppu::memory::{
    attribute_table_addr, name_table_addr, pattern_addr, sprite_pattern_addr, PpuMemMap, PpuMemMapView,
};
use crate::ppu::palette::{PpuPaletteColor, PpuPaletteView};

pub mod memory;
pub mod palette;

verus! {

/// Whether a sprite is drawn in front of the background or behind it.
#[derive(Debug, Clone, Copy, PartialEq, Eq, Structural)]
pub enum OamAttributePriority {
    FRONT,
    BACK,
}

/// The attribute byte of a sprite.
// 76543210
// ||||||||
// ||||||++- Palette (4 to 7) of sprite
// |||+++--- Unimplemented (read 0)
// ||+------ Priority (0: in front of background; 1: behind background)
// |+------- Flip sprite horizontally
// +-------- Flip sprite vertically
#[derive(Debug, Clone, Copy, PartialEq, Eq, Structural)]
pub struct OamSpriteAttributes {
    pub palette_index: u8,
    pub priority: OamAttributePriority,
    pub is_flipped_horizontally: bool,
    pub is_flipped_vertically: bool,
}

/// The attributes that an attribute byte describes.
pub open spec fn spec_attributes(value: u8) -> OamSpriteAttributes {
    OamSpriteAttributes {
        palette_index: value & 0b11,
        priority: if value & 0x20 != 0 { OamAttributePriority::BACK } else { OamAttributePriority::FRONT },
        is_flipped_horizontally: value & 0x40 != 0,
        is_flipped_vertically: value & 0x80 != 0,
    }
}

/// The attribute byte of some attributes; the unimplemented bits read as 0.
pub open spec fn spec_attribute_byte(a: OamSpriteAttributes) -> u8 {
    ((if a.is_flipped_vertically { 0x80u8 } else { 0u8 })
        | (if a.is_flipped_horizontally { 0x40u8 } else { 0u8 })
        | (if a.priority == OamAttributePriority::BACK { 0x20u8 } else { 0u8 })
        | a.palette_index) as u8
}

impl OamSpriteAttributes {
    pub fn from_byte(value: u8) -> (r: OamSpriteAttributes)
        ensures
            r == spec_attributes(value),
    {
        let palette_index = value & 0b11;
        let priority = if value & 0x20 != 0 { OamAttributePriority::BACK } else { OamAttributePriority::FRONT };
        OamSpriteAttributes {
            palette_index,
            priority,
            is_flipped_horizontally: value & 0x40 != 0,
            is_flipped_vertically: value & 0x80 != 0,
        }
    }

    pub fn to_byte(&self) -> (r: u8)
        ensures
            r == spec_attribute_byte(*self),
    {
        let v: u8 = if self.is_flipped_vertically { 0x80 } else { 0 };
        let h: u8 = if self.is_flipped_horizontally { 0x40 } else { 0 };
        let p: u8 = if self.priority == OamAttributePriority::BACK { 0x20 } else { 0 };
        v | h | p | self.palette_index
    }
}

/// One sprite of object attribute memory.
#[derive(Debug, Clone, Copy, PartialEq, Eq, Structural)]
pub struct OamEntry {
    pub sprite_y: u8,
    pub tile_bank_index: u8,
    pub attributes: OamSpriteAttributes,
    pub sprite_x: u8,
}

/// The sprite that four OAM bytes describe: Y, tile, attributes, X.
pub open spec fn spec_oam_entry(b0: u8, b1: u8, b2: u8, b3: u8) -> OamEntry {
    OamEntry { sprite_y: b0, tile_bank_index: b1, attributes: spec_attributes(b2), sprite_x: b3 }
}

impl OamEntry {
    pub open spec fn spec_write_u8(self, index: int, byte: u8) -> OamEntry {
        if index == 0 {
            OamEntry { sprite_y: byte, ..self }
        } else if index == 1 {
            OamEntry { tile_bank_index: byte, ..self }
        } else if index == 2 {
            OamEntry { attributes: spec_attributes(byte), ..self }
        } else {
            OamEntry { sprite_x: byte, ..self }
        }
    }

    pub open spec fn spec_read(self, index: int) -> u8 {
        if index == 0 {
            self.sprite_y
        } else if index == 1 {
            self.tile_bank_index
        } else if index == 2 {
            spec_attribute_byte(self.attributes)
        } else {
            self.sprite_x
        }
    }

    pub fn empty() -> (r: OamEntry)
        ensures
            r == spec_oam_entry(0, 0, 0, 0),
    {
        OamEntry { sprite_y: 0, tile_bank_index: 0, attributes: OamSpriteAttributes::from_byte(0), sprite_x: 0 }
    }

    pub fn from_bytes(value: &[u8]) -> (r: OamEntry)
        requires
            value@.len() == 4,
        ensures
            r == spec_oam_entry(value@[0], value@[1], value@[2], value@[3]),
    {
        OamEntry {
            sprite_y: value[0],
            tile_bank_index: value[1],
            attributes: OamSpriteAttributes::from_byte(value[2]),
            sprite_x: value[3],
        }
    }

    fn write_u8(&mut self, index: usize, byte: u8)
        requires
            index < 4,
        ensures
            *final(self) == old(self).spec_write_u8(index as int, byte),
    {
        match index {
            0 => self.sprite_y = byte,
            1 => self.tile_bank_index = byte,
            2 => self.attributes = OamSpriteAttributes::from_byte(byte),
            _ => self.sprite_x = byte,
        }
    }

    fn read(&self, index: usize) -> (r: u8)
        requires
            index < 4,
        ensures
            r == self.spec_read(index as int),
    {
        match index {
            0 => self.sprite_y,
            1 => self.tile_bank_index,
            2 => self.attributes.to_byte(),
            _ => self.sprite_x,
        }
    }
}

/// Object attribute memory: 64 sprites.
#[derive(Clone, Copy)]
pub struct OamTable {
    pub oam_entries: [OamEntry; 64],
}

/// The sprites that 256 bytes of OAM describe.
pub open spec fn spec_oam_from_bytes(b: Seq<u8>) -> Seq<OamEntry> {
    Seq::new(64, |i: int| spec_oam_entry(b[4 * i], b[4 * i + 1], b[4 * i + 2], b[4 * i + 3]))
}

impl View for OamTable {
    type V = Seq<OamEntry>;

    open spec fn view(&self) -> Seq<OamEntry> {
        self.oam_entries@
    }
}

impl OamTable {
    pub fn new() -> (r: OamTable)
        ensures
            r@ == Seq::new(64, |i: int| spec_oam_entry(0, 0, 0, 0)),
    {
        let t = OamTable { oam_entries: [OamEntry::empty(); 64] };
        assert(t@ =~= Seq::new(64, |i: int| spec_oam_entry(0, 0, 0, 0)));
        t
    }

    /// An OAM DMA transfer: all 256 bytes at once.
    pub fn write(&mut self, cpu_mem: &[u8])
        requires
            cpu_mem@.len() == 0x100,
        ensures
            final(self)@ == spec_oam_from_bytes(cpu_mem@),
    {
        let mut index: usize = 0;
        while index < 64
            invariant
                index <= 64,
                cpu_mem@.len() == 0x100,
                forall|j: int| 0 <= j < index ==> self.oam_entries@[j] == spec_oam_from_bytes(cpu_mem@)[j],
            decreases 64 - index,
        {
            let entry = OamEntry {
                sprite_y: cpu_mem[4 * index],
                tile_bank_index: cpu_mem[4 * index + 1],
                attributes: OamSpriteAttributes::from_byte(cpu_mem[4 * index + 2]),
                sprite_x: cpu_mem[4 * index + 3],
            };
            self.oam_entries[index] = entry;
            index += 1;
        }
        assert(self@ =~= spec_oam_from_bytes(cpu_mem@));
    }

    /// Writes OAM byte `index` (sprite `index / 4`, field `index % 4`).
    pub fn write_u8(&mut self, index: u8, byte: u8)
        ensures
            final(self)@ == old(self)@.update(
                (index / 4) as int,
                old(self)@[(index / 4) as int].spec_write_u8((index % 4) as int, byte),
            ),
    {
        let oam_entry_index = (index / 4) as usize;
        let oam_byte_index = (index % 4) as usize;
        let mut entry = self.oam_entries[oam_entry_index];
        entry.write_u8(oam_byte_index, byte);
        self.oam_entries[oam_entry_index] = entry;
    }

    /// Reads OAM byte `index`.
    pub fn read(&self, index: u8) -> (r: u8)
        ensures
            r == self@[(index / 4) as int].spec_read((index % 4) as int),
    {
        let oam_entry_index = (index / 4) as usize;
        let oam_byte_index = (index % 4) as usize;
        self.oam_entries[oam_entry_index].read(oam_byte_index)
    }
}

pub const FRAME_WIDTH: usize = 256;
pub const FRAME_HEIGHT: usize = 240;
pub const FRAME_PIXELS: usize = 61440;

// PPUCTRL ($2000)
pub const CTRL_NMI_ENABLED: u8 = 0b1000_0000;
pub const CTRL_SLAVE_MODE: u8 = 0b0100_0000;
pub const CTRL_SPRITE_HEIGHT_16: u8 = 0b0010_0000;
pub const CTRL_BACKGROUND_PATTERN_TABLE: u8 = 0b0001_0000;
pub const CTRL_SPRITE_PATTERN_TABLE: u8 = 0b0000_1000;
pub const CTRL_INCREMENT_MODE_32: u8 = 0b0000_0100;
/// The bits of PPUCTRL that the register keeps (the name table bits go to `reg_t`).
pub const CTRL_BITS: u8 = 0b1111_1100;

// PPUMASK ($2001)
pub const MASK_GREYSCALE: u8 = 0b0000_0001;
pub const MASK_SHOW_BACKGROUND_LEFTMOST: u8 = 0b0000_0010;
pub const MASK_SHOW_SPRITES_LEFTMOST: u8 = 0b0000_0100;
pub const MASK_SHOW_BACKGROUND: u8 = 0b0000_1000;
pub const MASK_SHOW_SPRITES: u8 = 0b0001_0000;

// PPUSTATUS ($2002)
pub const STATUS_IN_VBLANK: u8 = 0b1000_0000;
pub const STATUS_SPRITE_0_HIT: u8 = 0b0100_0000;
pub const STATUS_SPRITE_OVERFLOW: u8 = 0b0010_0000;

#[derive(Clone, Copy)]
pub struct PpuScrollReg {
    pub x: u8,
    pub y: u8,
}

/// A frame: 256 x 240 colors, row by row.
pub struct PpuOutput {
    pub data: Box<[PpuPaletteColor; 61440]>,
}

impl PpuOutput {
    /// A black frame.
    pub fn new() -> (r: PpuOutput)
        ensures
            r.data@ == Seq::new(FRAME_PIXELS as nat, |i: int| PpuPaletteColor { red: 0, green: 0, blue: 0 }),
    {
        let data = Box::new([PpuPaletteColor { red: 0, green: 0, blue: 0 }; 61440]);
        proof {
            assert(data@ =~= Seq::new(FRAME_PIXELS as nat, |i: int| PpuPaletteColor { red: 0, green: 0, blue: 0 }));
        }
        PpuOutput { data }
    }
}

#[derive(Clone, Copy)]
pub struct PpuShiftRegisters {
    pub reg_high_plane: u16,
    pub reg_low_plane: u16,
    pub attribute_latch_high: bool,
    pub attribute_latch_low: bool,
    pub palette_index_high: u8,
    pub palette_index_low: u8,
}

/// A sprite found for the next scanline, with its index in OAM.
#[derive(Clone, Copy)]
pub struct SecondaryOamEntry {
    pub oam_entry: OamEntry,
    pub sprite_index: usize,
}

/// The sprites found for the next scanline (at most 8).
pub struct SecondaryOam {
    pub oam_entries: [SecondaryOamEntry; 8],
    pub count: usize,
}

/// A sprite ready to be drawn: its entry and its 16 rows of pattern bits, low and high plane.
#[derive(Clone, Copy)]
pub struct SpriteOutputUnit {
    pub secondary_oam_entry: SecondaryOamEntry,
    pub pattern_low: [u8; 16],
    pub pattern_high: [u8; 16],
}

/// A `SpriteOutputUnit` as a mathematical value.
pub struct SpriteUnitView {
    pub entry: SecondaryOamEntry,
    pub low: Seq<u8>,
    pub high: Seq<u8>,
}

impl View for SpriteOutputUnit {
    type V = SpriteUnitView;

    open spec fn view(&self) -> SpriteUnitView {
        SpriteUnitView { entry: self.secondary_oam_entry, low: self.pattern_low@, high: self.pattern_high@ }
    }
}

pub struct SpriteOutputUnits {
    pub units: [SpriteOutputUnit; 8],
    pub count: usize,
}

/// The sprite color at one dot.
#[derive(Clone, Copy)]
pub struct SpritePixel {
    pub color: PpuPaletteColor,
    pub priority: OamAttributePriority,
    pub sprite_index: usize,
    pub is_transparent: bool,
}

/// The background color at one dot.
#[derive(Clone, Copy)]
pub struct BackgroundPixel {
    pub color: PpuPaletteColor,
    pub is_transparent: bool,
}

pub struct Ppu {
    // Registers: PPUCTRL and PPUMASK are write only, PPUSTATUS read only.
    pub reg_ctrl: u8,
    pub reg_mask: u8,
    pub reg_status: u8,
    pub reg_oam_addr: u8,
    pub reg_oam_data: u8,
    pub reg_scroll: PpuScrollReg,

    // yyy NN YYYYY XXXXX
    // ||| || ||||| +++++-- coarse X scroll
    // ||| || +++++-------- coarse Y scroll
    // ||| ++-------------- nametable select
    // +++----------------- fine Y scroll
    pub reg_v: u16,
    pub reg_t: u16,
    pub reg_x: u8,

    pub is_odd_frame: bool,
    pub is_address_latch_on: bool,

    pub curr_scanline: u16,
    pub curr_scanline_cycle: u16,

    pub cpu_cycles: u64,
    pub nmi_pending: bool,

    pub ppu_mem_map: PpuMemMap,
    pub mem_map_config: MemMapConfig,

    pub shift_regs: PpuShiftRegisters,
    pub secondary_oam: SecondaryOam,
    pub sprite_output_units: SpriteOutputUnits,

    pub curr_frame: PpuOutput,
    pub is_frame_ready: bool,
    pub output: PpuOutput,

    // Reading $2002 within a few PPU clocks of when VBL is set suppresses the NMI of that frame.
    pub should_skip_vbl: bool,
    pub read_buffer: u8,
}

/// The state of a `Ppu` as a mathematical value.
pub struct PpuView {
    pub ctrl: u8,
    pub mask: u8,
    pub status: u8,
    pub oam_addr: u8,
    pub oam_data: u8,
    pub scroll: PpuScrollReg,
    pub reg_v: u16,
    pub reg_t: u16,
    pub reg_x: u8,
    pub is_odd_frame: bool,
    pub is_address_latch_on: bool,
    pub scanline: u16,
    pub cycle: u16,
    pub cpu_cycles: u64,
    pub nmi_pending: bool,
    pub mem: PpuMemMapView,
    pub is_mutating_read: bool,
    pub shift: PpuShiftRegisters,
    pub secondary: Seq<SecondaryOamEntry>,
    pub secondary_count: usize,
    pub units: Seq<SpriteUnitView>,
    pub units_count: usize,
    pub curr_frame: Seq<PpuPaletteColor>,
    pub is_frame_ready: bool,
    pub output: Seq<PpuPaletteColor>,
    pub should_skip_vbl: bool,
    pub read_buffer: u8,
}

impl View for Ppu {
    type V = PpuView;

    open spec fn view(&self) -> PpuView {
        PpuView {
            ctrl: self.reg_ctrl,
            mask: self.reg_mask,
            status: self.reg_status,
            oam_addr: self.reg_oam_addr,
            oam_data: self.reg_oam_data,
            scroll: self.reg_scroll,
            reg_v: self.reg_v,
            reg_t: self.reg_t,
            reg_x: self.reg_x,
            is_odd_frame: self.is_odd_frame,
            is_address_latch_on: self.is_address_latch_on,
            scanline: self.curr_scanline,
            cycle: self.curr_scanline_cycle,
            cpu_cycles: self.cpu_cycles,
            nmi_pending: self.nmi_pending,
            mem: self.ppu_mem_map@,
            is_mutating_read: self.mem_map_config.is_mutating_read,
            shift: self.shift_regs,
            secondary: self.secondary_oam.oam_entries@,
            secondary_count: self.secondary_oam.count,
            units: self.sprite_output_units.units@.map_values(|u: SpriteOutputUnit| u@),
            units_count: self.sprite_output_units.count,
            curr_frame: self.curr_frame.data@,
            is_frame_ready: self.is_frame_ready,
            output: self.output.data@,
            should_skip_vbl: self.should_skip_vbl,
            read_buffer: self.read_buffer,
        }
    }
}

/// A sprite pattern flipped vertically: the rows of each plane in reverse order.
pub open spec fn vflip_pattern(p: Seq<u8>) -> Seq<u8> {
    Seq::new(16, |i: int| if i < 8 { p[7 - i] } else { p[23 - i] })
}

/// A byte with its bits in reverse order.
pub open spec fn reversed_byte(b: u8) -> u8 {
    (((b & 0x01) << 7u8) | ((b & 0x02) << 5u8) | ((b & 0x04) << 3u8) | ((b & 0x08) << 1u8)
        | ((b & 0x10) >> 1u8) | ((b & 0x20) >> 3u8) | ((b & 0x40) >> 5u8) | ((b & 0x80) >> 7u8)) as u8
}

/// A sprite pattern flipped horizontally: every row mirrored.
pub open spec fn hflip_pattern(p: Seq<u8>) -> Seq<u8> {
    Seq::new(16, |i: int| reversed_byte(p[i]))
}

/// The next coarse X position: wraps at 31 into the next horizontal name table.
pub open spec fn spec_increment_x(v: u16) -> u16 {
    if v & 0x001F == 31 { (v & !0x001Fu16) ^ 0x0400u16 } else { (v + 1) as u16 }
}

/// The next fine Y position: after row 7 of a tile the coarse Y moves on; it wraps at 29 into
/// the next vertical name table, and at 31 (attribute rows) without switching.
pub open spec fn spec_increment_y(v: u16) -> u16 {
    if v & 0x7000 != 0x7000 {
        (v + 0x1000) as u16
    } else {
        let v1 = v & !0x7000u16;
        let y = (v1 & 0x03E0) >> 5u16;
        let (y2, v2) = if y == 29 {
            (0u16, v1 ^ 0x0800u16)
        } else if y == 31 {
            (0u16, v1)
        } else {
            ((y + 1) as u16, v1)
        };
        (v2 & !0x03E0u16) | (y2 << 5u16)
    }
}

/// The first scanline of a sprite (its Y plus one, saturating).
pub open spec fn sprite_first_line(e: OamEntry) -> int {
    if e.sprite_y == 255 { 255 } else { e.sprite_y + 1 }
}

/// One OAM entry in sprite evaluation: a sprite on scanline `next` is copied to secondary OAM
/// while it has room; a ninth one sets the overflow flag.
pub open spec fn eval_step(
    sec: Seq<SecondaryOamEntry>,
    found: int,
    overflow: bool,
    e: OamEntry,
    i: int,
    next: int,
    h: int,
) -> (Seq<SecondaryOamEntry>, int, bool) {
    let first = sprite_first_line(e);
    let last = first + h - 1;
    if next > 0 && next >= first && (next <= last || last >= 240) {
        if found < 8 {
            (sec.update(found, SecondaryOamEntry { oam_entry: e, sprite_index: i as usize }), found + 1, overflow)
        } else if first > 0 && first <= 240 {
            (sec, found, true)
        } else {
            (sec, found, overflow)
        }
    } else {
        (sec, found, overflow)
    }
}

/// The two planes (16 rows each) of a sprite and the PPU memory after fetching them.
/// 8x16 sprites take their table from bit 0 of the tile number and span two tiles.
pub open spec fn sprite_patterns(mem: PpuMemMapView, ctrl: u8, e: OamEntry) -> (Seq<u8>, Seq<u8>, PpuMemMapView) {
    let vflip = e.attributes.is_flipped_vertically;
    let hflip = e.attributes.is_flipped_horizontally;
    if ctrl & CTRL_SPRITE_HEIGHT_16 != 0 {
        let table = e.tile_bank_index & 1;
        let top_index = e.tile_bank_index & 0xFE;
        let (top0, m1) = spec_read_n::<PpuMemMap>(mem, sprite_pattern_addr(table, top_index), 16);
        let (bottom0, m2) = spec_read_n::<PpuMemMap>(m1, sprite_pattern_addr(table, (top_index + 1) as u8), 16);
        let (top1, bottom1) = if vflip { (vflip_pattern(bottom0), vflip_pattern(top0)) } else { (top0, bottom0) };
        let (top, bottom) = if hflip { (hflip_pattern(top1), hflip_pattern(bottom1)) } else { (top1, bottom1) };
        (
            Seq::new(16, |i: int| if i < 8 { top[i] } else { bottom[i - 8] }),
            Seq::new(16, |i: int| if i < 8 { top[i + 8] } else { bottom[i] }),
            m2,
        )
    } else {
        let table: u8 = if ctrl & CTRL_SPRITE_PATTERN_TABLE != 0 { 1 } else { 0 };
        let (p0, m1) = spec_read_n::<PpuMemMap>(mem, sprite_pattern_addr(table, e.tile_bank_index), 16);
        let p1 = if vflip { vflip_pattern(p0) } else { p0 };
        let p = if hflip { hflip_pattern(p1) } else { p1 };
        (
            Seq::new(16, |i: int| if i < 8 { p[i] } else { 0u8 }),
            Seq::new(16, |i: int| if i < 8 { p[i + 8] } else { 0u8 }),
            m1,
        )
    }
}

/// The pattern fetch that the PPU makes for an empty sprite slot (tile $FF).
pub open spec fn dummy_fetch(mem: PpuMemMapView, ctrl: u8) -> PpuMemMapView {
    if ctrl & CTRL_SPRITE_HEIGHT_16 != 0 {
        let (_, m1) = spec_read_n::<PpuMemMap>(mem, sprite_pattern_addr(1, 0xFE), 16);
        let (_, m2) = spec_read_n::<PpuMemMap>(m1, sprite_pattern_addr(1, 0xFF), 16);
        m2
    } else {
        let table: u8 = if ctrl & CTRL_SPRITE_PATTERN_TABLE != 0 { 1 } else { 0 };
        let (_, m1) = spec_read_n::<PpuMemMap>(mem, sprite_pattern_addr(table, 0xFF), 16);
        m1
    }
}

pub open spec fn dummy_fetches(mem: PpuMemMapView, ctrl: u8, n: nat) -> PpuMemMapView
    decreases n,
{
    if n == 0 { mem } else { dummy_fetch(dummy_fetches(mem, ctrl, (n - 1) as nat), ctrl) }
}

impl PpuView {
    /// The invariant of a PPU: positions in range, frames complete, at most 8 sprites per line.
    pub open spec fn wf(self) -> bool {
        &&& self.scanline < 262
        &&& self.cycle <= 341
        &&& self.reg_x < 8
        &&& self.curr_frame.len() == FRAME_PIXELS
        &&& self.output.len() == FRAME_PIXELS
        &&& self.secondary_count <= 8
        &&& self.units_count <= 8
        &&& self.secondary.len() == 8
        &&& self.units.len() == 8
        &&& forall|i: int| 0 <= i < 8 ==> #[trigger] self.units[i].low.len() == 16 && self.units[i].high.len() == 16
    }

    /// Rendering needs both background and sprites shown.
    pub open spec fn rendering_enabled(self) -> bool {
        self.mask & (MASK_SHOW_BACKGROUND | MASK_SHOW_SPRITES) == (MASK_SHOW_BACKGROUND | MASK_SHOW_SPRITES)
    }

    pub open spec fn sprite_height(self) -> int {
        if self.ctrl & CTRL_SPRITE_HEIGHT_16 != 0 { 16 } else { 8 }
    }

    pub open spec fn is_vblank_starting_cycle(self) -> bool {
        self.scanline == 241 && self.cycle == 1
    }

    /// The background at dot `x`: the bits that the shift registers hold for fine X scroll.
    pub open spec fn background_pixel(self, x: int) -> BackgroundPixel {
        if x < 8 && self.mask & MASK_SHOW_BACKGROUND_LEFTMOST == 0 {
            BackgroundPixel { color: self.mem.palette.spec_color(false, 0, 0), is_transparent: true }
        } else {
            let pix = (15 - self.reg_x) as u16;
            let lo = (self.shift.reg_low_plane >> pix) & 1;
            let hi = (self.shift.reg_high_plane >> pix) & 1;
            let ph = (self.shift.palette_index_high >> ((pix % 8) as u8)) & 1;
            let pl = (self.shift.palette_index_low >> ((pix % 8) as u8)) & 1;
            let palette_index = ((ph << 1u8) | pl) as u8;
            let color_index = ((hi << 1u16) | lo) as u8;
            BackgroundPixel {
                color: self.mem.palette.spec_color(false, palette_index, color_index),
                is_transparent: color_index == 0,
            }
        }
    }

    pub open spec fn init_sprite_pixel(self) -> SpritePixel {
        SpritePixel {
            color: self.mem.palette.transparent_color(),
            priority: OamAttributePriority::FRONT,
            sprite_index: 0,
            is_transparent: true,
        }
    }

    /// One sprite unit seen at dot (`x`, `y`), over what the units after it gave.
    pub open spec fn sprite_step(self, acc: SpritePixel, unit: SpriteUnitView, x: int, y: int) -> SpritePixel {
        let e = unit.entry.oam_entry;
        if x < 8 && self.mask & MASK_SHOW_SPRITES_LEFTMOST == 0 {
            SpritePixel {
                color: self.mem.palette.spec_color(true, 0, 0),
                priority: e.attributes.priority,
                sprite_index: unit.entry.sprite_index,
                is_transparent: true,
            }
        } else {
            let first_x = e.sprite_x as int;
            let first_y = wadd8(e.sprite_y, 1) as int;
            if y < first_y || x < first_x || x > first_x + 7 || y - first_y > self.sprite_height() - 1 {
                acc
            } else {
                let row = y - first_y;
                let pix = (7 - (x - first_x)) as u8;
                let lo = (unit.low[row] >> pix) & 1;
                let hi = (unit.high[row] >> pix) & 1;
                let color_index = ((hi << 1u8) | lo) as u8;
                if color_index > 0 {
                    SpritePixel {
                        color: self.mem.palette.spec_color(true, e.attributes.palette_index % 4, color_index),
                        priority: e.attributes.priority,
                        sprite_index: unit.entry.sprite_index,
                        is_transparent: false,
                    }
                } else {
                    acc
                }
            }
        }
    }

    /// The sprite units from the last down to `k`: the lowest opaque one wins.
    pub open spec fn sprite_scan(self, x: int, y: int, k: int) -> SpritePixel
        decreases self.units_count - k,
    {
        if k >= self.units_count || k < 0 {
            self.init_sprite_pixel()
        } else {
            self.sprite_step(self.sprite_scan(x, y, k + 1), self.units[k], x, y)
        }
    }

    /// Drawing the dot of this cycle: sprite over background unless it is behind an opaque
    /// background; an opaque sprite 0 over opaque background sets the sprite 0 hit flag.
    pub open spec fn phase_pixel(self) -> PpuView {
        let x = self.cycle as int - 1;
        let y = self.scanline as int;
        if self.rendering_enabled() && 0 <= x < 256 && y < 240 {
            let bg = self.background_pixel(x);
            let sp = self.sprite_scan(x, y, 0);
            let color = if !sp.is_transparent && (sp.priority == OamAttributePriority::FRONT || bg.is_transparent) {
                sp.color
            } else {
                bg.color
            };
            let hit = sp.sprite_index == 0 && !sp.is_transparent && !bg.is_transparent;
            PpuView {
                status: if hit { self.status | STATUS_SPRITE_0_HIT } else { self.status },
                curr_frame: self.curr_frame.update(y * 256 + x, color),
                ..self
            }
        } else {
            self
        }
    }

    pub open spec fn shift_left(self) -> PpuView {
        PpuView {
            shift: PpuShiftRegisters {
                reg_high_plane: self.shift.reg_high_plane << 1u16,
                reg_low_plane: self.shift.reg_low_plane << 1u16,
                palette_index_high: (self.shift.palette_index_high << 1u8) | (if self.shift.attribute_latch_high { 1u8 } else { 0u8 }),
                palette_index_low: (self.shift.palette_index_low << 1u8) | (if self.shift.attribute_latch_low { 1u8 } else { 0u8 }),
                ..self.shift
            },
            ..self
        }
    }

    /// Fetching the next tile into the low bytes of the shift registers and its palette into
    /// the attribute latches.
    pub open spec fn load_shift_registers(self) -> PpuView {
        let v = self.reg_v;
        let a1 = name_table_addr(v);
        let nt = PpuMemMap::peek(self.mem, a1);
        let m1 = PpuMemMap::after_read(self.mem, a1);
        let a2 = attribute_table_addr(v);
        let at = PpuMemMap::peek(m1, a2);
        let m2 = PpuMemMap::after_read(m1, a2);
        let table: u8 = if self.ctrl & CTRL_BACKGROUND_PATTERN_TABLE != 0 { 1 } else { 0 };
        let row = (v & 0x7000) >> 12u16;
        let a3 = pattern_addr(table, nt, 0, row);
        let lo = PpuMemMap::peek(m2, a3);
        let m3 = PpuMemMap::after_read(m2, a3);
        let a4 = pattern_addr(table, nt, 1, row);
        let hi = PpuMemMap::peek(m3, a4);
        let m4 = PpuMemMap::after_read(m3, a4);
        let shift_amount = ((((v & 0x1F) >> 1u16) & 1) * 2 + ((((v >> 5u16) & 0x1F) >> 1u16) & 1) * 4) as u8;
        let bits = (at >> shift_amount) & 0b11;
        PpuView {
            mem: m4,
            shift: PpuShiftRegisters {
                reg_low_plane: (self.shift.reg_low_plane & 0xFF00) | (lo as u16),
                reg_high_plane: (self.shift.reg_high_plane & 0xFF00) | (hi as u16),
                attribute_latch_high: (bits >> 1u8) & 1 == 1,
                attribute_latch_low: bits & 1 == 1,
                ..self.shift
            },
            ..self
        }
    }

    pub open spec fn eval_scan(self, k: int) -> (Seq<SecondaryOamEntry>, int, bool)
        decreases k,
    {
        if k <= 0 {
            (self.secondary, 0, false)
        } else {
            let (sec, found, overflow) = self.eval_scan(k - 1);
            eval_step(sec, found, overflow, self.mem.oam[k - 1], k - 1, (self.scanline + 1) % 262, self.sprite_height())
        }
    }

    /// Sprite evaluation for the next scanline over all 64 OAM entries.
    pub open spec fn evaluate_sprites(self) -> PpuView {
        let (sec, found, overflow) = self.eval_scan(64);
        PpuView {
            secondary: sec,
            secondary_count: found as usize,
            status: if overflow { self.status | STATUS_SPRITE_OVERFLOW } else { self.status },
            ..self
        }
    }

    pub open spec fn prepare_scan(self, k: int) -> (Seq<SpriteUnitView>, PpuMemMapView)
        decreases k,
    {
        if k <= 0 {
            (self.units, self.mem)
        } else {
            let (units, m) = self.prepare_scan(k - 1);
            let entry = self.secondary[k - 1];
            let (low, high, m2) = sprite_patterns(m, self.ctrl, entry.oam_entry);
            (units.update(k - 1, SpriteUnitView { entry, low, high }), m2)
        }
    }

    /// Filling the sprite units from secondary OAM, then the dummy fetches of the empty slots.
    pub open spec fn prepare_sprite_units(self) -> PpuView {
        let (units, m) = self.prepare_scan(self.secondary_count as int);
        PpuView {
            units,
            units_count: self.secondary_count,
            mem: dummy_fetches(m, self.ctrl, (8 - self.secondary_count) as nat),
            ..self
        }
    }

    /// The background and sprite work of a rendering scanline (0-239 and the pre-render line 261).
    pub open spec fn phase_render(self) -> PpuView {
        if self.rendering_enabled() && (self.scanline < 240 || self.scanline == 261) {
            let c = self.cycle;
            let v1 = if (1 <= c <= 256) || (321 <= c <= 336) { self.shift_left() } else { self };
            let v2 = if ((8 <= c <= 256) || c == 328 || c == 336) && c % 8 == 0 {
                let l = v1.load_shift_registers();
                PpuView { reg_v: spec_increment_x(l.reg_v), ..l }
            } else {
                v1
            };
            let v3 = if c == 256 { PpuView { reg_v: spec_increment_y(v2.reg_v), ..v2 } } else { v2 };
            let v4 = if c == 258 {
                let h = PpuView { reg_v: (v3.reg_v & !0x041Fu16) | (v3.reg_t & 0x041F), ..v3 };
                h.evaluate_sprites().prepare_sprite_units()
            } else {
                v3
            };
            if self.scanline == 261 && 280 <= c <= 304 {
                PpuView { reg_v: (v4.reg_v & !0xFBE0u16) | (v4.reg_t & 0xFBE0), ..v4 }
            } else {
                v4
            }
        } else {
            self
        }
    }

    /// Vertical blank starts at dot 1 of line 241 (the frame is complete then) and ends at
    /// dot 1 of the pre-render line 261.
    pub open spec fn phase_vblank(self) -> PpuView {
        let v1 = if 257 <= self.cycle <= 320 { PpuView { oam_addr: 0, ..self } } else { self };
        let v2 = if v1.is_vblank_starting_cycle() && !v1.should_skip_vbl {
            PpuView { status: v1.status | STATUS_IN_VBLANK, ..v1 }
        } else {
            v1
        };
        let v3 = if v2.is_vblank_starting_cycle() {
            let swapped = if v2.rendering_enabled() {
                PpuView { output: v2.curr_frame, curr_frame: v2.output, ..v2 }
            } else {
                v2
            };
            PpuView {
                is_frame_ready: true,
                nmi_pending: if v2.ctrl & CTRL_NMI_ENABLED != 0 && !v2.should_skip_vbl { true } else { v2.nmi_pending },
                ..swapped
            }
        } else {
            v2
        };
        if v3.scanline == 261 && v3.cycle == 1 {
            PpuView {
                status: 0,
                is_odd_frame: !v3.is_odd_frame,
                should_skip_vbl: false,
                nmi_pending: false,
                is_frame_ready: false,
                ..v3
            }
        } else {
            v3
        }
    }

    /// Moving to the next dot: 341 dots per line, 262 lines per frame; the pre-render line of
    /// odd frames is one dot shorter while rendering.
    pub open spec fn phase_advance(self) -> PpuView {
        let (c, l) = if self.cycle == 341
            || (self.scanline == 261 && self.cycle == 340 && self.is_odd_frame && self.rendering_enabled()) {
            (0u16, (self.scanline + 1) as u16)
        } else {
            (self.cycle, self.scanline)
        };
        let l2: u16 = if l == 262 { 0 } else { l };
        PpuView { cycle: (c + 1) as u16, scanline: l2, ..self }
    }

    /// One PPU cycle.
    pub open spec fn spec_tick(self) -> PpuView {
        self.phase_pixel().phase_render().phase_vblank().phase_advance()
    }

    pub open spec fn spec_run(self, n: nat) -> PpuView
        decreases n,
    {
        if n == 0 { self } else { self.spec_run((n - 1) as nat).spec_tick() }
    }

    /// What `step` reports: an NMI is due.
    pub open spec fn spec_nmi_due(self) -> bool {
        self.status & STATUS_IN_VBLANK != 0 && self.nmi_pending
    }
}

/// A byte with its bits in reverse order.
pub fn reverse_bits(b: u8) -> (r: u8)
    ensures
        r == reversed_byte(b),
{
    ((b & 0x01) << 7u8) | ((b & 0x02) << 5u8) | ((b & 0x04) << 3u8) | ((b & 0x08) << 1u8)
        | ((b & 0x10) >> 1u8) | ((b & 0x20) >> 3u8) | ((b & 0x40) >> 5u8) | ((b & 0x80) >> 7u8)
}

impl Ppu {
    #[inline]
    fn is_rendering_enabled(&self) -> (r: bool)
        ensures
            r == self@.rendering_enabled(),
    {
        self.reg_mask & (MASK_SHOW_BACKGROUND | MASK_SHOW_SPRITES) == (MASK_SHOW_BACKGROUND | MASK_SHOW_SPRITES)
    }

    fn increment_addr_read(&mut self)
        ensures
            final(self)@ == (PpuView {
                reg_v: if old(self)@.ctrl & CTRL_INCREMENT_MODE_32 != 0 { wadd16(old(self)@.reg_v, 32) } else { wadd16(old(self)@.reg_v, 1) },
                ..old(self)@
            }),
    {
        self.reg_v = if self.reg_ctrl & CTRL_INCREMENT_MODE_32 != 0 {
            self.reg_v.wrapping_add(32)
        } else {
            self.reg_v.wrapping_add(1)
        };
    }

    fn increment_addr_x(&mut self)
        ensures
            final(self)@ == (PpuView { reg_v: spec_increment_x(old(self)@.reg_v), ..old(self)@ }),
    {
        // if coarse X == 31: coarse X = 0 and switch horizontal nametable, else increment coarse X
        if (self.reg_v & 0x001F) == 31 {
            self.reg_v = (self.reg_v & !0x001Fu16) ^ 0x0400u16;
        } else {
            let v = self.reg_v;
            assert(v & 0x001F != 31 ==> v < 0xFFFF) by (bit_vector);
            self.reg_v = v + 1;
        }
    }

    fn increment_addr_y(&mut self)
        ensures
            final(self)@ == (PpuView { reg_v: spec_increment_y(old(self)@.reg_v), ..old(self)@ }),
    {
        if (self.reg_v & 0x7000) != 0x7000 {
            // fine Y < 7: increment fine Y
            let v = self.reg_v;
            assert(v & 0x7000 != 0x7000 ==> v < 0xF000) by (bit_vector);
            self.reg_v = v + 0x1000;
        } else {
            // fine Y = 0, then the coarse Y moves on
            self.reg_v = self.reg_v & !0x7000u16;
            let v = self.reg_v;
            let mut y = (v & 0x03E0) >> 5u16;
            assert((v & 0x03E0) >> 5u16 <= 31) by (bit_vector);
            if y == 29 {
                y = 0;
                self.reg_v = self.reg_v ^ 0x0800u16;
            } else if y == 31 {
                y = 0;
            } else {
                y = y + 1;
            }
            self.reg_v = (self.reg_v & !0x03E0u16) | (y << 5u16);
        }
    }

    #[inline]
    fn shift_registers_left(&mut self)
        ensures
            final(self)@ == old(self)@.shift_left(),
    {
        self.shift_regs.reg_high_plane = self.shift_regs.reg_high_plane << 1u16;
        self.shift_regs.reg_low_plane = self.shift_regs.reg_low_plane << 1u16;
        self.shift_regs.palette_index_high =
            (self.shift_regs.palette_index_high << 1u8) | (if self.shift_regs.attribute_latch_high { 1u8 } else { 0u8 });
        self.shift_regs.palette_index_low =
            (self.shift_regs.palette_index_low << 1u8) | (if self.shift_regs.attribute_latch_low { 1u8 } else { 0u8 });
    }

    fn load_shift_registers(&mut self)
        ensures
            final(self)@ == old(self)@.load_shift_registers(),
    {
        // fetch the tile
        let addr = self.reg_v;
        let name_table_entry = self.ppu_mem_map.fetch_name_table_entry(addr);
        let attribute_table_entry = self.ppu_mem_map.fetch_attribute_table_entry(addr);
        let pixel_y = (self.reg_v & 0x7000) >> 12u16;
        let table: u8 = if self.reg_ctrl & CTRL_BACKGROUND_PATTERN_TABLE != 0 { 1 } else { 0 };
        let pattern_table_entry = self.ppu_mem_map.fetch_pattern_table_entry(table, name_table_entry, pixel_y);

        let byte_low_plane = pattern_table_entry[0] as u16;
        let byte_high_plane = pattern_table_entry[1] as u16;
        self.shift_regs.reg_low_plane = (self.shift_regs.reg_low_plane & 0xFF00) | byte_low_plane;
        self.shift_regs.reg_high_plane = (self.shift_regs.reg_high_plane & 0xFF00) | byte_high_plane;

        let v = self.reg_v;
        let coarse_x_bit1 = ((v & 0x1F) >> 1u16) & 0b1;
        let coarse_y_bit1 = (((v >> 5u16) & 0x1F) >> 1u16) & 0b1;
        assert(((v & 0x1F) >> 1u16) & 0b1 <= 1) by (bit_vector);
        assert((((v >> 5u16) & 0x1F) >> 1u16) & 0b1 <= 1) by (bit_vector);
        let attribute_shift = (coarse_x_bit1 * 2 + coarse_y_bit1 * 4) as u8;

        let palette_index_bits = (attribute_table_entry >> attribute_shift) & 0b11;
        self.shift_regs.attribute_latch_high = (palette_index_bits >> 1u8) & 0b1 == 1;
        self.shift_regs.attribute_latch_low = palette_index_bits & 0b1 == 1;
    }
}

impl Ppu {
    fn get_background_pixel(&self, pixel_x: usize) -> (r: BackgroundPixel)
        requires
            self@.wf(),
        ensures
            r == self@.background_pixel(pixel_x as int),
    {
        if pixel_x < 8 && self.reg_mask & MASK_SHOW_BACKGROUND_LEFTMOST == 0 {
            let color = self.ppu_mem_map.palette.get_background_color(0, 0);
            BackgroundPixel { color, is_transparent: true }
        } else {
            let pixel_index_x: u16 = 15 - self.reg_x as u16;
            let low = self.shift_regs.reg_low_plane;
            let high = self.shift_regs.reg_high_plane;
            let pal_high = self.shift_regs.palette_index_high;
            let pal_low = self.shift_regs.palette_index_low;
            let pattern_bit_plane_low = (low >> pixel_index_x) & 0b1;
            let pattern_bit_plane_high = (high >> pixel_index_x) & 0b1;
            let palette_index_high = (pal_high >> ((pixel_index_x % 8) as u8)) & 0b1;
            let palette_index_low = (pal_low >> ((pixel_index_x % 8) as u8)) & 0b1;
            assert(palette_index_high <= 1 && palette_index_low <= 1) by (bit_vector)
                requires palette_index_high == (pal_high >> ((pixel_index_x % 8) as u8)) & 0b1,
                    palette_index_low == (pal_low >> ((pixel_index_x % 8) as u8)) & 0b1;
            assert(pattern_bit_plane_high <= 1 && pattern_bit_plane_low <= 1) by (bit_vector)
                requires pattern_bit_plane_high == (high >> pixel_index_x) & 0b1,
                    pattern_bit_plane_low == (low >> pixel_index_x) & 0b1;
            assert(((palette_index_high << 1u8) | palette_index_low) < 4) by (bit_vector)
                requires palette_index_high <= 1, palette_index_low <= 1;
            assert(((pattern_bit_plane_high << 1u16) | pattern_bit_plane_low) < 4) by (bit_vector)
                requires pattern_bit_plane_high <= 1, pattern_bit_plane_low <= 1;
            let palette_index = (palette_index_high << 1u8) | palette_index_low;
            let color_index = ((pattern_bit_plane_high << 1u16) | pattern_bit_plane_low) as u8;
            let color = self.ppu_mem_map.palette.get_background_color(palette_index, color_index);
            BackgroundPixel { color, is_transparent: color_index == 0 }
        }
    }

    fn sprite_step(&self, acc: SpritePixel, unit: &SpriteOutputUnit, pixel_x: usize, pixel_y: usize) -> (r: SpritePixel)
        ensures
            r == self@.sprite_step(acc, unit@, pixel_x as int, pixel_y as int),
    {
        let entry = unit.secondary_oam_entry.oam_entry;
        if pixel_x < 8 && self.reg_mask & MASK_SHOW_SPRITES_LEFTMOST == 0 {
            SpritePixel {
                color: self.ppu_mem_map.palette.get_sprite_color(0, 0),
                priority: entry.attributes.priority,
                sprite_index: unit.secondary_oam_entry.sprite_index,
                is_transparent: true,
            }
        } else {
            let sprite_height_pixels: usize = if self.reg_ctrl & CTRL_SPRITE_HEIGHT_16 != 0 { 16 } else { 8 };
            let sprite_first_pixel_x = entry.sprite_x as usize;
            let sprite_first_pixel_y = entry.sprite_y.wrapping_add(1) as usize;
            if pixel_y < sprite_first_pixel_y || pixel_x < sprite_first_pixel_x || pixel_x > sprite_first_pixel_x + 7
                || pixel_y - sprite_first_pixel_y > sprite_height_pixels - 1 {
                return acc;
            }
            let sprite_index_y = pixel_y - sprite_first_pixel_y;
            let pixel_index_x = (7 - (pixel_x - sprite_first_pixel_x)) as u8;
            let line_low = unit.pattern_low[sprite_index_y];
            let line_high = unit.pattern_high[sprite_index_y];
            let pattern_bit_plane_low = (line_low >> pixel_index_x) & 0b1;
            let pattern_bit_plane_high = (line_high >> pixel_index_x) & 0b1;
            assert(pattern_bit_plane_high <= 1 && pattern_bit_plane_low <= 1) by (bit_vector)
                requires pattern_bit_plane_high == (line_high >> pixel_index_x) & 0b1,
                    pattern_bit_plane_low == (line_low >> pixel_index_x) & 0b1;
            let color_index = (pattern_bit_plane_high << 1u8) | pattern_bit_plane_low;
            assert(((pattern_bit_plane_high << 1u8) | pattern_bit_plane_low) < 4) by (bit_vector)
                requires pattern_bit_plane_high <= 1, pattern_bit_plane_low <= 1;
            if color_index > 0 {
                SpritePixel {
                    color: self.ppu_mem_map.palette.get_sprite_color(entry.attributes.palette_index % 4, color_index),
                    priority: entry.attributes.priority,
                    sprite_index: unit.secondary_oam_entry.sprite_index,
                    is_transparent: false,
                }
            } else {
                acc
            }
        }
    }

    fn get_sprite_pixel(&self, pixel_x: usize, pixel_y: usize) -> (r: SpritePixel)
        requires
            self@.wf(),
        ensures
            r == self@.sprite_scan(pixel_x as int, pixel_y as int, 0),
    {
        let mut acc = SpritePixel {
            color: self.ppu_mem_map.palette.get_transparent_color(),
            priority: OamAttributePriority::FRONT,
            sprite_index: 0,
            is_transparent: true,
        };
        let count = self.sprite_output_units.count;
        let mut index = count;
        while index > 0
            invariant
                self@.wf(),
                count == self@.units_count,
                index <= count,
                acc == self@.sprite_scan(pixel_x as int, pixel_y as int, index as int),
            decreases index,
        {
            index -= 1;
            let unit = self.sprite_output_units.units[index];
            assert(self@.units[index as int] == unit@);
            acc = self.sprite_step(acc, &unit, pixel_x, pixel_y);
        }
        acc
    }

    fn render_pixel(&mut self)
        requires
            old(self)@.wf(),
        ensures
            final(self)@ == old(self)@.phase_pixel(),
            final(self)@.wf(),
    {
        let cycle = self.curr_scanline_cycle;
        let pixel_y = self.curr_scanline as usize;
        if self.is_rendering_enabled() && 1 <= cycle && cycle <= 256 && pixel_y < 240 {
            let pixel_x = (cycle - 1) as usize;
            let background_pixel = self.get_background_pixel(pixel_x);
            let sprite_pixel = self.get_sprite_pixel(pixel_x, pixel_y);
            let output_color = if !sprite_pixel.is_transparent
                && (sprite_pixel.priority == OamAttributePriority::FRONT || background_pixel.is_transparent) {
                sprite_pixel.color
            } else {
                background_pixel.color
            };
            let is_sprite_0_hit = sprite_pixel.sprite_index == 0 && !sprite_pixel.is_transparent
                && !background_pixel.is_transparent;
            if is_sprite_0_hit {
                self.reg_status = self.reg_status | STATUS_SPRITE_0_HIT;
            }
            self.curr_frame.data[pixel_y * 256 + pixel_x] = output_color;
        }
    }
}

impl Ppu {
    fn evaluate_sprites(&mut self)
        requires
            old(self)@.wf(),
        ensures
            final(self)@ == old(self)@.evaluate_sprites(),
            final(self)@.wf(),
    {
        let sprite_height_pixels: usize = if self.reg_ctrl & CTRL_SPRITE_HEIGHT_16 != 0 { 16 } else { 8 };
        let next_scanline_index = ((self.curr_scanline + 1) % 262) as usize;
        let mut num_found_sprites: usize = 0;
        let mut overflow = false;
        let mut sprite_index: usize = 0;
        while sprite_index < 64
            invariant
                sprite_index <= 64,
                num_found_sprites <= 8,
                sprite_height_pixels == old(self)@.sprite_height(),
                next_scanline_index == (old(self)@.scanline + 1) % 262,
                old(self)@.eval_scan(sprite_index as int)
                    == (self.secondary_oam.oam_entries@, num_found_sprites as int, overflow),
                self@ == (PpuView { secondary: self.secondary_oam.oam_entries@, ..old(self)@ }),
            decreases 64 - sprite_index,
        {
            let oam_entry = self.ppu_mem_map.oam_table.oam_entries[sprite_index];
            let sprite_y_first_pixel: usize = if oam_entry.sprite_y == 255 { 255 } else { oam_entry.sprite_y as usize + 1 };
            let sprite_y_last_pixel = sprite_y_first_pixel + sprite_height_pixels - 1;
            let is_overflowing_y = sprite_y_last_pixel >= 240;
            if next_scanline_index > 0 && next_scanline_index >= sprite_y_first_pixel
                && (next_scanline_index <= sprite_y_last_pixel || is_overflowing_y) {
                if num_found_sprites < 8 {
                    self.secondary_oam.oam_entries[num_found_sprites] = SecondaryOamEntry { oam_entry, sprite_index };
                    num_found_sprites += 1;
                } else if sprite_y_first_pixel > 0 && sprite_y_first_pixel <= 240 {
                    overflow = true;
                }
            }
            sprite_index += 1;
        }
        self.secondary_oam.count = num_found_sprites;
        if overflow {
            self.reg_status = self.reg_status | STATUS_SPRITE_OVERFLOW;
        }
    }

    fn flip_pattern_data_vertically(pattern_data: [u8; 16]) -> (r: [u8; 16])
        ensures
            r@ == vflip_pattern(pattern_data@),
    {
        let mut out = [0u8; 16];
        let mut i: usize = 0;
        while i < 16
            invariant
                i <= 16,
                forall|j: int| 0 <= j < i ==> out@[j] == vflip_pattern(pattern_data@)[j],
            decreases 16 - i,
        {
            // Each plane's rows in reverse order.
            out[i] = if i < 8 { pattern_data[7 - i] } else { pattern_data[8 + (7 - (i - 8))] };
            i += 1;
        }
        assert(out@ =~= vflip_pattern(pattern_data@));
        out
    }

    fn flip_pattern_data_horizontally(pattern_data: [u8; 16]) -> (r: [u8; 16])
        ensures
            r@ == hflip_pattern(pattern_data@),
    {
        let mut out = pattern_data;
        let mut i: usize = 0;
        while i < 16
            invariant
                i <= 16,
                forall|j: int| 0 <= j < i ==> out@[j] == hflip_pattern(pattern_data@)[j],
                forall|j: int| i <= j < 16 ==> out@[j] == pattern_data@[j],
            decreases 16 - i,
        {
            out[i] = reverse_bits(out[i]);
            i += 1;
        }
        assert(out@ =~= hflip_pattern(pattern_data@));
        out
    }

    /// Fetches the two planes of a sprite for the sprite units.
    fn fetch_sprite_planes(&mut self, e: OamEntry) -> (r: ([u8; 16], [u8; 16]))
        ensures
            (r.0@, r.1@, final(self)@.mem) == sprite_patterns(old(self)@.mem, old(self)@.ctrl, e),
            final(self)@ == (PpuView { mem: final(self)@.mem, ..old(self)@ }),
    {
        let mut low = [0u8; 16];
        let mut high = [0u8; 16];
        if self.reg_ctrl & CTRL_SPRITE_HEIGHT_16 != 0 {
            // 8x16 sprites
            let pattern_entry_byte = e.tile_bank_index;
            let pattern_table_index = pattern_entry_byte & 0b1;
            let pattern_entry_index_top = pattern_entry_byte & 0xFE;
            assert(pattern_entry_byte & 0b1 < 2 && pattern_entry_byte & 0xFE < 255) by (bit_vector);
            let pattern_entry_index_bottom = pattern_entry_index_top + 1;
            let mut pattern_data_top = self.ppu_mem_map.fetch_sprite_pattern(pattern_table_index, pattern_entry_index_top);
            let mut pattern_data_bottom = self.ppu_mem_map.fetch_sprite_pattern(pattern_table_index, pattern_entry_index_bottom);
            if e.attributes.is_flipped_vertically {
                let temp = pattern_data_top;
                pattern_data_top = Self::flip_pattern_data_vertically(pattern_data_bottom);
                pattern_data_bottom = Self::flip_pattern_data_vertically(temp);
            }
            if e.attributes.is_flipped_horizontally {
                pattern_data_top = Self::flip_pattern_data_horizontally(pattern_data_top);
                pattern_data_bottom = Self::flip_pattern_data_horizontally(pattern_data_bottom);
            }
            let mut i: usize = 0;
            while i < 16
                invariant
                    i <= 16,
                    forall|j: int| 0 <= j < i ==> low@[j] == (if j < 8 { pattern_data_top@[j] } else { pattern_data_bottom@[j - 8] }),
                    forall|j: int| 0 <= j < i ==> high@[j] == (if j < 8 { pattern_data_top@[j + 8] } else { pattern_data_bottom@[j] }),
                decreases 16 - i,
            {
                if i < 8 {
                    low[i] = pattern_data_top[i];
                    high[i] = pattern_data_top[i + 8];
                } else {
                    low[i] = pattern_data_bottom[i - 8];
                    high[i] = pattern_data_bottom[i];
                }
                i += 1;
            }
            assert(low@ =~= Seq::new(16, |j: int| if j < 8 { pattern_data_top@[j] } else { pattern_data_bottom@[j - 8] }));
            assert(high@ =~= Seq::new(16, |j: int| if j < 8 { pattern_data_top@[j + 8] } else { pattern_data_bottom@[j] }));
        } else {
            // 8x8 sprites
            let pattern_table_index: u8 = if self.reg_ctrl & CTRL_SPRITE_PATTERN_TABLE != 0 { 1 } else { 0 };
            let mut pattern_data = self.ppu_mem_map.fetch_sprite_pattern(pattern_table_index, e.tile_bank_index);
            if e.attributes.is_flipped_vertically {
                pattern_data = Self::flip_pattern_data_vertically(pattern_data);
            }
            if e.attributes.is_flipped_horizontally {
                pattern_data = Self::flip_pattern_data_horizontally(pattern_data);
            }
            let mut i: usize = 0;
            while i < 8
                invariant
                    i <= 8,
                    forall|j: int| 0 <= j < i ==> low@[j] == pattern_data@[j] && high@[j] == pattern_data@[j + 8],
                    forall|j: int| 8 <= j < 16 ==> low@[j] == 0 && high@[j] == 0,
                decreases 8 - i,
            {
                low[i] = pattern_data[i];
                high[i] = pattern_data[i + 8];
                i += 1;
            }
            assert(low@ =~= Seq::new(16, |j: int| if j < 8 { pattern_data@[j] } else { 0u8 }));
            assert(high@ =~= Seq::new(16, |j: int| if j < 8 { pattern_data@[j + 8] } else { 0u8 }));
        }
        (low, high)
    }

    /// The fetch for an empty sprite slot: the PPU fetches tile $FF, which the board sees on A12.
    fn dummy_fetch(&mut self)
        ensures
            final(self)@ == (PpuView { mem: dummy_fetch(old(self)@.mem, old(self)@.ctrl), ..old(self)@ }),
    {
        let dummy_tile_index: u8 = 0xFF;
        if self.reg_ctrl & CTRL_SPRITE_HEIGHT_16 != 0 {
            let _ = self.ppu_mem_map.fetch_sprite_pattern(1, 0xFE);
            let _ = self.ppu_mem_map.fetch_sprite_pattern(1, 0xFF);
        } else {
            let pattern_table_index: u8 = if self.reg_ctrl & CTRL_SPRITE_PATTERN_TABLE != 0 { 1 } else { 0 };
            let _ = self.ppu_mem_map.fetch_sprite_pattern(pattern_table_index, dummy_tile_index);
        }
    }

    fn prepare_sprite_units(&mut self)
        requires
            old(self)@.wf(),
        ensures
            final(self)@ == old(self)@.prepare_sprite_units(),
            final(self)@.wf(),
    {
        let count = self.secondary_oam.count;
        self.sprite_output_units.count = count;
        let mut index: usize = 0;
        while index < count
            invariant
                count == old(self)@.secondary_count,
                count <= 8,
                index <= count,
                old(self)@.prepare_scan(index as int) == (self@.units, self@.mem),
                self@ == (PpuView { units: self@.units, units_count: count, mem: self@.mem, ..old(self)@ }),
            decreases count - index,
        {
            let secondary_oam_entry = self.secondary_oam.oam_entries[index];
            let (pattern_low, pattern_high) = self.fetch_sprite_planes(secondary_oam_entry.oam_entry);
            let unit = SpriteOutputUnit { secondary_oam_entry, pattern_low, pattern_high };
            let ghost before = self.sprite_output_units.units@;
            self.sprite_output_units.units[index] = unit;
            proof {
                assert(self.sprite_output_units.units@ == before.update(index as int, unit));
                assert(self@.units =~= before.map_values(|u: SpriteOutputUnit| u@).update(index as int, unit@));
            }
            index += 1;
        }
        let ghost m = self@.mem;
        let mut k = count;
        while k < 8
            invariant
                count <= k <= 8,
                self@.mem == dummy_fetches(m, old(self)@.ctrl, (k - count) as nat),
                self@ == (PpuView { mem: self@.mem, ..old(self)@.prepare_sprite_units() }),
            decreases 8 - k,
        {
            // Even without a sprite the PPU fetches pattern data, which toggles A12.
            self.dummy_fetch();
            k += 1;
        }
    }
}

impl Ppu {
    fn render_step(&mut self)
        requires
            old(self)@.wf(),
        ensures
            final(self)@ == old(self)@.phase_render(),
            final(self)@.wf(),
    {
        if self.is_rendering_enabled() && (self.curr_scanline < 240 || self.curr_scanline == 261) {
            let cycle = self.curr_scanline_cycle;
            if (cycle >= 1 && cycle <= 256) || (cycle >= 321 && cycle <= 336) {
                self.shift_registers_left();
            }
            if ((cycle >= 8 && cycle <= 256) || cycle == 328 || cycle == 336) && cycle % 8 == 0 {
                // The horizontal position in v moves on every 8 dots, from dots 328 and 336 of
                // the previous line through 8, 16, ... 256, wrapping into the next name table.
                self.load_shift_registers();
                self.increment_addr_x();
            }
            if cycle == 256 {
                // The vertical position in v moves on, skipping the attribute rows.
                self.increment_addr_y();
            }
            if cycle == 258 {
                // Horizontal bits of v come from t:  .....A.. ...BCDEF
                let mask: u16 = 0b0000_0100_0001_1111;
                self.reg_v = (self.reg_v & !mask) | (self.reg_t & mask);
                // Sprites for the next line: evaluation fills secondary OAM, then the units.
                self.evaluate_sprites();
                self.prepare_sprite_units();
            }
            if self.curr_scanline == 261 && cycle >= 280 && cycle <= 304 {
                // Vertical bits of v come from t at the end of vblank:  .GHIA.BC DEF.....
                let mask: u16 = 0b1111_1011_1110_0000;
                self.reg_v = (self.reg_v & !mask) | (self.reg_t & mask);
            }
        }
    }

    fn vblank_step(&mut self)
        requires
            old(self)@.wf(),
        ensures
            final(self)@ == old(self)@.phase_vblank(),
            final(self)@.wf(),
    {
        if self.curr_scanline_cycle >= 257 && self.curr_scanline_cycle <= 320 {
            self.reg_oam_addr = 0;
        }
        if self.is_vblank_starting_cycle() && !self.should_skip_vbl {
            self.reg_status = self.reg_status | STATUS_IN_VBLANK;
        }
        if self.curr_scanline == 241 && self.curr_scanline_cycle == 1 {
            if self.is_rendering_enabled() {
                std::mem::swap(&mut self.output, &mut self.curr_frame);
            }
            self.is_frame_ready = true;
            if self.reg_ctrl & CTRL_NMI_ENABLED != 0 && !self.should_skip_vbl {
                self.nmi_pending = true;
            }
        }
        if self.curr_scanline == 261 && self.curr_scanline_cycle == 1 {
            self.reg_status = 0;
            self.is_odd_frame = !self.is_odd_frame;
            self.should_skip_vbl = false;
            self.nmi_pending = false;
            self.is_frame_ready = false;
        }
    }

    fn advance_step(&mut self)
        requires
            old(self)@.wf(),
        ensures
            final(self)@ == old(self)@.phase_advance(),
            final(self)@.wf(),
    {
        if self.curr_scanline_cycle == 341
            || (self.curr_scanline == 261 && self.curr_scanline_cycle == 340 && self.is_odd_frame
                && self.is_rendering_enabled()) {
            self.curr_scanline_cycle = 0;
            self.curr_scanline += 1;
        }
        if self.curr_scanline == 262 {
            self.curr_scanline = 0;
        }
        self.curr_scanline_cycle += 1;
    }

    /// One PPU cycle.
    fn tick(&mut self)
        requires
            old(self)@.wf(),
        ensures
            final(self)@ == old(self)@.spec_tick(),
            final(self)@.wf(),
    {
        self.render_pixel();
        self.render_step();
        self.vblank_step();
        self.advance_step();
    }

    /// Runs the PPU up to the given CPU cycle count, three PPU cycles per CPU cycle.
    /// Returns whether an NMI is due.
    pub fn step(&mut self, cpu_cycles: u64) -> (r: bool)
        requires
            old(self)@.wf(),
            old(self).cpu_cycles <= cpu_cycles,
            (cpu_cycles - old(self).cpu_cycles) * 3 <= u64::MAX,
        ensures
            final(self)@ == (PpuView {
                cpu_cycles,
                ..old(self)@.spec_run(((cpu_cycles - old(self).cpu_cycles) * 3) as nat)
            }),
            final(self)@.wf(),
            r == final(self)@.spec_nmi_due(),
    {
        let cycles_to_run = (cpu_cycles - self.cpu_cycles) * 3;
        let mut i: u64 = 0;
        while i < cycles_to_run
            invariant
                i <= cycles_to_run,
                self@.wf(),
                self@ == old(self)@.spec_run(i as nat),
            decreases cycles_to_run - i,
        {
            self.tick();
            i += 1;
        }
        self.cpu_cycles = cpu_cycles;
        self.reg_status & STATUS_IN_VBLANK != 0 && self.nmi_pending
    }
}

impl PpuView {
    /// The state that `hard_reset` leaves: registers, scroll and position cleared, black frames.
    pub open spec fn spec_hard_reset(self) -> PpuView {
        PpuView {
            ctrl: 0,
            mask: 0,
            status: 0,
            oam_addr: 0,
            scroll: PpuScrollReg { x: 0, y: 0 },
            reg_v: 0,
            reg_t: 0,
            reg_x: 0,
            is_address_latch_on: false,
            is_odd_frame: false,
            scanline: 0,
            cycle: 0,
            cpu_cycles: 0,
            output: Seq::new(FRAME_PIXELS as nat, |i: int| PpuPaletteColor { red: 0, green: 0, blue: 0 }),
            curr_frame: Seq::new(FRAME_PIXELS as nat, |i: int| PpuPaletteColor { red: 0, green: 0, blue: 0 }),
            ..self
        }
    }
}

impl Ppu {
    /// A PPU on the given memory, after a hard reset.
    pub fn new(ppu_mem_map: PpuMemMap) -> (r: Ppu)
        ensures
            r@.wf(),
            r@.mem == ppu_mem_map@,
            r@.ctrl == 0 && r@.mask == 0 && r@.status == 0,
            r@.scanline == 0 && r@.cycle == 0 && r@.cpu_cycles == 0,
            r@.reg_v == 0 && r@.reg_t == 0 && r@.reg_x == 0,
            !r@.nmi_pending && !r@.is_frame_ready && !r@.should_skip_vbl,
            r@.is_mutating_read,
            r@.secondary_count == 0 && r@.units_count == 0,
    {
        let empty_secondary = SecondaryOamEntry { oam_entry: OamEntry::empty(), sprite_index: 0 };
        let empty_unit = SpriteOutputUnit {
            secondary_oam_entry: empty_secondary,
            pattern_low: [0u8; 16],
            pattern_high: [0u8; 16],
        };
        let mut ppu = Ppu {
            reg_ctrl: 0,
            reg_mask: 0,
            reg_status: 0,
            reg_oam_addr: 0,
            reg_oam_data: 0,
            reg_scroll: PpuScrollReg { x: 0, y: 0 },
            reg_v: 0,
            reg_t: 0,
            reg_x: 0,
            is_odd_frame: false,
            is_address_latch_on: false,
            curr_scanline: 0,
            curr_scanline_cycle: 0,
            cpu_cycles: 0,
            nmi_pending: false,
            ppu_mem_map,
            mem_map_config: MemMapConfig::new(),
            shift_regs: PpuShiftRegisters {
                reg_high_plane: 0,
                reg_low_plane: 0,
                attribute_latch_high: false,
                attribute_latch_low: false,
                palette_index_high: 0,
                palette_index_low: 0,
            },
            secondary_oam: SecondaryOam { oam_entries: [empty_secondary; 8], count: 0 },
            sprite_output_units: SpriteOutputUnits { units: [empty_unit; 8], count: 0 },
            curr_frame: PpuOutput::new(),
            is_frame_ready: false,
            output: PpuOutput::new(),
            should_skip_vbl: false,
            read_buffer: 0,
        };
        ppu.hard_reset();
        ppu
    }

    #[inline]
    pub fn clear_nmi(&mut self)
        ensures
            final(self)@ == (PpuView { nmi_pending: false, ..old(self)@ }),
    {
        self.nmi_pending = false;
    }

    #[inline]
    pub fn is_vblank_starting_cycle(&self) -> (r: bool)
        ensures
            r == self@.is_vblank_starting_cycle(),
    {
        self.curr_scanline == 241 && self.curr_scanline_cycle == 1
    }

    pub fn hard_reset(&mut self)
        ensures
            final(self)@ == old(self)@.spec_hard_reset(),
    {
        self.reg_ctrl = 0;
        self.reg_mask = 0;
        self.reg_status = 0;
        self.reg_oam_addr = 0;
        self.reg_scroll = PpuScrollReg { x: 0, y: 0 };

        self.reg_v = 0;
        self.reg_t = 0;
        self.reg_x = 0;

        self.is_address_latch_on = false;
        self.is_odd_frame = false;

        self.curr_scanline = 0;
        self.curr_scanline_cycle = 0;
        self.cpu_cycles = 0;

        self.output = PpuOutput::new();
        self.curr_frame = PpuOutput::new();
    }

    #[inline]
    pub fn should_suppress_nmi(&self) -> (r: bool)
        ensures
            r == self@.should_skip_vbl,
    {
        self.should_skip_vbl
    }

    #[inline]
    pub fn is_frame_ready(&self) -> (r: bool)
        ensures
            r == self@.is_frame_ready,
    {
        self.is_frame_ready
    }

    /// The last complete frame; the frame is no longer reported ready.
    pub fn get_frame(&mut self) -> (r: &[PpuPaletteColor])
        ensures
            r@ == old(self)@.output,
            r@.len() == FRAME_PIXELS,
            final(self)@ == (PpuView { is_frame_ready: false, ..old(self)@ }),
    {
        self.is_frame_ready = false;
        self.output.data.as_slice()
    }

    #[inline]
    fn clock_mapper_irq(&mut self)
        ensures
            final(self)@ == (PpuView {
                mem: PpuMemMapView { mapper: crate::mappers::MapperImpl::after_clock_irq(old(self)@.mem.mapper, old(self)@.reg_v), ..old(self)@.mem },
                ..old(self)@
            }),
    {
        self.ppu_mem_map.mapper.clock_irq(self.reg_v);
    }

    pub fn is_mutating_read(&self) -> (r: bool)
        ensures
            r == self@.is_mutating_read,
    {
        self.mem_map_config.is_mutating_read
    }

    pub fn set_is_mutating_read(&mut self, is_mutating_read: bool)
        ensures
            final(self)@ == (PpuView { is_mutating_read, ..old(self)@ }),
    {
        self.mem_map_config.is_mutating_read = is_mutating_read;
    }
}

impl PpuView {
    pub open spec fn spec_increment_addr_read(self) -> u16 {
        if self.ctrl & CTRL_INCREMENT_MODE_32 != 0 { wadd16(self.reg_v, 32) } else { wadd16(self.reg_v, 1) }
    }

    pub open spec fn with_clocked_mapper(self) -> PpuView {
        PpuView {
            mem: PpuMemMapView { mapper: crate::mappers::MapperImpl::after_clock_irq(self.mem.mapper, self.reg_v), ..self.mem },
            ..self
        }
    }

    /// PPUDATA reads from palette RAM are not buffered.
    pub open spec fn is_palette_addr(self) -> bool {
        0x3F00 <= self.reg_v <= 0x3FFF
    }
}

impl MemMapped for Ppu {
    /// PPUSTATUS (2), OAMDATA (4) and PPUDATA (7) can be read; the write-only registers read as 0.
    /// PPUSTATUS holds three flags (bits 5-7); its other bits read as 0.
    open spec fn peek(v: PpuView, index: u16) -> u8 {
        if index == 2 {
            v.status & 0xE0
        } else if index == 4 {
            if v.is_mutating_read { v.mem.oam[(v.oam_addr / 4) as int].spec_read((v.oam_addr % 4) as int) } else { v.oam_data }
        } else if index == 7 {
            if v.is_palette_addr() { PpuMemMap::peek(v.mem, v.reg_v) } else { v.read_buffer }
        } else {
            0
        }
    }

    /// Reading PPUSTATUS clears vblank and the write latch, and near the start of vblank
    /// suppresses that frame's NMI; reading PPUDATA refills the read buffer and moves v on.
    open spec fn after_read(v: PpuView, index: u16) -> PpuView {
        if index == 2 {
            if v.is_mutating_read {
                let near_vblank = v.scanline == 241 && v.cycle <= 3;
                PpuView {
                    should_skip_vbl: if near_vblank { true } else { v.should_skip_vbl },
                    nmi_pending: if near_vblank { false } else { v.nmi_pending },
                    is_address_latch_on: false,
                    status: v.status & !STATUS_IN_VBLANK,
                    ..v
                }
            } else {
                v
            }
        } else if index == 4 {
            if v.is_mutating_read {
                PpuView { oam_data: v.mem.oam[(v.oam_addr / 4) as int].spec_read((v.oam_addr % 4) as int), ..v }
            } else {
                v
            }
        } else if index == 7 {
            let v1 = if v.is_palette_addr() { PpuView { mem: PpuMemMap::after_read(v.mem, v.reg_v), ..v } } else { v };
            if v1.is_mutating_read {
                let v2 = PpuView {
                    read_buffer: PpuMemMap::peek(v1.mem, v1.reg_v),
                    mem: PpuMemMap::after_read(v1.mem, v1.reg_v),
                    ..v1
                };
                PpuView { reg_v: v2.spec_increment_addr_read(), ..v2 }.with_clocked_mapper()
            } else {
                v1
            }
        } else {
            v
        }
    }

    open spec fn after_write(v: PpuView, index: u16, byte: u8) -> PpuView {
        if index == 0 {
            let old_nmi_enabled = v.ctrl & CTRL_NMI_ENABLED != 0;
            let ctrl = byte & CTRL_BITS;
            let nmi_enabled = ctrl & CTRL_NMI_ENABLED != 0;
            let nmi1 = if !old_nmi_enabled && nmi_enabled && v.status & STATUS_IN_VBLANK != 0 && v.cycle > 3 {
                true
            } else {
                v.nmi_pending
            };
            // reg_t: ....GH.. ........ <- byte: ......GH
            PpuView {
                ctrl,
                nmi_pending: if !nmi_enabled { false } else { nmi1 },
                reg_t: (v.reg_t & !0x0C00u16) | ((((byte & 0b11) as u16) << 10u16) & 0x0C00),
                ..v
            }
        } else if index == 1 {
            PpuView { mask: byte, ..v }
        } else if index == 3 {
            PpuView { oam_addr: byte, ..v }
        } else if index == 4 {
            let i = (v.oam_addr / 4) as int;
            PpuView {
                mem: PpuMemMapView { oam: v.mem.oam.update(i, v.mem.oam[i].spec_write_u8((v.oam_addr % 4) as int, byte)), ..v.mem },
                oam_addr: wadd8(v.oam_addr, 1),
                ..v
            }
        } else if index == 5 {
            if !v.is_address_latch_on {
                // reg_t: ....... ...ABCDE <- byte: ABCDE...; reg_x: FGH <- byte: .....FGH
                PpuView {
                    reg_t: (v.reg_t & !0x001Fu16) | (((byte & 0b1111_1000) >> 3u8) as u16),
                    reg_x: byte & 0b111,
                    is_address_latch_on: true,
                    ..v
                }
            } else {
                // reg_t: .FGH..AB CDE..... <- byte: ABCDEFGH
                PpuView {
                    reg_t: (v.reg_t & !0x73E0u16) | ((((byte & 0b111) as u16) << 12u16)
                        | ((((byte & 0b1100_0000) as u16) >> 6u16) << 8u16)
                        | ((((byte & 0b0011_1000) as u16) >> 3u16) << 5u16)),
                    is_address_latch_on: false,
                    ..v
                }
            }
        } else if index == 6 {
            let v1 = if !v.is_address_latch_on {
                // reg_t: ..CDEFGH ........ <- byte: ..CDEFGH, and bit 14 cleared
                PpuView {
                    reg_t: ((v.reg_t & !0x3F00u16) | (((byte & 0b0011_1111) as u16) << 8u16)) & 0xBFFF,
                    is_address_latch_on: true,
                    ..v
                }
            } else {
                // reg_t: ....... ABCDEFGH <- byte; then v = t
                let t = (v.reg_t & !0x00FFu16) | (byte as u16);
                PpuView { reg_t: t, reg_v: t, is_address_latch_on: false, ..v }
            };
            v1.with_clocked_mapper()
        } else if index == 7 {
            let v1 = PpuView { mem: PpuMemMap::after_write(v.mem, v.reg_v, byte), ..v };
            PpuView { reg_v: v1.spec_increment_addr_read(), ..v1 }.with_clocked_mapper()
        } else {
            v
        }
    }

    fn read(&mut self, index: u16) -> (r: u8) {
        if index == 2 {
            // PPUSTATUS: vblank, sprite 0 hit and sprite overflow.
            let value = self.reg_status & 0xE0;
            if self.is_mutating_read() {
                // Reading $2002 at or just around the start of vblank suppresses that frame's NMI.
                if self.curr_scanline == 241 && self.curr_scanline_cycle <= 3 {
                    self.should_skip_vbl = true;
                    self.nmi_pending = false;
                }
                // Reading also resets the write latch and the vblank flag.
                self.is_address_latch_on = false;
                self.reg_status = self.reg_status & !STATUS_IN_VBLANK;
            }
            value
        } else if index == 4 {
            // OAMDATA
            if self.is_mutating_read() {
                self.reg_oam_data = self.ppu_mem_map.oam_table.read(self.reg_oam_addr);
            }
            self.reg_oam_data
        } else if index == 7 {
            // PPUDATA
            let data = if 0x3F00 <= self.reg_v && self.reg_v <= 0x3FFF {
                // Reads from palette RAM are not buffered
                self.ppu_mem_map.read(self.reg_v)
            } else {
                self.read_buffer
            };
            if self.is_mutating_read() {
                self.read_buffer = self.ppu_mem_map.read(self.reg_v);
                self.increment_addr_read();
                self.clock_mapper_irq();
            }
            data
        } else {
            // Write-only registers
            0
        }
    }

    fn write(&mut self, index: u16, byte: u8) {
        if index == 0 {
            let old_is_nmi_enabled = self.reg_ctrl & CTRL_NMI_ENABLED != 0;
            self.reg_ctrl = byte & CTRL_BITS;
            if !old_is_nmi_enabled && self.reg_ctrl & CTRL_NMI_ENABLED != 0
                && self.reg_status & STATUS_IN_VBLANK != 0 && self.curr_scanline_cycle > 3 {
                self.nmi_pending = true;
            }
            if self.reg_ctrl & CTRL_NMI_ENABLED == 0 {
                self.nmi_pending = false;
            }
            let name_table_index = ((byte & 0b11) as u16) << 10u16;
            let mask: u16 = 0b0000_1100_0000_0000;
            self.reg_t = (self.reg_t & !mask) | (name_table_index & mask);
        } else if index == 1 {
            self.reg_mask = byte;
        } else if index == 3 {
            self.reg_oam_addr = byte;
        } else if index == 4 {
            self.ppu_mem_map.oam_table.write_u8(self.reg_oam_addr, byte);
            self.reg_oam_addr = self.reg_oam_addr.wrapping_add(1);
        } else if index == 5 {
            if !self.is_address_latch_on {
                let mask_t: u16 = 0b0000_0000_0001_1111;
                let data_t = ((byte & 0b1111_1000) >> 3u8) as u16;
                self.reg_t = (self.reg_t & !mask_t) | data_t;
                self.reg_x = byte & 0b0000_0111;
                self.is_address_latch_on = true;
            } else {
                let mask: u16 = 0b0111_0011_1110_0000;
                let acc = (((byte & 0b0000_0111) as u16) << 12u16)
                    | ((((byte & 0b1100_0000) as u16) >> 6u16) << 8u16)
                    | ((((byte & 0b0011_1000) as u16) >> 3u16) << 5u16);
                self.reg_t = (self.reg_t & !mask) | acc;
                self.is_address_latch_on = false;
            }
        } else if index == 6 {
            if !self.is_address_latch_on {
                let mask_t: u16 = 0b0011_1111_0000_0000;
                let mask_z: u16 = 0b1011_1111_1111_1111;
                let data = ((byte & 0b0011_1111) as u16) << 8u16;
                self.reg_t = ((self.reg_t & !mask_t) | data) & mask_z;
                self.is_address_latch_on = true;
            } else {
                let mask: u16 = 0b0000_0000_1111_1111;
                self.reg_t = (self.reg_t & !mask) | (byte as u16);
                self.reg_v = self.reg_t;
                self.is_address_latch_on = false;
            }
            self.clock_mapper_irq();
        } else if index == 7 {
            self.ppu_mem_map.write(self.reg_v, byte);
            self.increment_addr_read();
            self.clock_mapper_irq();
        }
    }
}

impl Ppu {
    /// Checks the invariant that `step` needs (it holds of every PPU that `new` made and this
    /// module changed).
    pub fn is_wf(&self) -> (r: bool)
        ensures
            r == self@.wf(),
    {
        proof {
            assert forall|i: int| 0 <= i < 8 implies #[trigger] self@.units[i].low.len() == 16 && self@.units[i].high.len() == 16 by {
                assert(self@.units[i] == self.sprite_output_units.units@[i]@);
            }
        }
        self.curr_scanline < 262 && self.curr_scanline_cycle <= 341 && self.reg_x < 8
            && self.secondary_oam.count <= 8 && self.sprite_output_units.count <= 8
    }
}

proof fn lemma_register_bits(b: u8, t: u16, hi: u8, lo: u8, st: u8)
    by (bit_vector)
    ensures
        ((if b & 0x80 != 0 { 0x80u8 } else { 0u8 }) | (if b & 0x40 != 0 { 0x40u8 } else { 0u8 })
            | (if b & 0x20 != 0 { 0x20u8 } else { 0u8 }) | (b & 0b11)) == b & 0xE3,
        (((((t & !0x3F00u16) | (((hi & 0b0011_1111) as u16) << 8u16)) & 0xBFFF) & !0x00FFu16) | (lo as u16))
            == (t & 0x8000) | (((hi & 0b0011_1111) as u16) << 8u16) | (lo as u16),
        (st & !STATUS_IN_VBLANK) & STATUS_IN_VBLANK == 0,
{
}

/// A byte written to OAMDATA ($2004) reads back from the same OAM address: sprite Y, tile and
/// X as written, the attribute byte without its unimplemented bits 2-4.
pub proof fn law_oam_data_round_trip(v: PpuView, addr: u8, b: u8)
    requires
        v.mem.oam.len() == 64,
        v.is_mutating_read,
    ensures
        ({
            let v1 = Ppu::after_write(Ppu::after_write(Ppu::after_write(v, 3, addr), 4, b), 3, addr);
            Ppu::peek(v1, 4) == (if addr % 4 == 2 { b & 0xE3 } else { b })
        }),
{
    lemma_register_bits(b, 0, 0, 0, 0);
}

/// The OAM table after `write_u8(i, b)`.
pub open spec fn oam_after_write_u8(t: Seq<OamEntry>, i: u8, b: u8) -> Seq<OamEntry> {
    t.update((i / 4) as int, t[(i / 4) as int].spec_write_u8((i % 4) as int, b))
}

/// The byte that `read(i)` gives of an OAM table.
pub open spec fn oam_byte(t: Seq<OamEntry>, i: u8) -> u8 {
    t[(i / 4) as int].spec_read((i % 4) as int)
}

/// An OAM byte reads back as last written (the attribute byte without its unimplemented bits
/// 2-4), and a write to another OAM byte leaves it alone.
pub proof fn law_oam_byte_round_trip(t: Seq<OamEntry>, i: u8, b: u8, j: u8, c: u8)
    requires
        t.len() == 64,
    ensures
        oam_byte(oam_after_write_u8(t, i, b), i) == (if i % 4 == 2 { b & 0xE3 } else { b }),
        j != i ==> oam_byte(oam_after_write_u8(t, j, c), i) == oam_byte(t, i),
{
    lemma_register_bits(b, 0, 0, 0, 0);
}

/// Two writes to PPUADDR ($2006), high byte then low byte, set the VRAM address (bit 14 cleared,
/// bit 15 of t kept as it was) and leave the write latch off.
pub proof fn law_ppuaddr_sets_v(v: PpuView, hi: u8, lo: u8)
    requires
        !v.is_address_latch_on,
    ensures
        ({
            let v2 = Ppu::after_write(Ppu::after_write(v, 6, hi), 6, lo);
            &&& v2.reg_v == (v.reg_t & 0x8000) | (((hi & 0b0011_1111) as u16) << 8u16) | (lo as u16)
            &&& !v2.is_address_latch_on
        }),
{
    lemma_register_bits(0, v.reg_t, hi, lo, 0);
}

/// Reading PPUSTATUS ($2002) returns its three flags (bits 0-4 read as 0) and clears the vblank
/// flag and the write latch.
pub proof fn law_status_read_clears_vblank(v: PpuView)
    requires
        v.is_mutating_read,
    ensures
        Ppu::peek(v, 2) == v.status & 0xE0,
        Ppu::peek(v, 2) & 0x1F == 0,
        Ppu::after_read(v, 2).status & STATUS_IN_VBLANK == 0,
        !Ppu::after_read(v, 2).is_address_latch_on,
{
    lemma_register_bits(0, 0, 0, 0, v.status);
    let s = v.status;
    assert((s & 0xE0) & 0x1F == 0) by (bit_vector);
}

proof fn lemma_scroll_bits(t: u16, x: u8, y: u8)
    by (bit_vector)
    ensures
        ({
            let t1 = (t & !0x001Fu16) | (((x & 0b1111_1000) >> 3u8) as u16);
            let t2 = (t1 & !0x73E0u16) | ((((y & 0b111) as u16) << 12u16)
                | ((((y & 0b1100_0000) as u16) >> 6u16) << 8u16)
                | ((((y & 0b0011_1000) as u16) >> 3u16) << 5u16));
            &&& t1 & 0x1F == (x >> 3u8) as u16
            &&& t1 & 0xFFE0 == t & 0xFFE0
            &&& t2 & 0x1F == (x >> 3u8) as u16
            &&& (t2 >> 5u16) & 0x1F == (y >> 3u8) as u16
            &&& (t2 >> 12u16) & 0x7 == (y & 7) as u16
            &&& t2 & 0x8C00 == t & 0x8C00
            &&& x & 0b111 == x & 7
        }),
{
}

/// PPUSCROLL ($2005) takes X then Y: with the write latch clear, a write sets coarse X (bits
/// 0-4 of t) to X / 8 and fine X to X % 8, keeps the rest of t and sets the latch; the next
/// write sets coarse Y (bits 5-9) to Y / 8 and fine Y (bits 12-14) to Y % 8, keeps coarse X,
/// the name table bits and bit 15, and clears the latch.
#[verifier::spinoff_prover]
pub proof fn law_ppuscroll_x_then_y(v: PpuView, x: u8, y: u8)
    requires
        !v.is_address_latch_on,
    ensures
        ({
            let v1 = Ppu::after_write(v, 5, x);
            let v2 = Ppu::after_write(v1, 5, y);
            &&& v1.is_address_latch_on
            &&& v1.reg_t & 0x1F == (x >> 3u8) as u16
            &&& v1.reg_t & 0xFFE0 == v.reg_t & 0xFFE0
            &&& v1.reg_x == x & 7
            &&& !v2.is_address_latch_on
            &&& v2.reg_t & 0x1F == (x >> 3u8) as u16
            &&& (v2.reg_t >> 5u16) & 0x1F == (y >> 3u8) as u16
            &&& (v2.reg_t >> 12u16) & 0x7 == (y & 7) as u16
            &&& v2.reg_t & 0x8C00 == v.reg_t & 0x8C00
            &&& v2.reg_x == x & 7
        }),
{
    lemma_scroll_bits(v.reg_t, x, y);
}

proof fn lemma_ctrl_bits(t: u16, b: u8)
    by (bit_vector)
    ensures
        ({
            let t1 = (t & !0x0C00u16) | ((((b & 0b11) as u16) << 10u16) & 0x0C00);
            &&& (t1 >> 10u16) & 3 == (b & 3) as u16
            &&& t1 & 0xF3FF == t & 0xF3FF
        }),
{
}

/// PPUCTRL ($2000): bits 2-7 of the byte become the control flags, bits 0-1 go to the name
/// table bits (10-11) of t, whose other bits stay. Clearing bit 7 drops a pending NMI; setting
/// it while it was clear, with vblank on and past the first cycles of the line, raises one.
#[verifier::spinoff_prover]
pub proof fn law_ppuctrl_write(v: PpuView, b: u8)
    ensures
        ({
            let w = Ppu::after_write(v, 0, b);
            let raise = v.ctrl & 0x80 == 0 && b & 0x80 != 0 && v.status & 0x80 != 0 && v.cycle > 3;
            &&& w.ctrl == b & 0xFC
            &&& (w.reg_t >> 10u16) & 3 == (b & 3) as u16
            &&& w.reg_t & 0xF3FF == v.reg_t & 0xF3FF
            &&& b & 0x80 == 0 ==> !w.nmi_pending
            &&& raise ==> w.nmi_pending
            &&& (b & 0x80 != 0 && !raise) ==> w.nmi_pending == v.nmi_pending
            &&& w.reg_v == v.reg_v && w.reg_x == v.reg_x && w.is_address_latch_on == v.is_address_latch_on
            &&& w.mask == v.mask && w.status == v.status && w.mem == v.mem
        }),
{
    lemma_ctrl_bits(v.reg_t, b);
    assert((b & 0xFC) & 0x80 == b & 0x80) by (bit_vector);
}

/// PPUDATA ($2007) moves the VRAM address on after each access, by 32 when bit 2 of PPUCTRL
/// is set and by 1 otherwise (modulo 2^16). A write stores the byte at the old address and
/// leaves t, x, the latch, the control flags and OAM alone.
proof fn lemma_increment_addr(v: PpuView)
    ensures
        v.spec_increment_addr_read() as int == (v.reg_v + (if v.ctrl & 0x04 != 0 { 32int } else { 1int })) % 65536,
{
}

#[verifier::spinoff_prover]
pub proof fn law_ppudata_write(v: PpuView, b: u8)
    ensures
        ({
            let step: int = if v.ctrl & 0x04 != 0 { 32 } else { 1 };
            let w = Ppu::after_write(v, 7, b);
            &&& w.reg_v as int == (v.reg_v + step) % 65536
            &&& w.mem.palette == PpuMemMap::after_write(v.mem, v.reg_v, b).palette
            &&& w.mem.oam == v.mem.oam
            &&& w.reg_t == v.reg_t && w.reg_x == v.reg_x && w.is_address_latch_on == v.is_address_latch_on
            &&& w.ctrl == v.ctrl && w.status == v.status
        }),
{
    let v1 = PpuView { mem: PpuMemMap::after_write(v.mem, v.reg_v, b), ..v };
    let w0 = PpuView { reg_v: v1.spec_increment_addr_read(), ..v1 };
    assert(Ppu::after_write(v, 7, b) == w0.with_clocked_mapper());
    lemma_increment_addr(v1);
}

/// A read of PPUDATA moves the VRAM address on in the same way. Outside the palette it returns
/// the buffered byte and refills the buffer from the old address; a read of the palette
/// returns the palette byte itself.
#[verifier::spinoff_prover]
pub proof fn law_ppudata_read(v: PpuView)
    requires
        v.is_mutating_read,
    ensures
        ({
            let step: int = if v.ctrl & 0x04 != 0 { 32 } else { 1 };
            let r = Ppu::peek(v, 7);
            let u = Ppu::after_read(v, 7);
            &&& u.reg_v as int == (v.reg_v + step) % 65536
            &&& !(0x3F00 <= v.reg_v <= 0x3FFF) ==> r == v.read_buffer && u.read_buffer == PpuMemMap::peek(v.mem, v.reg_v)
            &&& 0x3F00 <= v.reg_v <= 0x3FFF ==> r == PpuMemMap::peek(v.mem, v.reg_v)
            &&& u.reg_t == v.reg_t && u.ctrl == v.ctrl && u.is_address_latch_on == v.is_address_latch_on
        }),
{
    let v1 = if v.is_palette_addr() { PpuView { mem: PpuMemMap::after_read(v.mem, v.reg_v), ..v } } else { v };
    let v2 = PpuView {
        read_buffer: PpuMemMap::peek(v1.mem, v1.reg_v),
        mem: PpuMemMap::after_read(v1.mem, v1.reg_v),
        ..v1
    };
    assert(Ppu::after_read(v, 7) == PpuView { reg_v: v2.spec_increment_addr_read(), ..v2 }.with_clocked_mapper());
    lemma_increment_addr(v2);
}

} // verus!
