// The PPU palette: 64 system colors and the 32 palette RAM entries that pick among them.
use vstd::prelude::*;
use crate::memory::MemMapped;

verus! {

pub const PALETTE_COLOR_BYTE_LEN: usize = 3;

#[derive(Debug, Default, Clone, Copy, PartialEq, Eq, Structural)]
pub struct PpuPaletteColor {
    pub red: u8,
    pub green: u8,
    pub blue: u8,
}

impl PpuPaletteColor {
    /// The color that an RGB triplet describes.
    pub fn from_triplet(triplet: &[u8]) -> (r: PpuPaletteColor)
        requires
            triplet@.len() >= 3,
        ensures
            r == (PpuPaletteColor { red: triplet@[0], green: triplet@[1], blue: triplet@[2] }),
    {
        PpuPaletteColor { red: triplet[0], green: triplet[1], blue: triplet[2] }
    }
}

/// Why a palette could not be read.
#[derive(Debug, Clone, Copy)]
pub enum PaletteError {
    /// Fewer than 64 color triplets (192 bytes).
    UnexpectedEnd,
}

#[derive(Clone, Copy)]
pub struct PpuPalette {
    pub colors: [PpuPaletteColor; 64],
    /// Palette RAM: each entry selects one of the 64 colors.
    pub mapping: [u8; 32],
}

/// The state of a `PpuPalette` as a mathematical value.
pub struct PpuPaletteView {
    pub colors: Seq<PpuPaletteColor>,
    pub mapping: Seq<u8>,
}

impl View for PpuPalette {
    type V = PpuPaletteView;

    open spec fn view(&self) -> PpuPaletteView {
        PpuPaletteView { colors: self.colors@, mapping: self.mapping@ }
    }
}

/// The palette RAM entry of color `color_index` (1-3) in background palette `palette_index`
/// (0-3), or in sprite palette `palette_index` when `is_sprite`.
pub open spec fn mapping_index(is_sprite: bool, palette_index: u8, color_index: u8) -> int {
    (if is_sprite { 0x11int } else { 0x1int }) + 4 * palette_index + color_index - 1
}

/// The palette RAM entries that share storage: $3F10/$3F14/$3F18/$3F1C are $3F00/$3F04/$3F08/$3F0C.
pub open spec fn is_shared_entry(index: int) -> bool {
    index % 4 == 0
}

impl PpuPaletteView {
    /// The system color that palette RAM entry `i` selects (six bits of it).
    pub open spec fn color_at(self, i: int) -> PpuPaletteColor {
        self.colors[(self.mapping[i] % 64) as int]
    }

    pub open spec fn transparent_color(self) -> PpuPaletteColor {
        self.color_at(0)
    }

    /// Color 0 of every palette is the shared backdrop color.
    pub open spec fn spec_color(self, is_sprite: bool, palette_index: u8, color_index: u8) -> PpuPaletteColor {
        if color_index == 0 {
            self.transparent_color()
        } else {
            self.color_at(mapping_index(is_sprite, palette_index, color_index))
        }
    }
}

/// The 64 colors of a palette file: RGB triplets, one after another.
pub open spec fn colors_of(bytes: Seq<u8>) -> Seq<PpuPaletteColor> {
    Seq::new(64, |i: int| PpuPaletteColor { red: bytes[3 * i], green: bytes[3 * i + 1], blue: bytes[3 * i + 2] })
}

impl PpuPalette {
    /// A palette from the bytes of a palette file (64 RGB triplets; more bytes are ignored),
    /// with palette RAM cleared.
    pub fn from_bytes(bytes: &[u8]) -> (r: Result<PpuPalette, PaletteError>)
        ensures
            match r {
                Ok(p) => bytes@.len() >= 64 * PALETTE_COLOR_BYTE_LEN && p@.colors == colors_of(bytes@)
                    && p@.mapping == Seq::new(32, |i: int| 0u8),
                Err(_) => bytes@.len() < 64 * PALETTE_COLOR_BYTE_LEN,
            },
    {
        if bytes.len() < 64 * PALETTE_COLOR_BYTE_LEN {
            return Err(PaletteError::UnexpectedEnd);
        }
        let mut colors = [PpuPaletteColor { red: 0, green: 0, blue: 0 }; 64];
        let mut i: usize = 0;
        while i < 64
            invariant
                i <= 64,
                bytes@.len() >= 192,
                forall|j: int| 0 <= j < i ==> colors@[j] == colors_of(bytes@)[j],
            decreases 64 - i,
        {
            let color = PpuPaletteColor { red: bytes[3 * i], green: bytes[3 * i + 1], blue: bytes[3 * i + 2] };
            colors[i] = color;
            i += 1;
        }
        let p = PpuPalette { colors, mapping: [0u8; 32] };
        assert(p@.colors =~= colors_of(bytes@));
        assert(p@.mapping =~= Seq::new(32, |i: int| 0u8));
        Ok(p)
    }

    fn color_at(&self, i: usize) -> (r: PpuPaletteColor)
        requires
            i < 32,
        ensures
            r == self@.color_at(i as int),
    {
        self.colors[(self.mapping[i] % 64) as usize]
    }

    /// Color `color_index` (0-3) of background palette `palette_index` (0-3).
    pub fn get_background_color(&self, palette_index: u8, color_index: u8) -> (r: PpuPaletteColor)
        requires
            palette_index < 4,
            color_index < 4,
        ensures
            r == self@.spec_color(false, palette_index, color_index),
    {
        if color_index == 0 {
            self.get_transparent_color()
        } else {
            let base_mapping_index: usize = match palette_index {
                0 => 0x1,
                1 => 0x5,
                2 => 0x9,
                _ => 0xD,
            };
            let mapping_index = base_mapping_index + color_index as usize - 1;
            self.color_at(mapping_index)
        }
    }

    /// Color `color_index` (0-3) of sprite palette `palette_index` (0-3).
    pub fn get_sprite_color(&self, palette_index: u8, color_index: u8) -> (r: PpuPaletteColor)
        requires
            palette_index < 4,
            color_index < 4,
        ensures
            r == self@.spec_color(true, palette_index, color_index),
    {
        if color_index == 0 {
            self.get_transparent_color()
        } else {
            let base_mapping_index: usize = match palette_index {
                0 => 0x11,
                1 => 0x15,
                2 => 0x19,
                _ => 0x1D,
            };
            let mapping_index = base_mapping_index + color_index as usize - 1;
            self.color_at(mapping_index)
        }
    }

    /// The backdrop color (palette RAM entry 0).
    pub fn get_transparent_color(&self) -> (r: PpuPaletteColor)
        ensures
            r == self@.transparent_color(),
    {
        self.color_at(0)
    }

    pub fn is_transparent_color(&self, color: &PpuPaletteColor) -> (r: bool)
        ensures
            r == (*color == self@.transparent_color()),
    {
        *color == self.get_transparent_color()
    }
}

impl MemMapped for PpuPalette {
    /// Palette RAM, 32 entries mirrored over the index.
    open spec fn peek(v: PpuPaletteView, index: u16) -> u8 {
        v.mapping[(index % 32) as int]
    }

    open spec fn after_read(v: PpuPaletteView, index: u16) -> PpuPaletteView {
        v
    }

    /// Entries 0/$10, 4/$14, 8/$18 and $C/$1C are one entry each.
    open spec fn after_write(v: PpuPaletteView, index: u16, byte: u8) -> PpuPaletteView {
        let i = (index % 32) as int;
        if is_shared_entry(i) {
            PpuPaletteView { mapping: v.mapping.update(i % 16, byte).update(i % 16 + 16, byte), ..v }
        } else {
            PpuPaletteView { mapping: v.mapping.update(i, byte), ..v }
        }
    }

    fn read(&mut self, index: u16) -> (r: u8) {
        self.mapping[(index % 32) as usize]
    }

    fn write(&mut self, index: u16, byte: u8) {
        let index = (index % 32) as usize;
        if index == 0x0 || index == 0x10 {
            self.mapping[0x0] = byte;
            self.mapping[0x10] = byte;
        } else if index == 0x04 || index == 0x14 {
            self.mapping[0x04] = byte;
            self.mapping[0x14] = byte;
        } else if index == 0x08 || index == 0x18 {
            self.mapping[0x08] = byte;
            self.mapping[0x18] = byte;
        } else if index == 0x0C || index == 0x1C {
            self.mapping[0x0C] = byte;
            self.mapping[0x1C] = byte;
        } else {
            self.mapping[index] = byte;
        }
    }
}

/// Palette RAM entries $10, $14, $18 and $1C are entries $00, $04, $08 and $0C: a byte written
/// at either address reads back at both; other entries read back where they were written.
pub proof fn law_palette_mirrors(v: PpuPaletteView, i: u16, b: u8)
    requires
        v.mapping.len() == 32,
    ensures
        is_shared_entry((i % 32) as int) ==> PpuPalette::peek(PpuPalette::after_write(v, i, b), i % 16) == b,
        is_shared_entry((i % 32) as int) ==> PpuPalette::peek(PpuPalette::after_write(v, i, b), (i % 16 + 16) as u16) == b,
        PpuPalette::peek(PpuPalette::after_write(v, i, b), i) == b,
{
}

/// Whether palette RAM indices `i` and `j` name the same entry: the same index modulo 32, or
/// two of the shared entries $00/$10, $04/$14, $08/$18, $0C/$1C.
pub open spec fn same_entry(i: u16, j: u16) -> bool {
    ||| i % 32 == j % 32
    ||| is_shared_entry((i % 32) as int) && is_shared_entry((j % 32) as int) && i % 16 == j % 16
}

/// A palette entry reads back as last written through any of its names, and a write to another
/// entry leaves it alone.
pub proof fn law_palette_round_trip(v: PpuPaletteView, i: u16, b: u8, j: u16, c: u8)
    requires
        v.mapping.len() == 32,
    ensures
        same_entry(i, j) ==> PpuPalette::peek(PpuPalette::after_write(v, i, b), j) == b,
        !same_entry(i, j) ==> PpuPalette::peek(PpuPalette::after_write(v, j, c), i) == PpuPalette::peek(v, i),
{
}
} // verus!
