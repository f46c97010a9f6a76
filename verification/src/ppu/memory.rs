// The PPU's address space: pattern tables and name tables on the cartridge, palette RAM
// inside the PPU; object attribute memory beside it.
use vstd::prelude::*;
use crate::bits::wadd16;
use crate::mappers::{MapperImpl, MapperView};
use crate::memory::{spec_read_n, MemMapped};
use crate::ppu::palette::{PpuPalette, PpuPaletteView};
use crate::ppu::{OamEntry, OamTable};

verus! {

pub struct PpuMemMap {
    pub oam_table: OamTable,
    pub palette: PpuPalette,
    pub mapper: MapperImpl,
}

/// The state of a `PpuMemMap` as a mathematical value.
pub struct PpuMemMapView {
    pub oam: Seq<OamEntry>,
    pub palette: PpuPaletteView,
    pub mapper: MapperView,
}

impl View for PpuMemMap {
    type V = PpuMemMapView;

    open spec fn view(&self) -> PpuMemMapView {
        PpuMemMapView { oam: self.oam_table@, palette: self.palette@, mapper: self.mapper@ }
    }
}

/// The name table byte of the tile that `reg_v` points at.
pub open spec fn name_table_addr(reg_v: u16) -> u16 {
    0x2000 | (reg_v & 0x0FFF)
}

/// The attribute table byte of the tile that `reg_v` points at.
pub open spec fn attribute_table_addr(reg_v: u16) -> u16 {
    0x23C0 | (reg_v & 0x0C00) | ((reg_v >> 4) & 0x38) | ((reg_v >> 2) & 0x07)
}

/// A pattern table address:
/// 0HNNNN NNNNPyyy: H the table, N the tile, P the bit plane, y the row.
pub open spec fn pattern_addr(pattern_table_index: u8, tile: u8, plane: u16, row: u16) -> u16 {
    ((pattern_table_index as u16) << 12u16) | ((tile as u16) << 4u16) | (plane << 3u16) | row
}

/// The first byte of a 16-byte sprite pattern.
pub open spec fn sprite_pattern_addr(pattern_table_index: u8, tile: u8) -> u16 {
    (pattern_table_index * 0x1000 + tile * 16) as u16
}

impl PpuMemMap {
    pub fn new(mapper: MapperImpl, palette: PpuPalette) -> (r: PpuMemMap)
        ensures
            r@.mapper == mapper@,
            r@.palette == palette@,
            r@.oam == Seq::new(64, |i: int| crate::ppu::spec_oam_entry(0, 0, 0, 0)),
    {
        PpuMemMap { oam_table: OamTable::new(), palette, mapper }
    }

    pub fn fetch_name_table_entry(&mut self, reg_v: u16) -> (r: u8)
        ensures
            r == PpuMemMap::peek(old(self)@, name_table_addr(reg_v)),
            final(self)@ == PpuMemMap::after_read(old(self)@, name_table_addr(reg_v)),
    {
        let name_table_entry_addr = 0x2000 | (reg_v & 0x0FFF);
        self.read(name_table_entry_addr)
    }

    pub fn fetch_attribute_table_entry(&mut self, reg_v: u16) -> (r: u8)
        ensures
            r == PpuMemMap::peek(old(self)@, attribute_table_addr(reg_v)),
            final(self)@ == PpuMemMap::after_read(old(self)@, attribute_table_addr(reg_v)),
    {
        let attribute_table_entry_addr = 0x23C0 | (reg_v & 0x0C00) | ((reg_v >> 4) & 0x38) | ((reg_v >> 2) & 0x07);
        self.read(attribute_table_entry_addr)
    }

    /// The two bit planes of row `pixel_y` of a background tile.
    pub fn fetch_pattern_table_entry(&mut self, pattern_table_index: u8, name_table_entry: u8, pixel_y: u16) -> (r: [u8; 2])
        ensures
            ({
                let lo = pattern_addr(pattern_table_index, name_table_entry, 0, pixel_y);
                let hi = pattern_addr(pattern_table_index, name_table_entry, 1, pixel_y);
                let v1 = PpuMemMap::after_read(old(self)@, lo);
                &&& r@[0] == PpuMemMap::peek(old(self)@, lo)
                &&& r@[1] == PpuMemMap::peek(v1, hi)
                &&& final(self)@ == PpuMemMap::after_read(v1, hi)
            }),
    {
        let pattern_table_addr_low: u16 =
            ((pattern_table_index as u16) << 12u16) | ((name_table_entry as u16) << 4u16) | (0u16 << 3u16) | pixel_y;
        let pattern_table_addr_high: u16 =
            ((pattern_table_index as u16) << 12u16) | ((name_table_entry as u16) << 4u16) | (1u16 << 3u16) | pixel_y;
        let pattern_table_byte_low = self.read(pattern_table_addr_low);
        let pattern_table_byte_high = self.read(pattern_table_addr_high);
        [pattern_table_byte_low, pattern_table_byte_high]
    }

    /// The 16 bytes of a sprite tile: 8 rows of the low plane, then 8 of the high plane.
    pub fn fetch_sprite_pattern(&mut self, pattern_table_index: u8, pattern_entry_index: u8) -> (r: [u8; 16])
        requires
            pattern_table_index < 2,
        ensures
            (r@, final(self)@) == spec_read_n::<PpuMemMap>(
                old(self)@,
                sprite_pattern_addr(pattern_table_index, pattern_entry_index),
                16,
            ),
    {
        let base_addr = (pattern_table_index as u16) * 0x1000;
        let pattern_entry_addr = base_addr + (pattern_entry_index as u16 * 16);
        let mut result = [0u8; 16];
        let mut i: u16 = 0;
        while i < 16
            invariant
                i <= 16,
                pattern_entry_addr == sprite_pattern_addr(pattern_table_index, pattern_entry_index),
                pattern_entry_addr + 16 <= 0x2000,
                result@.len() == 16,
                (result@.take(i as int), self@) == spec_read_n::<PpuMemMap>(old(self)@, pattern_entry_addr, i as nat),
            decreases 16 - i,
        {
            let b = self.read(pattern_entry_addr + i);
            proof {
                assert(wadd16(pattern_entry_addr, i) == pattern_entry_addr + i);
            }
            result[i as usize] = b;
            proof {
                let (s0, v0) = spec_read_n::<PpuMemMap>(old(self)@, pattern_entry_addr, i as nat);
                assert(result@.take(i + 1) =~= s0.push(b));
            }
            i += 1;
        }
        proof {
            assert(result@.take(16) =~= result@);
        }
        result
    }
}

impl MemMapped for PpuMemMap {
    //      Address range	Size	Device
    //      $0000-$0FFF 	$1000 	Pattern table 0
    //      $1000-$1FFF 	$1000 	Pattern table 1
    //      $2000-$2FFF 	$1000 	Nametables 0-3
    //      $3000-$3EFF 	$0F00 	Mirrors of $2000-$2EFF
    //      $3F00-$3F1F 	$0020 	Palette RAM indexes
    //      $3F20-$3FFF 	$00E0 	Mirrors of $3F00-$3F1F
    // Addresses from $4000 up are outside the PPU's 14-bit bus: they read as 0 and ignore writes.
    open spec fn peek(v: PpuMemMapView, index: u16) -> u8 {
        if index <= 0x2FFF {
            MapperImpl::peek(v.mapper, index)
        } else if index <= 0x3EFF {
            MapperImpl::peek(v.mapper, (index - 0x1000) as u16)
        } else if index <= 0x3FFF {
            PpuPalette::peek(v.palette, ((index - 0x3F00) % 32) as u16)
        } else {
            0
        }
    }

    open spec fn after_read(v: PpuMemMapView, index: u16) -> PpuMemMapView {
        if index <= 0x2FFF {
            PpuMemMapView { mapper: MapperImpl::after_read(v.mapper, index), ..v }
        } else if index <= 0x3EFF {
            PpuMemMapView { mapper: MapperImpl::after_read(v.mapper, (index - 0x1000) as u16), ..v }
        } else if index <= 0x3FFF {
            PpuMemMapView { palette: PpuPalette::after_read(v.palette, ((index - 0x3F00) % 32) as u16), ..v }
        } else {
            v
        }
    }

    open spec fn after_write(v: PpuMemMapView, index: u16, byte: u8) -> PpuMemMapView {
        if index <= 0x2FFF {
            PpuMemMapView { mapper: MapperImpl::after_write(v.mapper, index, byte), ..v }
        } else if index <= 0x3EFF {
            PpuMemMapView { mapper: MapperImpl::after_write(v.mapper, (index - 0x1000) as u16, byte), ..v }
        } else if index <= 0x3FFF {
            PpuMemMapView { palette: PpuPalette::after_write(v.palette, ((index - 0x3F00) % 32) as u16, byte), ..v }
        } else {
            v
        }
    }

    fn read(&mut self, index: u16) -> (r: u8) {
        if index <= 0x2FFF {
            // CHR ROM/RAM and VRAM
            self.mapper.read(index)
        } else if index <= 0x3EFF {
            // Mirrors of 0x2000..=0x2EFF
            self.mapper.read(index - 0x1000)
        } else if index <= 0x3FFF {
            // Palette RAM
            self.palette.read((index - 0x3F00) % 32)
        } else {
            0
        }
    }

    fn write(&mut self, index: u16, byte: u8) {
        if index <= 0x2FFF {
            self.mapper.write(index, byte);
        } else if index <= 0x3EFF {
            self.mapper.write(index - 0x1000, byte);
        } else if index <= 0x3FFF {
            self.palette.write((index - 0x3F00) % 32, byte);
        }
    }
}

} // verus!
