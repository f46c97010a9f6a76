// NROM: no bank switching; 16 or 32 KB of PRG ROM, 8 KB of CHR ROM, optional PRG RAM.
use vstd::prelude::*;
use crate::mappers::{
    byte_at, mirror_vram_index, mirrored_vram_index, read_byte_at, set_at, write_byte_at,
    CpuMapper, PpuMapper,
};
use crate::memory::{copy_bytes, zeroed_bytes, MemMapped, Ram};
use crate::rom::{MirroringMode, Rom};

verus! {

pub struct NRom {
    pub vram: Ram,
    pub prg_rom_bytes: Vec<u8>,
    pub chr_rom_bytes: Vec<u8>,
    pub prg_ram_bytes: Vec<u8>,
    pub mirroring_mode: MirroringMode,
}

/// The state of an `NRom` as a mathematical value.
pub struct NRomView {
    pub vram: Seq<u8>,
    pub prg_rom: Seq<u8>,
    pub chr_rom: Seq<u8>,
    pub prg_ram: Seq<u8>,
    pub mirroring_mode: MirroringMode,
}

impl View for NRom {
    type V = NRomView;

    open spec fn view(&self) -> NRomView {
        NRomView {
            vram: self.vram@,
            prg_rom: self.prg_rom_bytes@,
            chr_rom: self.chr_rom_bytes@,
            prg_ram: self.prg_ram_bytes@,
            mirroring_mode: self.mirroring_mode,
        }
    }
}

impl NRomView {
    /// 16 KB of PRG ROM is mirrored into both halves of $8000-$FFFF.
    pub open spec fn prg_rom_index(self, index: u16) -> int {
        let i = index - 0x8000;
        if i > 0x3FFF && self.prg_rom.len() < 0x8000 { i - 0x4000 } else { i }
    }

    /// PRG RAM starts at $6000.
    pub open spec fn prg_ram_index(self, index: u16) -> int {
        index - 0x6000
    }

    pub open spec fn chr_rom_byte(self, index: u16) -> u8 {
        if self.chr_rom.len() == 0 { 0 } else { byte_at(self.chr_rom, index as int) }
    }

    pub open spec fn prg_rom_byte(self, index: u16) -> u8 {
        byte_at(self.prg_rom, self.prg_rom_index(index))
    }

    pub open spec fn prg_ram_byte(self, index: u16) -> u8 {
        byte_at(self.prg_ram, self.prg_ram_index(index))
    }

    pub open spec fn after_prg_ram_write(self, index: u16, byte: u8) -> NRomView {
        NRomView { prg_ram: set_at(self.prg_ram, self.prg_ram_index(index), byte), ..self }
    }
}

impl NRom {
    /// The board of `rom`: its PRG and CHR ROM, zeroed PRG RAM of the announced size.
    pub fn new(rom: &Rom) -> (r: NRom)
        ensures
            r@.prg_rom == rom.prg_rom_bytes@,
            r@.chr_rom == rom.chr_rom_bytes@,
            r@.prg_ram == Seq::new(rom.header.prg_ram_size as nat, |i: int| 0u8),
            r@.vram == Seq::new(2048, |i: int| 0u8),
            r@.mirroring_mode == rom.header.mirroring_mode,
    {
        NRom {
            vram: Ram::new(),
            prg_rom_bytes: copy_bytes(&rom.prg_rom_bytes),
            chr_rom_bytes: copy_bytes(&rom.chr_rom_bytes),
            prg_ram_bytes: zeroed_bytes(rom.header.prg_ram_size),
            mirroring_mode: rom.header.mirroring_mode,
        }
    }

    /// Mirrors if PRG ROM is smaller than 32 KB.
    fn get_prg_rom_index(&self, index: u16) -> (r: usize)
        requires
            0x8000 <= index,
        ensures
            r == self@.prg_rom_index(index),
    {
        let index = index - 0x8000;
        if index > 0x3FFF && self.prg_rom_bytes.len() < 0x8000 {
            (index - 0x4000) as usize
        } else {
            index as usize
        }
    }

    fn get_prg_ram_index(&self, index: u16) -> (r: usize)
        requires
            0x6000 <= index,
        ensures
            r == self@.prg_ram_index(index),
    {
        (index - 0x6000) as usize
    }
}

impl CpuMapper for NRom {
    open spec fn prg_rom_byte(v: NRomView, index: u16) -> u8 {
        v.prg_rom_byte(index)
    }

    open spec fn prg_ram_byte(v: NRomView, index: u16) -> u8 {
        v.prg_ram_byte(index)
    }

    open spec fn after_prg_ram_write(v: NRomView, index: u16, byte: u8) -> NRomView {
        v.after_prg_ram_write(index, byte)
    }

    fn read_prg_rom(&self, index: u16) -> (r: u8) {
        let i = self.get_prg_rom_index(index);
        let r = read_byte_at(&self.prg_rom_bytes, i);
        assert(r == <NRom as CpuMapper>::prg_rom_byte(self@, index));
        r
    }

    fn read_prg_ram(&self, index: u16) -> (r: u8) {
        let i = self.get_prg_ram_index(index);
        let r = read_byte_at(&self.prg_ram_bytes, i);
        assert(r == <NRom as CpuMapper>::prg_ram_byte(self@, index));
        r
    }

    fn write_prg_ram(&mut self, index: u16, byte: u8) {
        let i = self.get_prg_ram_index(index);
        write_byte_at(&mut self.prg_ram_bytes, i, byte);
        assert(self@ == <NRom as CpuMapper>::after_prg_ram_write(old(self)@, index, byte));
    }
}

impl PpuMapper for NRom {
    open spec fn chr_rom_byte(v: NRomView, index: u16) -> u8 {
        v.chr_rom_byte(index)
    }

    /// NROM has no CHR RAM.
    open spec fn chr_ram_byte(v: NRomView, index: u16) -> u8 {
        0
    }

    open spec fn after_chr_ram_write(v: NRomView, index: u16, byte: u8) -> NRomView {
        v
    }

    open spec fn mirrored_index(v: NRomView, index: u16) -> u16 {
        mirrored_vram_index(v.mirroring_mode, index)
    }

    fn read_chr_rom(&self, index: u16) -> (r: u8) {
        let r = if self.chr_rom_bytes.len() == 0 {
            // Test images may come without CHR ROM.
            0
        } else {
            read_byte_at(&self.chr_rom_bytes, index as usize)
        };
        assert(r == <NRom as PpuMapper>::chr_rom_byte(self@, index));
        r
    }

    fn read_chr_ram(&self, index: u16) -> (r: u8) {
        assert(0 == <NRom as PpuMapper>::chr_ram_byte(self@, index));
        0
    }

    fn write_chr_ram(&mut self, index: u16, byte: u8) {
        assert(self@ == <NRom as PpuMapper>::after_chr_ram_write(old(self)@, index, byte));
    }

    fn get_mirrored_index(&self, index: u16) -> (r: u16) {
        let r = mirror_vram_index(self.mirroring_mode, index);
        assert(r == <NRom as PpuMapper>::mirrored_index(self@, index));
        r
    }
}

impl MemMapped for NRom {
    /// CHR ROM at $0000-$1FFF, name tables at $2000-$2FFF, PRG RAM at $6000-$7FFF,
    /// PRG ROM at $8000-$FFFF; anything else reads as 0.
    open spec fn peek(v: NRomView, index: u16) -> u8 {
        if index <= 0x1FFF {
            v.chr_rom_byte(index)
        } else if index <= 0x2FFF {
            Ram::peek(v.vram, mirrored_vram_index(v.mirroring_mode, index))
        } else if 0x6000 <= index <= 0x7FFF {
            v.prg_ram_byte(index)
        } else if 0x8000 <= index {
            v.prg_rom_byte(index)
        } else {
            0
        }
    }

    open spec fn after_read(v: NRomView, index: u16) -> NRomView {
        v
    }

    /// Name tables and PRG RAM take writes; the rest ignores them.
    open spec fn after_write(v: NRomView, index: u16, byte: u8) -> NRomView {
        if 0x2000 <= index <= 0x2FFF {
            NRomView { vram: Ram::after_write(v.vram, mirrored_vram_index(v.mirroring_mode, index), byte), ..v }
        } else if 0x6000 <= index <= 0x7FFF {
            v.after_prg_ram_write(index, byte)
        } else {
            v
        }
    }

    fn read(&mut self, index: u16) -> (r: u8) {
        if index <= 0x1FFF {
            self.read_chr_rom(index)
        } else if index <= 0x2FFF {
            let index = self.get_mirrored_index(index);
            self.vram.read(index)
        } else if 0x6000 <= index && index <= 0x7FFF {
            self.read_prg_ram(index)
        } else if 0x8000 <= index {
            self.read_prg_rom(index)
        } else {
            0
        }
    }

    fn write(&mut self, index: u16, byte: u8) {
        if 0x2000 <= index && index <= 0x2FFF {
            let index = self.get_mirrored_index(index);
            self.vram.write(index, byte);
        } else if 0x6000 <= index && index <= 0x7FFF {
            self.write_prg_ram(index, byte);
        }
    }
}

/// Name table mirroring: with horizontal mirroring $2000 and $2400 are one table (and $2800 and
/// $2C00); with vertical mirroring $2000 and $2800 are (and $2400 and $2C00).
pub proof fn law_nrom_mirroring(v: NRomView, i: u16, b: u8)
    requires
        v.vram.len() == 2048,
        i < 0x400,
    ensures
        v.mirroring_mode is Horizontal ==> NRom::peek(NRom::after_write(v, (0x2000 + i) as u16, b), (0x2400 + i) as u16) == b,
        v.mirroring_mode is Horizontal ==> NRom::peek(NRom::after_write(v, (0x2800 + i) as u16, b), (0x2C00 + i) as u16) == b,
        v.mirroring_mode is Vertical ==> NRom::peek(NRom::after_write(v, (0x2000 + i) as u16, b), (0x2800 + i) as u16) == b,
        v.mirroring_mode is Vertical ==> NRom::peek(NRom::after_write(v, (0x2400 + i) as u16, b), (0x2C00 + i) as u16) == b,
{
}

} // verus!
