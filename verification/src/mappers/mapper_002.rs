// UxROM: a switchable 16 KB PRG ROM bank at $8000, the last bank fixed at $C000, 8 KB of CHR RAM.
use vstd::prelude::*;
use crate::mappers::{
    byte_at, mirror_vram_index, mirrored_vram_index, read_byte_at, set_at, write_byte_at,
    CpuMapper, PpuMapper,
};
use crate::memory::{copy_bytes, zeroed_bytes, MemMapped, Ram};
use crate::rom::{MirroringMode, Rom};

verus! {

pub const BANK_SIZE_BYTES: usize = 16384;
pub const CHR_RAM_SIZE: usize = 8192;

pub struct UxROM {
    pub vram: Ram,
    pub prg_rom_bytes: Vec<u8>,
    pub chr_ram_bytes: Vec<u8>,
    pub mirroring_mode: MirroringMode,
    pub bank_index: u8,
}

/// The state of a `UxROM` as a mathematical value.
pub struct UxROMView {
    pub vram: Seq<u8>,
    pub prg_rom: Seq<u8>,
    pub chr_ram: Seq<u8>,
    pub mirroring_mode: MirroringMode,
    pub bank_index: u8,
}

impl View for UxROM {
    type V = UxROMView;

    open spec fn view(&self) -> UxROMView {
        UxROMView {
            vram: self.vram@,
            prg_rom: self.prg_rom_bytes@,
            chr_ram: self.chr_ram_bytes@,
            mirroring_mode: self.mirroring_mode,
            bank_index: self.bank_index,
        }
    }
}

impl UxROMView {
    /// $8000-$BFFF: the selected bank; $C000-$FFFF: the last bank (none below 16 KB of PRG ROM).
    pub open spec fn prg_rom_index(self, index: u16) -> int {
        if index <= 0xBFFF {
            self.bank_index * BANK_SIZE_BYTES + (index - 0x8000)
        } else if self.prg_rom.len() < BANK_SIZE_BYTES {
            -1
        } else {
            self.prg_rom.len() - BANK_SIZE_BYTES + (index - 0xC000)
        }
    }

    pub open spec fn prg_rom_byte(self, index: u16) -> u8 {
        byte_at(self.prg_rom, self.prg_rom_index(index))
    }

    pub open spec fn chr_ram_byte(self, index: u16) -> u8 {
        byte_at(self.chr_ram, index as int)
    }

    pub open spec fn after_chr_ram_write(self, index: u16, byte: u8) -> UxROMView {
        UxROMView { chr_ram: set_at(self.chr_ram, index as int, byte), ..self }
    }
}

impl UxROM {
    /// The board of `rom`: its PRG ROM, zeroed CHR RAM, bank 0 selected.
    pub fn new(rom: &Rom) -> (r: UxROM)
        ensures
            r@.prg_rom == rom.prg_rom_bytes@,
            r@.chr_ram == Seq::new(CHR_RAM_SIZE as nat, |i: int| 0u8),
            r@.vram == Seq::new(2048, |i: int| 0u8),
            r@.mirroring_mode == rom.header.mirroring_mode,
            r@.bank_index == 0,
    {
        UxROM {
            vram: Ram::new(),
            prg_rom_bytes: copy_bytes(&rom.prg_rom_bytes),
            chr_ram_bytes: zeroed_bytes(CHR_RAM_SIZE),
            mirroring_mode: rom.header.mirroring_mode,
            bank_index: 0,
        }
    }

    /// The PRG ROM offset of a CPU address, `None` where no PRG ROM is mapped.
    fn get_prg_rom_index(&self, index: u16) -> (r: Option<usize>)
        requires
            0x8000 <= index,
        ensures
            match r {
                Some(i) => i == self@.prg_rom_index(index),
                None => self@.prg_rom_index(index) < 0,
            },
    {
        if index <= 0xBFFF {
            Some(self.bank_index as usize * BANK_SIZE_BYTES + (index as usize - 0x8000))
        } else if self.prg_rom_bytes.len() >= BANK_SIZE_BYTES {
            Some((self.prg_rom_bytes.len() - BANK_SIZE_BYTES) + (index as usize - 0xC000))
        } else {
            None
        }
    }

    fn select_bank(&mut self, byte: u8)
        ensures
            final(self)@ == (UxROMView { bank_index: byte, ..old(self)@ }),
    {
        self.bank_index = byte;
    }
}

impl CpuMapper for UxROM {
    open spec fn prg_rom_byte(v: UxROMView, index: u16) -> u8 {
        v.prg_rom_byte(index)
    }

    /// UxROM has no PRG RAM.
    open spec fn prg_ram_byte(v: UxROMView, index: u16) -> u8 {
        0
    }

    open spec fn after_prg_ram_write(v: UxROMView, index: u16, byte: u8) -> UxROMView {
        v
    }

    fn read_prg_rom(&self, index: u16) -> (r: u8) {
        let r = match self.get_prg_rom_index(index) {
            Some(i) => read_byte_at(&self.prg_rom_bytes, i),
            None => 0,
        };
        assert(r == <UxROM as CpuMapper>::prg_rom_byte(self@, index));
        r
    }

    fn read_prg_ram(&self, index: u16) -> (r: u8) {
        assert(0 == <UxROM as CpuMapper>::prg_ram_byte(self@, index));
        0
    }

    fn write_prg_ram(&mut self, index: u16, byte: u8) {
        assert(self@ == <UxROM as CpuMapper>::after_prg_ram_write(old(self)@, index, byte));
    }
}

impl PpuMapper for UxROM {
    /// UxROM has no CHR ROM.
    open spec fn chr_rom_byte(v: UxROMView, index: u16) -> u8 {
        0
    }

    open spec fn chr_ram_byte(v: UxROMView, index: u16) -> u8 {
        v.chr_ram_byte(index)
    }

    open spec fn after_chr_ram_write(v: UxROMView, index: u16, byte: u8) -> UxROMView {
        v.after_chr_ram_write(index, byte)
    }

    open spec fn mirrored_index(v: UxROMView, index: u16) -> u16 {
        mirrored_vram_index(v.mirroring_mode, index)
    }

    fn read_chr_rom(&self, index: u16) -> (r: u8) {
        assert(0 == <UxROM as PpuMapper>::chr_rom_byte(self@, index));
        0
    }

    fn read_chr_ram(&self, index: u16) -> (r: u8) {
        let r = read_byte_at(&self.chr_ram_bytes, index as usize);
        assert(r == <UxROM as PpuMapper>::chr_ram_byte(self@, index));
        r
    }

    fn write_chr_ram(&mut self, index: u16, byte: u8) {
        write_byte_at(&mut self.chr_ram_bytes, index as usize, byte);
        assert(self@ == <UxROM as PpuMapper>::after_chr_ram_write(old(self)@, index, byte));
    }

    fn get_mirrored_index(&self, index: u16) -> (r: u16) {
        let r = mirror_vram_index(self.mirroring_mode, index);
        assert(r == <UxROM as PpuMapper>::mirrored_index(self@, index));
        r
    }
}

impl MemMapped for UxROM {
    /// CHR RAM at $0000-$1FFF, name tables at $2000-$2FFF, PRG ROM at $8000-$FFFF;
    /// anything else reads as 0.
    open spec fn peek(v: UxROMView, index: u16) -> u8 {
        if index <= 0x1FFF {
            v.chr_ram_byte(index)
        } else if index <= 0x2FFF {
            Ram::peek(v.vram, mirrored_vram_index(v.mirroring_mode, index))
        } else if 0x8000 <= index {
            v.prg_rom_byte(index)
        } else {
            0
        }
    }

    open spec fn after_read(v: UxROMView, index: u16) -> UxROMView {
        v
    }

    /// CHR RAM and name tables take writes; a write to $8000-$FFFF selects the bank.
    open spec fn after_write(v: UxROMView, index: u16, byte: u8) -> UxROMView {
        if index <= 0x1FFF {
            v.after_chr_ram_write(index, byte)
        } else if index <= 0x2FFF {
            UxROMView { vram: Ram::after_write(v.vram, mirrored_vram_index(v.mirroring_mode, index), byte), ..v }
        } else if 0x8000 <= index {
            UxROMView { bank_index: byte, ..v }
        } else {
            v
        }
    }

    fn read(&mut self, index: u16) -> (r: u8) {
        if index <= 0x1FFF {
            self.read_chr_ram(index)
        } else if index <= 0x2FFF {
            let index = self.get_mirrored_index(index);
            self.vram.read(index)
        } else if 0x8000 <= index {
            self.read_prg_rom(index)
        } else {
            0
        }
    }

    fn write(&mut self, index: u16, byte: u8) {
        if index <= 0x1FFF {
            self.write_chr_ram(index, byte);
        } else if index <= 0x2FFF {
            let index = self.get_mirrored_index(index);
            self.vram.write(index, byte);
        } else if 0x8000 <= index {
            self.select_bank(byte);
        }
    }
}

/// $C000-$FFFF always shows the last 16 KB bank: no write to the bank register changes it.
pub proof fn law_uxrom_last_bank_fixed(v: UxROMView, addr: u16, byte: u8, i: u16)
    requires
        0x8000 <= addr,
        0xC000 <= i,
    ensures
        UxROM::peek(UxROM::after_write(v, addr, byte), i) == UxROM::peek(v, i),
{
}

/// A write of `b` to $8000-$FFFF selects 16 KB PRG bank `b`: afterwards $8000-$BFFF shows
/// that bank of PRG ROM.
pub proof fn law_uxrom_bank_select(v: UxROMView, addr: u16, b: u8, i: u16)
    requires
        0x8000 <= addr,
        0x8000 <= i <= 0xBFFF,
    ensures
        UxROM::peek(UxROM::after_write(v, addr, b), i) == byte_at(v.prg_rom, b * 16384 + (i - 0x8000)),
{
}

} // verus!
