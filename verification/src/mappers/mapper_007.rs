// AxROM: a switchable 32 KB PRG ROM bank, 8 KB of CHR RAM, one-screen mirroring.
use vstd::prelude::*;
use crate::mappers::{byte_at, read_byte_at, set_at, write_byte_at, CpuMapper, PpuMapper};
use crate::memory::{copy_bytes, zeroed_bytes, MemMapped, Ram};
use crate::rom::Rom;

verus! {

pub const BANK_SIZE_BYTES: usize = 32768;
pub const CHR_RAM_SIZE: usize = 8192;

pub struct AxROM {
    pub vram: Ram,
    pub prg_rom_bytes: Vec<u8>,
    pub chr_ram_bytes: Vec<u8>,
    pub bank_index: u8,
    pub nametable_index: u8,
}

/// The state of an `AxROM` as a mathematical value.
pub struct AxROMView {
    pub vram: Seq<u8>,
    pub prg_rom: Seq<u8>,
    pub chr_ram: Seq<u8>,
    pub bank_index: u8,
    pub nametable_index: u8,
}

impl View for AxROM {
    type V = AxROMView;

    open spec fn view(&self) -> AxROMView {
        AxROMView {
            vram: self.vram@,
            prg_rom: self.prg_rom_bytes@,
            chr_ram: self.chr_ram_bytes@,
            bank_index: self.bank_index,
            nametable_index: self.nametable_index,
        }
    }
}

impl AxROMView {
    pub open spec fn prg_rom_byte(self, index: u16) -> u8 {
        byte_at(self.prg_rom, self.bank_index * BANK_SIZE_BYTES + (index & 0x7FFF))
    }

    pub open spec fn chr_ram_byte(self, index: u16) -> u8 {
        byte_at(self.chr_ram, index as int)
    }

    pub open spec fn after_chr_ram_write(self, index: u16, byte: u8) -> AxROMView {
        AxROMView { chr_ram: set_at(self.chr_ram, index as int, byte), ..self }
    }

    /// All four name tables show the single 1 KB screen that bit 4 of the bank register selects.
    pub open spec fn mirrored_index(self, index: u16) -> u16 {
        let i = (index - 0x2000) as u16;
        if self.nametable_index == 0 { i % 0x400 } else { (i % 0x400 + 0x400) as u16 }
    }

    /// A write to $8000-$FFFF: bits 0-2 select the PRG bank, bit 4 the screen.
    pub open spec fn after_select_bank(self, byte: u8) -> AxROMView {
        AxROMView { bank_index: byte & 0b111, nametable_index: (byte >> 4) & 0x1, ..self }
    }
}

impl AxROM {
    /// The board of `rom`: its PRG ROM, zeroed CHR RAM, bank 0 and screen 0 selected.
    pub fn new(rom: &Rom) -> (r: AxROM)
        ensures
            r@.prg_rom == rom.prg_rom_bytes@,
            r@.chr_ram == Seq::new(CHR_RAM_SIZE as nat, |i: int| 0u8),
            r@.vram == Seq::new(2048, |i: int| 0u8),
            r@.bank_index == 0,
            r@.nametable_index == 0,
    {
        AxROM {
            vram: Ram::new(),
            prg_rom_bytes: copy_bytes(&rom.prg_rom_bytes),
            chr_ram_bytes: zeroed_bytes(CHR_RAM_SIZE),
            bank_index: 0,
            nametable_index: 0,
        }
    }

    fn get_prg_rom_index(&self, index: u16) -> (r: usize)
        ensures
            r == self.bank_index * BANK_SIZE_BYTES + (index & 0x7FFF),
    {
        assert(index & 0x7FFF <= 0x7FFF) by (bit_vector);
        (self.bank_index as usize * BANK_SIZE_BYTES) + (index & 0x7FFF) as usize
    }

    fn select_bank(&mut self, byte: u8)
        ensures
            final(self)@ == old(self)@.after_select_bank(byte),
    {
        self.bank_index = byte & 0b111;
        self.nametable_index = (byte >> 4) & 0x1;
    }
}

impl CpuMapper for AxROM {
    open spec fn prg_rom_byte(v: AxROMView, index: u16) -> u8 {
        v.prg_rom_byte(index)
    }

    /// AxROM has no PRG RAM.
    open spec fn prg_ram_byte(v: AxROMView, index: u16) -> u8 {
        0
    }

    open spec fn after_prg_ram_write(v: AxROMView, index: u16, byte: u8) -> AxROMView {
        v
    }

    fn read_prg_rom(&self, index: u16) -> (r: u8) {
        let i = self.get_prg_rom_index(index);
        let r = read_byte_at(&self.prg_rom_bytes, i);
        assert(r == <AxROM as CpuMapper>::prg_rom_byte(self@, index));
        r
    }

    fn read_prg_ram(&self, index: u16) -> (r: u8) {
        assert(0 == <AxROM as CpuMapper>::prg_ram_byte(self@, index));
        0
    }

    fn write_prg_ram(&mut self, index: u16, byte: u8) {
        assert(self@ == <AxROM as CpuMapper>::after_prg_ram_write(old(self)@, index, byte));
    }
}

impl PpuMapper for AxROM {
    /// AxROM has no CHR ROM.
    open spec fn chr_rom_byte(v: AxROMView, index: u16) -> u8 {
        0
    }

    open spec fn chr_ram_byte(v: AxROMView, index: u16) -> u8 {
        v.chr_ram_byte(index)
    }

    open spec fn after_chr_ram_write(v: AxROMView, index: u16, byte: u8) -> AxROMView {
        v.after_chr_ram_write(index, byte)
    }

    open spec fn mirrored_index(v: AxROMView, index: u16) -> u16 {
        v.mirrored_index(index)
    }

    fn read_chr_rom(&self, index: u16) -> (r: u8) {
        assert(0 == <AxROM as PpuMapper>::chr_rom_byte(self@, index));
        0
    }

    fn read_chr_ram(&self, index: u16) -> (r: u8) {
        let r = read_byte_at(&self.chr_ram_bytes, index as usize);
        assert(r == <AxROM as PpuMapper>::chr_ram_byte(self@, index));
        r
    }

    fn write_chr_ram(&mut self, index: u16, byte: u8) {
        write_byte_at(&mut self.chr_ram_bytes, index as usize, byte);
        assert(self@ == <AxROM as PpuMapper>::after_chr_ram_write(old(self)@, index, byte));
    }

    fn get_mirrored_index(&self, index: u16) -> (r: u16) {
        let index = index - 0x2000;
        let r = if self.nametable_index == 0 { index % 0x400 } else { index % 0x400 + 0x400 };
        assert(r == <AxROM as PpuMapper>::mirrored_index(self@, (index + 0x2000) as u16));
        r
    }
}

impl MemMapped for AxROM {
    /// CHR RAM at $0000-$1FFF, name tables at $2000-$2FFF, PRG ROM at $8000-$FFFF;
    /// anything else reads as 0.
    open spec fn peek(v: AxROMView, index: u16) -> u8 {
        if index <= 0x1FFF {
            v.chr_ram_byte(index)
        } else if index <= 0x2FFF {
            Ram::peek(v.vram, v.mirrored_index(index))
        } else if 0x8000 <= index {
            v.prg_rom_byte(index)
        } else {
            0
        }
    }

    open spec fn after_read(v: AxROMView, index: u16) -> AxROMView {
        v
    }

    /// CHR RAM and name tables take writes; a write to $8000-$FFFF selects bank and screen.
    open spec fn after_write(v: AxROMView, index: u16, byte: u8) -> AxROMView {
        if index <= 0x1FFF {
            v.after_chr_ram_write(index, byte)
        } else if index <= 0x2FFF {
            AxROMView { vram: Ram::after_write(v.vram, v.mirrored_index(index), byte), ..v }
        } else if 0x8000 <= index {
            v.after_select_bank(byte)
        } else {
            v
        }
    }

    fn read(&mut self, index: u16) -> (r: u8) {
        if index <= 0x1FFF {
            self.read_chr_ram(index)
        } else if index <= 0x2FFF {
            let index = self.get_mirrored_index(index);
            self.vram.read(index)
        } else if 0x8000 <= index {
            self.read_prg_rom(index)
        } else {
            0
        }
    }

    fn write(&mut self, index: u16, byte: u8) {
        if index <= 0x1FFF {
            self.write_chr_ram(index, byte);
        } else if index <= 0x2FFF {
            let index = self.get_mirrored_index(index);
            self.vram.write(index, byte);
        } else if 0x8000 <= index {
            self.select_bank(byte);
        }
    }
}

proof fn lemma_axrom_bits(b: u8, i: u16)
    requires
        0x8000 <= i,
    ensures
        b & 0b111 == b % 8,
        (b >> 4) & 0x1 == (b / 16) % 2,
        i & 0x7FFF == i - 0x8000,
{
    assert(b & 0b111 == b % 8 && (b >> 4) & 0x1 == (b / 16) % 2) by (bit_vector);
    assert(i & 0x7FFF == i - 0x8000) by (bit_vector)
        requires
            0x8000 <= i;
}

/// A write of `b` to $8000-$FFFF selects 32 KB PRG bank `b mod 8`, shown at $8000-$FFFF, and
/// with bit 4 the one 1 KB screen that all four name tables show.
#[verifier::spinoff_prover]
pub proof fn law_axrom_bank_select(v: AxROMView, addr: u16, b: u8, i: u16, j: u16)
    requires
        0x8000 <= addr,
        0x8000 <= i,
        0x2000 <= j <= 0x2FFF,
    ensures
        ({
            let w = AxROM::after_write(v, addr, b);
            &&& AxROM::peek(w, i) == byte_at(v.prg_rom, (b % 8) * 32768 + (i - 0x8000))
            &&& w.nametable_index == (b / 16) % 2
            &&& w.mirrored_index(j) as int == ((b / 16) % 2) * 1024 + (j - 0x2000) % 1024
            &&& w.prg_rom == v.prg_rom && w.chr_ram == v.chr_ram && w.vram == v.vram
        }),
{
    lemma_axrom_bits(b, i);
}

} // verus!
