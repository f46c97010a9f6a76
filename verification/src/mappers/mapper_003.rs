// CNROM: fixed PRG ROM, a switchable 8 KB CHR ROM bank.
use vstd::prelude::*;
use crate::mappers::{
    byte_at, mirror_vram_index, mirrored_vram_index, read_byte_at, CpuMapper, PpuMapper,
};
use crate::memory::{copy_bytes, MemMapped, Ram};
use crate::rom::{MirroringMode, Rom};

verus! {

pub const BANK_SIZE_BYTES: usize = 8192;

pub struct CNROM {
    pub vram: Ram,
    pub prg_rom_bytes: Vec<u8>,
    pub chr_rom_bytes: Vec<u8>,
    pub mirroring_mode: MirroringMode,
    pub bank_index: u8,
}

/// The state of a `CNROM` as a mathematical value.
pub struct CNROMView {
    pub vram: Seq<u8>,
    pub prg_rom: Seq<u8>,
    pub chr_rom: Seq<u8>,
    pub mirroring_mode: MirroringMode,
    pub bank_index: u8,
}

impl View for CNROM {
    type V = CNROMView;

    open spec fn view(&self) -> CNROMView {
        CNROMView {
            vram: self.vram@,
            prg_rom: self.prg_rom_bytes@,
            chr_rom: self.chr_rom_bytes@,
            mirroring_mode: self.mirroring_mode,
            bank_index: self.bank_index,
        }
    }
}

impl CNROMView {
    /// PRG ROM is not bank switched.
    pub open spec fn prg_rom_byte(self, index: u16) -> u8 {
        byte_at(self.prg_rom, index - 0x8000)
    }

    /// CHR ROM comes in 8 KB banks.
    pub open spec fn chr_rom_byte(self, index: u16) -> u8 {
        byte_at(self.chr_rom, self.bank_index * BANK_SIZE_BYTES + index)
    }

    /// The bank that a write selects: its low two bits, ANDed with the ROM byte at the same
    /// address (bus conflict).
    pub open spec fn selected_bank(self, index: u16, byte: u8) -> u8 {
        (byte & 0b11) & self.prg_rom_byte(index)
    }
}

impl CNROM {
    /// The board of `rom`: its PRG and CHR ROM, bank 0 selected.
    pub fn new(rom: &Rom) -> (r: CNROM)
        ensures
            r@.prg_rom == rom.prg_rom_bytes@,
            r@.chr_rom == rom.chr_rom_bytes@,
            r@.vram == Seq::new(2048, |i: int| 0u8),
            r@.mirroring_mode == rom.header.mirroring_mode,
            r@.bank_index == 0,
    {
        CNROM {
            vram: Ram::new(),
            prg_rom_bytes: copy_bytes(&rom.prg_rom_bytes),
            chr_rom_bytes: copy_bytes(&rom.chr_rom_bytes),
            mirroring_mode: rom.header.mirroring_mode,
            bank_index: 0,
        }
    }

    fn get_chr_rom_index(&self, index: u16) -> (r: usize)
        ensures
            r == self.bank_index * BANK_SIZE_BYTES + index,
    {
        self.bank_index as usize * BANK_SIZE_BYTES + index as usize
    }

    fn select_bank(&mut self, index: u16, byte: u8)
        requires
            0x8000 <= index,
        ensures
            final(self)@ == (CNROMView { bank_index: old(self)@.selected_bank(index, byte), ..old(self)@ }),
    {
        let byte_in_rom = self.read_prg_rom(index);
        self.bank_index = (byte & 0b11) & byte_in_rom;
    }
}

impl CpuMapper for CNROM {
    open spec fn prg_rom_byte(v: CNROMView, index: u16) -> u8 {
        v.prg_rom_byte(index)
    }

    /// CNROM has no PRG RAM.
    open spec fn prg_ram_byte(v: CNROMView, index: u16) -> u8 {
        0
    }

    open spec fn after_prg_ram_write(v: CNROMView, index: u16, byte: u8) -> CNROMView {
        v
    }

    fn read_prg_rom(&self, index: u16) -> (r: u8) {
        let r = read_byte_at(&self.prg_rom_bytes, (index - 0x8000) as usize);
        assert(r == <CNROM as CpuMapper>::prg_rom_byte(self@, index));
        r
    }

    fn read_prg_ram(&self, index: u16) -> (r: u8) {
        assert(0 == <CNROM as CpuMapper>::prg_ram_byte(self@, index));
        0
    }

    fn write_prg_ram(&mut self, index: u16, byte: u8) {
        assert(self@ == <CNROM as CpuMapper>::after_prg_ram_write(old(self)@, index, byte));
    }
}

impl PpuMapper for CNROM {
    open spec fn chr_rom_byte(v: CNROMView, index: u16) -> u8 {
        v.chr_rom_byte(index)
    }

    /// CNROM has no CHR RAM.
    open spec fn chr_ram_byte(v: CNROMView, index: u16) -> u8 {
        0
    }

    open spec fn after_chr_ram_write(v: CNROMView, index: u16, byte: u8) -> CNROMView {
        v
    }

    open spec fn mirrored_index(v: CNROMView, index: u16) -> u16 {
        mirrored_vram_index(v.mirroring_mode, index)
    }

    fn read_chr_rom(&self, index: u16) -> (r: u8) {
        let i = self.get_chr_rom_index(index);
        let r = read_byte_at(&self.chr_rom_bytes, i);
        assert(r == <CNROM as PpuMapper>::chr_rom_byte(self@, index));
        r
    }

    fn read_chr_ram(&self, index: u16) -> (r: u8) {
        assert(0 == <CNROM as PpuMapper>::chr_ram_byte(self@, index));
        0
    }

    fn write_chr_ram(&mut self, index: u16, byte: u8) {
        assert(self@ == <CNROM as PpuMapper>::after_chr_ram_write(old(self)@, index, byte));
    }

    fn get_mirrored_index(&self, index: u16) -> (r: u16) {
        let r = mirror_vram_index(self.mirroring_mode, index);
        assert(r == <CNROM as PpuMapper>::mirrored_index(self@, index));
        r
    }
}

impl MemMapped for CNROM {
    /// CHR ROM at $0000-$1FFF, name tables at $2000-$2FFF, PRG ROM at $8000-$FFFF;
    /// anything else reads as 0.
    open spec fn peek(v: CNROMView, index: u16) -> u8 {
        if index <= 0x1FFF {
            v.chr_rom_byte(index)
        } else if index <= 0x2FFF {
            Ram::peek(v.vram, mirrored_vram_index(v.mirroring_mode, index))
        } else if 0x8000 <= index {
            v.prg_rom_byte(index)
        } else {
            0
        }
    }

    open spec fn after_read(v: CNROMView, index: u16) -> CNROMView {
        v
    }

    /// Name tables take writes; a write to $8000-$FFFF selects the CHR bank.
    open spec fn after_write(v: CNROMView, index: u16, byte: u8) -> CNROMView {
        if 0x2000 <= index <= 0x2FFF {
            CNROMView { vram: Ram::after_write(v.vram, mirrored_vram_index(v.mirroring_mode, index), byte), ..v }
        } else if 0x8000 <= index {
            CNROMView { bank_index: v.selected_bank(index, byte), ..v }
        } else {
            v
        }
    }

    fn read(&mut self, index: u16) -> (r: u8) {
        if index <= 0x1FFF {
            self.read_chr_rom(index)
        } else if index <= 0x2FFF {
            let index = self.get_mirrored_index(index);
            self.vram.read(index)
        } else if 0x8000 <= index {
            self.read_prg_rom(index)
        } else {
            0
        }
    }

    fn write(&mut self, index: u16, byte: u8) {
        if index <= 0x1FFF {
            self.write_chr_ram(index, byte);
        } else if index <= 0x2FFF {
            let index = self.get_mirrored_index(index);
            self.vram.write(index, byte);
        } else if 0x8000 <= index {
            self.select_bank(index, byte);
        }
    }
}

proof fn lemma_bank_bits(b: u8, r: u8)
    ensures
        (b & 0b11) & r == (b & r) % 4,
        (b & 0b11) & 0xFF == b % 4,
{
    assert((b & 0b11) & r == (b & r) % 4) by (bit_vector);
    assert((b & 0b11) & 0xFF == b % 4) by (bit_vector);
}

/// A write of `b` to $8000-$FFFF selects CHR bank `b mod 4`, masked by the PRG ROM byte
/// at that address (bus conflict): afterwards the PPU's pattern table $0000-$1FFF shows
/// that 8 KB bank of CHR ROM. Where the ROM byte there is $FF, the bank is `b mod 4`.
#[verifier::spinoff_prover]
pub proof fn law_cnrom_bank_select(v: CNROMView, index: u16, b: u8, i: u16)
    requires
        0x8000 <= index,
        i <= 0x1FFF,
    ensures
        ({
            let r = byte_at(v.prg_rom, index - 0x8000);
            let w = CNROM::after_write(v, index, b);
            &&& w.bank_index == (b & r) % 4
            &&& CNROM::peek(w, i) == byte_at(v.chr_rom, ((b & r) % 4) * 8192 + i)
            &&& r == 0xFF ==> w.bank_index == b % 4
            &&& r == 0xFF ==> CNROM::peek(w, i) == byte_at(v.chr_rom, (b % 4) * 8192 + i)
            &&& w.prg_rom == v.prg_rom && w.chr_rom == v.chr_rom && w.vram == v.vram
        }),
{
    let r = byte_at(v.prg_rom, index - 0x8000);
    lemma_bank_bits(b, r);
}

} // verus!
