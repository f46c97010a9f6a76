// Mapper 189: an MMC3-like board that switches PRG ROM in 32 KB banks, CHR ROM in 1 and 2 KB
// banks, and counts scanlines through PPU address line A12 to raise an IRQ.
use vstd::prelude::*;
use crate::mappers::{
    byte_at, mirror_vram_index, mirrored_vram_index, read_byte_at, set_at, write_byte_at,
    CpuMapper, PpuMapper,
};
use crate::memory::{copy_bytes, zeroed_bytes, MemMapped, Ram};
use crate::rom::{MirroringMode, Rom};

verus! {

pub const PRG_BANK_SIZE: usize = 0x8000;
pub const CHR_BANK_SIZE_1KB: usize = 0x0400;
pub const PRG_RAM_SIZE: usize = 0x2000;

pub struct Mapper189 {
    pub vram: Ram,
    pub prg_rom_bytes: Vec<u8>,
    pub chr_rom_bytes: Vec<u8>,
    pub prg_ram_bytes: Vec<u8>,

    pub prg_bank_index: u8,
    pub bank_index: u8,
    pub r: [u8; 8],

    pub chr_inversion: bool,
    pub mirroring_mode: MirroringMode,

    pub irq_latch: u8,
    pub irq_counter: u8,
    pub irq_enabled: bool,
    pub irq_pending: bool,
    pub irq_reload: bool,
    pub prev_chr_a12: bool,
}

/// The state of a `Mapper189` as a mathematical value.
pub struct Mapper189View {
    pub vram: Seq<u8>,
    pub prg_rom: Seq<u8>,
    pub chr_rom: Seq<u8>,
    pub prg_ram: Seq<u8>,
    pub prg_bank_index: u8,
    pub bank_index: u8,
    pub r: Seq<u8>,
    pub chr_inversion: bool,
    pub mirroring_mode: MirroringMode,
    pub irq_latch: u8,
    pub irq_counter: u8,
    pub irq_enabled: bool,
    pub irq_pending: bool,
    pub irq_reload: bool,
    pub prev_chr_a12: bool,
}

impl View for Mapper189 {
    type V = Mapper189View;

    open spec fn view(&self) -> Mapper189View {
        Mapper189View {
            vram: self.vram@,
            prg_rom: self.prg_rom_bytes@,
            chr_rom: self.chr_rom_bytes@,
            prg_ram: self.prg_ram_bytes@,
            prg_bank_index: self.prg_bank_index,
            bank_index: self.bank_index,
            r: self.r@,
            chr_inversion: self.chr_inversion,
            mirroring_mode: self.mirroring_mode,
            irq_latch: self.irq_latch,
            irq_counter: self.irq_counter,
            irq_enabled: self.irq_enabled,
            irq_pending: self.irq_pending,
            irq_reload: self.irq_reload,
            prev_chr_a12: self.prev_chr_a12,
        }
    }
}

/// Which bank register serves a CHR address (< $2000), and whether it maps 2 KB (else 1 KB).
/// Without inversion R0/R1 map 2 KB at $0000/$0800 and R2-R5 1 KB at $1000-$1C00;
/// inversion swaps the two halves.
pub open spec fn chr_bank_register(inversion: bool, addr: u16) -> (int, bool) {
    let a = if inversion { (addr + 0x1000) % 0x2000 } else { addr as int };
    if a < 0x0800 {
        (0, true)
    } else if a < 0x1000 {
        (1, true)
    } else {
        (2 + (a - 0x1000) / 0x400, false)
    }
}

impl Mapper189View {
    pub open spec fn prg_rom_byte(self, index: u16) -> u8 {
        byte_at(self.prg_rom, self.prg_bank_index * PRG_BANK_SIZE + (index & 0x7FFF))
    }

    /// PRG RAM at $6000, mirrored over its size.
    pub open spec fn prg_ram_index(self, index: u16) -> int {
        if self.prg_ram.len() == 0 { -1 } else { (index - 0x6000) % (self.prg_ram.len() as int) }
    }

    pub open spec fn prg_ram_byte(self, index: u16) -> u8 {
        byte_at(self.prg_ram, self.prg_ram_index(index))
    }

    pub open spec fn after_prg_ram_write(self, index: u16, byte: u8) -> Mapper189View {
        Mapper189View { prg_ram: set_at(self.prg_ram, self.prg_ram_index(index), byte), ..self }
    }

    /// The CHR ROM offset of a PPU address below $2000 (none when CHR ROM holds no full 1 KB bank).
    pub open spec fn chr_rom_index(self, index: u16) -> int {
        let chr_banks: int = self.chr_rom.len() as int / (CHR_BANK_SIZE_1KB as int);
        let (reg, is_2k) = chr_bank_register(self.chr_inversion, index);
        let value = self.r[reg];
        let bank = if is_2k { (value & 0xFE) as int } else { value as int };
        let offset = if is_2k { index % 0x800 } else { index % 0x400 };
        if chr_banks == 0 {
            -1
        } else {
            ((bank % chr_banks) * CHR_BANK_SIZE_1KB + offset) % (self.chr_rom.len() as int)
        }
    }

    pub open spec fn chr_rom_byte(self, index: u16) -> u8 {
        byte_at(self.chr_rom, self.chr_rom_index(index))
    }

    /// One rising edge of A12: the counter reloads when it is 0 or a reload was asked for,
    /// else counts down; reaching 0 with IRQs enabled raises the IRQ.
    pub open spec fn after_irq_tick(self) -> Mapper189View {
        let counter: u8 = if self.irq_counter == 0 || self.irq_reload {
            self.irq_latch
        } else {
            (self.irq_counter - 1) as u8
        };
        Mapper189View {
            irq_counter: counter,
            irq_pending: if counter == 0 && self.irq_enabled { true } else { self.irq_pending },
            irq_reload: false,
            ..self
        }
    }

    /// The PPU put `index` on the bus: a rising edge of A12 ticks the IRQ counter.
    pub open spec fn after_clock_irq(self, index: u16) -> Mapper189View {
        let a12 = (index / 0x1000) % 2 == 1;
        let v = if a12 && !self.prev_chr_a12 { self.after_irq_tick() } else { self };
        Mapper189View { prev_chr_a12: a12, ..v }
    }

    pub open spec fn after_set_prg_bank(self, byte: u8) -> Mapper189View {
        Mapper189View { prg_bank_index: byte | (byte >> 4), ..self }
    }

    /// A write to the registers at $8000-$FFFF (even and odd addresses differ).
    pub open spec fn after_register_write(self, index: u16, byte: u8) -> Mapper189View {
        let even = index % 2 == 0;
        if index <= 0x9FFF {
            if even {
                Mapper189View { chr_inversion: byte & 0x80 != 0, bank_index: byte & 7, ..self }
            } else {
                Mapper189View { r: self.r.update((self.bank_index % 8) as int, byte), ..self }
            }
        } else if index <= 0xBFFF {
            if even {
                Mapper189View {
                    mirroring_mode: if byte & 1 == 1 { MirroringMode::Horizontal } else { MirroringMode::Vertical },
                    ..self
                }
            } else {
                // PRG RAM protection: PRG RAM stays enabled.
                self
            }
        } else if index <= 0xDFFF {
            if even { Mapper189View { irq_latch: byte, ..self } } else { Mapper189View { irq_reload: true, ..self } }
        } else {
            if even {
                Mapper189View { irq_enabled: false, irq_pending: false, ..self }
            } else {
                Mapper189View { irq_enabled: true, ..self }
            }
        }
    }
}

impl Mapper189 {
    /// The board of `rom`: its PRG and CHR ROM, zeroed PRG RAM (8 KB unless the header
    /// announces a size), all registers cleared, vertical mirroring.
    pub fn new(rom: &Rom) -> (r: Mapper189)
        ensures
            r@.prg_rom == rom.prg_rom_bytes@,
            r@.chr_rom == rom.chr_rom_bytes@,
            r@.prg_ram == Seq::new(
                (if rom.header.prg_ram_size == 0 { PRG_RAM_SIZE } else { rom.header.prg_ram_size }) as nat,
                |i: int| 0u8,
            ),
            r@.vram == Seq::new(2048, |i: int| 0u8),
            r@.r == Seq::new(8, |i: int| 0u8),
            r@.prg_bank_index == 0,
            r@.bank_index == 0,
            !r@.chr_inversion,
            r@.mirroring_mode == MirroringMode::Vertical,
            r@.irq_latch == 0,
            r@.irq_counter == 0,
            !r@.irq_enabled,
            !r@.irq_pending,
            !r@.irq_reload,
            !r@.prev_chr_a12,
    {
        let prg_ram_size = if rom.header.prg_ram_size == 0 { PRG_RAM_SIZE } else { rom.header.prg_ram_size };
        let m = Mapper189 {
            vram: Ram::new(),
            prg_rom_bytes: copy_bytes(&rom.prg_rom_bytes),
            chr_rom_bytes: copy_bytes(&rom.chr_rom_bytes),
            prg_ram_bytes: zeroed_bytes(prg_ram_size),
            prg_bank_index: 0,
            bank_index: 0,
            r: [0u8; 8],
            chr_inversion: false,
            mirroring_mode: MirroringMode::Vertical,
            irq_latch: 0,
            irq_counter: 0,
            irq_enabled: false,
            irq_pending: false,
            irq_reload: false,
            prev_chr_a12: false,
        };
        assert(m@.r =~= Seq::new(8, |i: int| 0u8));
        m
    }

    fn get_prg_rom_index(&self, index: u16) -> (r: usize)
        ensures
            r == self.prg_bank_index * PRG_BANK_SIZE + (index & 0x7FFF),
    {
        assert(index & 0x7FFF <= 0x7FFF) by (bit_vector);
        (self.prg_bank_index as usize * PRG_BANK_SIZE) + (index & 0x7FFF) as usize
    }

    fn get_prg_ram_index(&self, index: u16) -> (r: Option<usize>)
        requires
            0x6000 <= index,
        ensures
            match r {
                Some(i) => i == self@.prg_ram_index(index),
                None => self@.prg_ram_index(index) == -1,
            },
    {
        if self.prg_ram_bytes.len() == 0 {
            None
        } else {
            Some((index - 0x6000) as usize % self.prg_ram_bytes.len())
        }
    }

    fn get_chr_rom_index(&self, index: u16) -> (r: Option<usize>)
        requires
            index < 0x2000,
        ensures
            match r {
                Some(i) => i == self@.chr_rom_index(index),
                None => self@.chr_rom_index(index) == -1,
            },
    {
        let addr = index as usize;
        let chr_banks = self.chr_rom_bytes.len() / CHR_BANK_SIZE_1KB;
        if chr_banks == 0 {
            return None;
        }
        let a: usize = if self.chr_inversion { (addr + 0x1000) % 0x2000 } else { addr };
        let (bank_register_value, is_2k) = if a < 0x0800 {
            (self.r[0], true)
        } else if a < 0x1000 {
            (self.r[1], true)
        } else {
            (self.r[2 + (a - 0x1000) / 0x400], false)
        };
        let bank_index = if is_2k {
            // Must be even for 2KB alignment
            (bank_register_value & 0xFE) as usize
        } else {
            // Full 8 bits used for 1KB bank
            bank_register_value as usize
        };
        let addr_offset = if is_2k { addr % 0x800 } else { addr % 0x400 };
        let bank_start_offset = (bank_index % chr_banks) * CHR_BANK_SIZE_1KB;
        proof {
            assert(bank_index % chr_banks < chr_banks);
            assert((bank_index % chr_banks) * CHR_BANK_SIZE_1KB <= chr_banks * CHR_BANK_SIZE_1KB) by (nonlinear_arith)
                requires bank_index % chr_banks < chr_banks;
            assert(chr_banks * CHR_BANK_SIZE_1KB <= self.chr_rom_bytes.len()) by (nonlinear_arith)
                requires chr_banks == self.chr_rom_bytes.len() / CHR_BANK_SIZE_1KB;
        }
        Some((bank_start_offset + addr_offset) % self.chr_rom_bytes.len())
    }

    fn set_prg_bank_index(&mut self, byte: u8)
        ensures
            final(self)@ == old(self)@.after_set_prg_bank(byte),
    {
        self.prg_bank_index = byte | (byte >> 4);
    }

    fn irq_tick(&mut self)
        ensures
            final(self)@ == old(self)@.after_irq_tick(),
    {
        if self.irq_counter == 0 || self.irq_reload {
            self.irq_counter = self.irq_latch;
        } else {
            self.irq_counter -= 1;
        }
        if self.irq_counter == 0 && self.irq_enabled {
            self.irq_pending = true;
        }
        self.irq_reload = false;
    }

    /// The PPU put `index` on the bus.
    pub fn clock_irq(&mut self, index: u16)
        ensures
            final(self)@ == old(self)@.after_clock_irq(index),
    {
        assert((index & 0x1000 != 0) == ((index / 0x1000) % 2 == 1)) by (bit_vector);
        let curr_a12 = (index & 0x1000) != 0;
        if curr_a12 && !self.prev_chr_a12 {
            self.irq_tick();
        }
        self.prev_chr_a12 = curr_a12;
    }

    /// Whether the scanline counter raised its IRQ.
    pub fn irq_pending(&self) -> (r: bool)
        ensures
            r == self.irq_pending,
    {
        self.irq_pending
    }

    fn write_register(&mut self, index: u16, byte: u8)
        requires
            0x8000 <= index,
        ensures
            final(self)@ == old(self)@.after_register_write(index, byte),
    {
        let even = index % 2 == 0;
        if index <= 0x9FFF {
            if even {
                self.chr_inversion = (byte & 0x80) != 0;
                self.bank_index = byte & 7;
            } else {
                // The bank select register has three bits.
                let i = (self.bank_index % 8) as usize;
                self.r[i] = byte;
            }
        } else if index <= 0xBFFF {
            if even {
                self.mirroring_mode = if byte & 1 == 1 { MirroringMode::Horizontal } else { MirroringMode::Vertical };
            }
        } else if index <= 0xDFFF {
            if even {
                self.irq_latch = byte;
            } else {
                self.irq_reload = true;
            }
        } else {
            if even {
                self.irq_enabled = false;
                self.irq_pending = false;
            } else {
                self.irq_enabled = true;
            }
        }
    }
}

impl CpuMapper for Mapper189 {
    open spec fn prg_rom_byte(v: Mapper189View, index: u16) -> u8 {
        v.prg_rom_byte(index)
    }

    open spec fn prg_ram_byte(v: Mapper189View, index: u16) -> u8 {
        v.prg_ram_byte(index)
    }

    open spec fn after_prg_ram_write(v: Mapper189View, index: u16, byte: u8) -> Mapper189View {
        v.after_prg_ram_write(index, byte)
    }

    fn read_prg_rom(&self, index: u16) -> (r: u8) {
        let i = self.get_prg_rom_index(index);
        let r = read_byte_at(&self.prg_rom_bytes, i);
        assert(r == <Mapper189 as CpuMapper>::prg_rom_byte(self@, index));
        r
    }

    fn read_prg_ram(&self, index: u16) -> (r: u8) {
        let r = match self.get_prg_ram_index(index) {
            Some(i) => read_byte_at(&self.prg_ram_bytes, i),
            None => 0,
        };
        assert(r == <Mapper189 as CpuMapper>::prg_ram_byte(self@, index));
        r
    }

    fn write_prg_ram(&mut self, index: u16, byte: u8) {
        match self.get_prg_ram_index(index) {
            Some(i) => write_byte_at(&mut self.prg_ram_bytes, i, byte),
            None => {},
        }
        assert(self@ == <Mapper189 as CpuMapper>::after_prg_ram_write(old(self)@, index, byte));
    }
}

impl PpuMapper for Mapper189 {
    open spec fn chr_rom_byte(v: Mapper189View, index: u16) -> u8 {
        v.chr_rom_byte(index)
    }

    /// This board has no CHR RAM.
    open spec fn chr_ram_byte(v: Mapper189View, index: u16) -> u8 {
        0
    }

    open spec fn after_chr_ram_write(v: Mapper189View, index: u16, byte: u8) -> Mapper189View {
        v
    }

    open spec fn mirrored_index(v: Mapper189View, index: u16) -> u16 {
        mirrored_vram_index(v.mirroring_mode, index)
    }

    fn read_chr_rom(&self, index: u16) -> (r: u8) {
        let r = match self.get_chr_rom_index(index) {
            Some(i) => read_byte_at(&self.chr_rom_bytes, i),
            None => 0,
        };
        assert(r == <Mapper189 as PpuMapper>::chr_rom_byte(self@, index));
        r
    }

    fn read_chr_ram(&self, index: u16) -> (r: u8) {
        assert(0 == <Mapper189 as PpuMapper>::chr_ram_byte(self@, index));
        0
    }

    fn write_chr_ram(&mut self, index: u16, byte: u8) {
        assert(self@ == <Mapper189 as PpuMapper>::after_chr_ram_write(old(self)@, index, byte));
    }

    fn get_mirrored_index(&self, index: u16) -> (r: u16) {
        let r = mirror_vram_index(self.mirroring_mode, index);
        assert(r == <Mapper189 as PpuMapper>::mirrored_index(self@, index));
        r
    }
}

impl MemMapped for Mapper189 {
    /// CHR ROM at $0000-$1FFF, name tables at $2000-$3FFF, PRG RAM at $6000-$7FFF,
    /// PRG ROM at $8000-$FFFF; anything else reads as 0.
    open spec fn peek(v: Mapper189View, index: u16) -> u8 {
        if index <= 0x1FFF {
            v.chr_rom_byte(index)
        } else if index <= 0x3FFF {
            Ram::peek(v.vram, mirrored_vram_index(v.mirroring_mode, index) % 0x800)
        } else if 0x6000 <= index <= 0x7FFF {
            v.prg_ram_byte(index)
        } else if 0x8000 <= index {
            v.prg_rom_byte(index)
        } else {
            0
        }
    }

    /// A CHR read clocks the scanline counter.
    open spec fn after_read(v: Mapper189View, index: u16) -> Mapper189View {
        if index <= 0x1FFF { v.after_clock_irq(index) } else { v }
    }

    /// Name tables take writes; $4020-$5FFF select the PRG bank; $6000-$7FFF select the PRG
    /// bank and write PRG RAM; $8000-$FFFF are the board's registers.
    open spec fn after_write(v: Mapper189View, index: u16, byte: u8) -> Mapper189View {
        if index <= 0x1FFF {
            v
        } else if index <= 0x3FFF {
            Mapper189View { vram: Ram::after_write(v.vram, mirrored_vram_index(v.mirroring_mode, index) % 0x800, byte), ..v }
        } else if 0x4020 <= index <= 0x5FFF {
            v.after_set_prg_bank(byte)
        } else if 0x6000 <= index <= 0x7FFF {
            v.after_set_prg_bank(byte).after_prg_ram_write(index, byte)
        } else if 0x8000 <= index {
            v.after_register_write(index, byte)
        } else {
            v
        }
    }

    fn read(&mut self, index: u16) -> (r: u8) {
        if index <= 0x1FFF {
            self.clock_irq(index);
            let r = self.read_chr_rom(index);
            assert(r == old(self)@.chr_rom_byte(index));
            r
        } else if index <= 0x3FFF {
            // $3000-$3FFF with horizontal mirroring give indices past the 2 KB of VRAM; the
            // PPU's bus never sends these, and they wrap.
            let index = self.get_mirrored_index(index);
            self.vram.read(index % 0x800)
        } else if 0x6000 <= index && index <= 0x7FFF {
            self.read_prg_ram(index)
        } else if 0x8000 <= index {
            self.read_prg_rom(index)
        } else {
            0
        }
    }

    fn write(&mut self, index: u16, byte: u8) {
        if index <= 0x1FFF {
        } else if index <= 0x3FFF {
            let index = self.get_mirrored_index(index);
            self.vram.write(index % 0x800, byte);
        } else if 0x4020 <= index && index <= 0x5FFF {
            self.set_prg_bank_index(byte);
        } else if 0x6000 <= index && index <= 0x7FFF {
            self.set_prg_bank_index(byte);
            self.write_prg_ram(index, byte);
        } else if 0x8000 <= index {
            self.write_register(index, byte);
        }
    }
}

} // verus!
