// Cartridge boards: how a cartridge answers the CPU (PRG ROM/RAM, registers) and the PPU
// (CHR ROM/RAM, name tables).
use vstd::prelude::*;
use crate::memory::MemMapped;
use crate::rom::{Header, MirroringMode, Rom};

pub mod mapper_000;
pub mod mapper_002;
pub mod mapper_003;
pub mod mapper_007;
pub mod mapper_189;

use crate::mappers::mapper_000::{NRom, NRomView};
use crate::mappers::mapper_002::{UxROM, UxROMView};
use crate::mappers::mapper_003::{CNROM, CNROMView};
use crate::mappers::mapper_007::{AxROM, AxROMView};
use crate::mappers::mapper_189::{Mapper189, Mapper189View};

verus! {

/// `s[i]`, or 0 where `i` lies outside `s` (the board has no memory there).
pub open spec fn byte_at(s: Seq<u8>, i: int) -> u8 {
    if 0 <= i < s.len() { s[i] } else { 0 }
}

/// `s` with `s[i]` set to `b`, or `s` unchanged where `i` lies outside it.
pub open spec fn set_at(s: Seq<u8>, i: int, b: u8) -> Seq<u8> {
    if 0 <= i < s.len() { s.update(i, b) } else { s }
}

/// Reads `bytes[i]`, or 0 past its end.
pub fn read_byte_at(bytes: &Vec<u8>, i: usize) -> (r: u8)
    ensures
        r == byte_at(bytes@, i as int),
{
    if i < bytes.len() { bytes[i] } else { 0 }
}

/// Writes `bytes[i]`; a write past its end is dropped.
pub fn write_byte_at(bytes: &mut Vec<u8>, i: usize, b: u8)
    ensures
        final(bytes)@ == set_at(old(bytes)@, i as int, b),
{
    if i < bytes.len() {
        bytes.set(i, b);
    }
}

/// Where a name table address ($2000-$3FFF) lands in the 2 KB of console VRAM.
/// Horizontal mirroring: $2000 = $2400 and $2800 = $2C00; vertical: $2000 = $2800 and $2400 = $2C00.
pub open spec fn mirrored_vram_index(mode: MirroringMode, index: u16) -> u16
    recommends 0x2000 <= index,
{
    let i = (index - 0x2000) as u16;
    match mode {
        MirroringMode::Horizontal => ((i / 0x800) * 0x400 + i % 0x400) as u16,
        MirroringMode::Vertical => i % 0x800,
    }
}

pub fn mirror_vram_index(mode: MirroringMode, index: u16) -> (r: u16)
    requires
        0x2000 <= index,
    ensures
        r == mirrored_vram_index(mode, index),
{
    let i = index - 0x2000;
    match mode {
        MirroringMode::Horizontal => ((i / 0x800) * 0x400) + (i % 0x400),
        MirroringMode::Vertical => i % 0x800,
    }
}

/// What the CPU sees of a board: PRG ROM at $8000-$FFFF and PRG RAM at $6000-$7FFF.
pub trait CpuMapper: MemMapped {
    spec fn prg_rom_byte(v: Self::V, index: u16) -> u8;
    spec fn prg_ram_byte(v: Self::V, index: u16) -> u8;
    spec fn after_prg_ram_write(v: Self::V, index: u16, byte: u8) -> Self::V;

    /// Reads from PRG ROM.
    fn read_prg_rom(&self, index: u16) -> (r: u8)
        requires
            0x8000 <= index,
        ensures
            r == Self::prg_rom_byte(self@, index),
    ;

    /// Reads from PRG RAM.
    fn read_prg_ram(&self, index: u16) -> (r: u8)
        requires
            0x6000 <= index < 0x8000,
        ensures
            r == Self::prg_ram_byte(self@, index),
    ;

    /// Writes to PRG RAM.
    fn write_prg_ram(&mut self, index: u16, byte: u8)
        requires
            0x6000 <= index < 0x8000,
        ensures
            final(self)@ == Self::after_prg_ram_write(old(self)@, index, byte),
    ;
}

/// What the PPU sees of a board: CHR ROM or RAM at $0000-$1FFF, name tables mirrored into VRAM.
pub trait PpuMapper: MemMapped {
    spec fn chr_rom_byte(v: Self::V, index: u16) -> u8;
    spec fn chr_ram_byte(v: Self::V, index: u16) -> u8;
    spec fn after_chr_ram_write(v: Self::V, index: u16, byte: u8) -> Self::V;
    spec fn mirrored_index(v: Self::V, index: u16) -> u16;

    /// Reads from CHR ROM (0 on a board that has none).
    fn read_chr_rom(&self, index: u16) -> (r: u8)
        requires
            index < 0x2000,
        ensures
            r == Self::chr_rom_byte(self@, index),
    ;

    /// Reads from CHR RAM (0 on a board that has none).
    fn read_chr_ram(&self, index: u16) -> (r: u8)
        requires
            index < 0x2000,
        ensures
            r == Self::chr_ram_byte(self@, index),
    ;

    /// Writes to CHR RAM (dropped on a board that has none).
    fn write_chr_ram(&mut self, index: u16, byte: u8)
        requires
            index < 0x2000,
        ensures
            final(self)@ == Self::after_chr_ram_write(old(self)@, index, byte),
    ;

    /// Where a name table address lands in VRAM.
    fn get_mirrored_index(&self, index: u16) -> (r: u16)
        requires
            0x2000 <= index < 0x4000,
        ensures
            r == Self::mirrored_index(self@, index),
    ;
}

/// The boards this emulator knows, by iNES mapper number.
pub enum MapperImpl {
    Mapper000(NRom),
    Mapper002(UxROM),
    Mapper003(CNROM),
    Mapper007(AxROM),
    Mapper189(Mapper189),
}

/// The state of a `MapperImpl` as a mathematical value.
pub enum MapperView {
    Mapper000(NRomView),
    Mapper002(UxROMView),
    Mapper003(CNROMView),
    Mapper007(AxROMView),
    Mapper189(Mapper189View),
}

impl View for MapperImpl {
    type V = MapperView;

    open spec fn view(&self) -> MapperView {
        match self {
            MapperImpl::Mapper000(m) => MapperView::Mapper000(m@),
            MapperImpl::Mapper002(m) => MapperView::Mapper002(m@),
            MapperImpl::Mapper003(m) => MapperView::Mapper003(m@),
            MapperImpl::Mapper007(m) => MapperView::Mapper007(m@),
            MapperImpl::Mapper189(m) => MapperView::Mapper189(m@),
        }
    }
}

/// Why no board could be made for an image.
#[derive(Debug, Clone, Copy)]
pub enum MapperError {
    /// The image asks for a mapper number that this emulator does not implement.
    UnsupportedMapper(u16),
}

/// The mapper numbers that `load_mapper_for_rom` accepts.
pub open spec fn is_supported_mapper(n: u16) -> bool {
    n == 0 || n == 2 || n == 3 || n == 7
}

/// The board of a cartridge with header `h`, PRG ROM `prg` and CHR ROM `chr`, as it is at
/// power-on; `None` for a mapper number that this emulator does not implement.
pub open spec fn spec_cartridge(h: Header, prg: Seq<u8>, chr: Seq<u8>) -> Option<MapperView> {
    let vram = Seq::new(2048, |i: int| 0u8);
    if h.mapper_number == 0 {
        Some(MapperView::Mapper000(NRomView {
            vram,
            prg_rom: prg,
            chr_rom: chr,
            prg_ram: Seq::new(h.prg_ram_size as nat, |i: int| 0u8),
            mirroring_mode: h.mirroring_mode,
        }))
    } else if h.mapper_number == 2 {
        Some(MapperView::Mapper002(UxROMView {
            vram,
            prg_rom: prg,
            chr_ram: Seq::new(crate::mappers::mapper_002::CHR_RAM_SIZE as nat, |i: int| 0u8),
            mirroring_mode: h.mirroring_mode,
            bank_index: 0,
        }))
    } else if h.mapper_number == 3 {
        Some(MapperView::Mapper003(CNROMView {
            vram,
            prg_rom: prg,
            chr_rom: chr,
            mirroring_mode: h.mirroring_mode,
            bank_index: 0,
        }))
    } else if h.mapper_number == 7 {
        Some(MapperView::Mapper007(AxROMView {
            vram,
            prg_rom: prg,
            chr_ram: Seq::new(crate::mappers::mapper_007::CHR_RAM_SIZE as nat, |i: int| 0u8),
            bank_index: 0,
            nametable_index: 0,
        }))
    } else {
        None
    }
}


/// The board for `rom`, chosen by its mapper number.
pub fn load_mapper_for_rom(rom: &Rom) -> (r: Result<MapperImpl, MapperError>)
    ensures
        is_supported_mapper(rom.header.mapper_number) <==> r is Ok,
        match r {
            Ok(m) => spec_cartridge(rom.header, rom.prg_rom_bytes@, rom.chr_rom_bytes@) == Some(m@),
            Err(MapperError::UnsupportedMapper(n)) => n == rom.header.mapper_number
                && spec_cartridge(rom.header, rom.prg_rom_bytes@, rom.chr_rom_bytes@) is None,
        },
{
    match rom.header.mapper_number {
        0 => Ok(MapperImpl::Mapper000(NRom::new(rom))),
        2 => Ok(MapperImpl::Mapper002(UxROM::new(rom))),
        3 => Ok(MapperImpl::Mapper003(CNROM::new(rom))),
        7 => Ok(MapperImpl::Mapper007(AxROM::new(rom))),
        mapper_num => Err(MapperError::UnsupportedMapper(mapper_num)),
    }
}

/// The board of an empty image: NROM without any ROM or RAM.
pub fn default_mapper() -> (r: MapperImpl)
    ensures
        r@ == MapperView::Mapper000(NRomView {
            vram: Seq::new(2048, |i: int| 0u8),
            prg_rom: Seq::empty(),
            chr_rom: Seq::empty(),
            prg_ram: Seq::empty(),
            mirroring_mode: MirroringMode::Horizontal,
        }),
{
    let def_rom = Rom::empty();
    let m = NRom::new(&def_rom);
    proof {
        assert(m@.prg_rom =~= Seq::empty());
        assert(m@.chr_rom =~= Seq::empty());
        assert(m@.prg_ram =~= Seq::empty());
    }
    MapperImpl::Mapper000(m)
}

impl MapperImpl {
    /// The PPU put `index` on the bus (only mapper 189 counts these).
    pub open spec fn after_clock_irq(v: MapperView, index: u16) -> MapperView {
        match v {
            MapperView::Mapper189(m) => MapperView::Mapper189(m.after_clock_irq(index)),
            _ => v,
        }
    }

    pub fn clock_irq(&mut self, index: u16)
        ensures
            final(self)@ == MapperImpl::after_clock_irq(old(self)@, index),
    {
        match self {
            MapperImpl::Mapper189(m) => m.clock_irq(index),
            _ => {},
        }
    }

    /// Whether the board raises an IRQ (only mapper 189 can).
    pub fn irq_pending(&self) -> (r: bool)
        ensures
            r == (self@ matches MapperView::Mapper189(m) && m.irq_pending),
    {
        match self {
            MapperImpl::Mapper189(m) => m.irq_pending(),
            _ => false,
        }
    }
}

impl MemMapped for MapperImpl {
    open spec fn peek(v: MapperView, index: u16) -> u8 {
        match v {
            MapperView::Mapper000(m) => NRom::peek(m, index),
            MapperView::Mapper002(m) => UxROM::peek(m, index),
            MapperView::Mapper003(m) => CNROM::peek(m, index),
            MapperView::Mapper007(m) => AxROM::peek(m, index),
            MapperView::Mapper189(m) => Mapper189::peek(m, index),
        }
    }

    open spec fn after_read(v: MapperView, index: u16) -> MapperView {
        match v {
            MapperView::Mapper000(m) => MapperView::Mapper000(NRom::after_read(m, index)),
            MapperView::Mapper002(m) => MapperView::Mapper002(UxROM::after_read(m, index)),
            MapperView::Mapper003(m) => MapperView::Mapper003(CNROM::after_read(m, index)),
            MapperView::Mapper007(m) => MapperView::Mapper007(AxROM::after_read(m, index)),
            MapperView::Mapper189(m) => MapperView::Mapper189(Mapper189::after_read(m, index)),
        }
    }

    open spec fn after_write(v: MapperView, index: u16, byte: u8) -> MapperView {
        match v {
            MapperView::Mapper000(m) => MapperView::Mapper000(NRom::after_write(m, index, byte)),
            MapperView::Mapper002(m) => MapperView::Mapper002(UxROM::after_write(m, index, byte)),
            MapperView::Mapper003(m) => MapperView::Mapper003(CNROM::after_write(m, index, byte)),
            MapperView::Mapper007(m) => MapperView::Mapper007(AxROM::after_write(m, index, byte)),
            MapperView::Mapper189(m) => MapperView::Mapper189(Mapper189::after_write(m, index, byte)),
        }
    }

    fn read(&mut self, index: u16) -> (r: u8) {
        match self {
            MapperImpl::Mapper000(m) => m.read(index),
            MapperImpl::Mapper002(m) => m.read(index),
            MapperImpl::Mapper003(m) => m.read(index),
            MapperImpl::Mapper007(m) => m.read(index),
            MapperImpl::Mapper189(m) => m.read(index),
        }
    }

    fn write(&mut self, index: u16, byte: u8) {
        match self {
            MapperImpl::Mapper000(m) => m.write(index, byte),
            MapperImpl::Mapper002(m) => m.write(index, byte),
            MapperImpl::Mapper003(m) => m.write(index, byte),
            MapperImpl::Mapper007(m) => m.write(index, byte),
            MapperImpl::Mapper189(m) => m.write(index, byte),
        }
    }
}

} // verus!
