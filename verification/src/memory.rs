use vstd::prelude::*;
use crate::apu::{Apu, ApuView};
use crate::bits::{bit, make_word, wadd16, word};
use crate::controller::Controller;
use crate::dma::{Dma, DmaType};
use crate::instructions::{AddressingMode, Instruction};
use crate::mappers::MapperImpl;
use crate::ppu::memory::PpuMemMap;
use crate::ppu::palette::PpuPalette;
use crate::ppu::{Ppu, PpuView};

verus! {

pub trait MemMapped: View + Sized {
    spec fn peek(v: Self::V, index: u16) -> u8;
    spec fn after_read(v: Self::V, index: u16) -> Self::V;
    spec fn after_write(v: Self::V, index: u16, byte: u8) -> Self::V;

    fn read(&mut self, index: u16) -> (r: u8)
        ensures
            r == Self::peek(old(self)@, index),
            final(self)@ == Self::after_read(old(self)@, index),
    ;

    fn write(&mut self, index: u16, byte: u8)
        ensures
            final(self)@ == Self::after_write(old(self)@, index, byte),
    ;

    /// Reads the little-endian word at `index` and the byte after it.
    fn read_word(&mut self, index: u16) -> (r: u16)
        ensures
            r == word(
                Self::peek(old(self)@, index),
                Self::peek(Self::after_read(old(self)@, index), wadd16(index, 1)),
            ),
            final(self)@ == Self::after_read(Self::after_read(old(self)@, index), wadd16(index, 1)),
    {
        let lo = self.read(index);
        let hi = self.read(index.wrapping_add(1));
        make_word(lo, hi)
    }
}

/// Reading `n` bytes one after another from `addr` upwards: the bytes read and the device
/// state after the last read.
pub open spec fn spec_read_n<M: MemMapped>(v: M::V, addr: u16, n: nat) -> (Seq<u8>, M::V)
    decreases n,
{
    if n == 0 {
        (Seq::empty(), v)
    } else {
        let (s, v1) = spec_read_n::<M>(v, addr, (n - 1) as nat);
        let a = wadd16(addr, (n - 1) as u16);
        (s.push(M::peek(v1, a)), M::after_read(v1, a))
    }
}

/// Whether reads change device state (a debugger or tracer turns this off to peek).
#[derive(Clone, Copy)]
pub struct MemMapConfig {
    pub is_mutating_read: bool,
}

impl MemMapConfig {
    pub fn new() -> (r: MemMapConfig)
        ensures
            r.is_mutating_read,
    {
        MemMapConfig { is_mutating_read: true }
    }
}

/// The console's 2 KB of work RAM (also used as the cartridge's name table RAM).
pub struct Ram {
    pub ram: [u8; 2048],
}

impl View for Ram {
    type V = Seq<u8>;
    open spec fn view(&self) -> Seq<u8> { self.ram@ }
}

impl Ram {
    pub fn new() -> (r: Ram)
        ensures r@ == Seq::new(2048, |i: int| 0u8),
    {
        let r = Ram { ram: [0u8; 2048] };
        assert(r@ =~= Seq::new(2048, |i: int| 0u8));
        r
    }
}

/// 2 KB of RAM; an index of 2048 or more wraps around (a mirror), so that reads and writes
/// are defined for every index.
impl MemMapped for Ram {
    open spec fn peek(v: Seq<u8>, index: u16) -> u8 {
        v[(index % 2048) as int]
    }

    open spec fn after_read(v: Seq<u8>, index: u16) -> Seq<u8> {
        v
    }

    open spec fn after_write(v: Seq<u8>, index: u16, byte: u8) -> Seq<u8> {
        v.update((index % 2048) as int, byte)
    }

    fn read(&mut self, index: u16) -> (r: u8) {
        self.ram[(index % 2048) as usize]
    }

    fn write(&mut self, index: u16, byte: u8) {
        self.ram[(index % 2048) as usize] = byte;
    }
}

/// The CPU's address space: RAM, PPU and APU registers, the controllers, OAM DMA and the cartridge
/// (which the PPU's memory holds, as both buses reach it).
pub struct CpuMemMap {
    pub ram: Ram,
    pub apu: Apu,
    pub ppu: Ppu,
    pub dma: Dma,
    pub controllers: [Controller; 2],
}

/// The state of a `CpuMemMap` as a mathematical value.
pub struct CpuMemMapView {
    pub ram: Seq<u8>,
    pub apu: ApuView,
    pub ppu: PpuView,
    pub dma: Dma,
    pub controllers: Seq<Controller>,
}

impl View for CpuMemMap {
    type V = CpuMemMapView;

    open spec fn view(&self) -> CpuMemMapView {
        CpuMemMapView {
            ram: self.ram@,
            apu: self.apu@,
            ppu: self.ppu@,
            dma: self.dma,
            controllers: self.controllers@,
        }
    }
}

impl CpuMemMapView {
    pub open spec fn with_mapper(self, mapper: crate::mappers::MapperView) -> CpuMemMapView {
        CpuMemMapView {
            ppu: PpuView { mem: crate::ppu::memory::PpuMemMapView { mapper, ..self.ppu.mem }, ..self.ppu },
            ..self
        }
    }
}

impl CpuMemMap {
    /// The memory map of a console with the given cartridge board and palette, powered on.
    pub fn new(mapper: MapperImpl, palette: PpuPalette) -> (r: CpuMemMap)
        ensures
            r@.ram == Seq::new(2048, |i: int| 0u8),
            r@.ppu.wf(),
            r@.ppu.mem.mapper == mapper@,
            r@.ppu.mem.palette == palette@,
            r@.ppu.cpu_cycles == 0,
            r@.apu.cpu_cycles == 0,
            r@.dma.wf(),
            !r@.dma.is_active(),
            r@.controllers.len() == 2,
            !r@.controllers[0].is_polling && r@.controllers[0].button_state == 0,
            !r@.controllers[1].is_polling && r@.controllers[1].button_state == 0,
    {
        CpuMemMap {
            ram: Ram::new(),
            apu: Apu::new(),
            ppu: Ppu::new(PpuMemMap::new(mapper, palette)),
            dma: Dma::new(),
            controllers: [Controller::new(), Controller::new()],
        }
    }
}

impl CpuMemMapView {
    /// The state with reads set to change (or not change) device state.
    pub open spec fn with_mutating_read(self, is_mutating_read: bool) -> CpuMemMapView {
        CpuMemMapView {
            ppu: PpuView { is_mutating_read, ..self.ppu },
            controllers: self.controllers.map_values(
                |c: Controller| Controller { mem_map_config: MemMapConfig { is_mutating_read }, ..c },
            ),
            ..self
        }
    }
}

impl CpuMemMap {
    /// Makes reads of the PPU and controller registers change state or leave it (a debugger or
    /// tracer peeks with reads that do not).
    pub fn set_is_mutating_read(&mut self, is_mutating_read: bool)
        ensures
            final(self)@ == old(self)@.with_mutating_read(is_mutating_read),
    {
        self.ppu.set_is_mutating_read(is_mutating_read);
        let mut c0 = self.controllers[0];
        let mut c1 = self.controllers[1];
        c0.set_is_mutating_read(is_mutating_read);
        c1.set_is_mutating_read(is_mutating_read);
        self.controllers = [c0, c1];
        proof {
            assert(self@.controllers =~= old(self)@.with_mutating_read(is_mutating_read).controllers);
        }
    }
}

impl MemMapped for CpuMemMap {
    //        $0000-$07FF	$0800	2KB internal RAM
    //        $0800-$1FFF	$1800	Mirrors of $0000-$07FF
    //        $2000-$2007	$0008	NES PPU registers
    //        $2008-$3FFF	$1FF8	Mirrors of $2000-2007 (repeats every 8 bytes)
    //        $4000-$4017	$0018	NES APU and I/O registers
    //        $4018-$401F	$0008	APU and I/O functionality that is normally disabled
    //        $4020-$FFFF	$BFE0	Cartridge space: PRG ROM, PRG RAM, and mapper registers
    open spec fn peek(v: CpuMemMapView, index: u16) -> u8 {
        if index <= 0x1FFF {
            Ram::peek(v.ram, index % 0x800)
        } else if index <= 0x3FFF {
            Ppu::peek(v.ppu, index % 8)
        } else if index <= 0x4013 || index == 0x4015 {
            Apu::peek(v.apu, index)
        } else if index == 0x4016 {
            Controller::peek(v.controllers[0], index)
        } else if index == 0x4017 {
            Controller::peek(v.controllers[1], index)
        } else if index <= 0x401F {
            // The OAM DMA register is write only; $4018-$401F are test registers.
            0
        } else {
            MapperImpl::peek(v.ppu.mem.mapper, index)
        }
    }

    open spec fn after_read(v: CpuMemMapView, index: u16) -> CpuMemMapView {
        if index <= 0x1FFF {
            v
        } else if index <= 0x3FFF {
            CpuMemMapView { ppu: Ppu::after_read(v.ppu, index % 8), ..v }
        } else if index <= 0x4013 || index == 0x4015 {
            CpuMemMapView { apu: Apu::after_read(v.apu, index), ..v }
        } else if index == 0x4016 {
            CpuMemMapView { controllers: v.controllers.update(0, Controller::after_read(v.controllers[0], index)), ..v }
        } else if index == 0x4017 {
            CpuMemMapView { controllers: v.controllers.update(1, Controller::after_read(v.controllers[1], index)), ..v }
        } else if index <= 0x401F {
            v
        } else {
            v.with_mapper(MapperImpl::after_read(v.ppu.mem.mapper, index))
        }
    }

    open spec fn after_write(v: CpuMemMapView, index: u16, byte: u8) -> CpuMemMapView {
        if index <= 0x1FFF {
            CpuMemMapView { ram: Ram::after_write(v.ram, index % 0x800, byte), ..v }
        } else if index <= 0x3FFF {
            CpuMemMapView { ppu: Ppu::after_write(v.ppu, index % 8, byte), ..v }
        } else if index <= 0x4013 || index == 0x4015 || index == 0x4017 {
            CpuMemMapView { apu: Apu::after_write(v.apu, index, byte), ..v }
        } else if index == 0x4014 {
            CpuMemMapView { dma: Dma { dma_type: Some(DmaType::OAM), page_index: byte, dma_cycle_count: 0 }, ..v }
        } else if index == 0x4016 {
            // Strobe: while bit 0 is set, both controllers reload their buttons.
            let c0 = v.controllers[0];
            let c1 = v.controllers[1];
            if bit(byte, 0) {
                CpuMemMapView {
                    controllers: seq![Controller { is_polling: true, ..c0 }, Controller { is_polling: true, ..c1 }],
                    ..v
                }
            } else {
                CpuMemMapView {
                    controllers: seq![
                        Controller { is_polling: false, read_index: 0, ..c0 },
                        Controller { is_polling: false, read_index: 0, ..c1 },
                    ],
                    ..v
                }
            }
        } else if index <= 0x401F {
            v
        } else {
            v.with_mapper(MapperImpl::after_write(v.ppu.mem.mapper, index, byte))
        }
    }

    fn read(&mut self, index: u16) -> (r: u8) {
        if index <= 0x1FFF {
            self.ram.read(index % 0x800)
        } else if index <= 0x3FFF {
            self.ppu.read(index % 8)
        } else if index <= 0x4013 || index == 0x4015 {
            self.apu.read(index)
        } else if index == 0x4016 {
            let mut c = self.controllers[0];
            let r = c.read(index);
            self.controllers[0] = c;
            r
        } else if index == 0x4017 {
            let mut c = self.controllers[1];
            let r = c.read(index);
            self.controllers[1] = c;
            r
        } else if index <= 0x401F {
            0
        } else {
            self.ppu.ppu_mem_map.mapper.read(index)
        }
    }

    fn write(&mut self, index: u16, byte: u8) {
        if index <= 0x1FFF {
            self.ram.write(index % 0x800, byte);
        } else if index <= 0x3FFF {
            self.ppu.write(index % 8, byte);
        } else if index <= 0x4013 || index == 0x4015 || index == 0x4017 {
            self.apu.write(index, byte);
        } else if index == 0x4014 {
            self.dma.start_dma(DmaType::OAM, byte);
        } else if index == 0x4016 {
            let mut c0 = self.controllers[0];
            let mut c1 = self.controllers[1];
            if crate::bits::get_bit(byte, 0) {
                c0.start_polling();
                c1.start_polling();
            } else {
                c0.stop_polling();
                c1.stop_polling();
            }
            self.controllers = [c0, c1];
            proof {
                assert(self@.controllers =~= Self::after_write(old(self)@, index, byte).controllers);
            }
        } else if index <= 0x401F {
        } else {
            self.ppu.ppu_mem_map.mapper.write(index, byte);
        }
    }
}

/// A copy of `bytes`.
pub fn copy_bytes(bytes: &Vec<u8>) -> (r: Vec<u8>)
    ensures
        r@ == bytes@,
{
    let mut out: Vec<u8> = Vec::new();
    let mut i: usize = 0;
    while i < bytes.len()
        invariant
            i <= bytes@.len(),
            out@ == bytes@.take(i as int),
        decreases bytes@.len() - i,
    {
        out.push(bytes[i]);
        proof {
            assert(bytes@.take(i + 1) =~= bytes@.take(i as int).push(bytes@[i as int]));
        }
        i += 1;
    }
    proof {
        assert(bytes@.take(bytes@.len() as int) =~= bytes@);
    }
    out
}

/// `len` zero bytes.
pub fn zeroed_bytes(len: usize) -> (r: Vec<u8>)
    ensures
        r@ == Seq::new(len as nat, |i: int| 0u8),
{
    let mut out: Vec<u8> = Vec::new();
    let mut i: usize = 0;
    while i < len
        invariant
            i <= len,
            out@ == Seq::new(i as nat, |j: int| 0u8),
        decreases len - i,
    {
        out.push(0u8);
        proof {
            assert(out@ =~= Seq::new((i + 1) as nat, |j: int| 0u8));
        }
        i += 1;
    }
    out
}

/// RAM gives back the last byte written at an address (2 KB, mirrored over the index), and a
/// write leaves the other addresses alone.
pub proof fn law_ram_read_after_write(v: Seq<u8>, i: u16, j: u16, b: u8)
    requires
        v.len() == 2048,
    ensures
        Ram::peek(Ram::after_write(v, i, b), i) == b,
        i % 2048 != j % 2048 ==> Ram::peek(Ram::after_write(v, i, b), j) == Ram::peek(v, j),
        Ram::after_read(v, i) == v,
{
}

/// The CPU sees its 2 KB of RAM four times in $0000-$1FFF: a byte written at one address reads
/// back at each of its mirrors.
pub proof fn law_cpu_ram_mirrors(v: CpuMemMapView, i: u16, j: u16, b: u8)
    requires
        v.ram.len() == 2048,
        i < 0x2000,
        j < 0x2000,
        i % 0x800 == j % 0x800,
    ensures
        CpuMemMap::peek(CpuMemMap::after_write(v, i, b), j) == b,
{
}

/// The eight PPU registers repeat every 8 bytes through $2000-$3FFF.
pub proof fn law_ppu_register_mirrors(v: CpuMemMapView, i: u16, j: u16, b: u8)
    requires
        0x2000 <= i <= 0x3FFF,
        0x2000 <= j <= 0x3FFF,
        i % 8 == j % 8,
    ensures
        CpuMemMap::peek(v, i) == CpuMemMap::peek(v, j),
        CpuMemMap::after_read(v, i) == CpuMemMap::after_read(v, j),
        CpuMemMap::after_write(v, i, b) == CpuMemMap::after_write(v, j, b),
{
}

/// On the console's memory map a pushed byte is pulled back, and the stack pointer returns to
/// where it was.
pub proof fn law_stack_push_pull(c: crate::cpu::Cpu, v: CpuMemMapView, b: u8)
    requires
        v.ram.len() == 2048,
    ensures
        ({
            let (c1, v1) = c.spec_push::<CpuMemMap>(v, b);
            let (b2, c2, v2) = c1.spec_pull::<CpuMemMap>(v1);
            &&& b2 == b
            &&& c2.reg_sp == c.reg_sp
            &&& v2 == v1
        }),
{
    let (c1, v1) = c.spec_push::<CpuMemMap>(v, b);
    assert(crate::bits::wadd8(crate::bits::wsub8(c.reg_sp, 1), 1) == c.reg_sp);
}

#[verifier::spinoff_prover]
proof fn lemma_stack_access(v: CpuMemMapView, a: u16, b: u8)
    requires
        0x100 <= a < 0x200,
    ensures
        CpuMemMap::after_write(v, a, b) == (CpuMemMapView { ram: v.ram.update(a as int, b), ..v }),
        CpuMemMap::peek(v, a) == v.ram[a as int],
        CpuMemMap::after_read(v, a) == v,
{
    assert(a % 0x800 == a);
    assert((a % 0x800) % 2048 == a);
}

/// JSR pushes a return address (high byte first) and RTS pulls it back (low byte first): the
/// address comes back unchanged and the stack pointer is where it was.
#[verifier::spinoff_prover]
pub proof fn law_return_address_round_trip(c: crate::cpu::Cpu, v: CpuMemMapView, addr: u16)
    requires
        v.ram.len() == 2048,
    ensures
        ({
            let (c1, v1) = c.spec_push_addr::<CpuMemMap>(v, addr);
            let (a2, c2, v2) = c1.spec_pull_addr::<CpuMemMap>(v1);
            &&& a2 == addr
            &&& c2.reg_sp == c.reg_sp
            &&& v2 == v1
        }),
{
    reveal(crate::cpu::Cpu::spec_push_addr);
    reveal(crate::cpu::Cpu::spec_pull_addr);
    let sp = c.reg_sp;
    let sp1 = crate::bits::wsub8(sp, 1);
    let sp2 = crate::bits::wsub8(sp1, 1);
    assert(crate::bits::wadd8(sp2, 1) == sp1);
    assert(crate::bits::wadd8(sp1, 1) == sp);
    let hi = (addr / 256) as u8;
    let lo = (addr % 256) as u8;
    let a_hi = (0x100 + sp) as u16;
    let a_lo = (0x100 + sp1) as u16;
    assert(a_hi != a_lo);
    let v1 = CpuMemMapView { ram: v.ram.update(a_hi as int, hi), ..v };
    let v2 = CpuMemMapView { ram: v1.ram.update(a_lo as int, lo), ..v1 };
    lemma_stack_access(v, a_hi, hi);
    lemma_stack_access(v1, a_lo, lo);
    lemma_stack_access(v2, a_lo, 0);
    lemma_stack_access(v2, a_hi, 0);
    assert(crate::bits::word(lo, hi) == addr);
}
/// JSR to `t` followed by RTS returns to the instruction after the JSR (PC + 3) with the
/// stack pointer where it was; JSR leaves PC + 2 on the stack, high byte first. The
/// instructions are as decoding gives them: neither moves the program counter past itself.
#[verifier::spinoff_prover]
pub proof fn law_jsr_rts(c: crate::cpu::Cpu, v: CpuMemMapView, jsr: Instruction, rts: Instruction, t: u16)
    requires
        v.ram.len() == 2048,
        jsr.token is JSR,
        jsr.addressing_mode == AddressingMode::Absolute(t),
        !jsr.should_advance_pc,
        rts.token is RTS,
        !rts.should_advance_pc,
    ensures
        ({
            let (c1, _, v1) = c.spec_execute::<CpuMemMap>(jsr, v);
            let (c2, _, v2) = c1.spec_execute::<CpuMemMap>(rts, v1);
            &&& c1.reg_pc == t
            &&& v1 == c.spec_push_addr::<CpuMemMap>(v, wadd16(c.reg_pc, 2)).1
            &&& c2.reg_pc == wadd16(c.reg_pc, 3)
            &&& c2.reg_sp == c.reg_sp
            &&& v2 == v1
        }),
{
    let ret = wadd16(c.reg_pc, 2);
    let (c0, v0) = c.spec_push_addr::<CpuMemMap>(v, ret);
    crate::cpu::lemma_instr_jsr::<CpuMemMap>(c, jsr, v, t);
    let c1 = c0.with_pc(t);
    let (a, c3, v3) = c1.spec_pull_addr::<CpuMemMap>(v0);
    crate::cpu::lemma_instr_rts::<CpuMemMap>(c1, rts, v0);
    law_return_address_round_trip(c, v, ret);
    assert({
        let p1 = c1.spec_pull_addr::<CpuMemMap>(v0);
        let p0 = c0.spec_pull_addr::<CpuMemMap>(v0);
        p1.0 == p0.0 && p1.1.reg_sp == p0.1.reg_sp && p1.2 == p0.2
    }) by {
        reveal(crate::cpu::Cpu::spec_pull_addr);
    }
    assert(wadd16(ret, 1) == wadd16(c.reg_pc, 3));
}

} // verus!
