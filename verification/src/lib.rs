pub mod apu;
pub mod bits;
pub mod command;
pub mod controller;
pub mod cpu;
pub mod debug;
pub mod debugger;
pub mod disassembler;
pub mod dma;
pub mod errors;
pub mod instructions;
pub mod mappers;
pub mod memmap;
pub mod memory;
pub mod ppu;
pub mod rom;
pub mod terminal;
pub mod text;

use vstd::prelude::*;
use crate::apu::{ApuView, MixerInput};
use crate::controller::{ControllerButton, ControllerIndex};
use crate::bits::{wadd16, word};
use crate::cpu::{Cpu, StepResult, COUNTER_LIMIT, RESET_PC_VEC, RESET_SP};
use crate::debugger::{Debugger, DebuggerFrontend};
use crate::dma::Dma;
use crate::errors::EmulationError;
use crate::mappers::{is_supported_mapper, load_mapper_for_rom, spec_cartridge, MapperError, MapperImpl};
use crate::memory::{CpuMemMap, CpuMemMapView, MemMapped};
use crate::ppu::palette::{PpuPalette, PpuPaletteColor};
use crate::ppu::{PpuView, FRAME_PIXELS};
use crate::rom::{has_signature, required_len, spec_chr_rom, spec_header, spec_prg_rom, Rom, RomError, HEADER_SIZE};
use crate::terminal::{spec_check_breakpoints, TerminalDebuggerView};

verus! {

/// The largest CPU cycle span that the PPU can catch up on at once (three PPU cycles each).
pub const MAX_PPU_CATCH_UP: u64 = 0x5555_5555_5555_5555;

/// Why a console could not be made from an image.
#[derive(Debug, Clone, Copy)]
pub enum CoreError {
    RomError(RomError),
    /// The image needs a mapper that this emulator does not implement.
    UnsupportedMapper(u16),
}

/// The image reads as an iNES image with all the data its header announces.
pub open spec fn rom_parses(b: Seq<u8>) -> bool {
    has_signature(b) && b.len() >= HEADER_SIZE && b.len() >= required_len(spec_header(b))
}

/// The 2A03 (CPU and APU) with the rest of the console on its bus.
pub struct Core {
    pub cpu: Cpu,
    pub mem_map: CpuMemMap,
    pub is_debugger_attached: bool,
    pub is_running: bool,
    /// The debugger, while one is attached.
    pub debugger: Option<DebuggerFrontend>,
}

/// Access to the debugger attached to the console, if one is.
pub trait BusDebugger {
    fn debugger(&mut self) -> Option<&mut DebuggerFrontend>;
}

impl BusDebugger for Core {
    fn debugger(&mut self) -> (r: Option<&mut DebuggerFrontend>)
        ensures
            match old(self).debugger {
                None => r is None && final(self).debugger is None,
                Some(d) => (r matches Some(x) && *x == d && final(self).debugger == Some(*final(x))),
            },
            final(self).cpu == old(self).cpu,
            final(self).mem_map == old(self).mem_map,
            final(self).is_running == old(self).is_running,
            final(self).is_debugger_attached == old(self).is_debugger_attached,
    {
        self.debugger.as_mut()
    }
}

/// The state of an attached debugger.
pub open spec fn debugger_view(d: Option<DebuggerFrontend>) -> Option<TerminalDebuggerView> {
    match d {
        Some(f) => Some(f@),
        None => None,
    }
}

/// The PPU catching up with the CPU: it runs when its state allows, and reports an NMI.
#[verifier::opaque]
pub open spec fn spec_ppu_phase(m: CpuMemMapView, current: u64) -> (CpuMemMapView, bool) {
    if m.ppu.wf() && m.ppu.cpu_cycles <= current && current - m.ppu.cpu_cycles <= MAX_PPU_CATCH_UP {
        let p = PpuView { cpu_cycles: current, ..m.ppu.spec_run(((current - m.ppu.cpu_cycles) * 3) as nat) };
        (CpuMemMapView { ppu: p, ..m }, p.spec_nmi_due())
    } else {
        (m, false)
    }
}

/// The APU catching up with the CPU, and whether its frame interrupt fires.
#[verifier::opaque]
pub open spec fn spec_apu_phase(m: CpuMemMapView, current: u64) -> (CpuMemMapView, bool) {
    if m.apu.cpu_cycles <= current {
        let a = m.apu.spec_prepare_step(current).spec_run((current - m.apu.cpu_cycles) as nat);
        let irq = a.frame_irq && !a.irq_inhibit && a.cpu_cycles > a.next_irq_cycles;
        (CpuMemMapView { apu: if irq { ApuView { next_irq_cycles: 0, ..a } } else { a }, ..m }, irq)
    } else {
        (m, false)
    }
}

/// The PPU's pending NMI handed to the CPU.
#[verifier::opaque]
pub open spec fn spec_deliver_nmi(c: Cpu, m: CpuMemMapView) -> (Cpu, CpuMemMapView) {
    c.spec_interrupt::<CpuMemMap>(CpuMemMapView { ppu: PpuView { nmi_pending: false, ..m.ppu }, ..m }, true)
}

/// A running OAM DMA advances and keeps the CPU halted.
#[verifier::opaque]
pub open spec fn spec_dma_phase(c: Cpu, m: CpuMemMapView) -> (Cpu, CpuMemMapView) {
    if m.dma.is_active() && m.dma.wf() {
        let (d, mm) = m.dma.spec_step(m);
        (if c.is_halted { c } else { Cpu { is_halt_scheduled: true, ..c } }, CpuMemMapView { dma: d, ..mm })
    } else {
        (c, m)
    }
}

/// After a successful CPU step: an NMI that the PPU raised meanwhile is suppressed (reading
/// PPUSTATUS at the start of vblank) or delivered.
#[verifier::opaque]
pub open spec fn spec_finish_phase(c: Cpu, m: CpuMemMapView) -> (Cpu, CpuMemMapView) {
    if m.ppu.should_skip_vbl {
        (if c.has_pending_nmi() { Cpu { pending_interrupt: None, ..c } } else { c }, m)
    } else if m.ppu.nmi_pending {
        spec_deliver_nmi(c, m)
    } else {
        (c, m)
    }
}

/// One step of the console: PPU and APU catch up with the CPU (raising NMI and IRQ), a running
/// OAM DMA advances and halts the CPU, the CPU steps, and an NMI that the PPU raised meanwhile
/// is delivered or suppressed.
pub open spec fn spec_core_step(c: Cpu, m: CpuMemMapView) -> (Cpu, CpuMemMapView, StepResult) {
    let (c5, m5) = spec_devices_step(c, m);
    spec_cpu_phase(c5, m5)
}

/// The devices catch up with the CPU before it steps: PPU and APU (raising NMI and IRQ), and
/// a running OAM DMA, which halts the CPU.
pub open spec fn spec_devices_step(c: Cpu, m: CpuMemMapView) -> (Cpu, CpuMemMapView) {
    let current = c.cycle_count;
    let (m1, nmi) = spec_ppu_phase(m, current);
    let (c2, m2) = if nmi { spec_deliver_nmi(c, m1) } else { (c, m1) };
    let (m3, irq) = spec_apu_phase(m2, current);
    let (c4, m4) = if irq && !nmi { c2.spec_interrupt::<CpuMemMap>(m3, false) } else { (c2, m3) };
    spec_dma_phase(c4, m4)
}

/// The CPU steps, and an NMI that the PPU raised meanwhile is delivered or suppressed.
pub open spec fn spec_cpu_phase(c: Cpu, m: CpuMemMapView) -> (Cpu, CpuMemMapView, StepResult) {
    let (c6, m6, r) = c.spec_step::<CpuMemMap>(m);
    if r is Ok {
        let (c7, m7) = spec_finish_phase(c6, m6);
        (c7, m7, r)
    } else {
        (c6, m6, r)
    }
}

/// The CPU's part of a step with a debugger that may be attached: a breakpoint on the next
/// instruction stops execution before it (the debugger then listens for commands); else the
/// CPU steps as without a debugger.
pub open spec fn spec_debugged_cpu_phase(d: Option<TerminalDebuggerView>, c: Cpu, m: CpuMemMapView)
    -> (Option<TerminalDebuggerView>, Cpu, CpuMemMapView, StepResult)
{
    match d {
        Some(dv) => {
            let (dv1, stop) = spec_check_breakpoints(dv, c.reg_pc, c.cycle_count);
            if stop {
                (Some(dv1.with_listening(true)), c, m, Err(EmulationError::DebuggerBreakpoint(c.reg_pc)))
            } else {
                let (c1, m1, r) = spec_cpu_phase(c, m);
                (Some(dv1), c1, m1, r)
            }
        },
        None => {
            let (c1, m1, r) = spec_cpu_phase(c, m);
            (None, c1, m1, r)
        },
    }
}

impl Core {
    /// Counters far enough from their limits for a step.
    pub open spec fn can_step(self) -> bool {
        self.cpu.cycle_count < COUNTER_LIMIT - 64 && self.cpu.instructions_since_last_interrupt < COUNTER_LIMIT - 64
    }

    /// An attached debugger is in a valid state, and the PPU's frames have 256 x 240 pixels.
    pub open spec fn wf(self) -> bool {
        &&& self.debugger matches Some(d) ==> d@.wf()
        &&& self.mem_map@.ppu.output.len() == FRAME_PIXELS
        &&& self.mem_map@.ppu.curr_frame.len() == FRAME_PIXELS
    }

    /// A console with the cartridge of an iNES image and the given palette, after power-on
    /// and reset, paused.
    pub fn load_rom(rom_bytes: &[u8], palette: PpuPalette) -> (r: Result<Core, CoreError>)
        ensures
            match r {
                Ok(core) => {
                    &&& rom_parses(rom_bytes@)
                    &&& is_supported_mapper(spec_header(rom_bytes@).mapper_number)
                    &&& !core.is_running && !core.is_debugger_attached && core.debugger is None
                    &&& core.wf()
                    &&& core.mem_map@.ppu.wf()
                    &&& core.mem_map@.ppu.mem.palette == palette@
                    &&& spec_cartridge(spec_header(rom_bytes@), spec_prg_rom(rom_bytes@), spec_chr_rom(rom_bytes@))
                        == Some(core.mem_map@.ppu.mem.mapper)
                    &&& core.cpu.reg_pc == word(
                        <MapperImpl as MemMapped>::peek(core.mem_map@.ppu.mem.mapper, 0xFFFC),
                        <MapperImpl as MemMapped>::peek(core.mem_map@.ppu.mem.mapper, 0xFFFD),
                    )
                    &&& core.mem_map@.ram == Seq::new(2048, |i: int| 0u8)
                    &&& core.cpu.cycle_count == 7
                    &&& core.cpu.reg_sp == RESET_SP
                    &&& core.cpu == (Cpu { reg_pc: core.cpu.reg_pc, cycle_count: 7, ..Cpu::spec_power_on() })
                    &&& core.can_step()
                },
                Err(CoreError::RomError(e)) => {
                    ||| !has_signature(rom_bytes@) && e is InvalidSignature
                    ||| has_signature(rom_bytes@) && !rom_parses(rom_bytes@) && e is UnexpectedEnd
                },
                Err(CoreError::UnsupportedMapper(n)) => {
                    &&& rom_parses(rom_bytes@) && !is_supported_mapper(n) && n == spec_header(rom_bytes@).mapper_number
                    &&& spec_cartridge(spec_header(rom_bytes@), spec_prg_rom(rom_bytes@), spec_chr_rom(rom_bytes@)) is None
                },
            },
    {
        let rom = match Rom::load_rom(rom_bytes) {
            Ok(rom) => rom,
            Err(e) => return Err(CoreError::RomError(e)),
        };
        let mapper = match load_mapper_for_rom(&rom) {
            Ok(m) => m,
            Err(MapperError::UnsupportedMapper(n)) => return Err(CoreError::UnsupportedMapper(n)),
        };
        let mut mem_map = CpuMemMap::new(mapper, palette);
        let ghost m0 = mem_map@;
        let cpu = Cpu::new(&mut mem_map);
        proof {
            let m1 = CpuMemMap::after_read(m0, RESET_PC_VEC);
            assert(m1 == m0);
            assert(CpuMemMap::after_read(m1, wadd16(RESET_PC_VEC, 1)) == m0);
        }
        Ok(Core { cpu, mem_map, is_debugger_attached: false, is_running: false, debugger: None })
    }

    #[inline]
    pub fn cpu_cycles(&self) -> (r: u64)
        ensures
            r == self.cpu.cycle_count,
    {
        self.cpu.cycle_count
    }

    pub fn unpause(&mut self)
        ensures
            final(self).is_running,
            final(self).cpu == old(self).cpu,
            final(self).mem_map@ == old(self).mem_map@,
            final(self).is_debugger_attached == old(self).is_debugger_attached,
            final(self).debugger == old(self).debugger,
    {
        self.is_running = true;
    }

    pub fn pause(&mut self)
        ensures
            !final(self).is_running,
            final(self).cpu == old(self).cpu,
            final(self).mem_map@ == old(self).mem_map@,
            final(self).is_debugger_attached == old(self).is_debugger_attached,
            final(self).debugger == old(self).debugger,
    {
        self.is_running = false;
    }

    /// Makes the CPU continue at `entry_point_addr`.
    pub fn set_entry_point(&mut self, entry_point_addr: u16)
        ensures
            final(self).cpu == (Cpu { reg_pc: entry_point_addr, ..old(self).cpu }),
            final(self).mem_map@ == old(self).mem_map@,
            final(self).is_running == old(self).is_running,
            final(self).is_debugger_attached == old(self).is_debugger_attached,
            final(self).debugger == old(self).debugger,
    {
        self.cpu.reg_pc = entry_point_addr;
    }

    pub fn is_ppu_frame_ready(&self) -> (r: bool)
        ensures
            r == self.mem_map@.ppu.is_frame_ready,
    {
        self.mem_map.ppu.is_frame_ready()
    }

    /// The last frame that the PPU completed.
    pub fn ppu_frame(&mut self) -> (r: &[PpuPaletteColor])
        ensures
            r@ == old(self).mem_map@.ppu.output,
            r@.len() == FRAME_PIXELS,
            final(self).mem_map@ == (CpuMemMapView {
                ppu: PpuView { is_frame_ready: false, ..old(self).mem_map@.ppu },
                ..old(self).mem_map@
            }),
            final(self).cpu == old(self).cpu,
            final(self).is_running == old(self).is_running,
            final(self).is_debugger_attached == old(self).is_debugger_attached,
            final(self).debugger == old(self).debugger,
    {
        self.mem_map.ppu.get_frame()
    }

    /// The mixer inputs that the APU produced since the last call (one per CPU cycle).
    pub fn apu_mixer_inputs(&mut self) -> (r: Vec<MixerInput>)
        ensures
            r@ == old(self).mem_map@.apu.mixer_inputs,
            final(self).mem_map@ == (CpuMemMapView {
                apu: ApuView { mixer_inputs: Seq::empty(), ..old(self).mem_map@.apu },
                ..old(self).mem_map@
            }),
            final(self).cpu == old(self).cpu,
            final(self).is_running == old(self).is_running,
            final(self).is_debugger_attached == old(self).is_debugger_attached,
            final(self).debugger == old(self).debugger,
    {
        self.mem_map.apu.take_mixer_inputs()
    }

    /// Sets which buttons of a controller are pressed.
    pub fn set_controller_button_state(&mut self, controller_index: ControllerIndex, controller_button_state: &[ControllerButton])
        ensures
            final(self).mem_map@ == (CpuMemMapView {
                controllers: old(self).mem_map@.controllers.update(
                    controller_index.spec_index(),
                    crate::controller::Controller {
                        button_state: crate::controller::buttons_byte(controller_button_state@),
                        ..old(self).mem_map@.controllers[controller_index.spec_index()]
                    },
                ),
                ..old(self).mem_map@
            }),
            final(self).cpu == old(self).cpu,
            final(self).is_running == old(self).is_running,
            final(self).is_debugger_attached == old(self).is_debugger_attached,
            final(self).debugger == old(self).debugger,
    {
        let index = controller_index.index();
        let mut c = self.mem_map.controllers[index];
        c.set_button_state(controller_button_state);
        self.mem_map.controllers[index] = c;
        proof {
            assert(self.mem_map@.controllers =~= old(self).mem_map@.controllers.update(
                controller_index.spec_index(),
                crate::controller::Controller {
                    button_state: crate::controller::buttons_byte(controller_button_state@),
                    ..old(self).mem_map@.controllers[controller_index.spec_index()]
                },
            ));
        }
    }

    /// Attaches a terminal debugger, unless one is attached already, and returns it.
    pub fn attach_debugger(&mut self) -> (r: &mut DebuggerFrontend)
        requires
            old(self).wf(),
        ensures
            final(self).is_debugger_attached,
            final(self).debugger == Some(*final(r)),
            r@ == (match old(self).debugger {
                Some(d) => d@,
                None => TerminalDebuggerView::fresh(),
            }),
            r@.wf(),
            final(self).cpu == old(self).cpu,
            final(self).mem_map@ == old(self).mem_map@,
            final(self).is_running == old(self).is_running,
    {
        if self.debugger.is_none() {
            self.debugger = Some(DebuggerFrontend::new());
        }
        self.is_debugger_attached = true;
        self.debugger.as_mut().unwrap()
    }

    /// Detaches the debugger, with its breakpoints, watchpoints and labels.
    pub fn detach_debugger(&mut self)
        ensures
            !final(self).is_debugger_attached,
            final(self).debugger is None,
            final(self).cpu == old(self).cpu,
            final(self).mem_map@ == old(self).mem_map@,
            final(self).is_running == old(self).is_running,
    {
        self.debugger = None;
        self.is_debugger_attached = false;
    }

    /// The PPU catches up with the CPU; returns whether it raised an NMI.
    fn step_ppu(&mut self, current_cycle_count: u64) -> (r: bool)
        ensures
            (final(self).mem_map@, r) == spec_ppu_phase(old(self).mem_map@, current_cycle_count),
            final(self).cpu == old(self).cpu,
            final(self).is_running == old(self).is_running,
            final(self).is_debugger_attached == old(self).is_debugger_attached,
            final(self).debugger == old(self).debugger,
    {
        proof { reveal(spec_ppu_phase); }
        if self.mem_map.ppu.is_wf() && self.mem_map.ppu.cpu_cycles <= current_cycle_count
            && current_cycle_count - self.mem_map.ppu.cpu_cycles <= MAX_PPU_CATCH_UP {
            self.mem_map.ppu.step(current_cycle_count)
        } else {
            false
        }
    }

    /// The APU catches up with the CPU; returns whether its frame interrupt fires.
    fn step_apu(&mut self, current_cycle_count: u64) -> (r: bool)
        ensures
            (final(self).mem_map@, r) == spec_apu_phase(old(self).mem_map@, current_cycle_count),
            final(self).cpu == old(self).cpu,
            final(self).is_running == old(self).is_running,
            final(self).is_debugger_attached == old(self).is_debugger_attached,
            final(self).debugger == old(self).debugger,
    {
        proof { reveal(spec_apu_phase); }
        if self.mem_map.apu.cpu_cycles <= current_cycle_count {
            self.mem_map.apu.step(current_cycle_count)
        } else {
            false
        }
    }

    /// Hands the PPU's pending NMI to the CPU.
    fn deliver_nmi(&mut self)
        requires
            old(self).cpu.counters_bounded(),
        ensures
            (final(self).cpu, final(self).mem_map@) == spec_deliver_nmi(old(self).cpu, old(self).mem_map@),
            old(self).cpu.cycle_count <= final(self).cpu.cycle_count <= old(self).cpu.cycle_count + 7,
            final(self).cpu.instructions_since_last_interrupt <= old(self).cpu.instructions_since_last_interrupt,
            final(self).is_running == old(self).is_running,
            final(self).is_debugger_attached == old(self).is_debugger_attached,
            final(self).debugger == old(self).debugger,
    {
        proof { reveal(spec_deliver_nmi); }
        self.mem_map.ppu.clear_nmi();
        self.cpu.nmi(&mut self.mem_map);
    }

    /// A running OAM DMA advances and keeps the CPU halted.
    fn step_dma(&mut self)
        ensures
            (final(self).cpu, final(self).mem_map@) == spec_dma_phase(old(self).cpu, old(self).mem_map@),
            final(self).cpu.cycle_count == old(self).cpu.cycle_count,
            final(self).cpu.instructions_since_last_interrupt == old(self).cpu.instructions_since_last_interrupt,
            final(self).is_running == old(self).is_running,
            final(self).is_debugger_attached == old(self).is_debugger_attached,
            final(self).debugger == old(self).debugger,
    {
        proof { reveal(spec_dma_phase); }
        if self.mem_map.dma.is_dma_active() && self.mem_map.dma.is_wf() {
            let mut dma = self.mem_map.dma;
            self.mem_map.dma = Dma::new();
            dma.step(&mut self.mem_map);
            self.mem_map.dma = dma;
            self.cpu.dma();
        }
    }

    /// After a CPU step: an NMI that the PPU raised meanwhile is suppressed or delivered.
    fn finish_step(&mut self)
        requires
            old(self).cpu.counters_bounded(),
        ensures
            (final(self).cpu, final(self).mem_map@) == spec_finish_phase(old(self).cpu, old(self).mem_map@),
            old(self).cpu.cycle_count <= final(self).cpu.cycle_count,
            final(self).is_running == old(self).is_running,
            final(self).is_debugger_attached == old(self).is_debugger_attached,
            final(self).debugger == old(self).debugger,
    {
        proof { reveal(spec_finish_phase); }
        if self.mem_map.ppu.should_suppress_nmi() {
            self.cpu.suppress_interrupt();
        } else if self.mem_map.ppu.nmi_pending {
            // Needs the PPU to track its own cycles to be more accurate.
            self.deliver_nmi();
        }
    }

    /// The devices catch up with the CPU before it steps (see `spec_devices_step`).
    pub fn step_devices(&mut self)
        requires
            old(self).can_step(),
        ensures
            (final(self).cpu, final(self).mem_map@) == spec_devices_step(old(self).cpu, old(self).mem_map@),
            old(self).cpu.cycle_count <= final(self).cpu.cycle_count <= old(self).cpu.cycle_count + 14,
            final(self).cpu.instructions_since_last_interrupt <= old(self).cpu.instructions_since_last_interrupt,
            final(self).is_running == old(self).is_running,
            final(self).is_debugger_attached == old(self).is_debugger_attached,
            final(self).debugger == old(self).debugger,
    {
        let current_cycle_count = self.cpu.cycle_count;

        let nmi = self.step_ppu(current_cycle_count);
        if nmi {
            self.deliver_nmi();
        }

        let irq = self.step_apu(current_cycle_count);
        if irq && !nmi {
            self.cpu.irq(&mut self.mem_map);
        }

        self.step_dma();
    }

    /// The CPU's part of a step (see `spec_debugged_cpu_phase`): an attached debugger may stop
    /// execution at a breakpoint first. Returns what the CPU step returned, or the breakpoint.
    pub fn step_cpu(&mut self) -> (r: StepResult)
        requires
            old(self).cpu.cycle_count < COUNTER_LIMIT - 32,
            old(self).cpu.instructions_since_last_interrupt < COUNTER_LIMIT - 32,
            old(self).wf(),
        ensures
            (debugger_view(final(self).debugger), final(self).cpu, final(self).mem_map@, r)
                == spec_debugged_cpu_phase(debugger_view(old(self).debugger), old(self).cpu, old(self).mem_map@),
            old(self).cpu.cycle_count <= final(self).cpu.cycle_count,
            final(self).wf(),
            final(self).is_running == old(self).is_running,
            final(self).is_debugger_attached == old(self).is_debugger_attached,
    {
        let pc = self.cpu.reg_pc;
        let cycles = self.cpu.cycle_count;
        let mut stop = false;
        match &mut self.debugger {
            Some(d) => {
                if d.check_breakpoints(pc, cycles) {
                    d.start_listening();
                    stop = true;
                }
            },
            None => {},
        }
        if stop {
            return Err(EmulationError::DebuggerBreakpoint(pc));
        }
        let result = self.cpu.step(&mut self.mem_map);
        if result.is_ok() {
            self.finish_step();
        }
        result
    }

    /// One step of the console (see `spec_core_step`); returns what the CPU step returned. A
    /// frontend whose debugger listens for commands runs `step_devices` and `step_cpu` with the
    /// commands between them.
    pub fn step(&mut self) -> (r: StepResult)
        requires
            old(self).can_step(),
            old(self).wf(),
        ensures
            (debugger_view(final(self).debugger), final(self).cpu, final(self).mem_map@, r) == ({
                let (c, m) = spec_devices_step(old(self).cpu, old(self).mem_map@);
                spec_debugged_cpu_phase(debugger_view(old(self).debugger), c, m)
            }),
            old(self).debugger is None ==> (final(self).cpu, final(self).mem_map@, r)
                == spec_core_step(old(self).cpu, old(self).mem_map@),
            old(self).cpu.cycle_count <= final(self).cpu.cycle_count,
            final(self).wf(),
            final(self).is_running == old(self).is_running,
            final(self).is_debugger_attached == old(self).is_debugger_attached,
    {
        self.step_devices();
        self.step_cpu()
    }
}

} // verus!
