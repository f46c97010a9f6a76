// Execution traces: one line per step with the CPU's next instruction and registers and the
// PPU's position.
use vstd::prelude::*;
use crate::cpu::Cpu;
use crate::disassembler::{disassemble, spec_disassemble};
use crate::errors::spec_message;
use crate::instructions::{spec_decode, Instruction};
use crate::memory::{CpuMemMap, CpuMemMapView};
use crate::ppu::{Ppu, PpuView, STATUS_IN_VBLANK};
use crate::text::{
    append_binary, append_bool, append_decimal, append_hex2, append_hex4, append_signed_decimal, binary,
    bool_text, decimal, hex2, hex4, signed_decimal,
};

verus! {

/// The parts of one trace line.
pub struct Trace {
    pub cpu_trace: Option<String>,
    pub ppu_trace: Option<String>,
    pub tick_time_ns: Option<i64>,
}

/// 1 for `true`, 0 for `false`, as a digit.
pub open spec fn flag_text(b: bool) -> Seq<char> {
    if b { "1"@ } else { "0"@ }
}

/// The CPU registers as a trace shows them.
pub open spec fn spec_cpu_text(c: Cpu) -> Seq<char> {
    "A:0x"@ + hex2(c.reg_a) + " X:0x"@ + hex2(c.reg_x) + " Y:0x"@ + hex2(c.reg_y) + " P:0x"@
        + hex2(c.reg_status.spec_byte_with(c.reg_status.break_executed)) + " SP:0x"@ + hex2(c.reg_sp)
        + " N:"@ + flag_text(c.reg_status.sign_flag) + " I:"@ + flag_text(c.reg_status.interrupt_disable)
        + " UI:"@ + flag_text(c.unhandled_interrupt is Some) + " PI:"@ + flag_text(c.pending_interrupt is Some)
        + " CYC:"@ + decimal(c.cycle_count as nat)
}

/// The PPU's position and registers as a trace shows them.
pub open spec fn spec_ppu_text(p: PpuView) -> Seq<char> {
    "PPU: "@ + decimal(p.scanline as nat) + ", "@ + decimal(p.cycle as nat) + ", vbl: "@
        + bool_text(p.status & STATUS_IN_VBLANK != 0) + ", skp_vbl: "@ + bool_text(p.should_skip_vbl)
        + ", ctrl: "@ + binary(p.ctrl as nat) + " mask: "@ + binary(p.mask as nat) + ", reg_v: 0x"@
        + hex4(p.reg_v) + ", w_latch: "@ + bool_text(p.is_address_latch_on)
}

/// What the CPU part of a trace holds: the next instruction, disassembled, and the registers;
/// or why the next byte is no instruction. Also the device state after the reads.
pub open spec fn spec_cpu_trace(c: Cpu, v: CpuMemMapView) -> (Seq<char>, CpuMemMapView) {
    let (d, v1) = spec_decode::<CpuMemMap>(v, c.reg_pc);
    match d {
        Ok(instr) => {
            let (line, _, v2) = spec_disassemble::<CpuMemMap>(instr.address, instr, c, v1);
            (line + "\t"@ + spec_cpu_text(c), v2)
        },
        Err(e) => (spec_message(e), v1),
    }
}

/// One trace line: the CPU part, then the PPU part and the tick time when present.
pub open spec fn spec_trace_text(t: Trace) -> Seq<char> {
    (if let Some(c) = t.cpu_trace { c@ } else { Seq::empty() })
        + (if let Some(p) = t.ppu_trace { " "@ + p@ } else { Seq::empty() })
        + (if let Some(n) = t.tick_time_ns { " tck:"@ + signed_decimal(n as int) } else { Seq::empty() })
}

pub fn cpu_text(c: &Cpu) -> (r: String)
    ensures
        r@ == spec_cpu_text(*c),
{
    let mut s = String::from_str("A:0x");
    append_hex2(&mut s, c.reg_a);
    s.append(" X:0x");
    append_hex2(&mut s, c.reg_x);
    s.append(" Y:0x");
    append_hex2(&mut s, c.reg_y);
    s.append(" P:0x");
    append_hex2(&mut s, c.reg_status.byte());
    s.append(" SP:0x");
    append_hex2(&mut s, c.reg_sp);
    s.append(" N:");
    s.append(if c.reg_status.sign_flag { "1" } else { "0" });
    s.append(" I:");
    s.append(if c.reg_status.interrupt_disable { "1" } else { "0" });
    s.append(" UI:");
    s.append(if c.unhandled_interrupt.is_some() { "1" } else { "0" });
    s.append(" PI:");
    s.append(if c.pending_interrupt.is_some() { "1" } else { "0" });
    s.append(" CYC:");
    append_decimal(&mut s, c.cycle_count);
    s
}

pub fn ppu_text(p: &Ppu) -> (r: String)
    ensures
        r@ == spec_ppu_text(p@),
{
    let mut s = String::from_str("PPU: ");
    append_decimal(&mut s, p.curr_scanline as u64);
    s.append(", ");
    append_decimal(&mut s, p.curr_scanline_cycle as u64);
    s.append(", vbl: ");
    append_bool(&mut s, p.reg_status & STATUS_IN_VBLANK != 0);
    s.append(", skp_vbl: ");
    append_bool(&mut s, p.should_skip_vbl);
    s.append(", ctrl: ");
    append_binary(&mut s, p.reg_ctrl);
    s.append(" mask: ");
    append_binary(&mut s, p.reg_mask);
    s.append(", reg_v: 0x");
    append_hex4(&mut s, p.reg_v);
    s.append(", w_latch: ");
    append_bool(&mut s, p.is_address_latch_on);
    s
}

impl Trace {
    pub fn new() -> (r: Trace)
        ensures
            r.cpu_trace is None && r.ppu_trace is None && r.tick_time_ns is None,
    {
        Trace { cpu_trace: None, ppu_trace: None, tick_time_ns: None }
    }

    /// The trace as one line.
    pub fn text(&self) -> (r: String)
        ensures
            r@ == spec_trace_text(*self),
    {
        let mut s = String::new();
        if let Some(c) = &self.cpu_trace {
            s.append(c.as_str());
        }
        if let Some(p) = &self.ppu_trace {
            s.append(" ");
            s.append(p.as_str());
        }
        if let Some(n) = self.tick_time_ns {
            s.append(" tck:");
            append_signed_decimal(&mut s, n);
        }
        proof {
            assert(s@ =~= spec_trace_text(*self));
        }
        s
    }
}

/// Collects trace lines while enabled.
pub struct Tracer {
    pub is_enabled: bool,
    pub current_trace: Option<Trace>,
    pub traces: Vec<String>,
}

impl Tracer {
    pub fn new() -> (r: Tracer)
        ensures
            !r.is_enabled && r.current_trace is None && r.traces@.len() == 0,
    {
        Tracer { is_enabled: false, current_trace: None, traces: Vec::new() }
    }

    pub fn is_enabled(&self) -> (r: bool)
        ensures
            r == self.is_enabled,
    {
        self.is_enabled
    }

    pub fn set_enabled(&mut self, is_enabled: bool)
        ensures
            final(self).is_enabled == is_enabled,
            final(self).current_trace == old(self).current_trace,
            final(self).traces@ == old(self).traces@,
    {
        self.is_enabled = is_enabled;
    }

    /// Records the CPU part of the current trace (when a trace was started), reading memory
    /// without changing device registers; reads stay state-changing afterwards.
    pub fn add_cpu_trace(&mut self, cpu_state: &Cpu, mem_map: &mut CpuMemMap)
        ensures
            final(self).is_enabled == old(self).is_enabled,
            final(self).traces@ == old(self).traces@,
            ({
                let (line, v) = spec_cpu_trace(*cpu_state, old(mem_map)@.with_mutating_read(false));
                match old(self).current_trace {
                    Some(t) => final(self).current_trace matches Some(t2)
                        && t2.cpu_trace matches Some(s) && s@ == line
                        && t2.ppu_trace == t.ppu_trace && t2.tick_time_ns == t.tick_time_ns
                        && final(mem_map)@ == v.with_mutating_read(true),
                    None => final(self).current_trace is None && final(mem_map)@ == old(mem_map)@,
                }
            }),
    {
        if let Some(mut current_trace) = self.current_trace.take() {
            mem_map.set_is_mutating_read(false);
            let instruction = Instruction::decode(mem_map, cpu_state.reg_pc);
            let trace_line = match instruction {
                Ok(mut instr) => {
                    let ghost v1 = mem_map@;
                    proof {
                        crate::cpu::lemma_decoded_cycles::<CpuMemMap>(old(mem_map)@.with_mutating_read(false), cpu_state.reg_pc);
                    }
                    let line = disassemble(instr.address, &mut instr, cpu_state, mem_map);
                    let mut l = match line {
                        Ok(l) => l,
                        Err(_) => String::from_str("INVALID"),
                    };
                    l.append("\t");
                    let c = cpu_text(cpu_state);
                    l.append(c.as_str());
                    l
                },
                Err(e) => e.message(),
            };
            current_trace.cpu_trace = Some(trace_line);
            mem_map.set_is_mutating_read(true);
            self.current_trace = Some(current_trace);
        }
    }

    /// Records the PPU part of the current trace (when a trace was started).
    pub fn add_ppu_trace(&mut self, ppu: &Ppu)
        ensures
            final(self).is_enabled == old(self).is_enabled,
            final(self).traces@ == old(self).traces@,
            match old(self).current_trace {
                Some(t) => final(self).current_trace matches Some(t2)
                    && t2.ppu_trace matches Some(s) && s@ == spec_ppu_text(ppu@)
                    && t2.cpu_trace == t.cpu_trace && t2.tick_time_ns == t.tick_time_ns,
                None => final(self).current_trace is None,
            },
    {
        if let Some(mut current_trace) = self.current_trace.take() {
            current_trace.ppu_trace = Some(ppu_text(ppu));
            self.current_trace = Some(current_trace);
        }
    }

    /// Records the time that the step took (when a trace was started).
    pub fn add_tick_time_ns(&mut self, tick_time_ns: Option<i64>)
        ensures
            final(self).is_enabled == old(self).is_enabled,
            final(self).traces@ == old(self).traces@,
            match old(self).current_trace {
                Some(t) => final(self).current_trace == Some(Trace { tick_time_ns, ..t }),
                None => final(self).current_trace is None,
            },
    {
        if let Some(mut current_trace) = self.current_trace.take() {
            current_trace.tick_time_ns = tick_time_ns;
            self.current_trace = Some(current_trace);
        }
    }

    /// Keeps the current trace when it has both a CPU and a PPU part, and starts a new one.
    pub fn start_new_trace(&mut self)
        ensures
            final(self).is_enabled == old(self).is_enabled,
            final(self).current_trace matches Some(t) && t.cpu_trace is None && t.ppu_trace is None && t.tick_time_ns is None,
            match old(self).current_trace {
                Some(t) => if t.cpu_trace is Some && t.ppu_trace is Some {
                    final(self).traces@.len() == old(self).traces@.len() + 1
                        && final(self).traces@.take(old(self).traces@.len() as int) == old(self).traces@
                        && final(self).traces@.last()@ == spec_trace_text(t)
                } else {
                    final(self).traces@ == old(self).traces@
                },
                None => final(self).traces@ == old(self).traces@,
            },
    {
        if let Some(trace) = &self.current_trace {
            if trace.cpu_trace.is_some() && trace.ppu_trace.is_some() {
                let line = trace.text();
                self.traces.push(line);
            }
        }
        self.current_trace = Some(Trace::new());
        proof {
            if let Some(t) = old(self).current_trace {
                if t.cpu_trace is Some && t.ppu_trace is Some {
                    assert(self.traces@.take(old(self).traces@.len() as int) =~= old(self).traces@);
                }
            }
        }
    }

    pub fn has_traces(&self) -> (r: bool)
        ensures
            r == (self.traces@.len() > 0),
    {
        self.traces.len() > 0
    }

    pub fn clear_traces(&mut self)
        ensures
            final(self).traces@.len() == 0,
            final(self).is_enabled == old(self).is_enabled,
            final(self).current_trace == old(self).current_trace,
    {
        self.traces.clear();
    }
}

} // verus!
