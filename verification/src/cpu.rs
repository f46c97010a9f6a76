// The 6502 core of the 2A03.
use vstd::prelude::*;
use crate::bits::{b2u, bit, get_bit, lemma_bit, make_word, wadd16, wadd8, word, wsub16, wsub8};
use crate::errors::EmulationError;
use crate::instructions::{spec_decode, AddressingMode, Instruction, InstructionToken};
use crate::memory::MemMapped;

verus! {

pub const RESET_PC_VEC: u16 = 0xFFFC;
pub const NMI_PC_VEC: u16 = 0xFFFA;
pub const BRK_PC_VEC: u16 = 0xFFFE;
pub const RESET_SP: u8 = 0xFD;

/// Cycles are counted in `u64`; below this bound a step cannot make a counter wrap.
pub const COUNTER_LIMIT: u64 = 0xFFFF_FFFF_FFFF_FF00;

/// The processor status register P.
#[derive(Debug, Default, Copy, Clone)]
pub struct StatusReg {
    pub carry_flag: bool,
    pub zero_flag: bool,
    pub interrupt_disable: bool,
    pub decimal_mode: bool,
    pub break_executed: bool,
    // unused bit 5, always set
    pub logical_1: bool,
    pub overflow_flag: bool,
    // 0 when result of operation is positive, 1 when negative
    pub sign_flag: bool,
}

/// The byte that holds the flags of `s`, with `brk` in bit 4 and bit 5 set.
pub open spec fn status_bits(
    c: bool,
    z: bool,
    i: bool,
    d: bool,
    brk: bool,
    v: bool,
    n: bool,
) -> u8 {
    (b2u(c) + 2 * b2u(z) + 4 * b2u(i) + 8 * b2u(d) + 16 * b2u(brk) + 32 + 64 * b2u(v) + 128 * b2u(n)) as u8
}

/// The signed value of a byte in two's complement.
pub open spec fn signed(x: u8) -> int {
    if x >= 128 { x - 256 } else { x as int }
}

impl StatusReg {
    /// The status register after a reset.
    pub open spec fn spec_reset() -> StatusReg {
        StatusReg {
            carry_flag: false,
            zero_flag: false,
            interrupt_disable: true,
            decimal_mode: false,
            break_executed: false,
            logical_1: true,
            overflow_flag: false,
            sign_flag: false,
        }
    }

    pub open spec fn is_unused_bit_set(self) -> bool {
        self.logical_1
    }

    /// The status byte with `brk` in place of the break bit.
    pub open spec fn spec_byte_with(self, brk: bool) -> u8 {
        status_bits(
            self.carry_flag,
            self.zero_flag,
            self.interrupt_disable,
            self.decimal_mode,
            brk,
            self.overflow_flag,
            self.sign_flag,
        )
    }

    /// The flags that PLP/RTI take from `byte`; the break flag stays as it was.
    pub open spec fn spec_plp(self, byte: u8) -> StatusReg {
        StatusReg {
            carry_flag: bit(byte, 0),
            zero_flag: bit(byte, 1),
            interrupt_disable: bit(byte, 2),
            decimal_mode: bit(byte, 3),
            break_executed: self.break_executed,
            logical_1: true,
            overflow_flag: bit(byte, 6),
            sign_flag: bit(byte, 7),
        }
    }

    /// Zero and sign flags set from `byte`.
    pub open spec fn spec_zs(self, byte: u8) -> StatusReg {
        StatusReg { sign_flag: byte >= 128, zero_flag: byte == 0, ..self }
    }

    fn status_byte(&self, brk: bool) -> (r: u8)
        ensures
            r == self.spec_byte_with(brk),
    {
        let c: u8 = if self.carry_flag { 1 } else { 0 };
        let z: u8 = if self.zero_flag { 1 } else { 0 };
        let i: u8 = if self.interrupt_disable { 1 } else { 0 };
        let d: u8 = if self.decimal_mode { 1 } else { 0 };
        let b: u8 = if brk { 1 } else { 0 };
        let v: u8 = if self.overflow_flag { 1 } else { 0 };
        let n: u8 = if self.sign_flag { 1 } else { 0 };
        c + 2 * z + 4 * i + 8 * d + 16 * b + 32 + 64 * v + 128 * n
    }

    /// The status byte as the register holds it.
    pub fn byte(&self) -> (r: u8)
        ensures
            r == self.spec_byte_with(self.break_executed),
    {
        self.status_byte(self.break_executed)
    }

    /// The status byte that a hardware interrupt pushes (break bit clear).
    pub fn irq(&self) -> (r: u8)
        ensures
            r == self.spec_byte_with(false),
    {
        self.status_byte(false)
    }

    /// The status byte that PHP and BRK push (break bit set).
    pub fn php(&self) -> (r: u8)
        ensures
            r == self.spec_byte_with(true),
    {
        self.status_byte(true)
    }

    /// Loads the flags from a pulled status byte.
    pub fn plp(&mut self, byte: u8)
        ensures
            *final(self) == old(self).spec_plp(byte),
    {
        self.carry_flag = get_bit(byte, 0);
        self.zero_flag = get_bit(byte, 1);
        self.interrupt_disable = get_bit(byte, 2);
        self.decimal_mode = get_bit(byte, 3);
        self.logical_1 = true;
        self.overflow_flag = get_bit(byte, 6);
        self.sign_flag = get_bit(byte, 7);
    }

    pub fn toggle_zero_sign(&mut self, byte: u8)
        ensures
            *final(self) == old(self).spec_zs(byte),
    {
        let sign = byte >> 7 == 1;
        proof { crate::bits::lemma_byte_ops(byte); }
        self.toggle_sign(sign);

        let zero = byte == 0;
        self.toggle_zero(zero);
    }

    pub fn toggle_carry(&mut self, value: bool)
        ensures
            *final(self) == (StatusReg { carry_flag: value, ..*old(self) }),
    {
        self.carry_flag = value;
    }

    pub fn toggle_zero(&mut self, value: bool)
        ensures
            *final(self) == (StatusReg { zero_flag: value, ..*old(self) }),
    {
        self.zero_flag = value;
    }

    pub fn toggle_interrupt_disable(&mut self, value: bool)
        ensures
            *final(self) == (StatusReg { interrupt_disable: value, ..*old(self) }),
    {
        self.interrupt_disable = value;
    }

    pub fn toggle_break_executed(&mut self, value: bool)
        ensures
            *final(self) == (StatusReg { break_executed: value, ..*old(self) }),
    {
        self.break_executed = value;
    }

    pub fn toggle_decimal(&mut self, value: bool)
        ensures
            *final(self) == (StatusReg { decimal_mode: value, ..*old(self) }),
    {
        self.decimal_mode = value;
    }

    pub fn toggle_overflow(&mut self, value: bool)
        ensures
            *final(self) == (StatusReg { overflow_flag: value, ..*old(self) }),
    {
        self.overflow_flag = value;
    }

    pub fn toggle_sign(&mut self, value: bool)
        ensures
            *final(self) == (StatusReg { sign_flag: value, ..*old(self) }),
    {
        self.sign_flag = value;
    }
}

/// Bit `i` of a status byte built from seven flags is the flag stored there.
pub proof fn lemma_status_bits(c: bool, z: bool, i: bool, d: bool, brk: bool, v: bool, n: bool)
    ensures
        ({
            let b = status_bits(c, z, i, d, brk, v, n);
            &&& bit(b, 0) == c
            &&& bit(b, 1) == z
            &&& bit(b, 2) == i
            &&& bit(b, 3) == d
            &&& bit(b, 4) == brk
            &&& bit(b, 5)
            &&& bit(b, 6) == v
            &&& bit(b, 7) == n
        }),
{
}

/// Pulling what PHP pushed gives back every flag: the pushed byte restores the register.
pub proof fn law_plp_restores_php(s: StatusReg)
    requires
        s.is_unused_bit_set(),
    ensures
        s.spec_plp(s.spec_byte_with(true)) == s,
        s.spec_plp(s.spec_byte_with(false)) == s,
{
    lemma_status_bits(s.carry_flag, s.zero_flag, s.interrupt_disable, s.decimal_mode, true, s.overflow_flag, s.sign_flag);
    lemma_status_bits(s.carry_flag, s.zero_flag, s.interrupt_disable, s.decimal_mode, false, s.overflow_flag, s.sign_flag);
}

/// A status byte pulled into the register and pushed again by PHP comes back unchanged,
/// but for the break bit and bit 5, which PHP always sets.
pub proof fn law_php_after_plp(s: StatusReg, byte: u8)
    ensures
        s.spec_plp(byte).spec_byte_with(true) == (byte | 0x30),
{
    let t = s.spec_plp(byte);
    lemma_bit(byte, 0);
    lemma_bit(byte, 1);
    lemma_bit(byte, 2);
    lemma_bit(byte, 3);
    lemma_bit(byte, 6);
    lemma_bit(byte, 7);
    assert(byte | 0x30 == ((byte >> 0u8) & 1) + 2 * ((byte >> 1u8) & 1) + 4 * ((byte >> 2u8) & 1)
        + 8 * ((byte >> 3u8) & 1) + 16 + 32 + 64 * ((byte >> 6u8) & 1) + 128 * ((byte >> 7u8) & 1))
        by (bit_vector);
}

/// The result and flags of ADC: `a + m + carry`, carry out when the sum passes 255,
/// overflow when the signed sum leaves -128..127.
pub open spec fn spec_adc(s: StatusReg, a: u8, m: u8) -> (u8, StatusReg) {
    let c = b2u(s.carry_flag);
    let sum = a + m + c;
    let r = (sum % 256) as u8;
    let signed_sum = signed(a) + signed(m) + c;
    let overflow = signed_sum > 127 || signed_sum < -128;
    (r, StatusReg { carry_flag: sum > 255, overflow_flag: overflow, ..s }.spec_zs(r))
}

/// The flags of CMP/CPX/CPY comparing `reg` with `m`.
pub open spec fn spec_compare(s: StatusReg, reg: u8, m: u8) -> StatusReg {
    StatusReg { carry_flag: reg >= m, zero_flag: reg == m, sign_flag: wsub8(reg, m) >= 128, ..s }
}

/// Where a taken branch with `offset` from `pc` lands (before the instruction's own length is added).
pub open spec fn branch_target(pc: u16, offset: i8) -> u16 {
    if offset >= 0 {
        wadd16(pc, offset as u16)
    } else {
        wsub16(pc, (-offset) as u16)
    }
}

#[derive(Default, Copy, Clone)]
pub struct CpuInterrupt {
    pub is_hardware: bool,
    pub is_nmi: bool,
}

#[derive(Default, Copy, Clone)]
pub struct Cpu {
    // Accumulator
    pub reg_a: u8,
    // X index register
    pub reg_x: u8,
    // Y index register
    pub reg_y: u8,
    // status register
    pub reg_status: StatusReg,
    // stack pointer register
    pub reg_sp: u8,
    // program counter register
    pub reg_pc: u16,
    // Cycle count
    pub cycle_count: u64,
    pub unhandled_interrupt: Option<CpuInterrupt>,
    pub pending_interrupt: Option<CpuInterrupt>,
    pub instructions_since_last_interrupt: u64,
    pub is_halt_scheduled: bool,
    pub is_halted: bool,
}

/// The result of one CPU step.
pub type StepResult = Result<u8, EmulationError>;

impl Cpu {
    //
    // Specification helpers
    //

    /// The counters are far enough from `u64::MAX` for a step.
    pub open spec fn counters_bounded(self) -> bool {
        self.cycle_count < COUNTER_LIMIT && self.instructions_since_last_interrupt < COUNTER_LIMIT
    }

    pub open spec fn has_pending_interrupt(self) -> bool {
        self.pending_interrupt is Some
    }

    pub open spec fn has_pending_nmi(self) -> bool {
        self.pending_interrupt matches Some(i) && i.is_nmi
    }

    pub open spec fn has_unhandled_interrupt(self) -> bool {
        self.unhandled_interrupt is Some
    }

    pub open spec fn is_halted_spec(self) -> bool {
        self.is_halted
    }

    pub open spec fn is_halt_scheduled_spec(self) -> bool {
        self.is_halt_scheduled
    }

    pub open spec fn with_status(self, s: StatusReg) -> Cpu {
        Cpu { reg_status: s, ..self }
    }

    pub open spec fn with_pc(self, pc: u16) -> Cpu {
        Cpu { reg_pc: pc, ..self }
    }

    /// Pushes `b`: written at 0x100 + SP, then SP decremented.
    pub open spec fn spec_push<M: MemMapped>(self, v: M::V, b: u8) -> (Cpu, M::V) {
        (
            Cpu { reg_sp: wsub8(self.reg_sp, 1), ..self },
            M::after_write(v, (0x100 + self.reg_sp) as u16, b),
        )
    }

    /// Pulls a byte: SP incremented, then the byte read at 0x100 + SP.
    pub open spec fn spec_pull<M: MemMapped>(self, v: M::V) -> (u8, Cpu, M::V) {
        let sp = wadd8(self.reg_sp, 1);
        let a = (0x100 + sp) as u16;
        (M::peek(v, a), Cpu { reg_sp: sp, ..self }, M::after_read(v, a))
    }

    /// Pushes a word, high byte first.
    #[verifier::opaque]
    pub open spec fn spec_push_addr<M: MemMapped>(self, v: M::V, addr: u16) -> (Cpu, M::V) {
        let (c1, v1) = self.spec_push::<M>(v, (addr / 256) as u8);
        c1.spec_push::<M>(v1, (addr % 256) as u8)
    }

    /// Pulls a word, low byte first.
    #[verifier::opaque]
    pub open spec fn spec_pull_addr<M: MemMapped>(self, v: M::V) -> (u16, Cpu, M::V) {
        let (lo, c1, v1) = self.spec_pull::<M>(v);
        let (hi, c2, v2) = c1.spec_pull::<M>(v1);
        (word(lo, hi), c2, v2)
    }

    /// The operand of `instr` and the instruction with the page-crossing cycle added.
    #[verifier::opaque]
    pub open spec fn spec_read_resolved<M: MemMapped>(self, instr: Instruction, v: M::V) -> (u8, Instruction, M::V) {
        let extra = Instruction { cycle_count: (instr.cycle_count + 1) as u8, ..instr };
        match instr.addressing_mode {
            AddressingMode::ZeroPageIndexedX(arg) => {
                let a = wadd8(arg, self.reg_x) as u16;
                (M::peek(v, a), instr, M::after_read(v, a))
            },
            AddressingMode::ZeroPageIndexedY(arg) => {
                let a = wadd8(arg, self.reg_y) as u16;
                (M::peek(v, a), instr, M::after_read(v, a))
            },
            AddressingMode::AbsoluteIndexedX(arg) => {
                let a = wadd16(arg, self.reg_x as u16);
                (M::peek(v, a), if arg % 256 + self.reg_x > 255 { extra } else { instr }, M::after_read(v, a))
            },
            AddressingMode::AbsoluteIndexedY(arg) => {
                let a = wadd16(arg, self.reg_y as u16);
                (M::peek(v, a), if arg % 256 + self.reg_y > 255 { extra } else { instr }, M::after_read(v, a))
            },
            AddressingMode::IndexedIndirectX(arg) => {
                let p = wadd8(arg, self.reg_x);
                let lo = M::peek(v, p as u16);
                let v1 = M::after_read(v, p as u16);
                let hi = M::peek(v1, wadd8(p, 1) as u16);
                let v2 = M::after_read(v1, wadd8(p, 1) as u16);
                let a = word(lo, hi);
                (M::peek(v2, a), instr, M::after_read(v2, a))
            },
            AddressingMode::IndirectIndexedY(arg) => {
                let lo = M::peek(v, arg as u16);
                let v1 = M::after_read(v, arg as u16);
                let hi = M::peek(v1, wadd8(arg, 1) as u16);
                let v2 = M::after_read(v1, wadd8(arg, 1) as u16);
                let base = word(lo, hi);
                let a = wadd16(base, self.reg_y as u16);
                (M::peek(v2, a), if base % 256 + self.reg_y > 255 { extra } else { instr }, M::after_read(v2, a))
            },
            AddressingMode::Immediate(arg) => (arg, instr, v),
            AddressingMode::Accumulator => (self.reg_a, instr, v),
            AddressingMode::ZeroPage(arg) => (M::peek(v, arg as u16), instr, M::after_read(v, arg as u16)),
            AddressingMode::Absolute(arg) => (M::peek(v, arg), instr, M::after_read(v, arg)),
            _ => (0, instr, v),
        }
    }

    /// Stores `b` where `instr` addresses it (the accumulator for accumulator mode).
    #[verifier::opaque]
    pub open spec fn spec_write_resolved<M: MemMapped>(self, instr: Instruction, v: M::V, b: u8) -> (Cpu, M::V) {
        match instr.addressing_mode {
            AddressingMode::ZeroPageIndexedX(arg) => (self, M::after_write(v, wadd8(arg, self.reg_x) as u16, b)),
            AddressingMode::ZeroPageIndexedY(arg) => (self, M::after_write(v, wadd8(arg, self.reg_y) as u16, b)),
            AddressingMode::AbsoluteIndexedX(arg) => (self, M::after_write(v, wadd16(arg, self.reg_x as u16), b)),
            AddressingMode::AbsoluteIndexedY(arg) => (self, M::after_write(v, wadd16(arg, self.reg_y as u16), b)),
            AddressingMode::IndexedIndirectX(arg) => {
                let p = wadd8(arg, self.reg_x);
                let lo = M::peek(v, p as u16);
                let v1 = M::after_read(v, p as u16);
                let hi = M::peek(v1, wadd8(p, 1) as u16);
                let v2 = M::after_read(v1, wadd8(p, 1) as u16);
                (self, M::after_write(v2, word(lo, hi), b))
            },
            AddressingMode::IndirectIndexedY(arg) => {
                let lo = M::peek(v, arg as u16);
                let v1 = M::after_read(v, arg as u16);
                let hi = M::peek(v1, wadd8(arg, 1) as u16);
                let v2 = M::after_read(v1, wadd8(arg, 1) as u16);
                (self, M::after_write(v2, wadd16(word(lo, hi), self.reg_y as u16), b))
            },
            AddressingMode::ZeroPage(arg) => (self, M::after_write(v, arg as u16, b)),
            AddressingMode::Absolute(arg) => (self, M::after_write(v, arg, b)),
            AddressingMode::Accumulator => (Cpu { reg_a: b, ..self }, v),
            _ => (self, v),
        }
    }

    /// An instruction that reads its operand and hands it to `op`.
    pub open spec fn spec_read_op<M: MemMapped>(self, instr: Instruction, v: M::V, token: InstructionToken) -> (Cpu, Instruction, M::V) {
        let (b, i, v1) = self.spec_read_resolved::<M>(instr, v);
        (self.spec_alu(token, b), i, v1)
    }

    /// What a read-only instruction does with its operand `b`.
    pub open spec fn spec_alu(self, token: InstructionToken, b: u8) -> Cpu {
        let s = self.reg_status;
        match token {
            InstructionToken::LDA => Cpu { reg_a: b, reg_status: s.spec_zs(b), ..self },
            InstructionToken::LDX => Cpu { reg_x: b, reg_status: s.spec_zs(b), ..self },
            InstructionToken::LDY => Cpu { reg_y: b, reg_status: s.spec_zs(b), ..self },
            InstructionToken::ORA => Cpu { reg_a: self.reg_a | b, reg_status: s.spec_zs(self.reg_a | b), ..self },
            InstructionToken::AND => Cpu { reg_a: self.reg_a & b, reg_status: s.spec_zs(self.reg_a & b), ..self },
            InstructionToken::EOR => Cpu { reg_a: self.reg_a ^ b, reg_status: s.spec_zs(self.reg_a ^ b), ..self },
            InstructionToken::ADC => {
                let (r, s2) = spec_adc(s, self.reg_a, b);
                Cpu { reg_a: r, reg_status: s2, ..self }
            },
            InstructionToken::SBC => {
                let (r, s2) = spec_adc(s, self.reg_a, (255 - b) as u8);
                Cpu { reg_a: r, reg_status: s2, ..self }
            },
            InstructionToken::CMP => self.with_status(spec_compare(s, self.reg_a, b)),
            InstructionToken::CPX => self.with_status(spec_compare(s, self.reg_x, b)),
            InstructionToken::CPY => self.with_status(spec_compare(s, self.reg_y, b)),
            InstructionToken::BIT => self.with_status(
                StatusReg { zero_flag: b & self.reg_a == 0, overflow_flag: bit(b, 6), sign_flag: bit(b, 7), ..s },
            ),
            _ => self,
        }
    }

    /// The new value and flags of a read-modify-write instruction on `b`.
    pub open spec fn spec_rmw_value(self, token: InstructionToken, b: u8) -> (u8, StatusReg) {
        let s = self.reg_status;
        let c = b2u(s.carry_flag);
        let r: u8 = match token {
            InstructionToken::ASL => ((b * 2) % 256) as u8,
            InstructionToken::ROL => ((b * 2 + c) % 256) as u8,
            InstructionToken::LSR => b / 2,
            InstructionToken::ROR => (b / 2 + 128 * c) as u8,
            InstructionToken::DEC => wsub8(b, 1),
            _ => wadd8(b, 1),
        };
        let carry = match token {
            InstructionToken::ASL | InstructionToken::ROL => b >= 128,
            InstructionToken::LSR | InstructionToken::ROR => b % 2 == 1,
            _ => s.carry_flag,
        };
        (r, StatusReg { carry_flag: carry, ..s }.spec_zs(r))
    }

    /// A read-modify-write instruction: read the operand, compute, write the result back.
    pub open spec fn spec_rmw<M: MemMapped>(self, instr: Instruction, v: M::V, token: InstructionToken) -> (Cpu, Instruction, M::V) {
        let (b, i, v1) = self.spec_read_resolved::<M>(instr, v);
        let (r, s) = self.spec_rmw_value(token, b);
        let (c, v2) = self.with_status(s).spec_write_resolved::<M>(i, v1, r);
        (c, i, v2)
    }

    /// A store instruction writing `b`.
    pub open spec fn spec_store<M: MemMapped>(self, instr: Instruction, v: M::V, b: u8) -> (Cpu, Instruction, M::V) {
        let (c, v1) = self.spec_write_resolved::<M>(instr, v, b);
        (c, instr, v1)
    }

    /// A taken branch: one more cycle, one more when the target (pc + 2 + offset, the 2 being
    /// added when the program counter moves past the instruction) is on another page than
    /// pc + 2.
    pub open spec fn spec_branch(self, instr: Instruction) -> (Cpu, Instruction) {
        match instr.addressing_mode {
            AddressingMode::Relative(offset) => {
                let target = branch_target(self.reg_pc, offset);
                let crossed = wadd16(self.reg_pc, 2) / 256 != wadd16(target, 2) / 256;
                let cycles = if crossed { instr.cycle_count + 2 } else { instr.cycle_count + 1 };
                (self.with_pc(target), Instruction { cycle_count: cycles as u8, ..instr })
            },
            _ => (self, Instruction { cycle_count: (instr.cycle_count + 1) as u8, ..instr }),
        }
    }

    /// Whether a branch instruction's condition holds.
    pub open spec fn spec_branch_taken(self, token: InstructionToken) -> bool {
        let s = self.reg_status;
        match token {
            InstructionToken::BPL => !s.sign_flag,
            InstructionToken::BMI => s.sign_flag,
            InstructionToken::BVC => !s.overflow_flag,
            InstructionToken::BVS => s.overflow_flag,
            InstructionToken::BCC => !s.carry_flag,
            InstructionToken::BCS => s.carry_flag,
            InstructionToken::BNE => !s.zero_flag,
            _ => s.zero_flag,
        }
    }

    pub open spec fn spec_conditional_branch(self, instr: Instruction) -> (Cpu, Instruction) {
        if self.spec_branch_taken(instr.token) {
            self.spec_branch(instr)
        } else {
            (self, instr)
        }
    }

    /// Marks an unhandled interrupt pending when `condition` holds.
    pub open spec fn spec_reschedule(self, condition: bool) -> Cpu {
        if self.unhandled_interrupt is Some && condition {
            Cpu { instructions_since_last_interrupt: 0, pending_interrupt: self.unhandled_interrupt, ..self }
        } else {
            self
        }
    }

    /// What register-only instructions do.
    pub open spec fn spec_implied(self, token: InstructionToken) -> Cpu {
        let s = self.reg_status;
        match token {
            InstructionToken::TXS => Cpu { reg_sp: self.reg_x, ..self },
            InstructionToken::TSX => Cpu { reg_x: self.reg_sp, reg_status: s.spec_zs(self.reg_sp), ..self },
            InstructionToken::CLC => self.with_status(StatusReg { carry_flag: false, ..s }),
            InstructionToken::SEC => self.with_status(StatusReg { carry_flag: true, ..s }),
            InstructionToken::CLI => self.spec_reschedule(true).with_status(StatusReg { interrupt_disable: false, ..s }),
            InstructionToken::SEI => self.spec_reschedule(!s.interrupt_disable).with_status(StatusReg { interrupt_disable: true, ..s }),
            InstructionToken::CLV => self.with_status(StatusReg { overflow_flag: false, ..s }),
            InstructionToken::CLD => self.with_status(StatusReg { decimal_mode: false, ..s }),
            InstructionToken::SED => self.with_status(StatusReg { decimal_mode: true, ..s }),
            InstructionToken::TAX => Cpu { reg_x: self.reg_a, reg_status: s.spec_zs(self.reg_a), ..self },
            InstructionToken::TXA => Cpu { reg_a: self.reg_x, reg_status: s.spec_zs(self.reg_x), ..self },
            InstructionToken::DEX => Cpu { reg_x: wsub8(self.reg_x, 1), reg_status: s.spec_zs(wsub8(self.reg_x, 1)), ..self },
            InstructionToken::INX => Cpu { reg_x: wadd8(self.reg_x, 1), reg_status: s.spec_zs(wadd8(self.reg_x, 1)), ..self },
            InstructionToken::TAY => Cpu { reg_y: self.reg_a, reg_status: s.spec_zs(self.reg_a), ..self },
            InstructionToken::TYA => Cpu { reg_a: self.reg_y, reg_status: s.spec_zs(self.reg_y), ..self },
            InstructionToken::DEY => Cpu { reg_y: wsub8(self.reg_y, 1), reg_status: s.spec_zs(wsub8(self.reg_y, 1)), ..self },
            _ => Cpu { reg_y: wadd8(self.reg_y, 1), reg_status: s.spec_zs(wadd8(self.reg_y, 1)), ..self },
        }
    }

    /// Entering an interrupt handler: the return address and status are pushed and the PC
    /// loaded from the vector (NMI vector for an NMI, BRK/IRQ vector otherwise). A hardware
    /// interrupt takes 7 cycles here; for BRK the instruction's own 7 cycles count instead.
    #[verifier::opaque]
    pub open spec fn spec_perform_irq<M: MemMapped>(self, v: M::V, is_hardware: bool, is_nmi: bool) -> (Cpu, M::V) {
        let new_pc = if is_hardware { self.reg_pc } else { wadd16(self.reg_pc, 2) };
        let s = if is_hardware { self.reg_status } else { StatusReg { break_executed: true, ..self.reg_status } };
        let status_byte = s.spec_byte_with(!is_hardware);
        let (c1, v1) = self.with_status(s).spec_push_addr::<M>(v, new_pc);
        let (c2, v2) = c1.spec_push::<M>(v1, status_byte);
        let vec = if is_nmi { NMI_PC_VEC } else { BRK_PC_VEC };
        let lo = M::peek(v2, vec);
        let v3 = M::after_read(v2, vec);
        let hi = M::peek(v3, wadd16(vec, 1));
        let v4 = M::after_read(v3, wadd16(vec, 1));
        (
            Cpu {
                reg_pc: word(lo, hi),
                reg_status: StatusReg { interrupt_disable: true, ..c2.reg_status },
                cycle_count: if is_hardware { (c2.cycle_count + 7) as u64 } else { c2.cycle_count },
                ..c2
            },
            v4,
        )
    }

    /// What the instruction does, before the program counter moves past it.
    #[verifier::opaque]
    pub open spec fn spec_instr<M: MemMapped>(self, instr: Instruction, v: M::V) -> (Cpu, Instruction, M::V) {
        let t = instr.token;
        match t {
            InstructionToken::NOP => {
                let (b, i, v1) = self.spec_read_resolved::<M>(instr, v);
                (self, i, v1)
            },
            InstructionToken::JMP => match instr.addressing_mode {
                AddressingMode::Absolute(arg) => (self.with_pc(arg), instr, v),
                AddressingMode::Indirect(arg) => {
                    let page = (arg / 256) as u8;
                    let lo_addr = word((arg % 256) as u8, page);
                    let hi_addr = word(wadd8((arg % 256) as u8, 1), page);
                    let lo = M::peek(v, lo_addr);
                    let v1 = M::after_read(v, lo_addr);
                    let hi = M::peek(v1, hi_addr);
                    (self.with_pc(word(lo, hi)), instr, M::after_read(v1, hi_addr))
                },
                _ => (self, instr, v),
            },
            InstructionToken::JSR => match instr.addressing_mode {
                AddressingMode::Absolute(arg) => {
                    let (c, v1) = self.spec_push_addr::<M>(v, wadd16(self.reg_pc, 2));
                    (c.with_pc(arg), instr, v1)
                },
                _ => (self, instr, v),
            },
            InstructionToken::BRK => {
                let (c, v1) = self.spec_perform_irq::<M>(v, false, false);
                (c, instr, v1)
            },
            InstructionToken::RTI => {
                let c0 = Cpu { pending_interrupt: None, ..self };
                let (b, c1, v1) = c0.spec_pull::<M>(v);
                let (pc, c2, v2) = c1.spec_pull_addr::<M>(v1);
                (Cpu { reg_status: c2.reg_status.spec_plp(b), reg_pc: pc, ..c2 }, instr, v2)
            },
            InstructionToken::RTS => {
                let (pc, c1, v1) = self.spec_pull_addr::<M>(v);
                (c1.with_pc(wadd16(pc, 1)), instr, v1)
            },
            InstructionToken::BPL | InstructionToken::BMI | InstructionToken::BVC | InstructionToken::BVS
            | InstructionToken::BCC | InstructionToken::BCS | InstructionToken::BNE | InstructionToken::BEQ => {
                let (c, i) = self.spec_conditional_branch(instr);
                (c, i, v)
            },
            InstructionToken::PHA => {
                let (c, v1) = self.spec_push::<M>(v, self.reg_a);
                (c, instr, v1)
            },
            InstructionToken::PLA => {
                let (b, c, v1) = self.spec_pull::<M>(v);
                (Cpu { reg_a: b, reg_status: c.reg_status.spec_zs(b), ..c }, instr, v1)
            },
            InstructionToken::PHP => {
                let (c, v1) = self.spec_push::<M>(v, self.reg_status.spec_byte_with(true));
                (c, instr, v1)
            },
            InstructionToken::PLP => {
                let (b, c, v1) = self.spec_pull::<M>(v);
                let c2 = c.with_status(c.reg_status.spec_plp(b));
                (c2.spec_reschedule(!c2.reg_status.interrupt_disable), instr, v1)
            },
            InstructionToken::TXS | InstructionToken::TSX | InstructionToken::CLC | InstructionToken::SEC
            | InstructionToken::CLI | InstructionToken::SEI | InstructionToken::CLV | InstructionToken::CLD
            | InstructionToken::SED | InstructionToken::TAX | InstructionToken::TXA | InstructionToken::DEX
            | InstructionToken::INX | InstructionToken::TAY | InstructionToken::TYA | InstructionToken::DEY
            | InstructionToken::INY => (self.spec_implied(t), instr, v),
            InstructionToken::LDA | InstructionToken::LDX | InstructionToken::LDY | InstructionToken::ORA
            | InstructionToken::AND | InstructionToken::EOR | InstructionToken::ADC | InstructionToken::SBC
            | InstructionToken::CMP | InstructionToken::CPX | InstructionToken::CPY | InstructionToken::BIT =>
                self.spec_read_op::<M>(instr, v, t),
            InstructionToken::STA => self.spec_store::<M>(instr, v, self.reg_a),
            InstructionToken::STX => self.spec_store::<M>(instr, v, self.reg_x),
            InstructionToken::STY => self.spec_store::<M>(instr, v, self.reg_y),
            InstructionToken::ASL | InstructionToken::ROL | InstructionToken::LSR | InstructionToken::ROR
            | InstructionToken::DEC | InstructionToken::INC => self.spec_rmw::<M>(instr, v, t),
            _ => (self, Instruction { should_advance_pc: true, ..instr }, v),
        }
    }

    /// What executing a decoded instruction does: its effect, then the program counter moves
    /// past it when the instruction says so.
    pub open spec fn spec_execute<M: MemMapped>(self, instr: Instruction, v: M::V) -> (Cpu, Instruction, M::V) {
        let (c, i, v1) = self.spec_instr::<M>(instr, v);
        let c2 = if i.should_advance_pc {
            c.with_pc(wadd16(c.reg_pc, i.addressing_mode.spec_byte_count()))
        } else {
            c
        };
        (c2, i, v1)
    }

    /// Fetching, decoding and executing the instruction at the program counter.
    pub open spec fn spec_execute_next<M: MemMapped>(self, v: M::V) -> (Cpu, M::V, StepResult) {
        let (d, v1) = spec_decode::<M>(v, self.reg_pc);
        match d {
            Ok(instr) => {
                let (c, i, v2) = self.spec_execute::<M>(instr, v1);
                (Cpu { cycle_count: (c.cycle_count + i.cycle_count) as u64, ..c }, v2, Ok(i.cycle_count))
            },
            Err(e) => (self.with_pc(wadd16(self.reg_pc, 2)), v1, Err(e)),
        }
    }

    /// One step of the CPU: a halted cycle pair for DMA, an interrupt entry, or one instruction.
    pub open spec fn spec_step<M: MemMapped>(self, v: M::V) -> (Cpu, M::V, StepResult) {
        if self.is_halted {
            (Cpu { cycle_count: (self.cycle_count + 2) as u64, is_halted: false, ..self }, v, Ok(2))
        } else {
            let (c, v1, r) = match self.pending_interrupt {
                Some(interrupt) if (interrupt.is_nmi && self.instructions_since_last_interrupt > 0)
                    || self.instructions_since_last_interrupt > 1 => {
                    let (c, v1) = self.spec_perform_irq::<M>(v, interrupt.is_hardware, interrupt.is_nmi);
                    (Cpu { pending_interrupt: None, ..c }, v1, Ok(7u8))
                },
                _ => {
                    let (c, v1, r) = self.spec_execute_next::<M>(v);
                    (Cpu { instructions_since_last_interrupt: (c.instructions_since_last_interrupt + 1) as u64, ..c }, v1, r)
                },
            };
            let c2 = if c.is_halt_scheduled { Cpu { is_halted: true, is_halt_scheduled: false, ..c } } else { c };
            (Cpu { unhandled_interrupt: None, ..c2 }, v1, r)
        }
    }

    /// The CPU after a reset: registers cleared, SP = 0xFD, PC from the reset vector, 7 cycles counted.
    pub open spec fn spec_hard_reset<M: MemMapped>(self, v: M::V) -> (Cpu, M::V) {
        let lo = M::peek(v, RESET_PC_VEC);
        let v1 = M::after_read(v, RESET_PC_VEC);
        let hi = M::peek(v1, wadd16(RESET_PC_VEC, 1));
        let v2 = M::after_read(v1, wadd16(RESET_PC_VEC, 1));
        (
            Cpu {
                reg_a: 0,
                reg_x: 0,
                reg_y: 0,
                reg_status: StatusReg::spec_reset(),
                reg_sp: RESET_SP,
                reg_pc: word(lo, hi),
                cycle_count: 7,
                ..self
            },
            v2,
        )
    }

    /// Raising an interrupt line: ignored while one is pending; an NMI becomes pending; an IRQ
    /// is entered at once unless interrupts are disabled, in which case it is kept unhandled.
    pub open spec fn spec_interrupt<M: MemMapped>(self, v: M::V, is_nmi: bool) -> (Cpu, M::V) {
        if self.pending_interrupt is Some {
            (self, v)
        } else {
            let c = Cpu { instructions_since_last_interrupt: 0, ..self };
            let interrupt = CpuInterrupt { is_hardware: true, is_nmi };
            if is_nmi {
                (Cpu { pending_interrupt: Some(interrupt), ..c }, v)
            } else if !c.reg_status.interrupt_disable {
                c.spec_perform_irq::<M>(v, true, false)
            } else {
                (Cpu { unhandled_interrupt: Some(interrupt), ..c }, v)
            }
        }
    }

    /// The state that `new` builds before the reset.
    pub open spec fn spec_power_on() -> Cpu {
        Cpu {
            reg_a: 0,
            reg_x: 0,
            reg_y: 0,
            reg_status: StatusReg::spec_reset(),
            reg_sp: RESET_SP,
            reg_pc: 0,
            cycle_count: 0,
            unhandled_interrupt: None,
            pending_interrupt: None,
            instructions_since_last_interrupt: 0,
            is_halt_scheduled: false,
            is_halted: false,
        }
    }

    //
    // Construction and reset
    //

    /// A CPU after power-on and reset.
    pub fn new<M: MemMapped>(mem_map: &mut M) -> (r: Cpu)
        ensures
            (r, final(mem_map)@) == Cpu::spec_power_on().spec_hard_reset::<M>(old(mem_map)@),
            r.counters_bounded(),
            !r.has_pending_interrupt(),
            !r.has_unhandled_interrupt(),
            !r.is_halted_spec(),
            !r.is_halt_scheduled_spec(),
    {
        let mut cpu = Cpu {
            reg_a: 0,
            reg_x: 0,
            reg_y: 0,
            reg_status: StatusReg {
                carry_flag: false,
                zero_flag: false,
                interrupt_disable: true,
                decimal_mode: false,
                break_executed: false,
                logical_1: true,
                overflow_flag: false,
                sign_flag: false,
            },
            reg_sp: RESET_SP,
            reg_pc: 0,
            cycle_count: 0,
            unhandled_interrupt: None,
            pending_interrupt: None,
            instructions_since_last_interrupt: 0,
            is_halt_scheduled: false,
            is_halted: false,
        };
        cpu.hard_reset(mem_map);
        cpu
    }

    pub fn hard_reset<M: MemMapped>(&mut self, mem_map: &mut M)
        ensures
            (*final(self), final(mem_map)@) == old(self).spec_hard_reset::<M>(old(mem_map)@),
    {
        self.reg_a = 0;
        self.reg_x = 0;
        self.reg_y = 0;

        self.reg_status = StatusReg {
            carry_flag: false,
            zero_flag: false,
            interrupt_disable: true,
            decimal_mode: false,
            break_executed: false,
            logical_1: true,
            overflow_flag: false,
            sign_flag: false,
        };

        self.reg_sp = RESET_SP;
        self.reg_pc = mem_map.read_word(RESET_PC_VEC);

        self.cycle_count = 7;
    }

    pub fn soft_reset(&mut self)
        ensures
            *final(self) == *old(self),
    {
    }

    //
    // Interrupts
    //

    pub fn irq<M: MemMapped>(&mut self, mem_map: &mut M)
        requires
            old(self).counters_bounded(),
        ensures
            (*final(self), final(mem_map)@) == old(self).spec_interrupt::<M>(old(mem_map)@, false),
            old(self).cycle_count <= final(self).cycle_count <= old(self).cycle_count + 7,
            final(self).instructions_since_last_interrupt <= old(self).instructions_since_last_interrupt,
    {
        let interrupt = CpuInterrupt { is_hardware: true, is_nmi: false };
        self.interrupt(mem_map, interrupt)
    }

    pub fn nmi<M: MemMapped>(&mut self, mem_map: &mut M)
        requires
            old(self).counters_bounded(),
        ensures
            (*final(self), final(mem_map)@) == old(self).spec_interrupt::<M>(old(mem_map)@, true),
            old(self).cycle_count <= final(self).cycle_count <= old(self).cycle_count + 7,
            final(self).instructions_since_last_interrupt <= old(self).instructions_since_last_interrupt,
    {
        let interrupt = CpuInterrupt { is_hardware: true, is_nmi: true };
        self.interrupt(mem_map, interrupt)
    }

    fn interrupt<M: MemMapped>(&mut self, mem_map: &mut M, interrupt: CpuInterrupt)
        requires
            old(self).counters_bounded(),
            interrupt.is_hardware,
        ensures
            (*final(self), final(mem_map)@) == old(self).spec_interrupt::<M>(old(mem_map)@, interrupt.is_nmi),
            old(self).cycle_count <= final(self).cycle_count <= old(self).cycle_count + 7,
            final(self).instructions_since_last_interrupt <= old(self).instructions_since_last_interrupt,
    {
        if !self.pending_interrupt.is_none() {
            return;
        }
        self.instructions_since_last_interrupt = 0;
        if interrupt.is_nmi {
            self.pending_interrupt = Some(interrupt);
        } else {
            if !self.reg_status.interrupt_disable {
                self.perform_irq(mem_map, &interrupt)
            } else {
                self.unhandled_interrupt = Some(interrupt);
            }
        }
    }

    /// Drops a pending NMI (the PPU asked for it to be suppressed).
    pub fn suppress_interrupt(&mut self)
        ensures
            *final(self) == (if old(self).has_pending_nmi() { Cpu { pending_interrupt: None, ..*old(self) } } else { *old(self) }),
    {
        if let Some(interrupt) = self.pending_interrupt {
            if interrupt.is_nmi {
                self.pending_interrupt = None;
            }
        }
    }

    /// Schedules the halt that an OAM DMA transfer imposes on the CPU.
    pub fn dma(&mut self)
        ensures
            *final(self) == (if old(self).is_halted { *old(self) } else { Cpu { is_halt_scheduled: true, ..*old(self) } }),
    {
        if !self.is_halted {
            self.is_halt_scheduled = true;
        }
    }

    //
    // Stepping
    //

    /// Runs one step: two halted cycles, an interrupt entry, or one instruction.
    /// Returns the cycles taken, or the decoding error of an unknown opcode.
    pub fn step<M: MemMapped>(&mut self, mem_map: &mut M) -> (r: StepResult)
        requires
            old(self).counters_bounded(),
        ensures
            (*final(self), final(mem_map)@, r) == old(self).spec_step::<M>(old(mem_map)@),
            old(self).cycle_count <= final(self).cycle_count <= old(self).cycle_count + 16,
            // Cycle accounting: the cycles returned are the cycles counted (an interrupt taken
            // here is a hardware one, as every interrupt that the CPU raises is).
            (old(self).pending_interrupt matches Some(i) ==> i.is_hardware) ==> match r {
                Ok(n) => final(self).cycle_count == old(self).cycle_count + n,
                Err(_) => final(self).cycle_count == old(self).cycle_count,
            },
            // A halt scheduled by `dma` starts once this step has run.
            old(self).is_halt_scheduled && !old(self).is_halted ==> final(self).is_halted && !final(self).is_halt_scheduled,
            final(self).instructions_since_last_interrupt <= old(self).instructions_since_last_interrupt + 1,
    {
        if self.is_halted {
            self.cycle_count += 2;
            self.is_halted = false;
            return Ok(2);
        }

        let result;

        if let Some(interrupt) = self.pending_interrupt {
            if (interrupt.is_nmi && self.instructions_since_last_interrupt > 0) || (self.instructions_since_last_interrupt > 1) {
                self.perform_irq(mem_map, &interrupt);
                self.pending_interrupt = None;
                result = Ok(7);
            } else {
                result = self.execute_next_instruction(mem_map);
                self.instructions_since_last_interrupt += 1;
            }
        } else {
            result = self.execute_next_instruction(mem_map);
            self.instructions_since_last_interrupt += 1;
        }

        if self.is_halt_scheduled {
            self.is_halted = true;
            self.is_halt_scheduled = false;
        }

        self.unhandled_interrupt = None;

        result
    }

    fn execute_next_instruction<M: MemMapped>(&mut self, mem_map: &mut M) -> (r: StepResult)
        requires
            old(self).counters_bounded(),
        ensures
            (*final(self), final(mem_map)@, r) == old(self).spec_execute_next::<M>(old(mem_map)@),
            old(self).cycle_count <= final(self).cycle_count <= old(self).cycle_count + 16,
            match r {
                Ok(n) => final(self).cycle_count == old(self).cycle_count + n,
                Err(_) => final(self).cycle_count == old(self).cycle_count,
            },
            final(self).is_halt_scheduled == old(self).is_halt_scheduled,
            final(self).instructions_since_last_interrupt <= old(self).instructions_since_last_interrupt,
    {
        let instruction = Instruction::decode(mem_map, self.reg_pc);
        match instruction {
            Ok(mut instr) => {
                proof { lemma_decoded_cycles::<M>(old(mem_map)@, old(self).reg_pc); }
                let cycles = self.execute_instruction(&mut instr, mem_map);
                self.cycle_count += cycles as u64;
                Ok(cycles)
            },
            Err(e) => {
                self.reg_pc = self.reg_pc.wrapping_add(2);
                Err(e)
            },
        }
    }

    fn execute_instruction<M: MemMapped>(&mut self, instruction: &mut Instruction, mem_map: &mut M) -> (r: u8)
        requires
            old(instruction).cycle_count <= 7,
            old(self).counters_bounded(),
        ensures
            (*final(self), *final(instruction), final(mem_map)@) == old(self).spec_execute::<M>(*old(instruction), old(mem_map)@),
            r == final(instruction).cycle_count,
            r <= 9,
            final(self).cycle_count == old(self).cycle_count,
            final(self).is_halt_scheduled == old(self).is_halt_scheduled,
            final(self).instructions_since_last_interrupt <= old(self).instructions_since_last_interrupt,
    {
        match instruction.token {
            InstructionToken::NOP | InstructionToken::JMP | InstructionToken::JSR | InstructionToken::BRK | InstructionToken::RTI | InstructionToken::RTS | InstructionToken::BPL | InstructionToken::BMI | InstructionToken::BVC | InstructionToken::BVS | InstructionToken::BCC | InstructionToken::BCS | InstructionToken::BNE | InstructionToken::BEQ => self.execute_control(instruction, mem_map),
            InstructionToken::TXS | InstructionToken::TSX | InstructionToken::PHA | InstructionToken::PLA | InstructionToken::PHP | InstructionToken::PLP | InstructionToken::CLC | InstructionToken::SEC | InstructionToken::CLI | InstructionToken::SEI | InstructionToken::CLV | InstructionToken::CLD | InstructionToken::SED => self.execute_stack_flags(instruction, mem_map),
            InstructionToken::LDA | InstructionToken::LDX | InstructionToken::LDY | InstructionToken::STA | InstructionToken::STX | InstructionToken::STY | InstructionToken::TAX | InstructionToken::TXA | InstructionToken::DEX | InstructionToken::INX | InstructionToken::TAY | InstructionToken::TYA | InstructionToken::DEY | InstructionToken::INY => self.execute_load_store(instruction, mem_map),
            InstructionToken::ORA | InstructionToken::AND | InstructionToken::EOR | InstructionToken::ADC | InstructionToken::SBC | InstructionToken::CMP | InstructionToken::CPX | InstructionToken::CPY | InstructionToken::BIT | InstructionToken::ASL | InstructionToken::ROL | InstructionToken::LSR | InstructionToken::ROR | InstructionToken::DEC | InstructionToken::INC => self.execute_alu(instruction, mem_map),
            _ => {
                // Unofficial opcodes are decoded but not executed: the CPU moves past them.
                instruction.should_advance_pc = true;
                assert(old(self).instr_post::<M>(*old(instruction), old(mem_map)@, *self, *instruction, mem_map@)) by { reveal(Cpu::spec_instr); }
            },
        }

        if instruction.should_advance_pc {
            self.reg_pc = self.reg_pc.wrapping_add(instruction.addressing_mode.byte_count());
        }

        instruction.cycle_count
    }
}

/// A decoded instruction takes at most 7 cycles before page crossings and branches.
pub proof fn lemma_decoded_cycles<M: MemMapped>(v: M::V, addr: u16)
    ensures
        spec_decode::<M>(v, addr).0 matches Ok(i) ==> i.cycle_count <= 7,
{
    let op = M::peek(v, addr);
    assert(crate::instructions::opcode_info(op).cycles <= 7);
}

impl Cpu {
    /// What an instruction function promises: the effect that `spec_instr` describes, with
    /// the bounds that keep the counters in range.
    pub open spec fn instr_post<M: MemMapped>(
        self,
        instr: Instruction,
        v: M::V,
        c: Cpu,
        i: Instruction,
        v2: M::V,
    ) -> bool {
        &&& (c, i, v2) == self.spec_instr::<M>(instr, v)
        &&& c.cycle_count == self.cycle_count
        &&& c.is_halt_scheduled == self.is_halt_scheduled
        &&& c.instructions_since_last_interrupt <= self.instructions_since_last_interrupt
        &&& i.cycle_count <= instr.cycle_count + 2
    }


    fn execute_control<M: MemMapped>(&mut self, instruction: &mut Instruction, mem_map: &mut M)
        requires
            old(instruction).cycle_count <= 7,
            old(self).counters_bounded(),
            old(instruction).token is NOP || old(instruction).token is JMP || old(instruction).token is JSR || old(instruction).token is BRK || old(instruction).token is RTI || old(instruction).token is RTS || old(instruction).token is BPL || old(instruction).token is BMI || old(instruction).token is BVC || old(instruction).token is BVS || old(instruction).token is BCC || old(instruction).token is BCS || old(instruction).token is BNE || old(instruction).token is BEQ,
        ensures
            old(self).instr_post::<M>(*old(instruction), old(mem_map)@, *final(self), *final(instruction), final(mem_map)@),
    {
        match instruction.token {
            InstructionToken::NOP => self.instr_nop(instruction, mem_map),
            InstructionToken::JMP => self.instr_jmp(instruction, mem_map),
            InstructionToken::JSR => self.instr_jsr(instruction, mem_map),
            InstructionToken::BRK => {
                self.instr_brk(mem_map);
                assert(old(self).instr_post::<M>(*old(instruction), old(mem_map)@, *self, *instruction, mem_map@)) by { reveal(Cpu::spec_instr); }
            },
            InstructionToken::RTI => {
                self.instr_rti(mem_map);
                assert(old(self).instr_post::<M>(*old(instruction), old(mem_map)@, *self, *instruction, mem_map@)) by {
                    reveal(Cpu::spec_instr);
                    reveal(Cpu::spec_pull_addr);
                }
            },
            InstructionToken::RTS => {
                self.instr_rts(mem_map);
                assert(old(self).instr_post::<M>(*old(instruction), old(mem_map)@, *self, *instruction, mem_map@)) by {
                    reveal(Cpu::spec_instr);
                    reveal(Cpu::spec_pull_addr);
                }
            },
            InstructionToken::BPL => {
                self.instr_bpl(instruction);
                assert(old(self).instr_post::<M>(*old(instruction), old(mem_map)@, *self, *instruction, mem_map@)) by { reveal(Cpu::spec_instr); }
            },
            InstructionToken::BMI => {
                self.instr_bmi(instruction);
                assert(old(self).instr_post::<M>(*old(instruction), old(mem_map)@, *self, *instruction, mem_map@)) by { reveal(Cpu::spec_instr); }
            },
            InstructionToken::BVC => {
                self.instr_bvc(instruction);
                assert(old(self).instr_post::<M>(*old(instruction), old(mem_map)@, *self, *instruction, mem_map@)) by { reveal(Cpu::spec_instr); }
            },
            InstructionToken::BVS => {
                self.instr_bvs(instruction);
                assert(old(self).instr_post::<M>(*old(instruction), old(mem_map)@, *self, *instruction, mem_map@)) by { reveal(Cpu::spec_instr); }
            },
            InstructionToken::BCC => {
                self.instr_bcc(instruction);
                assert(old(self).instr_post::<M>(*old(instruction), old(mem_map)@, *self, *instruction, mem_map@)) by { reveal(Cpu::spec_instr); }
            },
            InstructionToken::BCS => {
                self.instr_bcs(instruction);
                assert(old(self).instr_post::<M>(*old(instruction), old(mem_map)@, *self, *instruction, mem_map@)) by { reveal(Cpu::spec_instr); }
            },
            InstructionToken::BNE => {
                self.instr_bne(instruction);
                assert(old(self).instr_post::<M>(*old(instruction), old(mem_map)@, *self, *instruction, mem_map@)) by { reveal(Cpu::spec_instr); }
            },
            InstructionToken::BEQ => {
                self.instr_beq(instruction);
                assert(old(self).instr_post::<M>(*old(instruction), old(mem_map)@, *self, *instruction, mem_map@)) by { reveal(Cpu::spec_instr); }
            },
            _ => {},
        }
    }

    fn execute_stack_flags<M: MemMapped>(&mut self, instruction: &mut Instruction, mem_map: &mut M)
        requires
            old(instruction).cycle_count <= 7,
            old(self).counters_bounded(),
            old(instruction).token is TXS || old(instruction).token is TSX || old(instruction).token is PHA || old(instruction).token is PLA || old(instruction).token is PHP || old(instruction).token is PLP || old(instruction).token is CLC || old(instruction).token is SEC || old(instruction).token is CLI || old(instruction).token is SEI || old(instruction).token is CLV || old(instruction).token is CLD || old(instruction).token is SED,
        ensures
            old(self).instr_post::<M>(*old(instruction), old(mem_map)@, *final(self), *final(instruction), final(mem_map)@),
    {
        match instruction.token {
            InstructionToken::TXS => {
                self.instr_txs();
                assert(old(self).instr_post::<M>(*old(instruction), old(mem_map)@, *self, *instruction, mem_map@)) by { reveal(Cpu::spec_instr); }
            },
            InstructionToken::TSX => {
                self.instr_tsx();
                assert(old(self).instr_post::<M>(*old(instruction), old(mem_map)@, *self, *instruction, mem_map@)) by { reveal(Cpu::spec_instr); }
            },
            InstructionToken::PHA => {
                self.instr_pha(mem_map);
                assert(old(self).instr_post::<M>(*old(instruction), old(mem_map)@, *self, *instruction, mem_map@)) by { reveal(Cpu::spec_instr); }
            },
            InstructionToken::PLA => {
                self.instr_pla(mem_map);
                assert(old(self).instr_post::<M>(*old(instruction), old(mem_map)@, *self, *instruction, mem_map@)) by { reveal(Cpu::spec_instr); }
            },
            InstructionToken::PHP => {
                self.instr_php(mem_map);
                assert(old(self).instr_post::<M>(*old(instruction), old(mem_map)@, *self, *instruction, mem_map@)) by { reveal(Cpu::spec_instr); }
            },
            InstructionToken::PLP => {
                self.instr_plp(mem_map);
                assert(old(self).instr_post::<M>(*old(instruction), old(mem_map)@, *self, *instruction, mem_map@)) by { reveal(Cpu::spec_instr); }
            },
            InstructionToken::CLC => {
                self.instr_clc();
                assert(old(self).instr_post::<M>(*old(instruction), old(mem_map)@, *self, *instruction, mem_map@)) by { reveal(Cpu::spec_instr); }
            },
            InstructionToken::SEC => {
                self.instr_sec();
                assert(old(self).instr_post::<M>(*old(instruction), old(mem_map)@, *self, *instruction, mem_map@)) by { reveal(Cpu::spec_instr); }
            },
            InstructionToken::CLI => {
                self.instr_cli();
                assert(old(self).instr_post::<M>(*old(instruction), old(mem_map)@, *self, *instruction, mem_map@)) by { reveal(Cpu::spec_instr); }
            },
            InstructionToken::SEI => {
                self.instr_sei();
                assert(old(self).instr_post::<M>(*old(instruction), old(mem_map)@, *self, *instruction, mem_map@)) by { reveal(Cpu::spec_instr); }
            },
            InstructionToken::CLV => {
                self.instr_clv();
                assert(old(self).instr_post::<M>(*old(instruction), old(mem_map)@, *self, *instruction, mem_map@)) by { reveal(Cpu::spec_instr); }
            },
            InstructionToken::CLD => {
                self.instr_cld();
                assert(old(self).instr_post::<M>(*old(instruction), old(mem_map)@, *self, *instruction, mem_map@)) by { reveal(Cpu::spec_instr); }
            },
            InstructionToken::SED => {
                self.instr_sed();
                assert(old(self).instr_post::<M>(*old(instruction), old(mem_map)@, *self, *instruction, mem_map@)) by { reveal(Cpu::spec_instr); }
            },
            _ => {},
        }
    }

    fn execute_load_store<M: MemMapped>(&mut self, instruction: &mut Instruction, mem_map: &mut M)
        requires
            old(instruction).cycle_count <= 7,
            old(self).counters_bounded(),
            old(instruction).token is LDA || old(instruction).token is LDX || old(instruction).token is LDY || old(instruction).token is STA || old(instruction).token is STX || old(instruction).token is STY || old(instruction).token is TAX || old(instruction).token is TXA || old(instruction).token is DEX || old(instruction).token is INX || old(instruction).token is TAY || old(instruction).token is TYA || old(instruction).token is DEY || old(instruction).token is INY,
        ensures
            old(self).instr_post::<M>(*old(instruction), old(mem_map)@, *final(self), *final(instruction), final(mem_map)@),
    {
        match instruction.token {
            InstructionToken::LDA => self.instr_lda(instruction, mem_map),
            InstructionToken::LDX => self.instr_ldx(instruction, mem_map),
            InstructionToken::LDY => self.instr_ldy(instruction, mem_map),
            InstructionToken::STA => self.instr_sta(instruction, mem_map),
            InstructionToken::STX => self.instr_stx(instruction, mem_map),
            InstructionToken::STY => self.instr_sty(instruction, mem_map),
            InstructionToken::TAX => {
                self.instr_tax();
                assert(old(self).instr_post::<M>(*old(instruction), old(mem_map)@, *self, *instruction, mem_map@)) by { reveal(Cpu::spec_instr); }
            },
            InstructionToken::TXA => {
                self.instr_txa();
                assert(old(self).instr_post::<M>(*old(instruction), old(mem_map)@, *self, *instruction, mem_map@)) by { reveal(Cpu::spec_instr); }
            },
            InstructionToken::DEX => {
                self.instr_dex();
                assert(old(self).instr_post::<M>(*old(instruction), old(mem_map)@, *self, *instruction, mem_map@)) by { reveal(Cpu::spec_instr); }
            },
            InstructionToken::INX => {
                self.instr_inx();
                assert(old(self).instr_post::<M>(*old(instruction), old(mem_map)@, *self, *instruction, mem_map@)) by { reveal(Cpu::spec_instr); }
            },
            InstructionToken::TAY => {
                self.instr_tay();
                assert(old(self).instr_post::<M>(*old(instruction), old(mem_map)@, *self, *instruction, mem_map@)) by { reveal(Cpu::spec_instr); }
            },
            InstructionToken::TYA => {
                self.instr_tya();
                assert(old(self).instr_post::<M>(*old(instruction), old(mem_map)@, *self, *instruction, mem_map@)) by { reveal(Cpu::spec_instr); }
            },
            InstructionToken::DEY => {
                self.instr_dey();
                assert(old(self).instr_post::<M>(*old(instruction), old(mem_map)@, *self, *instruction, mem_map@)) by { reveal(Cpu::spec_instr); }
            },
            InstructionToken::INY => {
                self.instr_iny();
                assert(old(self).instr_post::<M>(*old(instruction), old(mem_map)@, *self, *instruction, mem_map@)) by { reveal(Cpu::spec_instr); }
            },
            _ => {},
        }
    }

    fn execute_alu<M: MemMapped>(&mut self, instruction: &mut Instruction, mem_map: &mut M)
        requires
            old(instruction).cycle_count <= 7,
            old(self).counters_bounded(),
            old(instruction).token is ORA || old(instruction).token is AND || old(instruction).token is EOR || old(instruction).token is ADC || old(instruction).token is SBC || old(instruction).token is CMP || old(instruction).token is CPX || old(instruction).token is CPY || old(instruction).token is BIT || old(instruction).token is ASL || old(instruction).token is ROL || old(instruction).token is LSR || old(instruction).token is ROR || old(instruction).token is DEC || old(instruction).token is INC,
        ensures
            old(self).instr_post::<M>(*old(instruction), old(mem_map)@, *final(self), *final(instruction), final(mem_map)@),
    {
        match instruction.token {
            InstructionToken::ORA => self.instr_ora(instruction, mem_map),
            InstructionToken::AND => self.instr_and(instruction, mem_map),
            InstructionToken::EOR => self.instr_eor(instruction, mem_map),
            InstructionToken::ADC => self.instr_adc(instruction, mem_map),
            InstructionToken::SBC => self.instr_sbc(instruction, mem_map),
            InstructionToken::CMP => self.instr_cmp(instruction, mem_map),
            InstructionToken::CPX => self.instr_cpx(instruction, mem_map),
            InstructionToken::CPY => self.instr_cpy(instruction, mem_map),
            InstructionToken::BIT => self.instr_bit(instruction, mem_map),
            InstructionToken::ASL => self.instr_asl(instruction, mem_map),
            InstructionToken::ROL => self.instr_rol(instruction, mem_map),
            InstructionToken::LSR => self.instr_lsr(instruction, mem_map),
            InstructionToken::ROR => self.instr_ror(instruction, mem_map),
            InstructionToken::DEC => self.instr_dec(instruction, mem_map),
            InstructionToken::INC => self.instr_inc(instruction, mem_map),
            _ => {},
        }
    }

    //
    // NOP
    //
    fn instr_nop<M: MemMapped>(&mut self, instruction: &mut Instruction, mem_map: &mut M)
        requires
            old(instruction).token is NOP,
            old(instruction).cycle_count <= 7,
        ensures
            old(self).instr_post::<M>(*old(instruction), old(mem_map)@, *final(self), *final(instruction), final(mem_map)@),
    {
        proof { reveal(Cpu::spec_instr); }
        let _ = self.read_resolved(instruction, mem_map);
    }

    //
    // Jump instructions
    //
    fn instr_jmp<M: MemMapped>(&mut self, instruction: &mut Instruction, mem_map: &mut M)
        requires
            old(instruction).token is JMP,
        ensures
            old(self).instr_post::<M>(*old(instruction), old(mem_map)@, *final(self), *final(instruction), final(mem_map)@),
    {
        proof { reveal(Cpu::spec_instr); }
        match instruction.addressing_mode {
            AddressingMode::Absolute(arg) => {
                self.reg_pc = arg;
            },
            AddressingMode::Indirect(arg) => {
                // Indirect addressing wraps around a single 0x100-byte page
                // so for example JMP ($01FF) reads the low byte from $01FF
                // and the high byte from $0100
                let addr_high = (arg / 256) as u8;
                let addr_low_1 = (arg % 256) as u8;
                let addr_low_2 = addr_low_1.wrapping_add(1);

                let resolved_low = make_word(addr_low_1, addr_high);
                let resolved_high = make_word(addr_low_2, addr_high);

                let target_addr_low = mem_map.read(resolved_low);
                let target_addr_high = mem_map.read(resolved_high);

                self.reg_pc = make_word(target_addr_low, target_addr_high);
            },
            _ => {},
        }
    }

    fn instr_jsr<M: MemMapped>(&mut self, instruction: &mut Instruction, mem_map: &mut M)
        requires
            old(instruction).token is JSR,
        ensures
            old(self).instr_post::<M>(*old(instruction), old(mem_map)@, *final(self), *final(instruction), final(mem_map)@),
    {
        proof { reveal(Cpu::spec_instr); }
        match instruction.addressing_mode {
            AddressingMode::Absolute(arg) => {
                // note the -1: the return address is the last byte of the JSR instruction
                let return_destination = self.reg_pc.wrapping_add(2);
                self.stack_push_addr(mem_map, return_destination);
                self.reg_pc = arg;
            },
            _ => {},
        }
    }

    //
    // Break/Return instructions
    //
    fn instr_brk<M: MemMapped>(&mut self, mem_map: &mut M)
        requires
            old(self).counters_bounded(),
        ensures
            (*final(self), final(mem_map)@) == old(self).spec_perform_irq::<M>(old(mem_map)@, false, false),
            final(self).cycle_count == old(self).cycle_count,
            final(self).instructions_since_last_interrupt == old(self).instructions_since_last_interrupt,
            final(self).is_halt_scheduled == old(self).is_halt_scheduled,
    {
        let interrupt = CpuInterrupt { is_hardware: false, is_nmi: false };
        self.perform_irq(mem_map, &interrupt);
    }

    fn instr_rti<M: MemMapped>(&mut self, mem_map: &mut M)
        ensures
            ({
                let c0 = Cpu { pending_interrupt: None, ..*old(self) };
                let (b, c1, v1) = c0.spec_pull::<M>(old(mem_map)@);
                let (pc, c2, v2) = c1.spec_pull_addr::<M>(v1);
                &&& *final(self) == (Cpu { reg_status: c2.reg_status.spec_plp(b), reg_pc: pc, ..c2 })
                &&& final(mem_map)@ == v2
            }),
    {
        if self.pending_interrupt.is_some() {
            self.pending_interrupt = None;
        }

        let status_byte = self.stack_pull(mem_map);
        let new_pc = self.stack_pull_addr(mem_map);

        self.reg_status.plp(status_byte);
        self.reg_pc = new_pc;
    }

    fn instr_rts<M: MemMapped>(&mut self, mem_map: &mut M)
        ensures
            ({
                let (pc, c1, v1) = old(self).spec_pull_addr::<M>(old(mem_map)@);
                &&& *final(self) == c1.with_pc(wadd16(pc, 1))
                &&& final(mem_map)@ == v1
            }),
    {
        let addr = self.stack_pull_addr(mem_map);
        self.reg_pc = addr.wrapping_add(1);
    }

    //
    // Branch instructions
    //
    fn instr_bpl(&mut self, instruction: &mut Instruction)
        requires
            old(instruction).token is BPL,
            old(instruction).cycle_count <= 7,
        ensures
            (*final(self), *final(instruction)) == old(self).spec_conditional_branch(*old(instruction)),
    {
        if !self.reg_status.sign_flag {
            self.branch(instruction);
        }
    }

    fn instr_bmi(&mut self, instruction: &mut Instruction)
        requires
            old(instruction).token is BMI,
            old(instruction).cycle_count <= 7,
        ensures
            (*final(self), *final(instruction)) == old(self).spec_conditional_branch(*old(instruction)),
    {
        if self.reg_status.sign_flag {
            self.branch(instruction);
        }
    }

    fn instr_bvc(&mut self, instruction: &mut Instruction)
        requires
            old(instruction).token is BVC,
            old(instruction).cycle_count <= 7,
        ensures
            (*final(self), *final(instruction)) == old(self).spec_conditional_branch(*old(instruction)),
    {
        if !self.reg_status.overflow_flag {
            self.branch(instruction);
        }
    }

    fn instr_bvs(&mut self, instruction: &mut Instruction)
        requires
            old(instruction).token is BVS,
            old(instruction).cycle_count <= 7,
        ensures
            (*final(self), *final(instruction)) == old(self).spec_conditional_branch(*old(instruction)),
    {
        if self.reg_status.overflow_flag {
            self.branch(instruction);
        }
    }

    fn instr_bcc(&mut self, instruction: &mut Instruction)
        requires
            old(instruction).token is BCC,
            old(instruction).cycle_count <= 7,
        ensures
            (*final(self), *final(instruction)) == old(self).spec_conditional_branch(*old(instruction)),
    {
        if !self.reg_status.carry_flag {
            self.branch(instruction);
        }
    }

    fn instr_bcs(&mut self, instruction: &mut Instruction)
        requires
            old(instruction).token is BCS,
            old(instruction).cycle_count <= 7,
        ensures
            (*final(self), *final(instruction)) == old(self).spec_conditional_branch(*old(instruction)),
    {
        if self.reg_status.carry_flag {
            self.branch(instruction);
        }
    }

    fn instr_bne(&mut self, instruction: &mut Instruction)
        requires
            old(instruction).token is BNE,
            old(instruction).cycle_count <= 7,
        ensures
            (*final(self), *final(instruction)) == old(self).spec_conditional_branch(*old(instruction)),
    {
        if !self.reg_status.zero_flag {
            self.branch(instruction);
        }
    }

    fn instr_beq(&mut self, instruction: &mut Instruction)
        requires
            old(instruction).token is BEQ,
            old(instruction).cycle_count <= 7,
        ensures
            (*final(self), *final(instruction)) == old(self).spec_conditional_branch(*old(instruction)),
    {
        if self.reg_status.zero_flag {
            self.branch(instruction);
        }
    }

    //
    // Stack instructions
    //
    fn instr_txs(&mut self)
        ensures
            *final(self) == old(self).spec_implied(InstructionToken::TXS),
    {
        self.reg_sp = self.reg_x;
    }

    fn instr_tsx(&mut self)
        ensures
            *final(self) == old(self).spec_implied(InstructionToken::TSX),
    {
        self.reg_x = self.reg_sp;
        self.reg_status.toggle_zero_sign(self.reg_x);
    }

    fn instr_pha<M: MemMapped>(&mut self, mem_map: &mut M)
        ensures
            (*final(self), final(mem_map)@) == old(self).spec_push::<M>(old(mem_map)@, old(self).reg_a),
    {
        let reg_a = self.reg_a;
        self.stack_push(mem_map, reg_a);
    }

    fn instr_pla<M: MemMapped>(&mut self, mem_map: &mut M)
        ensures
            ({
                let (b, c, v1) = old(self).spec_pull::<M>(old(mem_map)@);
                &&& *final(self) == (Cpu { reg_a: b, reg_status: c.reg_status.spec_zs(b), ..c })
                &&& final(mem_map)@ == v1
            }),
    {
        self.reg_a = self.stack_pull(mem_map);
        self.reg_status.toggle_zero_sign(self.reg_a);
    }

    fn instr_php<M: MemMapped>(&mut self, mem_map: &mut M)
        ensures
            (*final(self), final(mem_map)@) == old(self).spec_push::<M>(old(mem_map)@, old(self).reg_status.spec_byte_with(true)),
    {
        let status_byte = self.reg_status.php();
        self.stack_push(mem_map, status_byte);
    }

    fn instr_plp<M: MemMapped>(&mut self, mem_map: &mut M)
        ensures
            ({
                let (b, c, v1) = old(self).spec_pull::<M>(old(mem_map)@);
                let c2 = c.with_status(c.reg_status.spec_plp(b));
                &&& *final(self) == c2.spec_reschedule(!c2.reg_status.interrupt_disable)
                &&& final(mem_map)@ == v1
            }),
    {
        let status_byte = self.stack_pull(mem_map);
        self.reg_status.plp(status_byte);

        if let Some(interrupt) = self.unhandled_interrupt {
            if !self.reg_status.interrupt_disable {
                self.instructions_since_last_interrupt = 0;
                self.pending_interrupt = Some(interrupt);
            }
        }
    }

    //
    // Flag instructions
    //
    fn instr_clc(&mut self)
        ensures
            *final(self) == old(self).spec_implied(InstructionToken::CLC),
    {
        self.reg_status.toggle_carry(false);
    }

    fn instr_sec(&mut self)
        ensures
            *final(self) == old(self).spec_implied(InstructionToken::SEC),
    {
        self.reg_status.toggle_carry(true);
    }

    fn instr_cli(&mut self)
        ensures
            *final(self) == old(self).spec_implied(InstructionToken::CLI),
    {
        if let Some(interrupt) = self.unhandled_interrupt {
            self.instructions_since_last_interrupt = 0;
            self.pending_interrupt = Some(interrupt);
        }

        self.reg_status.toggle_interrupt_disable(false);
    }

    fn instr_sei(&mut self)
        ensures
            *final(self) == old(self).spec_implied(InstructionToken::SEI),
    {
        if let Some(interrupt) = self.unhandled_interrupt {
            if !self.reg_status.interrupt_disable {
                self.instructions_since_last_interrupt = 0;
                self.pending_interrupt = Some(interrupt);
            }
        }

        self.reg_status.toggle_interrupt_disable(true);
    }

    fn instr_clv(&mut self)
        ensures
            *final(self) == old(self).spec_implied(InstructionToken::CLV),
    {
        self.reg_status.toggle_overflow(false);
    }

    fn instr_cld(&mut self)
        ensures
            *final(self) == old(self).spec_implied(InstructionToken::CLD),
    {
        self.reg_status.toggle_decimal(false);
    }

    fn instr_sed(&mut self)
        ensures
            *final(self) == old(self).spec_implied(InstructionToken::SED),
    {
        self.reg_status.toggle_decimal(true);
    }

    //
    // Store/Load and ALU instructions: the operand is read, then combined with the registers
    //

    fn instr_lda<M: MemMapped>(&mut self, instruction: &mut Instruction, mem_map: &mut M)
        requires
            old(instruction).token is LDA,
            old(instruction).cycle_count <= 7,
        ensures
            old(self).instr_post::<M>(*old(instruction), old(mem_map)@, *final(self), *final(instruction), final(mem_map)@),
    {
        proof { reveal(Cpu::spec_instr); }
        let byte = self.read_resolved(instruction, mem_map);
        self.reg_a = byte;
        self.reg_status.toggle_zero_sign(self.reg_a);
    }

    fn instr_ldx<M: MemMapped>(&mut self, instruction: &mut Instruction, mem_map: &mut M)
        requires
            old(instruction).token is LDX,
            old(instruction).cycle_count <= 7,
        ensures
            old(self).instr_post::<M>(*old(instruction), old(mem_map)@, *final(self), *final(instruction), final(mem_map)@),
    {
        proof { reveal(Cpu::spec_instr); }
        let byte = self.read_resolved(instruction, mem_map);
        self.reg_x = byte;
        self.reg_status.toggle_zero_sign(self.reg_x);
    }

    fn instr_ldy<M: MemMapped>(&mut self, instruction: &mut Instruction, mem_map: &mut M)
        requires
            old(instruction).token is LDY,
            old(instruction).cycle_count <= 7,
        ensures
            old(self).instr_post::<M>(*old(instruction), old(mem_map)@, *final(self), *final(instruction), final(mem_map)@),
    {
        proof { reveal(Cpu::spec_instr); }
        let byte = self.read_resolved(instruction, mem_map);
        self.reg_y = byte;
        self.reg_status.toggle_zero_sign(self.reg_y);
    }

    fn instr_ora<M: MemMapped>(&mut self, instruction: &mut Instruction, mem_map: &mut M)
        requires
            old(instruction).token is ORA,
            old(instruction).cycle_count <= 7,
        ensures
            old(self).instr_post::<M>(*old(instruction), old(mem_map)@, *final(self), *final(instruction), final(mem_map)@),
    {
        proof { reveal(Cpu::spec_instr); }
        let byte = self.read_resolved(instruction, mem_map);
        self.reg_a = self.reg_a | byte;
        self.reg_status.toggle_zero_sign(self.reg_a);
    }

    fn instr_and<M: MemMapped>(&mut self, instruction: &mut Instruction, mem_map: &mut M)
        requires
            old(instruction).token is AND,
            old(instruction).cycle_count <= 7,
        ensures
            old(self).instr_post::<M>(*old(instruction), old(mem_map)@, *final(self), *final(instruction), final(mem_map)@),
    {
        proof { reveal(Cpu::spec_instr); }
        let byte = self.read_resolved(instruction, mem_map);
        self.reg_a = self.reg_a & byte;
        self.reg_status.toggle_zero_sign(self.reg_a);
    }

    fn instr_eor<M: MemMapped>(&mut self, instruction: &mut Instruction, mem_map: &mut M)
        requires
            old(instruction).token is EOR,
            old(instruction).cycle_count <= 7,
        ensures
            old(self).instr_post::<M>(*old(instruction), old(mem_map)@, *final(self), *final(instruction), final(mem_map)@),
    {
        proof { reveal(Cpu::spec_instr); }
        let byte = self.read_resolved(instruction, mem_map);
        self.reg_a = self.reg_a ^ byte;
        self.reg_status.toggle_zero_sign(self.reg_a);
    }

    fn instr_adc<M: MemMapped>(&mut self, instruction: &mut Instruction, mem_map: &mut M)
        requires
            old(instruction).token is ADC,
            old(instruction).cycle_count <= 7,
        ensures
            old(self).instr_post::<M>(*old(instruction), old(mem_map)@, *final(self), *final(instruction), final(mem_map)@),
    {
        proof { reveal(Cpu::spec_instr); }
        let byte = self.read_resolved(instruction, mem_map);
        self.perform_adc(byte);
    }

    fn instr_sbc<M: MemMapped>(&mut self, instruction: &mut Instruction, mem_map: &mut M)
        requires
            old(instruction).token is SBC,
            old(instruction).cycle_count <= 7,
        ensures
            old(self).instr_post::<M>(*old(instruction), old(mem_map)@, *final(self), *final(instruction), final(mem_map)@),
    {
        proof { reveal(Cpu::spec_instr); }
        let byte = self.read_resolved(instruction, mem_map);
        let complement = !byte;
        proof { crate::bits::lemma_byte_ops(byte); }
        self.perform_adc(complement);
    }

    fn instr_cmp<M: MemMapped>(&mut self, instruction: &mut Instruction, mem_map: &mut M)
        requires
            old(instruction).token is CMP,
            old(instruction).cycle_count <= 7,
        ensures
            old(self).instr_post::<M>(*old(instruction), old(mem_map)@, *final(self), *final(instruction), final(mem_map)@),
    {
        proof { reveal(Cpu::spec_instr); }
        let byte = self.read_resolved(instruction, mem_map);
        let reg = self.reg_a;
        self.compare(reg, byte);
    }

    fn instr_cpx<M: MemMapped>(&mut self, instruction: &mut Instruction, mem_map: &mut M)
        requires
            old(instruction).token is CPX,
            old(instruction).cycle_count <= 7,
        ensures
            old(self).instr_post::<M>(*old(instruction), old(mem_map)@, *final(self), *final(instruction), final(mem_map)@),
    {
        proof { reveal(Cpu::spec_instr); }
        let byte = self.read_resolved(instruction, mem_map);
        let reg = self.reg_x;
        self.compare(reg, byte);
    }

    fn instr_cpy<M: MemMapped>(&mut self, instruction: &mut Instruction, mem_map: &mut M)
        requires
            old(instruction).token is CPY,
            old(instruction).cycle_count <= 7,
        ensures
            old(self).instr_post::<M>(*old(instruction), old(mem_map)@, *final(self), *final(instruction), final(mem_map)@),
    {
        proof { reveal(Cpu::spec_instr); }
        let byte = self.read_resolved(instruction, mem_map);
        let reg = self.reg_y;
        self.compare(reg, byte);
    }

    #[verifier::spinoff_prover]
    #[verifier::rlimit(100)]
    fn instr_bit<M: MemMapped>(&mut self, instruction: &mut Instruction, mem_map: &mut M)
        requires
            old(instruction).token is BIT,
            old(instruction).cycle_count <= 7,
        ensures
            old(self).instr_post::<M>(*old(instruction), old(mem_map)@, *final(self), *final(instruction), final(mem_map)@),
    {
        proof { reveal(Cpu::spec_instr); }
        let byte = self.read_resolved(instruction, mem_map);
        let zero = byte & self.reg_a == 0;
        self.reg_status.toggle_zero(zero);

        let overflow = get_bit(byte, 6);
        self.reg_status.toggle_overflow(overflow);

        let sign = get_bit(byte, 7);
        self.reg_status.toggle_sign(sign);
    }

    fn instr_sta<M: MemMapped>(&mut self, instruction: &mut Instruction, mem_map: &mut M)
        requires
            old(instruction).token is STA,
        ensures
            old(self).instr_post::<M>(*old(instruction), old(mem_map)@, *final(self), *final(instruction), final(mem_map)@),
    {
        proof { reveal(Cpu::spec_instr); }
        let reg_a = self.reg_a;
        self.write_resolved(instruction, mem_map, reg_a);
    }

    fn instr_stx<M: MemMapped>(&mut self, instruction: &mut Instruction, mem_map: &mut M)
        requires
            old(instruction).token is STX,
        ensures
            old(self).instr_post::<M>(*old(instruction), old(mem_map)@, *final(self), *final(instruction), final(mem_map)@),
    {
        proof { reveal(Cpu::spec_instr); }
        let reg_x = self.reg_x;
        self.write_resolved(instruction, mem_map, reg_x);
    }

    fn instr_sty<M: MemMapped>(&mut self, instruction: &mut Instruction, mem_map: &mut M)
        requires
            old(instruction).token is STY,
        ensures
            old(self).instr_post::<M>(*old(instruction), old(mem_map)@, *final(self), *final(instruction), final(mem_map)@),
    {
        proof { reveal(Cpu::spec_instr); }
        let reg_y = self.reg_y;
        self.write_resolved(instruction, mem_map, reg_y);
    }

    //
    // Register instructions
    //

    fn instr_tax(&mut self)
        ensures
            *final(self) == old(self).spec_implied(InstructionToken::TAX),
    {
        self.reg_x = self.reg_a;
        self.reg_status.toggle_zero_sign(self.reg_x);
    }

    fn instr_txa(&mut self)
        ensures
            *final(self) == old(self).spec_implied(InstructionToken::TXA),
    {
        self.reg_a = self.reg_x;
        self.reg_status.toggle_zero_sign(self.reg_a);
    }

    fn instr_dex(&mut self)
        ensures
            *final(self) == old(self).spec_implied(InstructionToken::DEX),
    {
        self.reg_x = self.reg_x.wrapping_sub(1);
        self.reg_status.toggle_zero_sign(self.reg_x);
    }

    fn instr_inx(&mut self)
        ensures
            *final(self) == old(self).spec_implied(InstructionToken::INX),
    {
        self.reg_x = self.reg_x.wrapping_add(1);
        self.reg_status.toggle_zero_sign(self.reg_x);
    }

    fn instr_tay(&mut self)
        ensures
            *final(self) == old(self).spec_implied(InstructionToken::TAY),
    {
        self.reg_y = self.reg_a;
        self.reg_status.toggle_zero_sign(self.reg_y);
    }

    fn instr_tya(&mut self)
        ensures
            *final(self) == old(self).spec_implied(InstructionToken::TYA),
    {
        self.reg_a = self.reg_y;
        self.reg_status.toggle_zero_sign(self.reg_y);
    }

    fn instr_dey(&mut self)
        ensures
            *final(self) == old(self).spec_implied(InstructionToken::DEY),
    {
        self.reg_y = self.reg_y.wrapping_sub(1);
        self.reg_status.toggle_zero_sign(self.reg_y);
    }

    fn instr_iny(&mut self)
        ensures
            *final(self) == old(self).spec_implied(InstructionToken::INY),
    {
        self.reg_y = self.reg_y.wrapping_add(1);
        self.reg_status.toggle_zero_sign(self.reg_y);
    }

    //
    // Read/Modify/Write instructions
    //

    fn instr_asl<M: MemMapped>(&mut self, instruction: &mut Instruction, mem_map: &mut M)
        requires
            old(instruction).token is ASL,
            old(instruction).cycle_count <= 7,
        ensures
            old(self).instr_post::<M>(*old(instruction), old(mem_map)@, *final(self), *final(instruction), final(mem_map)@),
    {
        proof { reveal(Cpu::spec_instr); }
        let byte = self.read_resolved(instruction, mem_map);
        let carry = (byte >> 7) == 1;
        proof { crate::bits::lemma_byte_ops(byte); }
        self.reg_status.toggle_carry(carry);

        let result = byte << 1;
        proof { crate::bits::lemma_shl1(byte); }
        self.reg_status.toggle_zero_sign(result);

        self.write_resolved(instruction, mem_map, result);
    }

    fn instr_rol<M: MemMapped>(&mut self, instruction: &mut Instruction, mem_map: &mut M)
        requires
            old(instruction).token is ROL,
            old(instruction).cycle_count <= 7,
        ensures
            old(self).instr_post::<M>(*old(instruction), old(mem_map)@, *final(self), *final(instruction), final(mem_map)@),
    {
        proof { reveal(Cpu::spec_instr); }
        let byte = self.read_resolved(instruction, mem_map);
        let old_carry: u8 = if self.reg_status.carry_flag { 1 } else { 0 };
        let new_carry = (byte >> 7) == 1;
        proof { crate::bits::lemma_byte_ops(byte); }

        self.reg_status.toggle_carry(new_carry);

        let result = (byte << 1) | old_carry;
        proof { crate::bits::lemma_rotate_ops(byte, old_carry); }
        self.reg_status.toggle_zero_sign(result);

        self.write_resolved(instruction, mem_map, result);
    }

    fn instr_lsr<M: MemMapped>(&mut self, instruction: &mut Instruction, mem_map: &mut M)
        requires
            old(instruction).token is LSR,
            old(instruction).cycle_count <= 7,
        ensures
            old(self).instr_post::<M>(*old(instruction), old(mem_map)@, *final(self), *final(instruction), final(mem_map)@),
    {
        proof { reveal(Cpu::spec_instr); }
        let byte = self.read_resolved(instruction, mem_map);
        let carry = (byte & 1) == 1;
        proof { crate::bits::lemma_byte_ops(byte); }
        self.reg_status.toggle_carry(carry);

        let result = byte >> 1;
        proof { crate::bits::lemma_byte_ops(byte); }
        self.reg_status.toggle_zero_sign(result);

        self.write_resolved(instruction, mem_map, result);
    }

    fn instr_ror<M: MemMapped>(&mut self, instruction: &mut Instruction, mem_map: &mut M)
        requires
            old(instruction).token is ROR,
            old(instruction).cycle_count <= 7,
        ensures
            old(self).instr_post::<M>(*old(instruction), old(mem_map)@, *final(self), *final(instruction), final(mem_map)@),
    {
        proof { reveal(Cpu::spec_instr); }
        let byte = self.read_resolved(instruction, mem_map);
        let old_carry: u8 = if self.reg_status.carry_flag { 1 } else { 0 };
        let new_carry = (byte & 1) == 1;
        proof { crate::bits::lemma_byte_ops(byte); }

        self.reg_status.toggle_carry(new_carry);

        let result = (byte >> 1) | (old_carry << 7);
        assert(old_carry <= 1 ==> (byte >> 1) | (old_carry << 7) == byte / 2 + 128 * old_carry) by (bit_vector);
        self.reg_status.toggle_zero_sign(result);

        self.write_resolved(instruction, mem_map, result);
    }

    fn instr_dec<M: MemMapped>(&mut self, instruction: &mut Instruction, mem_map: &mut M)
        requires
            old(instruction).token is DEC,
            old(instruction).cycle_count <= 7,
        ensures
            old(self).instr_post::<M>(*old(instruction), old(mem_map)@, *final(self), *final(instruction), final(mem_map)@),
    {
        proof { reveal(Cpu::spec_instr); }
        let byte = self.read_resolved(instruction, mem_map);
        let result = byte.wrapping_sub(1);
        self.reg_status.toggle_zero_sign(result);

        self.write_resolved(instruction, mem_map, result);
    }

    fn instr_inc<M: MemMapped>(&mut self, instruction: &mut Instruction, mem_map: &mut M)
        requires
            old(instruction).token is INC,
            old(instruction).cycle_count <= 7,
        ensures
            old(self).instr_post::<M>(*old(instruction), old(mem_map)@, *final(self), *final(instruction), final(mem_map)@),
    {
        proof { reveal(Cpu::spec_instr); }
        let byte = self.read_resolved(instruction, mem_map);
        let result = byte.wrapping_add(1);
        self.reg_status.toggle_zero_sign(result);

        self.write_resolved(instruction, mem_map, result);
    }

    //
    // Helpers
    //

    fn perform_irq<M: MemMapped>(&mut self, mem_map: &mut M, interrupt: &CpuInterrupt)
        requires
            old(self).counters_bounded(),
        ensures
            (*final(self), final(mem_map)@) == old(self).spec_perform_irq::<M>(old(mem_map)@, interrupt.is_hardware, interrupt.is_nmi),
            final(self).cycle_count == old(self).cycle_count + (if interrupt.is_hardware { 7int } else { 0int }),
            final(self).instructions_since_last_interrupt == old(self).instructions_since_last_interrupt,
            final(self).pending_interrupt == old(self).pending_interrupt,
            final(self).unhandled_interrupt == old(self).unhandled_interrupt,
            final(self).is_halted == old(self).is_halted,
            final(self).is_halt_scheduled == old(self).is_halt_scheduled,
    {
        proof { reveal(Cpu::spec_perform_irq); }
        let mut new_reg_pc = self.reg_pc;

        if !interrupt.is_hardware {
            new_reg_pc = new_reg_pc.wrapping_add(2);
            self.reg_status.toggle_break_executed(true);
        }

        let status_byte = if interrupt.is_hardware {
            self.reg_status.irq()
        } else {
            self.reg_status.php()
        };

        self.stack_push_addr(mem_map, new_reg_pc);
        self.stack_push(mem_map, status_byte);

        self.reg_pc = if interrupt.is_nmi {
            mem_map.read_word(NMI_PC_VEC)
        } else {
            mem_map.read_word(BRK_PC_VEC)
        };

        self.reg_status.interrupt_disable = true;
        if interrupt.is_hardware {
            self.cycle_count += 7;
        }
    }

    // Due to the complexity of the ADC/SBC instructions, they are
    // performed here for both instr_adc and instr_sbc
    fn perform_adc(&mut self, byte: u8)
        ensures
            ({
                let (r, s) = spec_adc(old(self).reg_status, old(self).reg_a, byte);
                *final(self) == Cpu { reg_a: r, reg_status: s, ..*old(self) }
            }),
    {
        let old_carry: u16 = if self.reg_status.carry_flag { 1 } else { 0 };
        let a = self.reg_a;

        let sum: u16 = a as u16 + byte as u16 + old_carry;

        let carry = sum > 0xFF;
        self.reg_status.toggle_carry(carry);

        let overflow = !(((a as u16 ^ byte as u16) & 0x80) != 0) && (((a as u16 ^ sum) & 0x80) != 0);
        proof { lemma_adc_overflow(a, byte, old_carry); }
        self.reg_status.toggle_overflow(overflow);

        self.reg_a = (sum % 256) as u8;
        self.reg_status.toggle_zero_sign(self.reg_a);
    }

    /// The flags of a comparison of `reg` with `byte`.
    fn compare(&mut self, reg: u8, byte: u8)
        ensures
            *final(self) == old(self).with_status(spec_compare(old(self).reg_status, reg, byte)),
    {
        if reg > byte {
            self.reg_status.toggle_carry(true);
            self.reg_status.toggle_zero(false);
        } else if reg == byte {
            self.reg_status.toggle_carry(true);
            self.reg_status.toggle_zero(true);
        } else {
            self.reg_status.toggle_carry(false);
            self.reg_status.toggle_zero(false);
        }

        let sub = reg.wrapping_sub(byte);
        let sign = sub >> 7 == 1;
        proof { crate::bits::lemma_byte_ops(sub); }

        self.reg_status.toggle_sign(sign);
    }

    /// The operand that `instruction` designates; page crossings of indexed modes add a cycle.
    pub fn read_resolved<M: MemMapped>(&self, instruction: &mut Instruction, mem_map: &mut M) -> (r: u8)
        requires
            old(instruction).cycle_count < 255,
        ensures
            (r, *final(instruction), final(mem_map)@) == self.spec_read_resolved::<M>(*old(instruction), old(mem_map)@),
            final(instruction).cycle_count <= old(instruction).cycle_count + 1,
            *final(instruction) == (Instruction { cycle_count: final(instruction).cycle_count, ..*old(instruction) }),
    {
        proof { reveal(Cpu::spec_read_resolved); }
        match instruction.addressing_mode {
            AddressingMode::ZeroPageIndexedX(arg) => mem_map.read(arg.wrapping_add(self.reg_x) as u16),
            AddressingMode::ZeroPageIndexedY(arg) => mem_map.read(arg.wrapping_add(self.reg_y) as u16),
            AddressingMode::AbsoluteIndexedX(arg) => {
                if (arg % 256) + self.reg_x as u16 > 0xFF {
                    instruction.cycle_count += 1;
                }
                mem_map.read(arg.wrapping_add(self.reg_x as u16))
            },
            AddressingMode::AbsoluteIndexedY(arg) => {
                if (arg % 256) + self.reg_y as u16 > 0xFF {
                    instruction.cycle_count += 1;
                }
                mem_map.read(arg.wrapping_add(self.reg_y as u16))
            },
            AddressingMode::IndexedIndirectX(arg) => {
                // When reading from addresses at page boundaries (0xFF)
                // we read the low byte from 0xFF and high byte from 0x00
                // relative to that page
                let arg_plus_x = arg.wrapping_add(self.reg_x);
                let addr_low = mem_map.read(arg_plus_x as u16);
                let addr_high = mem_map.read(arg_plus_x.wrapping_add(1) as u16);
                let addr = make_word(addr_low, addr_high);
                mem_map.read(addr)
            },
            AddressingMode::IndirectIndexedY(arg) => {
                let addr_low = mem_map.read(arg as u16);
                let addr_high = mem_map.read(arg.wrapping_add(1) as u16);
                let arg_resolved = make_word(addr_low, addr_high);

                let addr = arg_resolved.wrapping_add(self.reg_y as u16);

                if (arg_resolved % 256) + self.reg_y as u16 > 0xFF {
                    instruction.cycle_count += 1;
                }

                mem_map.read(addr)
            },
            AddressingMode::Immediate(arg) => arg,
            AddressingMode::Accumulator => self.reg_a,
            AddressingMode::ZeroPage(arg) => mem_map.read(arg as u16),
            AddressingMode::Absolute(arg) => mem_map.read(arg),
            // Implicit, Relative and Indirect addressing modes are handled
            // by the instructions themselves
            _ => 0,
        }
    }

    fn write_resolved<M: MemMapped>(&mut self, instruction: &Instruction, mem_map: &mut M, byte: u8)
        ensures
            (*final(self), final(mem_map)@) == old(self).spec_write_resolved::<M>(*instruction, old(mem_map)@, byte),
            *final(self) == (Cpu { reg_a: final(self).reg_a, ..*old(self) }),
    {
        proof { reveal(Cpu::spec_write_resolved); }
        match instruction.addressing_mode {
            AddressingMode::ZeroPageIndexedX(arg) => mem_map.write(arg.wrapping_add(self.reg_x) as u16, byte),
            AddressingMode::ZeroPageIndexedY(arg) => mem_map.write(arg.wrapping_add(self.reg_y) as u16, byte),
            AddressingMode::AbsoluteIndexedX(arg) => mem_map.write(arg.wrapping_add(self.reg_x as u16), byte),
            AddressingMode::AbsoluteIndexedY(arg) => mem_map.write(arg.wrapping_add(self.reg_y as u16), byte),
            AddressingMode::IndexedIndirectX(arg) => {
                let arg_plus_x = arg.wrapping_add(self.reg_x);
                let addr_low = mem_map.read(arg_plus_x as u16);
                let addr_high = mem_map.read(arg_plus_x.wrapping_add(1) as u16);
                let addr = make_word(addr_low, addr_high);
                mem_map.write(addr, byte)
            },
            AddressingMode::IndirectIndexedY(arg) => {
                let addr_low = mem_map.read(arg as u16);
                let addr_high = mem_map.read(arg.wrapping_add(1) as u16);
                let arg_resolved = make_word(addr_low, addr_high);
                let addr = arg_resolved.wrapping_add(self.reg_y as u16);
                mem_map.write(addr, byte)
            },
            AddressingMode::ZeroPage(arg) => mem_map.write(arg as u16, byte),
            AddressingMode::Absolute(arg) => mem_map.write(arg, byte),
            AddressingMode::Accumulator => {
                self.reg_a = byte;
            },
            // The modes above are all the ones that store
            _ => {},
        }
    }

    fn stack_push<M: MemMapped>(&mut self, mem_map: &mut M, byte: u8)
        ensures
            (*final(self), final(mem_map)@) == old(self).spec_push::<M>(old(mem_map)@, byte),
    {
        let addr = 0x100 + (self.reg_sp as u16);
        mem_map.write(addr, byte);
        self.reg_sp = self.reg_sp.wrapping_sub(1);
    }

    fn stack_pull<M: MemMapped>(&mut self, mem_map: &mut M) -> (r: u8)
        ensures
            (r, *final(self), final(mem_map)@) == old(self).spec_pull::<M>(old(mem_map)@),
    {
        self.reg_sp = self.reg_sp.wrapping_add(1);
        let addr = 0x100 + self.reg_sp as u16;
        mem_map.read(addr)
    }

    fn stack_push_addr<M: MemMapped>(&mut self, mem_map: &mut M, addr: u16)
        ensures
            (*final(self), final(mem_map)@) == old(self).spec_push_addr::<M>(old(mem_map)@, addr),
            *final(self) == (Cpu { reg_sp: final(self).reg_sp, ..*old(self) }),
    {
        proof { reveal(Cpu::spec_push_addr); }
        let addr_high = (addr / 256) as u8;
        let addr_low = (addr % 256) as u8;

        self.stack_push(mem_map, addr_high);
        self.stack_push(mem_map, addr_low);
    }

    fn stack_pull_addr<M: MemMapped>(&mut self, mem_map: &mut M) -> (r: u16)
        ensures
            (r, *final(self), final(mem_map)@) == old(self).spec_pull_addr::<M>(old(mem_map)@),
            *final(self) == (Cpu { reg_sp: final(self).reg_sp, ..*old(self) }),
    {
        proof { reveal(Cpu::spec_pull_addr); }
        let addr_low = self.stack_pull(mem_map);
        let addr_high = self.stack_pull(mem_map);
        make_word(addr_low, addr_high)
    }

    // branch is taken
    fn branch(&mut self, instruction: &mut Instruction)
        requires
            old(instruction).cycle_count <= 7,
        ensures
            (*final(self), *final(instruction)) == old(self).spec_branch(*old(instruction)),
    {
        // increase cycle count by 1
        instruction.cycle_count += 1;

        match instruction.addressing_mode {
            AddressingMode::Relative(offset) => {
                // The offset is added AFTER the PC has been incremented by 2
                // (which happens regardless of whether the branch is being taken or not)
                // So we need to check for page boundary crossing AFTER the PC has been incremented by 2
                let old_reg_pc = self.reg_pc.wrapping_add(2);
                self.reg_pc = if offset >= 0 {
                    self.reg_pc.wrapping_add(offset as u16)
                } else {
                    self.reg_pc.wrapping_sub((0i16 - offset as i16) as u16)
                };
                let new_pc = self.reg_pc.wrapping_add(2);
                assert((old_reg_pc & 0xFF00 != new_pc & 0xFF00) == (old_reg_pc / 256 != new_pc / 256)) by (bit_vector);
                if old_reg_pc & 0xFF00 != new_pc & 0xFF00 {
                    // moved to previous or next page, increase cycle count by 1
                    instruction.cycle_count += 1;
                }
            },
            _ => {},
        }
    }
}

/// The overflow test of ADC as the hardware computes it is the signed overflow of `a + m + c`.
proof fn lemma_adc_overflow(a: u8, m: u8, c: u16)
    requires
        c <= 1,
    ensures
        ({
            let sum = (a as u16 + m as u16 + c) as u16;
            let signed_sum = signed(a) + signed(m) + c;
            (!(((a as u16 ^ m as u16) & 0x80) != 0) && (((a as u16 ^ sum) & 0x80) != 0))
                == (signed_sum > 127 || signed_sum < -128)
        }),
{
    let sum = (a as u16 + m as u16 + c) as u16;
    assert((!(((a as u16 ^ m as u16) & 0x80) != 0) && (((a as u16 ^ sum) & 0x80) != 0))
        == ((a < 128 && m < 128 && sum >= 128) || (a >= 128 && m >= 128 && sum < 384))) by (bit_vector)
        requires
            c <= 1,
            sum == a as u16 + m as u16 + c;
}

/// While an OAM DMA halts the CPU, a step takes two cycles, does nothing else and ends the
/// halt.
pub proof fn law_halted_step<M: MemMapped>(c: Cpu, v: M::V)
    requires
        c.is_halted,
    ensures
        c.spec_step::<M>(v) == (Cpu { cycle_count: (c.cycle_count + 2) as u64, is_halted: false, ..c }, v, Ok::<u8, EmulationError>(2)),
{
}

/// A pending NMI is taken at the first step after at least one instruction has run since it
/// was raised: the step pushes the state, jumps to the NMI vector, sets the interrupt-disable
/// flag and takes 7 cycles; before that instruction, the step runs an instruction instead.
pub proof fn law_nmi_entry<M: MemMapped>(c: Cpu, v: M::V)
    requires
        !c.is_halted,
        !c.is_halt_scheduled,
        c.counters_bounded(),
        c.pending_interrupt == Some(CpuInterrupt { is_hardware: true, is_nmi: true }),
    ensures
        ({
            let (c1, v1, r) = c.spec_step::<M>(v);
            c.instructions_since_last_interrupt > 0 ==> {
                &&& r == Ok::<u8, EmulationError>(7)
                &&& c1.pending_interrupt is None
                &&& c1.cycle_count == c.cycle_count + 7
                &&& c1.reg_status.interrupt_disable
                &&& (c1, v1) == ({
                    let (c2, v2) = c.spec_perform_irq::<M>(v, true, true);
                    (Cpu { pending_interrupt: None, unhandled_interrupt: None, ..c2 }, v2)
                })
            }
        }),
        c.instructions_since_last_interrupt == 0 ==> ({
            let (c1, v1, r) = c.spec_step::<M>(v);
            let (c2, v2, r2) = c.spec_execute_next::<M>(v);
            r == r2 && v1 == v2
        }),
{
    reveal(Cpu::spec_perform_irq);
    reveal(Cpu::spec_push_addr);
}

/// What JSR to an absolute address does.
pub proof fn lemma_instr_jsr<M: MemMapped>(c: Cpu, instr: Instruction, v: M::V, t: u16)
    requires
        instr.token is JSR,
        instr.addressing_mode == AddressingMode::Absolute(t),
    ensures
        ({
            let (c0, v0) = c.spec_push_addr::<M>(v, wadd16(c.reg_pc, 2));
            c.spec_instr::<M>(instr, v) == (c0.with_pc(t), instr, v0)
        }),
{
    reveal(Cpu::spec_instr);
}

/// What RTS does.
pub proof fn lemma_instr_rts<M: MemMapped>(c: Cpu, instr: Instruction, v: M::V)
    requires
        instr.token is RTS,
    ensures
        ({
            let (a, c3, v3) = c.spec_pull_addr::<M>(v);
            c.spec_instr::<M>(instr, v) == (c3.with_pc(wadd16(a, 1)), instr, v3)
        }),
{
    reveal(Cpu::spec_instr);
}

/// CMP, CPX and CPY compare a register with the operand as unsigned bytes: carry is set when
/// the register is at least the operand (so equal values set it), zero when they are equal, and
/// sign is bit 7 of their difference modulo 256. The other flags and the registers stay, and
/// memory is as reading the operand leaves it. An immediate operand is the instruction's byte.
#[verifier::spinoff_prover]
pub proof fn law_compare<M: MemMapped>(c: Cpu, instr: Instruction, v: M::V)
    requires
        instr.token is CMP || instr.token is CPX || instr.token is CPY,
    ensures
        ({
            let reg = if instr.token is CMP { c.reg_a } else if instr.token is CPX { c.reg_x } else { c.reg_y };
            let (m, i1, v1) = c.spec_read_resolved::<M>(instr, v);
            let (c1, i2, v2) = c.spec_instr::<M>(instr, v);
            &&& c1.reg_status.carry_flag == (reg >= m)
            &&& c1.reg_status.zero_flag == (reg == m)
            &&& c1.reg_status.sign_flag == ((reg as int - m as int) % 256 >= 128)
            &&& c1.reg_status.overflow_flag == c.reg_status.overflow_flag
            &&& c1.reg_status.interrupt_disable == c.reg_status.interrupt_disable
            &&& c1.reg_status.decimal_mode == c.reg_status.decimal_mode
            &&& c1.reg_a == c.reg_a && c1.reg_x == c.reg_x && c1.reg_y == c.reg_y
            &&& c1.reg_sp == c.reg_sp && c1.reg_pc == c.reg_pc && c1.cycle_count == c.cycle_count
            &&& v2 == v1
            &&& (instr.addressing_mode matches AddressingMode::Immediate(k) ==> m == k)
        }),
{
    let reg = if instr.token is CMP { c.reg_a } else if instr.token is CPX { c.reg_x } else { c.reg_y };
    let (m, i1, v1) = c.spec_read_resolved::<M>(instr, v);
    lemma_instr_compare::<M>(c, instr, v);
    assert(wsub8(reg, m) == (reg as int - m as int) % 256);
    if let AddressingMode::Immediate(k) = instr.addressing_mode {
        assert(m == k) by { reveal(Cpu::spec_read_resolved); }
    }
}

proof fn lemma_instr_compare<M: MemMapped>(c: Cpu, instr: Instruction, v: M::V)
    requires
        instr.token is CMP || instr.token is CPX || instr.token is CPY,
    ensures
        ({
            let reg = if instr.token is CMP { c.reg_a } else if instr.token is CPX { c.reg_x } else { c.reg_y };
            let (m, i1, v1) = c.spec_read_resolved::<M>(instr, v);
            c.spec_instr::<M>(instr, v) == (c.with_status(spec_compare(c.reg_status, reg, m)), i1, v1)
        }),
{
    reveal(Cpu::spec_instr);
}

proof fn lemma_instr_read_op<M: MemMapped>(c: Cpu, instr: Instruction, v: M::V)
    requires
        instr.token is LDA || instr.token is LDX || instr.token is LDY || instr.token is ORA
            || instr.token is AND || instr.token is EOR || instr.token is ADC || instr.token is SBC
            || instr.token is BIT,
    ensures
        ({
            let (m, i1, v1) = c.spec_read_resolved::<M>(instr, v);
            c.spec_instr::<M>(instr, v) == (c.spec_alu(instr.token, m), i1, v1)
        }),
{
    reveal(Cpu::spec_instr);
}

/// ADC adds the operand and the carry to A; SBC subtracts the operand and the borrow (the
/// complement of the carry) from A. A holds the exact result modulo 256. ADC sets carry when
/// the exact sum passes 255, SBC when the exact difference is not negative (no borrow).
/// Overflow is set when the same operation on the signed values leaves -128..127. Zero and
/// sign follow the new A; the other flags, X, Y, SP and PC stay.
#[verifier::spinoff_prover]
pub proof fn law_add_subtract<M: MemMapped>(c: Cpu, instr: Instruction, v: M::V)
    requires
        instr.token is ADC || instr.token is SBC,
    ensures
        ({
            let (m, i1, v1) = c.spec_read_resolved::<M>(instr, v);
            let (c1, i2, v2) = c.spec_instr::<M>(instr, v);
            let cin: int = if c.reg_status.carry_flag { 1 } else { 0 };
            let exact: int = if instr.token is ADC { c.reg_a + m + cin } else { c.reg_a - m - (1 - cin) };
            let signed_exact: int = if instr.token is ADC {
                signed(c.reg_a) + signed(m) + cin
            } else {
                signed(c.reg_a) - signed(m) - (1 - cin)
            };
            &&& c1.reg_a as int == exact % 256
            &&& c1.reg_status.carry_flag == (if instr.token is ADC { exact > 255 } else { exact >= 0 })
            &&& c1.reg_status.overflow_flag == (signed_exact < -128 || signed_exact > 127)
            &&& c1.reg_status.zero_flag == (c1.reg_a == 0)
            &&& c1.reg_status.sign_flag == (c1.reg_a >= 128)
            &&& c1.reg_status.interrupt_disable == c.reg_status.interrupt_disable
            &&& c1.reg_status.decimal_mode == c.reg_status.decimal_mode
            &&& c1.reg_x == c.reg_x && c1.reg_y == c.reg_y && c1.reg_sp == c.reg_sp && c1.reg_pc == c.reg_pc
            &&& v2 == v1
        }),
{
    let (m, i1, v1) = c.spec_read_resolved::<M>(instr, v);
    lemma_instr_read_op::<M>(c, instr, v);
    if instr.token is SBC {
        assert(signed((255 - m) as u8) == -signed(m) - 1);
    }
}

/// AND, ORA and EOR combine A with the operand bit by bit and leave the result in A, with
/// zero and sign from it; the other flags and registers stay.
#[verifier::spinoff_prover]
pub proof fn law_logic<M: MemMapped>(c: Cpu, instr: Instruction, v: M::V)
    requires
        instr.token is AND || instr.token is ORA || instr.token is EOR,
    ensures
        ({
            let (m, i1, v1) = c.spec_read_resolved::<M>(instr, v);
            let (c1, i2, v2) = c.spec_instr::<M>(instr, v);
            let r = if instr.token is AND { c.reg_a & m } else if instr.token is ORA { c.reg_a | m } else { c.reg_a ^ m };
            &&& c1.reg_a == r
            &&& c1.reg_status.zero_flag == (r == 0)
            &&& c1.reg_status.sign_flag == (r & 0x80 != 0)
            &&& c1.reg_status.carry_flag == c.reg_status.carry_flag
            &&& c1.reg_status.overflow_flag == c.reg_status.overflow_flag
            &&& c1.reg_x == c.reg_x && c1.reg_y == c.reg_y && c1.reg_sp == c.reg_sp && c1.reg_pc == c.reg_pc
            &&& v2 == v1
        }),
{
    let (m, i1, v1) = c.spec_read_resolved::<M>(instr, v);
    lemma_instr_read_op::<M>(c, instr, v);
    let r = if instr.token is AND { c.reg_a & m } else if instr.token is ORA { c.reg_a | m } else { c.reg_a ^ m };
    assert((r & 0x80 != 0) == (r >= 128)) by (bit_vector);
}

/// LDA, LDX and LDY put the operand in their register, with zero and sign from it; an
/// immediate operand is the instruction's byte. BIT leaves the registers alone: zero tells
/// whether A and the operand share no set bit, overflow and sign copy bits 6 and 7 of the
/// operand.
#[verifier::spinoff_prover]
pub proof fn law_load_and_bit<M: MemMapped>(c: Cpu, instr: Instruction, v: M::V)
    requires
        instr.token is LDA || instr.token is LDX || instr.token is LDY || instr.token is BIT,
    ensures
        ({
            let (m, i1, v1) = c.spec_read_resolved::<M>(instr, v);
            let (c1, i2, v2) = c.spec_instr::<M>(instr, v);
            &&& instr.token is LDA ==> c1.reg_a == m && c1.reg_x == c.reg_x && c1.reg_y == c.reg_y
            &&& instr.token is LDX ==> c1.reg_x == m && c1.reg_a == c.reg_a && c1.reg_y == c.reg_y
            &&& instr.token is LDY ==> c1.reg_y == m && c1.reg_a == c.reg_a && c1.reg_x == c.reg_x
            &&& !(instr.token is BIT) ==> c1.reg_status.zero_flag == (m == 0) && c1.reg_status.sign_flag == (m & 0x80 != 0)
                && c1.reg_status.overflow_flag == c.reg_status.overflow_flag
            &&& instr.token is BIT ==> c1.reg_a == c.reg_a && c1.reg_x == c.reg_x && c1.reg_y == c.reg_y
                && c1.reg_status.zero_flag == (c.reg_a & m == 0)
                && c1.reg_status.overflow_flag == (m & 0x40 != 0)
                && c1.reg_status.sign_flag == (m & 0x80 != 0)
            &&& c1.reg_status.carry_flag == c.reg_status.carry_flag
            &&& c1.reg_sp == c.reg_sp && c1.reg_pc == c.reg_pc
            &&& v2 == v1
            &&& (instr.addressing_mode matches AddressingMode::Immediate(k) ==> m == k)
        }),
{
    let (m, i1, v1) = c.spec_read_resolved::<M>(instr, v);
    lemma_instr_read_op::<M>(c, instr, v);
    assert((m & 0x40 != 0) == ((m / 64) % 2 == 1) && (m & 0x80 != 0) == (m >= 128)) by (bit_vector);
    let a = c.reg_a;
    assert(m & a == a & m) by (bit_vector);
    if let AddressingMode::Immediate(k) = instr.addressing_mode {
        assert(m == k) by { reveal(Cpu::spec_read_resolved); }
    }
}

proof fn lemma_instr_rmw<M: MemMapped>(c: Cpu, instr: Instruction, v: M::V)
    requires
        instr.token is ASL || instr.token is LSR || instr.token is ROL || instr.token is ROR
            || instr.token is INC || instr.token is DEC,
    ensures
        c.spec_instr::<M>(instr, v) == c.spec_rmw::<M>(instr, v, instr.token),
{
    reveal(Cpu::spec_instr);
}

proof fn lemma_shift_bits(m: u8, cin: u8)
    requires
        cin <= 1,
    ensures
        m << 1 == (m * 2) % 256,
        (m << 1) | cin == (m * 2 + cin) % 256,
        m >> 1 == m / 2,
        (m >> 1) | (cin << 7) == m / 2 + 128 * cin,
        (m & 0x80 != 0) == (m >= 128),
        (m & 1 == 1) == (m % 2 == 1),
{
    assert(m << 1 == (m * 2) % 256 && (m << 1) | cin == (m * 2 + cin) % 256 && m >> 1 == m / 2
        && (m >> 1) | (cin << 7) == m / 2 + 128 * cin && (m & 0x80 != 0) == (m >= 128)
        && (m & 1 == 1) == (m % 2 == 1)) by (bit_vector)
        requires
            cin <= 1;
}

/// The value that a read-modify-write instruction computes from `m`, as shifts and masks.
pub open spec fn shifted_value(t: InstructionToken, m: u8, cin: u8) -> u8 {
    if t is ASL { m << 1 } else if t is LSR { m >> 1 } else if t is ROL { (m << 1) | cin }
    else if t is ROR { (m >> 1) | (cin << 7) } else if t is INC { ((m + 1) % 256) as u8 }
    else { ((m + 255) % 256) as u8 }
}

proof fn lemma_rmw_value(c: Cpu, t: InstructionToken, m: u8)
    requires
        t is ASL || t is LSR || t is ROL || t is ROR || t is INC || t is DEC,
    ensures
        ({
            let cin: u8 = if c.reg_status.carry_flag { 1 } else { 0 };
            let (r, s) = c.spec_rmw_value(t, m);
            &&& r == shifted_value(t, m, cin)
            &&& (t is ASL || t is ROL) ==> s.carry_flag == (m & 0x80 != 0)
            &&& (t is LSR || t is ROR) ==> s.carry_flag == (m & 1 == 1)
            &&& (t is INC || t is DEC) ==> s.carry_flag == c.reg_status.carry_flag
            &&& s == (StatusReg { carry_flag: s.carry_flag, zero_flag: r == 0, sign_flag: r >= 128, ..c.reg_status })
        }),
{
    let cin: u8 = if c.reg_status.carry_flag { 1 } else { 0 };
    lemma_shift_bits(m, cin);
}

/// ASL and LSR shift the operand left or right by one, ROL and ROR rotate it through the
/// carry, INC and DEC add or subtract one modulo 256. The bit shifted out (bit 7 to the left,
/// bit 0 to the right) becomes the carry; INC and DEC keep it. Zero and sign follow the
/// result; the other flags, X, Y, SP and PC stay. In accumulator mode the result goes to A
/// and memory is as reading left it.
#[verifier::spinoff_prover]
pub proof fn law_shift_rotate<M: MemMapped>(c: Cpu, instr: Instruction, v: M::V)
    requires
        instr.token is ASL || instr.token is LSR || instr.token is ROL || instr.token is ROR
            || instr.token is INC || instr.token is DEC,
    ensures
        ({
            let (m, i1, v1) = c.spec_read_resolved::<M>(instr, v);
            let (c1, i2, v2) = c.spec_instr::<M>(instr, v);
            let cin: u8 = if c.reg_status.carry_flag { 1 } else { 0 };
            let t = instr.token;
            let r = shifted_value(t, m, cin);
            &&& (t is ASL || t is ROL) ==> c1.reg_status.carry_flag == (m & 0x80 != 0)
            &&& (t is LSR || t is ROR) ==> c1.reg_status.carry_flag == (m & 1 == 1)
            &&& (t is INC || t is DEC) ==> c1.reg_status.carry_flag == c.reg_status.carry_flag
            &&& c1.reg_status.zero_flag == (r == 0)
            &&& c1.reg_status.sign_flag == (r >= 128)
            &&& c1.reg_status.overflow_flag == c.reg_status.overflow_flag
            &&& c1.reg_x == c.reg_x && c1.reg_y == c.reg_y && c1.reg_sp == c.reg_sp && c1.reg_pc == c.reg_pc
            &&& instr.addressing_mode is Accumulator ==> c1.reg_a == r && v2 == v1
        }),
{
    let (m, i1, v1) = c.spec_read_resolved::<M>(instr, v);
    lemma_instr_rmw::<M>(c, instr, v);
    lemma_rmw_value(c, instr.token, m);
    let (r, s) = c.spec_rmw_value(instr.token, m);
    let (c2, v3) = c.with_status(s).spec_write_resolved::<M>(i1, v1, r);
    assert(c2.reg_x == c.reg_x && c2.reg_y == c.reg_y && c2.reg_sp == c.reg_sp && c2.reg_pc == c.reg_pc
        && c2.reg_status == s) by {
        reveal(Cpu::spec_write_resolved);
    }
    if instr.addressing_mode is Accumulator {
        assert(i1 == instr && c2.reg_a == r && v3 == v1) by {
            reveal(Cpu::spec_read_resolved);
            reveal(Cpu::spec_write_resolved);
        }
    }
}

/// On a zero-page or absolute address, a read-modify-write instruction reads the byte there
/// and writes its result back to the same address; A stays.
#[verifier::spinoff_prover]
pub proof fn law_shift_rotate_memory<M: MemMapped>(c: Cpu, instr: Instruction, v: M::V, a: u16)
    requires
        instr.token is ASL || instr.token is LSR || instr.token is ROL || instr.token is ROR
            || instr.token is INC || instr.token is DEC,
        instr.addressing_mode == AddressingMode::Absolute(a)
            || (a < 256 && instr.addressing_mode == AddressingMode::ZeroPage(a as u8)),
    ensures
        ({
            let m = M::peek(v, a);
            let (c1, i2, v2) = c.spec_instr::<M>(instr, v);
            let cin: u8 = if c.reg_status.carry_flag { 1 } else { 0 };
            &&& c1.reg_a == c.reg_a
            &&& v2 == M::after_write(M::after_read(v, a), a, shifted_value(instr.token, m, cin))
        }),
{
    lemma_instr_rmw::<M>(c, instr, v);
    let (m, i1, v1) = c.spec_read_resolved::<M>(instr, v);
    assert(m == M::peek(v, a) && v1 == M::after_read(v, a) && i1 == instr) by {
        reveal(Cpu::spec_read_resolved);
    }
    lemma_rmw_value(c, instr.token, m);
    let (r, s) = c.spec_rmw_value(instr.token, m);
    let (c2, v3) = c.with_status(s).spec_write_resolved::<M>(i1, v1, r);
    assert(c2.reg_a == c.reg_a && v3 == M::after_write(v1, a, r)) by {
        reveal(Cpu::spec_write_resolved);
    }
}

/// A conditional branch is taken exactly when its flag has the value it tests (BCC/BCS carry,
/// BNE/BEQ zero, BVC/BVS overflow, BPL/BMI sign). A taken branch moves PC by the signed offset
/// (modulo 2^16) and costs one more cycle, two when the instruction after it and the target
/// lie on different pages; one not taken changes nothing. Flags, registers and memory stay.
#[verifier::spinoff_prover]
pub proof fn law_branch<M: MemMapped>(c: Cpu, instr: Instruction, v: M::V, offset: i8)
    requires
        instr.token is BPL || instr.token is BMI || instr.token is BVC || instr.token is BVS
            || instr.token is BCC || instr.token is BCS || instr.token is BNE || instr.token is BEQ,
        instr.addressing_mode == AddressingMode::Relative(offset),
    ensures
        ({
            let (c1, i2, v2) = c.spec_instr::<M>(instr, v);
            let s = c.reg_status;
            let t = instr.token;
            let taken = (t is BCC && !s.carry_flag) || (t is BCS && s.carry_flag)
                || (t is BNE && !s.zero_flag) || (t is BEQ && s.zero_flag)
                || (t is BVC && !s.overflow_flag) || (t is BVS && s.overflow_flag)
                || (t is BPL && !s.sign_flag) || (t is BMI && s.sign_flag);
            let target: int = (c.reg_pc + offset) % 65536;
            let crossed = ((c.reg_pc + 2) % 65536) / 256 != ((target + 2) % 65536) / 256;
            let extra: int = if !taken { 0 } else if crossed { 2 } else { 1 };
            &&& c1.reg_pc == (if taken { target } else { c.reg_pc as int })
            &&& i2.cycle_count == (instr.cycle_count + extra) as u8
            &&& c1.reg_status == c.reg_status
            &&& c1.reg_a == c.reg_a && c1.reg_x == c.reg_x && c1.reg_y == c.reg_y && c1.reg_sp == c.reg_sp
            &&& v2 == v
        }),
{
    reveal(Cpu::spec_instr);
    let target: int = (c.reg_pc + offset) % 65536;
    assert(branch_target(c.reg_pc, offset) as int == target);
    assert(wadd16(c.reg_pc, 2) as int == (c.reg_pc + 2) % 65536);
    assert(wadd16(branch_target(c.reg_pc, offset), 2) as int == (target + 2) % 65536);
}

/// The register instructions: transfers copy one register into another, INX/DEX/INY/DEY
/// add or subtract one modulo 256, and each of these but TXS sets zero and sign from the
/// value it wrote. CLC/SEC, CLV and CLD/SED clear or set their one flag. PC, memory and the
/// registers that the instruction does not name stay.
#[verifier::spinoff_prover]
pub proof fn law_register_ops<M: MemMapped>(c: Cpu, instr: Instruction, v: M::V)
    requires
        instr.token is TAX || instr.token is TAY || instr.token is TXA || instr.token is TYA
            || instr.token is TSX || instr.token is TXS || instr.token is INX || instr.token is DEX
            || instr.token is INY || instr.token is DEY || instr.token is CLC || instr.token is SEC
            || instr.token is CLV || instr.token is CLD || instr.token is SED,
    ensures
        ({
            let (c1, i2, v2) = c.spec_instr::<M>(instr, v);
            let t = instr.token;
            let s = c.reg_status;
            let s1 = c1.reg_status;
            let written: u8 = if t is TAX || t is TAY { c.reg_a } else if t is TXA || t is TXS { c.reg_x }
                else if t is TYA { c.reg_y } else if t is TSX { c.reg_sp }
                else if t is INX { ((c.reg_x + 1) % 256) as u8 } else if t is DEX { ((c.reg_x + 255) % 256) as u8 }
                else if t is INY { ((c.reg_y + 1) % 256) as u8 } else { ((c.reg_y + 255) % 256) as u8 };
            let moves = !(t is CLC || t is SEC || t is CLV || t is CLD || t is SED);
            &&& c1.reg_a == (if t is TXA || t is TYA { written } else { c.reg_a })
            &&& c1.reg_x == (if t is TAX || t is TSX || t is INX || t is DEX { written } else { c.reg_x })
            &&& c1.reg_y == (if t is TAY || t is INY || t is DEY { written } else { c.reg_y })
            &&& c1.reg_sp == (if t is TXS { written } else { c.reg_sp })
            &&& (moves && !(t is TXS)) ==> s1 == (StatusReg { zero_flag: written == 0, sign_flag: written >= 128, ..s })
            &&& t is TXS ==> s1 == s
            &&& t is CLC ==> s1 == (StatusReg { carry_flag: false, ..s })
            &&& t is SEC ==> s1 == (StatusReg { carry_flag: true, ..s })
            &&& t is CLV ==> s1 == (StatusReg { overflow_flag: false, ..s })
            &&& t is CLD ==> s1 == (StatusReg { decimal_mode: false, ..s })
            &&& t is SED ==> s1 == (StatusReg { decimal_mode: true, ..s })
            &&& c1.reg_pc == c.reg_pc && c1.cycle_count == c.cycle_count
            &&& v2 == v
        }),
{
    reveal(Cpu::spec_instr);
}

/// Where an instruction's operand comes from, for the direct modes: a zero-page address indexed
/// by X or Y wraps within page zero. An immediate operand is the instruction's byte and reads
/// nothing; the accumulator operand is A. None of these adds a cycle.
#[verifier::spinoff_prover]
pub proof fn law_operand_address_direct<M: MemMapped>(c: Cpu, instr: Instruction, v: M::V)
    ensures
        ({
            let (m, i1, v1) = c.spec_read_resolved::<M>(instr, v);
            match instr.addressing_mode {
                AddressingMode::ZeroPage(z) => m == M::peek(v, z as u16) && v1 == M::after_read(v, z as u16) && i1 == instr,
                AddressingMode::ZeroPageIndexedX(z) => {
                    let a = ((z + c.reg_x) % 256) as u16;
                    m == M::peek(v, a) && v1 == M::after_read(v, a) && i1 == instr
                },
                AddressingMode::ZeroPageIndexedY(z) => {
                    let a = ((z + c.reg_y) % 256) as u16;
                    m == M::peek(v, a) && v1 == M::after_read(v, a) && i1 == instr
                },
                AddressingMode::Absolute(a) => m == M::peek(v, a) && v1 == M::after_read(v, a) && i1 == instr,
                AddressingMode::Immediate(k) => m == k && v1 == v && i1 == instr,
                AddressingMode::Accumulator => m == c.reg_a && v1 == v && i1 == instr,
                _ => true,
            }
        }),
{
    reveal(Cpu::spec_read_resolved);
}

/// An absolute address indexed by X or Y wraps at $FFFF and costs one more cycle when the
/// index carries it into the next page.
#[verifier::spinoff_prover]
pub proof fn law_operand_address_indexed<M: MemMapped>(c: Cpu, instr: Instruction, v: M::V, b: u16)
    requires
        instr.addressing_mode == AddressingMode::AbsoluteIndexedX(b)
            || instr.addressing_mode == AddressingMode::AbsoluteIndexedY(b),
    ensures
        ({
            let (m, i1, v1) = c.spec_read_resolved::<M>(instr, v);
            let ix = if instr.addressing_mode is AbsoluteIndexedX { c.reg_x } else { c.reg_y };
            let a = ((b + ix) % 65536) as u16;
            &&& m == M::peek(v, a) && v1 == M::after_read(v, a)
            &&& i1 == (if (b + ix) / 256 != b / 256 {
                Instruction { cycle_count: (instr.cycle_count + 1) as u8, ..instr }
            } else {
                instr
            })
        }),
{
    reveal(Cpu::spec_read_resolved);
    let ix = if instr.addressing_mode is AbsoluteIndexedX { c.reg_x } else { c.reg_y };
    assert(((b + ix) / 256 != b / 256) == (b % 256 + ix > 255));
}

/// `($zz, X)` reads the target's address from page zero at `zz + X` and the byte after it,
/// both wrapping within page zero, and adds no cycle.
#[verifier::spinoff_prover]
pub proof fn law_operand_address_indexed_indirect<M: MemMapped>(c: Cpu, instr: Instruction, v: M::V, z: u8)
    requires
        instr.addressing_mode == AddressingMode::IndexedIndirectX(z),
    ensures
        ({
            let (m, i1, v1) = c.spec_read_resolved::<M>(instr, v);
            let p = ((z + c.reg_x) % 256) as u16;
            let q = ((z + c.reg_x + 1) % 256) as u16;
            let lo = M::peek(v, p);
            let va = M::after_read(v, p);
            let hi = M::peek(va, q);
            let vb = M::after_read(va, q);
            let a = (hi * 256 + lo) as u16;
            m == M::peek(vb, a) && v1 == M::after_read(vb, a) && i1 == instr
        }),
{
    reveal(Cpu::spec_read_resolved);
    assert(wadd8(wadd8(z, c.reg_x), 1) as int == (z + c.reg_x + 1) % 256);
}

/// `($zz), Y` reads a base address from `zz` and `zz + 1` (wrapping within page zero) and adds
/// Y modulo 2^16, one more cycle when that crosses a page.
#[verifier::spinoff_prover]
pub proof fn law_operand_address_indirect_indexed<M: MemMapped>(c: Cpu, instr: Instruction, v: M::V, z: u8)
    requires
        instr.addressing_mode == AddressingMode::IndirectIndexedY(z),
    ensures
        ({
            let (m, i1, v1) = c.spec_read_resolved::<M>(instr, v);
            let q = ((z + 1) % 256) as u16;
            let lo = M::peek(v, z as u16);
            let va = M::after_read(v, z as u16);
            let hi = M::peek(va, q);
            let vb = M::after_read(va, q);
            let base: int = hi * 256 + lo;
            let a = ((base + c.reg_y) % 65536) as u16;
            &&& m == M::peek(vb, a) && v1 == M::after_read(vb, a)
            &&& i1 == (if (base + c.reg_y) / 256 != base / 256 {
                Instruction { cycle_count: (instr.cycle_count + 1) as u8, ..instr }
            } else {
                instr
            })
        }),
{
    reveal(Cpu::spec_read_resolved);
    let lo = M::peek(v, z as u16);
    let va = M::after_read(v, z as u16);
    assert(wadd8(z, 1) as int == (z + 1) % 256);
    let hi = M::peek(va, wadd8(z, 1) as u16);
    lemma_page_cross(lo, hi, c.reg_y);
}

proof fn lemma_page_cross(lo: u8, hi: u8, y: u8)
    ensures
        word(lo, hi) as int == hi * 256 + lo,
        (word(lo, hi) % 256 + y > 255) == ((hi * 256 + lo + y) / 256 != (hi * 256 + lo) / 256),
{
    let base: int = hi * 256 + lo;
    assert(base % 256 == lo && base / 256 == hi) by (nonlinear_arith)
        requires
            base == hi * 256 + lo, 0 <= lo < 256, 0 <= hi < 256;
    assert((base + y) / 256 == hi + (lo + y) / 256) by (nonlinear_arith)
        requires
            base == hi * 256 + lo, 0 <= lo < 256, 0 <= hi < 256, 0 <= y < 256;
}

proof fn lemma_instr_store<M: MemMapped>(c: Cpu, instr: Instruction, v: M::V)
    requires
        instr.token is STA || instr.token is STX || instr.token is STY,
    ensures
        ({
            let r = if instr.token is STA { c.reg_a } else if instr.token is STX { c.reg_x } else { c.reg_y };
            c.spec_instr::<M>(instr, v) == c.spec_store::<M>(instr, v, r)
        }),
{
    reveal(Cpu::spec_instr);
}

/// STA, STX and STY write their register to the operand's address (zero-page indexed
/// addresses wrapping within page zero, absolute indexed ones at $FFFF) and change no
/// register or flag.
#[verifier::spinoff_prover]
pub proof fn law_store<M: MemMapped>(c: Cpu, instr: Instruction, v: M::V)
    requires
        instr.token is STA || instr.token is STX || instr.token is STY,
    ensures
        ({
            let (c1, i2, v2) = c.spec_instr::<M>(instr, v);
            let r = if instr.token is STA { c.reg_a } else if instr.token is STX { c.reg_x } else { c.reg_y };
            &&& i2 == instr
            &&& match instr.addressing_mode {
                AddressingMode::ZeroPage(z) => c1 == c && v2 == M::after_write(v, z as u16, r),
                AddressingMode::ZeroPageIndexedX(z) => c1 == c && v2 == M::after_write(v, ((z + c.reg_x) % 256) as u16, r),
                AddressingMode::ZeroPageIndexedY(z) => c1 == c && v2 == M::after_write(v, ((z + c.reg_y) % 256) as u16, r),
                AddressingMode::Absolute(a) => c1 == c && v2 == M::after_write(v, a, r),
                AddressingMode::AbsoluteIndexedX(b) => c1 == c && v2 == M::after_write(v, ((b + c.reg_x) % 65536) as u16, r),
                AddressingMode::AbsoluteIndexedY(b) => c1 == c && v2 == M::after_write(v, ((b + c.reg_y) % 65536) as u16, r),
                _ => true,
            }
        }),
{
    lemma_instr_store::<M>(c, instr, v);
    reveal(Cpu::spec_write_resolved);
}

/// JMP to an absolute address sets PC to it. JMP through an indirect address `p` takes the
/// target's low byte from `p` and its high byte from the next byte of the same page (the
/// 6502 does not carry into the page byte, so `$xxFF` wraps to `$xx00`). Flags, registers but
/// PC, and the stack stay.
#[verifier::spinoff_prover]
pub proof fn law_jump<M: MemMapped>(c: Cpu, instr: Instruction, v: M::V)
    requires
        instr.token is JMP,
    ensures
        ({
            let (c1, i2, v2) = c.spec_instr::<M>(instr, v);
            &&& c1 == (Cpu { reg_pc: c1.reg_pc, ..c })
            &&& (instr.addressing_mode matches AddressingMode::Absolute(a) ==> c1.reg_pc == a && v2 == v)
            &&& (instr.addressing_mode matches AddressingMode::Indirect(p) ==> {
                let p2 = ((p / 256) * 256 + (p % 256 + 1) % 256) as u16;
                let lo = M::peek(v, p);
                let va = M::after_read(v, p);
                let hi = M::peek(va, p2);
                c1.reg_pc as int == hi * 256 + lo && v2 == M::after_read(va, p2)
            })
        }),
{
    reveal(Cpu::spec_instr);
    if let AddressingMode::Indirect(p) = instr.addressing_mode {
        let page = (p / 256) as u8;
        assert(word((p % 256) as u8, page) == p);
        assert(word(wadd8((p % 256) as u8, 1), page) as int == (p / 256) * 256 + (p % 256 + 1) % 256);
        let lo = M::peek(v, p);
        let hi = M::peek(M::after_read(v, p), word(wadd8((p % 256) as u8, 1), page));
        assert(word(lo, hi) as int == hi * 256 + lo);
    }
}

} // verus!
