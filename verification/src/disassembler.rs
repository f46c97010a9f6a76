// Disassembly of the instruction stream for the debugger.
use vstd::prelude::*;
use crate::bits::{wadd16, wadd8, word};
use crate::cpu::{lemma_decoded_cycles, Cpu};
use crate::errors::{spec_message, EmulationError};
use crate::instructions::{spec_decode, AddressingMode, Instruction, InstructionToken};
use crate::memory::MemMapped;
use crate::text::{append_hex2, append_hex4, append_hex_min, append_padded, hex2, hex4, hex_min, pad_right};
use vstd::string::StrSliceExecFns;
use core::ops::Range;

verus! {

/// The mnemonic of a token.
pub open spec fn spec_token_name(t: InstructionToken) -> Seq<char> {
    match t {
        InstructionToken::ORA => "ORA"@,
        InstructionToken::AND => "AND"@,
        InstructionToken::EOR => "EOR"@,
        InstructionToken::ADC => "ADC"@,
        InstructionToken::CMP => "CMP"@,
        InstructionToken::SBC => "SBC"@,
        InstructionToken::ASL => "ASL"@,
        InstructionToken::ROL => "ROL"@,
        InstructionToken::LSR => "LSR"@,
        InstructionToken::ROR => "ROR"@,
        InstructionToken::DEC => "DEC"@,
        InstructionToken::INC => "INC"@,
        InstructionToken::BIT => "BIT"@,
        InstructionToken::JMP => "JMP"@,
        InstructionToken::CPY => "CPY"@,
        InstructionToken::CPX => "CPX"@,
        InstructionToken::BPL => "BPL"@,
        InstructionToken::BMI => "BMI"@,
        InstructionToken::BVC => "BVC"@,
        InstructionToken::BVS => "BVS"@,
        InstructionToken::BCC => "BCC"@,
        InstructionToken::BCS => "BCS"@,
        InstructionToken::BNE => "BNE"@,
        InstructionToken::BEQ => "BEQ"@,
        InstructionToken::STA => "STA"@,
        InstructionToken::LDA => "LDA"@,
        InstructionToken::STX => "STX"@,
        InstructionToken::LDX => "LDX"@,
        InstructionToken::STY => "STY"@,
        InstructionToken::LDY => "LDY"@,
        InstructionToken::BRK => "BRK"@,
        InstructionToken::JSR => "JSR"@,
        InstructionToken::RTI => "RTI"@,
        InstructionToken::RTS => "RTS"@,
        InstructionToken::PHP => "PHP"@,
        InstructionToken::PLP => "PLP"@,
        InstructionToken::PHA => "PHA"@,
        InstructionToken::PLA => "PLA"@,
        InstructionToken::DEY => "DEY"@,
        InstructionToken::TAY => "TAY"@,
        InstructionToken::INY => "INY"@,
        InstructionToken::INX => "INX"@,
        InstructionToken::CLC => "CLC"@,
        InstructionToken::SEC => "SEC"@,
        InstructionToken::CLI => "CLI"@,
        InstructionToken::SEI => "SEI"@,
        InstructionToken::TYA => "TYA"@,
        InstructionToken::CLV => "CLV"@,
        InstructionToken::CLD => "CLD"@,
        InstructionToken::SED => "SED"@,
        InstructionToken::TXA => "TXA"@,
        InstructionToken::TXS => "TXS"@,
        InstructionToken::TAX => "TAX"@,
        InstructionToken::TSX => "TSX"@,
        InstructionToken::DEX => "DEX"@,
        InstructionToken::NOP => "NOP"@,
        InstructionToken::IGN => "IGN"@,
        InstructionToken::LAX => "LAX"@,
        InstructionToken::SAX => "SAX"@,
        InstructionToken::ALR => "ALR"@,
        InstructionToken::ANC => "ANC"@,
        InstructionToken::ARR => "ARR"@,
        InstructionToken::AXS => "AXS"@,
        InstructionToken::DCP => "DCP"@,
        InstructionToken::ISC => "ISC"@,
        InstructionToken::RLA => "RLA"@,
        InstructionToken::RRA => "RRA"@,
        InstructionToken::SLO => "SLO"@,
        InstructionToken::SRE => "SRE"@,
        InstructionToken::Unknown => "Unknown"@,
    }
}

pub fn token_name(t: InstructionToken) -> (r: &'static str)
    ensures
        r@ == spec_token_name(t),
{
    match t {
        InstructionToken::ORA => "ORA",
        InstructionToken::AND => "AND",
        InstructionToken::EOR => "EOR",
        InstructionToken::ADC => "ADC",
        InstructionToken::CMP => "CMP",
        InstructionToken::SBC => "SBC",
        InstructionToken::ASL => "ASL",
        InstructionToken::ROL => "ROL",
        InstructionToken::LSR => "LSR",
        InstructionToken::ROR => "ROR",
        InstructionToken::DEC => "DEC",
        InstructionToken::INC => "INC",
        InstructionToken::BIT => "BIT",
        InstructionToken::JMP => "JMP",
        InstructionToken::CPY => "CPY",
        InstructionToken::CPX => "CPX",
        InstructionToken::BPL => "BPL",
        InstructionToken::BMI => "BMI",
        InstructionToken::BVC => "BVC",
        InstructionToken::BVS => "BVS",
        InstructionToken::BCC => "BCC",
        InstructionToken::BCS => "BCS",
        InstructionToken::BNE => "BNE",
        InstructionToken::BEQ => "BEQ",
        InstructionToken::STA => "STA",
        InstructionToken::LDA => "LDA",
        InstructionToken::STX => "STX",
        InstructionToken::LDX => "LDX",
        InstructionToken::STY => "STY",
        InstructionToken::LDY => "LDY",
        InstructionToken::BRK => "BRK",
        InstructionToken::JSR => "JSR",
        InstructionToken::RTI => "RTI",
        InstructionToken::RTS => "RTS",
        InstructionToken::PHP => "PHP",
        InstructionToken::PLP => "PLP",
        InstructionToken::PHA => "PHA",
        InstructionToken::PLA => "PLA",
        InstructionToken::DEY => "DEY",
        InstructionToken::TAY => "TAY",
        InstructionToken::INY => "INY",
        InstructionToken::INX => "INX",
        InstructionToken::CLC => "CLC",
        InstructionToken::SEC => "SEC",
        InstructionToken::CLI => "CLI",
        InstructionToken::SEI => "SEI",
        InstructionToken::TYA => "TYA",
        InstructionToken::CLV => "CLV",
        InstructionToken::CLD => "CLD",
        InstructionToken::SED => "SED",
        InstructionToken::TXA => "TXA",
        InstructionToken::TXS => "TXS",
        InstructionToken::TAX => "TAX",
        InstructionToken::TSX => "TSX",
        InstructionToken::DEX => "DEX",
        InstructionToken::NOP => "NOP",
        InstructionToken::IGN => "IGN",
        InstructionToken::LAX => "LAX",
        InstructionToken::SAX => "SAX",
        InstructionToken::ALR => "ALR",
        InstructionToken::ANC => "ANC",
        InstructionToken::ARR => "ARR",
        InstructionToken::AXS => "AXS",
        InstructionToken::DCP => "DCP",
        InstructionToken::ISC => "ISC",
        InstructionToken::RLA => "RLA",
        InstructionToken::RRA => "RRA",
        InstructionToken::SLO => "SLO",
        InstructionToken::SRE => "SRE",
        InstructionToken::Unknown => "Unknown",
    }
}

/// An `i32` in at least four hexadecimal digits (`{:04X}`), for the values that a branch target
/// can take: negative ones print as 32-bit two's complement.
pub open spec fn hex_i32_w4(v: int) -> Seq<char> {
    if v < 0 {
        "FFFF"@ + hex4((v + 65536) as u16)
    } else if v < 65536 {
        hex4(v as u16)
    } else {
        "1"@ + hex4((v - 65536) as u16)
    }
}

/// The operand column and the detail column of an instruction whose operand resolved to
/// `resolved`, and the device state after the reads that the detail needs.
pub open spec fn spec_args_detail<M: MemMapped>(cpu: Cpu, mode: AddressingMode, resolved: u8, v: M::V) -> (Seq<char>, Seq<char>, M::V) {
    match mode {
        AddressingMode::ZeroPageIndexedX(arg) => (
            "$"@ + hex2(arg) + ", X"@,
            "[$"@ + hex4(wadd8(arg, cpu.reg_x) as u16) + ": $"@ + hex2(resolved) + "]"@,
            v,
        ),
        AddressingMode::ZeroPageIndexedY(arg) => (
            "$"@ + hex2(arg) + ", Y"@,
            "[$"@ + hex4(wadd8(arg, cpu.reg_y) as u16) + ": $"@ + hex2(resolved) + "]"@,
            v,
        ),
        AddressingMode::AbsoluteIndexedX(arg) => (
            "$"@ + hex4(arg) + ", X"@,
            "[$"@ + hex4(wadd16(arg, cpu.reg_x as u16)) + ": $"@ + hex2(resolved) + "]"@,
            v,
        ),
        AddressingMode::AbsoluteIndexedY(arg) => (
            "$"@ + hex4(arg) + ", Y"@,
            "[$"@ + hex4(wadd16(arg, cpu.reg_y as u16)) + ": $"@ + hex2(resolved) + "]"@,
            v,
        ),
        AddressingMode::IndexedIndirectX(arg) => {
            let a = wadd8(arg, cpu.reg_x);
            let lo = M::peek(v, a as u16);
            let v1 = M::after_read(v, a as u16);
            let hi = M::peek(v1, wadd8(a, 1) as u16);
            let v2 = M::after_read(v1, wadd8(a, 1) as u16);
            ("($"@ + hex2(a) + ", X)"@, "[$"@ + hex4(word(lo, hi)) + ": $"@ + hex2(resolved) + "]"@, v2)
        },
        AddressingMode::IndirectIndexedY(arg) => {
            let lo = M::peek(v, arg as u16);
            let v1 = M::after_read(v, arg as u16);
            let hi = M::peek(v1, wadd16(arg as u16, 1));
            let v2 = M::after_read(v1, wadd16(arg as u16, 1));
            let addr = wadd16(word(lo, hi), cpu.reg_y as u16);
            ("($"@ + hex2(arg) + "), Y"@, "[$"@ + hex4(addr) + ": $"@ + hex2(resolved) + "]"@, v2)
        },
        AddressingMode::Implicit => (Seq::empty(), Seq::empty(), v),
        AddressingMode::Immediate(arg) => ("#$"@ + hex2(arg), Seq::empty(), v),
        AddressingMode::Accumulator => ("A"@, "[A: "@ + hex2(cpu.reg_a) + "]"@, v),
        AddressingMode::ZeroPage(arg) => ("$"@ + hex2(arg), "[$"@ + hex2(arg) + ": $"@ + hex2(resolved) + "]"@, v),
        AddressingMode::Absolute(arg) => ("$"@ + hex4(arg), "[$"@ + hex_min(resolved) + "]"@, v),
        AddressingMode::Relative(arg) => (
            "$"@ + hex2(arg as u8),
            "[PC -> $"@ + hex_i32_w4(cpu.reg_pc + arg + 2) + "]"@,
            v,
        ),
        AddressingMode::Indirect(arg) => {
            // The target's high byte comes from the same page (the 6502's JMP quirk).
            let page = (arg / 256) as int;
            let lo1 = (arg % 256) as u8;
            let lo2 = wadd8(lo1, 1);
            let a1 = (page * 256 + lo1) as u16;
            let a2 = (page * 256 + lo2) as u16;
            let tl = M::peek(v, a1);
            let v1 = M::after_read(v, a1);
            let th = M::peek(v1, a2);
            let v2 = M::after_read(v1, a2);
            ("($"@ + hex4(arg) + ")"@, "[$"@ + hex4(word(tl, th)) + "]"@, v2)
        },
        AddressingMode::Invalid => (Seq::empty(), Seq::empty(), v),
    }
}

/// The disassembly line of an instruction at `addr`, the instruction after resolving its
/// operand, and the device state after the reads.
pub open spec fn spec_disassemble<M: MemMapped>(addr: u16, instr: Instruction, cpu: Cpu, v: M::V) -> (Seq<char>, Instruction, M::V) {
    let (resolved, instr2, v1) = cpu.spec_read_resolved::<M>(instr, v);
    let (args, detail, v2) = spec_args_detail::<M>(cpu, instr2.addressing_mode, resolved, v1);
    let detail2 = if detail.len() > 0 { "| "@ + detail } else { Seq::empty() };
    let line = "$"@ + hex4(addr) + "($"@ + hex2(instr.op_code) + "): "@ + pad_right(spec_token_name(instr.token), 2) + " "@
        + pad_right(args, 10) + " "@ + pad_right(detail2, 20);
    (line, instr2, v2)
}

#[verifier::spinoff_prover]
#[verifier::rlimit(60)]
fn args_detail<M: MemMapped>(cpu: &Cpu, mode: AddressingMode, resolved: u8, mem_map: &mut M) -> (r: (String, String))
    ensures
        ({
            let (a, d, v) = spec_args_detail::<M>(*cpu, mode, resolved, old(mem_map)@);
            r.0@ == a && r.1@ == d && final(mem_map)@ == v
        }),
{
    let mut args = String::new();
    let mut detail = String::new();
    match mode {
        AddressingMode::ZeroPageIndexedX(arg) => {
            args.append("$");
            append_hex2(&mut args, arg);
            args.append(", X");
            detail.append("[$");
            append_hex4(&mut detail, arg.wrapping_add(cpu.reg_x) as u16);
            detail.append(": $");
            append_hex2(&mut detail, resolved);
            detail.append("]");
        },
        AddressingMode::ZeroPageIndexedY(arg) => {
            args.append("$");
            append_hex2(&mut args, arg);
            args.append(", Y");
            detail.append("[$");
            append_hex4(&mut detail, arg.wrapping_add(cpu.reg_y) as u16);
            detail.append(": $");
            append_hex2(&mut detail, resolved);
            detail.append("]");
        },
        AddressingMode::AbsoluteIndexedX(arg) => {
            args.append("$");
            append_hex4(&mut args, arg);
            args.append(", X");
            detail.append("[$");
            append_hex4(&mut detail, arg.wrapping_add(cpu.reg_x as u16));
            detail.append(": $");
            append_hex2(&mut detail, resolved);
            detail.append("]");
        },
        AddressingMode::AbsoluteIndexedY(arg) => {
            args.append("$");
            append_hex4(&mut args, arg);
            args.append(", Y");
            detail.append("[$");
            append_hex4(&mut detail, arg.wrapping_add(cpu.reg_y as u16));
            detail.append(": $");
            append_hex2(&mut detail, resolved);
            detail.append("]");
        },
        AddressingMode::IndexedIndirectX(arg) => {
            let arg = arg.wrapping_add(cpu.reg_x);
            let addr_low = mem_map.read(arg as u16);
            let addr_high = mem_map.read(arg.wrapping_add(1) as u16);
            let addr = crate::bits::make_word(addr_low, addr_high);
            args.append("($");
            append_hex2(&mut args, arg);
            args.append(", X)");
            detail.append("[$");
            append_hex4(&mut detail, addr);
            detail.append(": $");
            append_hex2(&mut detail, resolved);
            detail.append("]");
        },
        AddressingMode::IndirectIndexedY(arg) => {
            let arg_resolved = mem_map.read_word(arg as u16);
            let addr = arg_resolved.wrapping_add(cpu.reg_y as u16);
            args.append("($");
            append_hex2(&mut args, arg);
            args.append("), Y");
            detail.append("[$");
            append_hex4(&mut detail, addr);
            detail.append(": $");
            append_hex2(&mut detail, resolved);
            detail.append("]");
        },
        AddressingMode::Implicit => {},
        AddressingMode::Immediate(arg) => {
            args.append("#$");
            append_hex2(&mut args, arg);
        },
        AddressingMode::Accumulator => {
            args.append("A");
            detail.append("[A: ");
            append_hex2(&mut detail, cpu.reg_a);
            detail.append("]");
        },
        AddressingMode::ZeroPage(arg) => {
            args.append("$");
            append_hex2(&mut args, arg);
            detail.append("[$");
            append_hex2(&mut detail, arg);
            detail.append(": $");
            append_hex2(&mut detail, resolved);
            detail.append("]");
        },
        AddressingMode::Absolute(arg) => {
            args.append("$");
            append_hex4(&mut args, arg);
            detail.append("[$");
            append_hex_min(&mut detail, resolved);
            detail.append("]");
        },
        AddressingMode::Relative(arg) => {
            args.append("$");
            append_hex2(&mut args, arg as u8);
            detail.append("[PC -> $");
            let target: i32 = cpu.reg_pc as i32 + arg as i32 + 2;
            if target < 0 {
                detail.append("FFFF");
                append_hex4(&mut detail, (target + 65536) as u16);
            } else if target < 65536 {
                append_hex4(&mut detail, target as u16);
            } else {
                detail.append("1");
                append_hex4(&mut detail, (target - 65536) as u16);
            }
            detail.append("]");
        },
        AddressingMode::Indirect(arg) => {
            let addr_high = arg >> 8u16;
            let addr_low_1 = (arg & 0xFF) as u8;
            let addr_low_2 = addr_low_1.wrapping_add(1);
            assert(arg >> 8u16 == arg / 256 && arg & 0xFF == arg % 256) by (bit_vector);
            let resolved_low = addr_high * 256 + addr_low_1 as u16;
            let resolved_high = addr_high * 256 + addr_low_2 as u16;
            let target_addr_low = mem_map.read(resolved_low);
            let target_addr_high = mem_map.read(resolved_high);
            let target_addr = crate::bits::make_word(target_addr_low, target_addr_high);
            args.append("($");
            append_hex4(&mut args, arg);
            args.append(")");
            detail.append("[$");
            append_hex4(&mut detail, target_addr);
            detail.append("]");
        },
        AddressingMode::Invalid => {},
    }
    (args, detail)
}

/// The disassembly line of `instruction` at `addr`:
/// `$ADDR($OP): TOKEN ARGS | DETAIL`, in columns of 2, 10 and 20 characters.
pub fn disassemble<M: MemMapped>(addr: u16, instruction: &mut Instruction, cpu: &Cpu, mem_map: &mut M) -> (r: Result<String, EmulationError>)
    requires
        old(instruction).cycle_count < 255,
    ensures
        ({
            let (line, i, v) = spec_disassemble::<M>(addr, *old(instruction), *cpu, old(mem_map)@);
            &&& r matches Ok(s) && s@ == line
            &&& *final(instruction) == i
            &&& final(mem_map)@ == v
        }),
{
    let op_code = instruction.op_code;
    let token = token_name(instruction.token);
    let resolved = cpu.read_resolved(instruction, mem_map);
    let mode = instruction.addressing_mode;
    let (args, detail) = args_detail(cpu, mode, resolved, mem_map);

    let mut detail2 = String::new();
    if detail.as_str().unicode_len() > 0 {
        detail2.append("| ");
        detail2.append(detail.as_str());
    }

    let mut line = String::from_str("$");
    append_hex4(&mut line, addr);
    line.append("($");
    append_hex2(&mut line, op_code);
    line.append("): ");
    append_padded(&mut line, token, 2);
    line.append(" ");
    append_padded(&mut line, args.as_str(), 10);
    line.append(" ");
    append_padded(&mut line, detail2.as_str(), 20);
    Ok(line)
}

/// The line for the instruction at `addr`, the device state after it, and the next address.
pub open spec fn spec_disassemble_at<M: MemMapped>(addr: u16, cpu: Cpu, v: M::V) -> (Seq<char>, M::V, u16) {
    let (d, v1) = spec_decode::<M>(v, addr);
    match d {
        Ok(ins) => {
            let (line, ins2, v2) = spec_disassemble::<M>(addr, ins, cpu, v1);
            (line, v2, wadd16(addr, ins2.addressing_mode.spec_byte_count()))
        },
        Err(e) => ("$"@ + hex4(addr) + ": "@ + spec_message(e), v1, wadd16(addr, 1)),
    }
}

/// `n` disassembly lines from `addr` on, and the device state after them.
pub open spec fn spec_disassemble_range<M: MemMapped>(addr: u16, n: nat, cpu: Cpu, v: M::V) -> (Seq<Seq<char>>, M::V, u16)
    decreases n,
{
    if n == 0 {
        (Seq::empty(), v, addr)
    } else {
        let (lines, v1, next) = spec_disassemble_range::<M>(addr, (n - 1) as nat, cpu, v);
        let (line, v2, next2) = spec_disassemble_at::<M>(next, cpu, v1);
        (lines.push(line), v2, next2)
    }
}

/// How many lines a range asks for.
pub open spec fn range_len(range: Range<u16>) -> nat {
    if range.start < range.end { (range.end - range.start) as nat } else { 0 }
}

/// One disassembly line per element of `range`, from `addr` on: an instruction, or the
/// decoding error of a byte that is no opcode (then the next byte follows).
pub fn disassemble_range<M: MemMapped>(addr: u16, range: &Range<u16>, cpu: &Cpu, mem_map: &mut M) -> (r: Result<Vec<String>, EmulationError>)
    ensures
        ({
            let (lines, v, _) = spec_disassemble_range::<M>(addr, range_len(*range), *cpu, old(mem_map)@);
            &&& r matches Ok(out) && out@.len() == lines.len()
                && (forall|i: int| 0 <= i < lines.len() ==> #[trigger] out@[i]@ == lines[i])
            &&& final(mem_map)@ == v
        }),
{
    let mut result: Vec<String> = Vec::new();
    let mut current_addr = addr;
    let count: u16 = if range.start < range.end { range.end - range.start } else { 0 };
    let mut i: u16 = 0;
    while i < count
        invariant
            i <= count,
            count == range_len(*range),
            ({
                let (lines, v, next) = spec_disassemble_range::<M>(addr, i as nat, *cpu, old(mem_map)@);
                &&& result@.len() == lines.len()
                &&& (forall|k: int| 0 <= k < lines.len() ==> #[trigger] result@[k]@ == lines[k])
                &&& mem_map@ == v
                &&& current_addr == next
            }),
        decreases count - i,
    {
        let ghost v0 = mem_map@;
        let instruction = Instruction::decode(mem_map, current_addr);
        match instruction {
            Ok(mut ins) => {
                proof { lemma_decoded_cycles::<M>(v0, current_addr); }
                let line = disassemble(current_addr, &mut ins, cpu, mem_map);
                match line {
                    Ok(l) => result.push(l),
                    Err(_) => {},
                }
                current_addr = current_addr.wrapping_add(ins.addressing_mode.byte_count());
            },
            Err(e) => {
                let mut l = String::from_str("$");
                append_hex4(&mut l, current_addr);
                l.append(": ");
                let m = e.message();
                l.append(m.as_str());
                result.push(l);
                current_addr = current_addr.wrapping_add(1);
            },
        }
        i += 1;
    }
    Ok(result)
}

/// The operand column of an indexed instruction names its index register:
/// `$` and the address in hexadecimal, then `, X` or `, Y` as the addressing
/// mode indexes by X or by Y.
#[verifier::spinoff_prover]
pub proof fn law_operand_text_absolute_indexed<M: MemMapped>(cpu: Cpu, arg: u16, resolved: u8, v: M::V)
    ensures
        spec_args_detail::<M>(cpu, AddressingMode::AbsoluteIndexedX(arg), resolved, v).0
            == seq!['$'] + hex4(arg) + seq![',', ' ', 'X'],
        spec_args_detail::<M>(cpu, AddressingMode::AbsoluteIndexedY(arg), resolved, v).0
            == seq!['$'] + hex4(arg) + seq![',', ' ', 'Y'],
{
    reveal_strlit("$");
    reveal_strlit(", X");
    reveal_strlit(", Y");
}

/// The same holds of the zero-page indexed modes, with two hexadecimal digits.
#[verifier::spinoff_prover]
pub proof fn law_operand_text_zero_page_indexed<M: MemMapped>(cpu: Cpu, arg: u8, resolved: u8, v: M::V)
    ensures
        spec_args_detail::<M>(cpu, AddressingMode::ZeroPageIndexedX(arg), resolved, v).0
            == seq!['$'] + hex2(arg) + seq![',', ' ', 'X'],
        spec_args_detail::<M>(cpu, AddressingMode::ZeroPageIndexedY(arg), resolved, v).0
            == seq!['$'] + hex2(arg) + seq![',', ' ', 'Y'],
{
    reveal_strlit("$");
    reveal_strlit(", X");
    reveal_strlit(", Y");
}

/// The indirect indexed modes: `($zz, X)` shows the pointer address after
/// adding X, `($zz), Y` the zero-page pointer with Y added after the fetch.
#[verifier::spinoff_prover]
pub proof fn law_operand_text_indirect_indexed<M: MemMapped>(cpu: Cpu, arg: u8, resolved: u8, v: M::V)
    ensures
        spec_args_detail::<M>(cpu, AddressingMode::IndexedIndirectX(arg), resolved, v).0
            == seq!['(', '$'] + hex2(wadd8(arg, cpu.reg_x)) + seq![',', ' ', 'X', ')'],
        spec_args_detail::<M>(cpu, AddressingMode::IndirectIndexedY(arg), resolved, v).0
            == seq!['(', '$'] + hex2(arg) + seq![')', ',', ' ', 'Y'],
{
    reveal_strlit("($");
    reveal_strlit(", X)");
    reveal_strlit("), Y");
}

/// The unindexed modes: `#$nn` for an immediate, `$nn` / `$nnnn` for a
/// zero-page or absolute address.
#[verifier::spinoff_prover]
pub proof fn law_operand_text_plain<M: MemMapped>(cpu: Cpu, b: u8, w: u16, resolved: u8, v: M::V)
    ensures
        spec_args_detail::<M>(cpu, AddressingMode::Immediate(b), resolved, v).0 == seq!['#', '$'] + hex2(b),
        spec_args_detail::<M>(cpu, AddressingMode::ZeroPage(b), resolved, v).0 == seq!['$'] + hex2(b),
        spec_args_detail::<M>(cpu, AddressingMode::Absolute(w), resolved, v).0 == seq!['$'] + hex4(w),
{
    reveal_strlit("#$");
    reveal_strlit("$");
}

/// `($nnnn)` for an indirect jump, `A` for the accumulator, nothing for an
/// implied operand.
#[verifier::spinoff_prover]
pub proof fn law_operand_text_other<M: MemMapped>(cpu: Cpu, w: u16, resolved: u8, v: M::V)
    ensures
        spec_args_detail::<M>(cpu, AddressingMode::Indirect(w), resolved, v).0
            == seq!['(', '$'] + hex4(w) + seq![')'],
        spec_args_detail::<M>(cpu, AddressingMode::Accumulator, resolved, v).0 == seq!['A'],
        spec_args_detail::<M>(cpu, AddressingMode::Implicit, resolved, v).0.len() == 0,
{
    reveal_strlit("($");
    reveal_strlit(")");
    reveal_strlit("A");
}

/// A disassembly line reads `$aaaa($oo): ` (the instruction's address and opcode in
/// hexadecimal), then the mnemonic, a space, and from there the operand column of the
/// instruction's addressing mode.
#[verifier::spinoff_prover]
pub proof fn law_line_layout<M: MemMapped>(addr: u16, instr: Instruction, cpu: Cpu, v: M::V)
    ensures
        ({
            let (line, i2, v2) = spec_disassemble::<M>(addr, instr, cpu, v);
            let (resolved, instr2, v1) = cpu.spec_read_resolved::<M>(instr, v);
            let args = spec_args_detail::<M>(cpu, instr2.addressing_mode, resolved, v1).0;
            let name = spec_token_name(instr.token);
            let k: int = 12 + name.len() as int;
            &&& line.subrange(0, 12) == seq!['$'] + hex4(addr) + seq!['(', '$'] + hex2(instr.op_code) + seq![')', ':', ' ']
            &&& name.len() >= 2 ==> line.subrange(12, k) == name && line[k] == ' '
                && line.subrange(k + 1, k + 1 + args.len() as int) == args
        }),
{
    let (resolved, instr2, v1) = cpu.spec_read_resolved::<M>(instr, v);
    let (args, detail, v3) = spec_args_detail::<M>(cpu, instr2.addressing_mode, resolved, v1);
    let detail2 = if detail.len() > 0 { "| "@ + detail } else { Seq::empty() };
    lemma_line_layout(addr, instr.op_code, spec_token_name(instr.token), args, detail2);
}

proof fn lemma_line_layout(addr: u16, op: u8, name: Seq<char>, args: Seq<char>, detail2: Seq<char>)
    ensures
        ({
            let line = "$"@ + hex4(addr) + "($"@ + hex2(op) + "): "@ + pad_right(name, 2) + " "@
                + pad_right(args, 10) + " "@ + pad_right(detail2, 20);
            let k: int = 12 + name.len() as int;
            &&& line.subrange(0, 12) == seq!['$'] + hex4(addr) + seq!['(', '$'] + hex2(op) + seq![')', ':', ' ']
            &&& name.len() >= 2 ==> line.subrange(12, k) == name && line[k] == ' '
                && line.subrange(k + 1, k + 1 + args.len() as int) == args
        }),
{
    reveal_strlit("$");
    reveal_strlit("($");
    reveal_strlit("): ");
    reveal_strlit(" ");
    let line = "$"@ + hex4(addr) + "($"@ + hex2(op) + "): "@ + pad_right(name, 2) + " "@
        + pad_right(args, 10) + " "@ + pad_right(detail2, 20);
    let head = seq!['$'] + hex4(addr) + seq!['(', '$'] + hex2(op) + seq![')', ':', ' '];
    assert(head.len() == 12);
    let rest = pad_right(name, 2) + " "@ + pad_right(args, 10) + " "@ + pad_right(detail2, 20);
    assert(line =~= head + rest);
    assert(line.subrange(0, 12) =~= head);
    if name.len() >= 2 {
        let k: int = 12 + name.len() as int;
        assert(pad_right(name, 2) == name);
        let tail = pad_right(args, 10) + " "@ + pad_right(detail2, 20);
        assert(line =~= head + name + seq![' '] + tail);
        assert(line.subrange(12, k) =~= name);
        assert(line[k] == ' ');
        assert(tail.subrange(0, args.len() as int) =~= args);
        assert(line.subrange(k + 1, k + 1 + args.len() as int) =~= args);
    }
}

} // verus!
