use vstd::prelude::*;
use crate::text::{append_hex2, append_hex4, hex2, hex4};

verus! {

/// What can go wrong while the emulated machine runs.
pub enum EmulationError {
    /// The byte at the given address (second field) is no opcode that the CPU knows.
    InstructionDecoding(u16, u8),
    /// A device was accessed in a way that it does not support.
    MemoryAccess(String),
    /// The debugger stopped execution at a breakpoint on this address.
    DebuggerBreakpoint(u16),
    /// The debugger stopped execution at a watchpoint on this address.
    DebuggerWatchpoint(u16),
}

/// How an error reads.
pub open spec fn spec_message(e: EmulationError) -> Seq<char> {
    match e {
        EmulationError::InstructionDecoding(addr, op_code) => "$"@ + hex4(addr) + ": Unknown op_code 0x"@ + hex2(op_code),
        EmulationError::MemoryAccess(msg) => "Memory access error: "@ + msg@,
        EmulationError::DebuggerBreakpoint(addr) => "Hit breakpoint at addr: 0x"@ + hex4(addr),
        EmulationError::DebuggerWatchpoint(addr) => "Hit watchpoint at addr: 0x"@ + hex4(addr),
    }
}

impl EmulationError {
    /// The error as text.
    pub fn message(&self) -> (r: String)
        ensures
            r@ == spec_message(*self),
    {
        match self {
            EmulationError::InstructionDecoding(addr, op_code) => {
                let mut s = String::from_str("$");
                append_hex4(&mut s, *addr);
                s.append(": Unknown op_code 0x");
                append_hex2(&mut s, *op_code);
                s
            },
            EmulationError::MemoryAccess(msg) => {
                let mut s = String::from_str("Memory access error: ");
                s.append(msg.as_str());
                s
            },
            EmulationError::DebuggerBreakpoint(addr) => {
                let mut s = String::from_str("Hit breakpoint at addr: 0x");
                append_hex4(&mut s, *addr);
                s
            },
            EmulationError::DebuggerWatchpoint(addr) => {
                let mut s = String::from_str("Hit watchpoint at addr: 0x");
                append_hex4(&mut s, *addr);
                s
            },
        }
    }
}

} // verus!
