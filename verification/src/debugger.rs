// The debugger as the console sees it: something that may be listening for commands.
use vstd::prelude::*;
use crate::command::Command;
use crate::cpu::Cpu;
use crate::memory::CpuMemMap;
use crate::terminal::{
    executable, reports_view, spec_check_breakpoints, spec_execute, Report, TerminalDebugger,
    TerminalDebuggerView,
};

verus! {

/// A debugger that can be told to listen for commands before the next CPU step.
pub trait Debugger {
    spec fn listening(&self) -> bool;

    fn start_listening(&mut self)
        ensures
            final(self).listening(),
    ;

    fn stop_listening(&mut self)
        ensures
            !final(self).listening(),
    ;

    fn is_listening(&self) -> (r: bool)
        ensures
            r == self.listening(),
    ;
}

impl Debugger for TerminalDebugger {
    open spec fn listening(&self) -> bool {
        self@.is_listening
    }

    fn start_listening(&mut self)
        ensures
            final(self)@ == old(self)@.with_listening(true),
    {
        self.set_listening(true);
    }

    fn stop_listening(&mut self)
        ensures
            final(self)@ == old(self)@.with_listening(false),
    {
        self.set_listening(false);
    }

    fn is_listening(&self) -> (r: bool) {
        self.listening_flag()
    }
}

/// The debuggers that can be attached to the console.
pub enum DebuggerFrontend {
    TerminalDebugger(TerminalDebugger),
}

impl View for DebuggerFrontend {
    type V = TerminalDebuggerView;

    open spec fn view(&self) -> TerminalDebuggerView {
        match self {
            DebuggerFrontend::TerminalDebugger(d) => d@,
        }
    }
}

impl Debugger for DebuggerFrontend {
    open spec fn listening(&self) -> bool {
        self@.is_listening
    }

    fn start_listening(&mut self)
        ensures
            final(self)@ == old(self)@.with_listening(true),
    {
        match self {
            DebuggerFrontend::TerminalDebugger(d) => d.start_listening(),
        }
    }

    fn stop_listening(&mut self)
        ensures
            final(self)@ == old(self)@.with_listening(false),
    {
        match self {
            DebuggerFrontend::TerminalDebugger(d) => d.stop_listening(),
        }
    }

    fn is_listening(&self) -> (r: bool) {
        match self {
            DebuggerFrontend::TerminalDebugger(d) => d.is_listening(),
        }
    }
}

impl DebuggerFrontend {
    /// A terminal debugger with nothing set, not listening.
    pub fn new() -> (r: DebuggerFrontend)
        ensures
            r@ == TerminalDebuggerView::fresh(),
            r@.wf(),
    {
        DebuggerFrontend::TerminalDebugger(TerminalDebugger::new())
    }

    /// The terminal debugger.
    pub fn terminal(&self) -> (r: &TerminalDebugger)
        ensures
            r@ == self@,
    {
        match self {
            DebuggerFrontend::TerminalDebugger(d) => d,
        }
    }

    /// Runs a command (see `TerminalDebugger::execute_command`).
    pub fn execute_command(&mut self, cpu: &mut Cpu, mem_map: &mut CpuMemMap, command: &Command) -> (r: Vec<Report>)
        requires
            old(self)@.wf(),
            executable(command@),
        ensures
            (final(self)@, *final(cpu), final(mem_map)@, reports_view(r@))
                == spec_execute(old(self)@, *old(cpu), old(mem_map)@, command@),
            final(self)@.wf(),
    {
        match self {
            DebuggerFrontend::TerminalDebugger(d) => d.execute_command(cpu, mem_map, command),
        }
    }

    /// Handles a command of the loop that waits for commands (see
    /// `TerminalDebugger::handle_command`).
    pub fn handle_command(&mut self, cpu: &mut Cpu, mem_map: &mut CpuMemMap, command: &Command) -> (r: Option<Vec<Report>>)
        requires
            old(self)@.wf(),
            command@ is Step || command@ is Continue || executable(command@),
        ensures
            final(self)@.wf(),
            command@ is Step ==> r is None && final(self)@ == old(self)@ && *final(cpu) == *old(cpu)
                && final(mem_map)@ == old(mem_map)@,
            command@ is Continue ==> r is None && final(self)@ == old(self)@.with_listening(false)
                && *final(cpu) == *old(cpu) && final(mem_map)@ == old(mem_map)@,
            !(command@ is Step) && !(command@ is Continue) ==> (r matches Some(v)
                && (final(self)@, *final(cpu), final(mem_map)@, reports_view(v@))
                == spec_execute(old(self)@, *old(cpu), old(mem_map)@, command@)),
    {
        match self {
            DebuggerFrontend::TerminalDebugger(d) => d.handle_command(cpu, mem_map, command),
        }
    }

    /// Checks the breakpoints before the CPU runs the instruction at `pc` (see
    /// `spec_check_breakpoints`); returns whether execution stops.
    pub fn check_breakpoints(&mut self, pc: u16, cycle_count: u64) -> (r: bool)
        requires
            old(self)@.wf(),
        ensures
            (final(self)@, r) == spec_check_breakpoints(old(self)@, pc, cycle_count),
            final(self)@.wf(),
    {
        match self {
            DebuggerFrontend::TerminalDebugger(d) => d.check_breakpoints(pc, cycle_count),
        }
    }
}

} // verus!
