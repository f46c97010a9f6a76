// The debugger's state and what its commands do to it, to the CPU and to memory. Reading
// commands and printing their reports is left to the frontend that runs the debugger.
use std::collections::{HashMap, HashSet};
use vstd::prelude::*;
use crate::cpu::Cpu;
use crate::command::{Command, CommandView};
use crate::disassembler::{disassemble_range, spec_disassemble_range};
use crate::errors::EmulationError;
use crate::memory::{spec_read_n, CpuMemMap, CpuMemMapView, MemMapped};

verus! {

broadcast use vstd::std_specs::hash::group_hash_axioms;

/// A debugger that a terminal drives: breakpoints on addresses and on CPU cycle counts,
/// watchpoints, labels on addresses, and whether it is listening for commands.
pub struct TerminalDebugger {
    breakpoint_set: HashSet<u16>,
    breakpoint_cycles_set: Vec<u64>,
    watchpoint_set: HashSet<u16>,
    label_map: HashMap<u16, String>,
    is_listening: bool,
    cur_breakpoint_addr: Option<u16>,
    cur_watchpoint_addr: Option<u16>,
    trace_active: bool,
}

/// The state of a `TerminalDebugger` as a mathematical value. The cycle counts are kept in
/// the order in which they were set.
pub struct TerminalDebuggerView {
    pub breakpoints: Set<u16>,
    pub breakpoint_cycles: Seq<u64>,
    pub watchpoints: Set<u16>,
    pub labels: Map<u16, Seq<char>>,
    pub is_listening: bool,
    pub cur_breakpoint_addr: Option<u16>,
    pub cur_watchpoint_addr: Option<u16>,
    pub trace_active: bool,
}

impl View for TerminalDebugger {
    type V = TerminalDebuggerView;

    closed spec fn view(&self) -> TerminalDebuggerView {
        TerminalDebuggerView {
            breakpoints: self.breakpoint_set@,
            breakpoint_cycles: self.breakpoint_cycles_set@,
            watchpoints: self.watchpoint_set@,
            labels: self.label_map@.map_values(|s: String| s@),
            is_listening: self.is_listening,
            cur_breakpoint_addr: self.cur_breakpoint_addr,
            cur_watchpoint_addr: self.cur_watchpoint_addr,
            trace_active: self.trace_active,
        }
    }
}

impl TerminalDebuggerView {
    /// No cycle count is set twice.
    pub open spec fn wf(self) -> bool {
        self.breakpoint_cycles.no_duplicates()
    }

    /// A debugger with nothing set, not listening.
    pub open spec fn fresh() -> TerminalDebuggerView {
        TerminalDebuggerView {
            breakpoints: Set::empty(),
            breakpoint_cycles: Seq::empty(),
            watchpoints: Set::empty(),
            labels: Map::empty(),
            is_listening: false,
            cur_breakpoint_addr: None,
            cur_watchpoint_addr: None,
            trace_active: false,
        }
    }

    /// The view with `is_listening` set to `b`.
    pub open spec fn with_listening(self, b: bool) -> TerminalDebuggerView {
        TerminalDebuggerView { is_listening: b, ..self }
    }
}

impl TerminalDebugger {
    /// A debugger with nothing set, not listening.
    pub fn new() -> (r: TerminalDebugger)
        ensures
            r@ == TerminalDebuggerView::fresh(),
            r@.wf(),
    {
        let r = TerminalDebugger {
            breakpoint_set: HashSet::new(),
            breakpoint_cycles_set: Vec::new(),
            watchpoint_set: HashSet::new(),
            label_map: HashMap::new(),
            is_listening: false,
            cur_breakpoint_addr: None,
            cur_watchpoint_addr: None,
            trace_active: false,
        };
        proof {
            assert(r.label_map@.map_values(|s: String| s@) =~= Map::empty());
        }
        r
    }

    /// The addresses with a breakpoint.
    pub fn breakpoints(&self) -> (r: &HashSet<u16>)
        ensures
            r@ == self@.breakpoints,
    {
        &self.breakpoint_set
    }

    /// The addresses with a watchpoint.
    pub fn watchpoints(&self) -> (r: &HashSet<u16>)
        ensures
            r@ == self@.watchpoints,
    {
        &self.watchpoint_set
    }

    /// The labels, by address.
    pub fn labels(&self) -> (r: &HashMap<u16, String>)
        ensures
            r@.map_values(|s: String| s@) == self@.labels,
    {
        &self.label_map
    }

    /// Sets whether the debugger listens for commands.
    pub fn set_listening(&mut self, b: bool)
        ensures
            final(self)@ == old(self)@.with_listening(b),
    {
        self.is_listening = b;
    }

    /// Whether the debugger listens for commands.
    pub fn listening_flag(&self) -> (r: bool)
        ensures
            r == self@.is_listening,
    {
        self.is_listening
    }

    /// Whether the CPU steps are being traced.
    pub fn is_trace_active(&self) -> (r: bool)
        ensures
            r == self@.trace_active,
    {
        self.trace_active
    }
}

/// What a command has to show once it ran.
pub enum Report {
    /// The list of commands.
    Usage,
    /// The CPU's registers and flags.
    State(Cpu),
    /// Memory from an address on, sixteen bytes a row.
    Memory(u16, Vec<u8>),
    /// The addresses with a breakpoint.
    Breakpoints,
    /// The addresses with a watchpoint.
    Watchpoints,
    /// The labels.
    Labels,
    BreakpointSet(u16),
    /// Whether a breakpoint was there to remove.
    BreakpointRemoved(u16, bool),
    BreakpointCyclesSet(u64),
    BreakpointsCleared,
    WatchpointSet(u16),
    /// Whether a watchpoint was there to remove.
    WatchpointRemoved(u16, bool),
    WatchpointsCleared,
    LabelSet(String, u16),
    /// Whether a label was there to remove.
    LabelRemoved(u16, bool),
    LabelsCleared,
    ProgramCounterSet(u16),
    /// Disassembled lines from the program counter on.
    Disassembly(Vec<String>),
    CpuReset,
    /// Whether tracing is now on.
    Tracing(bool),
}

/// A `Report` as a mathematical value.
pub enum ReportView {
    Usage,
    State(Cpu),
    Memory(u16, Seq<u8>),
    Breakpoints,
    Watchpoints,
    Labels,
    BreakpointSet(u16),
    BreakpointRemoved(u16, bool),
    BreakpointCyclesSet(u64),
    BreakpointsCleared,
    WatchpointSet(u16),
    WatchpointRemoved(u16, bool),
    WatchpointsCleared,
    LabelSet(Seq<char>, u16),
    LabelRemoved(u16, bool),
    LabelsCleared,
    ProgramCounterSet(u16),
    Disassembly(Seq<Seq<char>>),
    CpuReset,
    Tracing(bool),
}

impl View for Report {
    type V = ReportView;

    open spec fn view(&self) -> ReportView {
        match self {
            Report::Usage => ReportView::Usage,
            Report::State(c) => ReportView::State(*c),
            Report::Memory(a, b) => ReportView::Memory(*a, b@),
            Report::Breakpoints => ReportView::Breakpoints,
            Report::Watchpoints => ReportView::Watchpoints,
            Report::Labels => ReportView::Labels,
            Report::BreakpointSet(a) => ReportView::BreakpointSet(*a),
            Report::BreakpointRemoved(a, b) => ReportView::BreakpointRemoved(*a, *b),
            Report::BreakpointCyclesSet(c) => ReportView::BreakpointCyclesSet(*c),
            Report::BreakpointsCleared => ReportView::BreakpointsCleared,
            Report::WatchpointSet(a) => ReportView::WatchpointSet(*a),
            Report::WatchpointRemoved(a, b) => ReportView::WatchpointRemoved(*a, *b),
            Report::WatchpointsCleared => ReportView::WatchpointsCleared,
            Report::LabelSet(l, a) => ReportView::LabelSet(l@, *a),
            Report::LabelRemoved(a, b) => ReportView::LabelRemoved(*a, *b),
            Report::LabelsCleared => ReportView::LabelsCleared,
            Report::ProgramCounterSet(a) => ReportView::ProgramCounterSet(*a),
            Report::Disassembly(lines) => ReportView::Disassembly(lines@.map_values(|s: String| s@)),
            Report::CpuReset => ReportView::CpuReset,
            Report::Tracing(b) => ReportView::Tracing(*b),
        }
    }
}

/// The reports of a run of commands as mathematical values.
pub open spec fn reports_view(v: Seq<Report>) -> Seq<ReportView> {
    v.map_values(|r: Report| r@)
}

/// Where a memory dump of `start..end` begins and how many rows it has: from `start`, a row per
/// element of the range; from `end`, eight rows, when the range starts at 0.
pub open spec fn memory_window(start: u16, end: u16) -> (u16, int) {
    if start > 0 { (start, end - start) } else { (end, 8) }
}

/// A command that the debugger can run on its own: stepping and continuing are for the loop
/// that waits for commands, and a memory dump stays within the address space.
pub open spec fn executable(c: CommandView) -> bool
    decreases c,
{
    match c {
        CommandView::Step => false,
        CommandView::Continue => false,
        CommandView::PrintMemory(s, e) => {
            let (cursor, rows) = memory_window(s, e);
            rows >= 0 && cursor + rows * 16 <= 0xFFFF
        },
        CommandView::RepeatCommand(inner, _) => executable(*inner),
        _ => true,
    }
}

/// The commands that work on the debugger alone.
pub open spec fn is_debugger_command(cmd: CommandView) -> bool {
    match cmd {
        CommandView::ShowUsage | CommandView::PrintBreakpoints | CommandView::PrintWatchpoints
        | CommandView::PrintLabels | CommandView::SetBreakpoint(_) | CommandView::RemoveBreakpoint(_)
        | CommandView::SetBreakpointCycles(_) | CommandView::SetWatchpoint(_) | CommandView::RemoveWatchpoint(_)
        | CommandView::SetLabel(_, _) | CommandView::RemoveLabel(_) | CommandView::ClearBreakpoints
        | CommandView::ClearWatchpoints | CommandView::ClearLabels | CommandView::Trace => true,
        _ => false,
    }
}

/// What a command that works on the debugger alone does to it, and what it reports.
pub open spec fn spec_debugger_command(d: TerminalDebuggerView, cmd: CommandView) -> (TerminalDebuggerView, Seq<ReportView>) {
    match cmd {
        CommandView::ShowUsage => (d, seq![ReportView::Usage]),
        CommandView::PrintBreakpoints => (d, seq![ReportView::Breakpoints]),
        CommandView::PrintWatchpoints => (d, seq![ReportView::Watchpoints]),
        CommandView::PrintLabels => (d, seq![ReportView::Labels]),
        CommandView::SetBreakpoint(a) => (
            TerminalDebuggerView { breakpoints: d.breakpoints.insert(a), ..d },
            seq![ReportView::BreakpointSet(a)],
        ),
        CommandView::RemoveBreakpoint(a) => (
            TerminalDebuggerView { breakpoints: d.breakpoints.remove(a), ..d },
            seq![ReportView::BreakpointRemoved(a, d.breakpoints.contains(a))],
        ),
        CommandView::SetBreakpointCycles(n) => (
            TerminalDebuggerView {
                breakpoint_cycles: if d.breakpoint_cycles.contains(n) { d.breakpoint_cycles } else { d.breakpoint_cycles.push(n) },
                ..d
            },
            seq![ReportView::BreakpointCyclesSet(n)],
        ),
        CommandView::SetWatchpoint(a) => (
            TerminalDebuggerView { watchpoints: d.watchpoints.insert(a), ..d },
            seq![ReportView::WatchpointSet(a)],
        ),
        CommandView::RemoveWatchpoint(a) => (
            TerminalDebuggerView { watchpoints: d.watchpoints.remove(a), ..d },
            seq![ReportView::WatchpointRemoved(a, d.watchpoints.contains(a))],
        ),
        CommandView::SetLabel(l, a) => (
            TerminalDebuggerView { labels: d.labels.insert(a, l), ..d },
            seq![ReportView::LabelSet(l, a)],
        ),
        CommandView::RemoveLabel(a) => (
            TerminalDebuggerView { labels: d.labels.remove(a), ..d },
            seq![ReportView::LabelRemoved(a, d.labels.contains_key(a))],
        ),
        CommandView::ClearBreakpoints => (
            TerminalDebuggerView { breakpoints: Set::empty(), ..d },
            seq![ReportView::BreakpointsCleared],
        ),
        CommandView::ClearWatchpoints => (
            TerminalDebuggerView { watchpoints: Set::empty(), ..d },
            seq![ReportView::WatchpointsCleared],
        ),
        CommandView::ClearLabels => (
            TerminalDebuggerView { labels: Map::empty(), ..d },
            seq![ReportView::LabelsCleared],
        ),
        CommandView::Trace => (
            TerminalDebuggerView { trace_active: !d.trace_active, ..d },
            seq![ReportView::Tracing(!d.trace_active)],
        ),
        _ => (d, Seq::empty()),
    }
}

/// A memory dump of `start..end` (see `memory_window`): memory after the reads, and the report.
#[verifier::opaque]
pub open spec fn spec_print_memory(m: CpuMemMapView, start: u16, end: u16) -> (CpuMemMapView, Seq<ReportView>) {
    let (cursor, rows) = memory_window(start, end);
    let (bytes, m1) = spec_read_n::<CpuMemMap>(m, cursor, (rows * 16) as nat);
    (m1, seq![ReportView::Memory(cursor, bytes)])
}

/// The disassembly of as many instructions as `start..end` has elements, from the program
/// counter on: memory after the reads, and the report.
#[verifier::opaque]
pub open spec fn spec_disassemble(c: Cpu, m: CpuMemMapView, start: u16, end: u16) -> (CpuMemMapView, Seq<ReportView>) {
    let n: nat = if start < end { (end - start) as nat } else { 0 };
    let (lines, m1, _) = spec_disassemble_range::<CpuMemMap>(c.reg_pc, n, c, m);
    (m1, seq![ReportView::Disassembly(lines)])
}

/// What running a command does: to the debugger, the CPU and memory, and what it reports.
pub open spec fn spec_execute(d: TerminalDebuggerView, c: Cpu, m: CpuMemMapView, cmd: CommandView)
    -> (TerminalDebuggerView, Cpu, CpuMemMapView, Seq<ReportView>)
    decreases cmd, 0nat,
{
    if is_debugger_command(cmd) {
        let (d1, r) = spec_debugger_command(d, cmd);
        (d1, c, m, r)
    } else {
        match cmd {
            CommandView::PrintState => (d, c, m, seq![ReportView::State(c)]),
            CommandView::PrintMemory(s, e) => {
                let (m1, r) = spec_print_memory(m, s, e);
                (d, c, m1, r)
            },
            CommandView::Disassemble(s, e) => {
                let (m1, r) = spec_disassemble(c, m, s, e);
                (d, c, m1, r)
            },
            CommandView::Goto(a) => (d, Cpu { reg_pc: a, ..c }, m, seq![ReportView::ProgramCounterSet(a)]),
            CommandView::Reset => {
                let (c1, m1) = c.spec_hard_reset::<CpuMemMap>(m);
                (d, c1, m1, seq![ReportView::CpuReset])
            },
            CommandView::RepeatCommand(inner, n) => spec_repeat(d, c, m, *inner, n as nat),
            _ => (d, c, m, Seq::empty()),
        }
    }
}

/// Running a command `n` times; the reports come one run after another.
pub open spec fn spec_repeat(d: TerminalDebuggerView, c: Cpu, m: CpuMemMapView, cmd: CommandView, n: nat)
    -> (TerminalDebuggerView, Cpu, CpuMemMapView, Seq<ReportView>)
    decreases cmd, n,
{
    if n == 0 {
        (d, c, m, Seq::empty())
    } else {
        let (d1, c1, m1, r1) = spec_repeat(d, c, m, cmd, (n - 1) as nat);
        let (d2, c2, m2, r2) = spec_execute(d1, c1, m1, cmd);
        (d2, c2, m2, r1 + r2)
    }
}

/// `count` bytes of memory from `start` on.
fn dump_memory(mem_map: &mut CpuMemMap, start: u16, count: u16) -> (r: Vec<u8>)
    requires
        start + count <= 0xFFFF,
    ensures
        (r@, final(mem_map)@) == spec_read_n::<CpuMemMap>(old(mem_map)@, start, count as nat),
{
    let mut result: Vec<u8> = Vec::new();
    let mut i: u16 = 0;
    while i < count
        invariant
            i <= count,
            start + count <= 0xFFFF,
            (result@, mem_map@) == spec_read_n::<CpuMemMap>(old(mem_map)@, start, i as nat),
        decreases count - i,
    {
        let b = mem_map.read(start + i);
        proof {
            assert(crate::bits::wadd16(start, i) == start + i) by (bit_vector)
                requires start + i <= 0xFFFF;
        }
        result.push(b);
        i += 1;
    }
    result
}

impl TerminalDebugger {
    /// Runs a command (see `spec_execute`) and returns what it has to show.
    pub fn execute_command(&mut self, cpu: &mut Cpu, mem_map: &mut CpuMemMap, command: &Command) -> (r: Vec<Report>)
        requires
            old(self)@.wf(),
            executable(command@),
        ensures
            (final(self)@, *final(cpu), final(mem_map)@, reports_view(r@))
                == spec_execute(old(self)@, *old(cpu), old(mem_map)@, command@),
            final(self)@.wf(),
        decreases command, 0nat,
    {
        if is_debugger_only(command) {
            return self.debugger_command(command);
        }
        match command {
            Command::PrintState => vec![Report::State(*cpu)],
            Command::PrintMemory(range) => print_memory(mem_map, range),
            Command::Disassemble(range) => disassemble(cpu, mem_map, range),
            Command::Goto(addr) => {
                cpu.reg_pc = *addr;
                vec![Report::ProgramCounterSet(*addr)]
            },
            Command::Reset => {
                cpu.hard_reset(mem_map);
                vec![Report::CpuReset]
            },
            Command::RepeatCommand(inner, count) => self.repeat_command(cpu, mem_map, &**inner, *count),
            _ => Vec::new(),
        }
    }

    /// Runs a command that works on the debugger alone (see `spec_debugger_command`).
    fn debugger_command(&mut self, command: &Command) -> (r: Vec<Report>)
        requires
            old(self)@.wf(),
            is_debugger_command(command@),
        ensures
            (final(self)@, reports_view(r@)) == spec_debugger_command(old(self)@, command@),
            final(self)@.wf(),
    {
        match command {
            Command::ShowUsage => vec![Report::Usage],
            Command::PrintBreakpoints => vec![Report::Breakpoints],
            Command::PrintWatchpoints => vec![Report::Watchpoints],
            Command::PrintLabels => vec![Report::Labels],
            Command::SetBreakpoint(addr) => {
                self.breakpoint_set.insert(*addr);
                vec![Report::BreakpointSet(*addr)]
            },
            Command::RemoveBreakpoint(addr) => {
                let removed = self.breakpoint_set.remove(addr);
                vec![Report::BreakpointRemoved(*addr, removed)]
            },
            Command::SetBreakpointCycles(cycles) => {
                if !vec_contains(&self.breakpoint_cycles_set, *cycles) {
                    self.breakpoint_cycles_set.push(*cycles);
                }
                vec![Report::BreakpointCyclesSet(*cycles)]
            },
            Command::SetWatchpoint(addr) => {
                self.watchpoint_set.insert(*addr);
                vec![Report::WatchpointSet(*addr)]
            },
            Command::RemoveWatchpoint(addr) => {
                let removed = self.watchpoint_set.remove(addr);
                vec![Report::WatchpointRemoved(*addr, removed)]
            },
            Command::SetLabel(label, addr) => {
                let ghost old_labels = self.label_map@;
                self.label_map.insert(*addr, label.clone());
                proof {
                    assert(self.label_map@.map_values(|s: String| s@)
                        =~= old_labels.map_values(|s: String| s@).insert(*addr, label@));
                }
                vec![Report::LabelSet(label.clone(), *addr)]
            },
            Command::RemoveLabel(addr) => {
                let ghost old_labels = self.label_map@;
                let removed = self.label_map.remove(addr);
                proof {
                    assert(self.label_map@.map_values(|s: String| s@)
                        =~= old_labels.map_values(|s: String| s@).remove(*addr));
                }
                vec![Report::LabelRemoved(*addr, removed.is_some())]
            },
            Command::ClearBreakpoints => {
                self.breakpoint_set.clear();
                vec![Report::BreakpointsCleared]
            },
            Command::ClearWatchpoints => {
                self.watchpoint_set.clear();
                vec![Report::WatchpointsCleared]
            },
            Command::ClearLabels => {
                self.label_map.clear();
                proof {
                    assert(self.label_map@.map_values(|s: String| s@) =~= Map::empty());
                }
                vec![Report::LabelsCleared]
            },
            Command::Trace => {
                self.trace_active = !self.trace_active;
                vec![Report::Tracing(self.trace_active)]
            },
            _ => Vec::new(),
        }
    }

    /// What the loop that waits for commands does with one: stepping leaves the loop, continuing
    /// also stops listening, and any other command runs and returns what it has to show.
    pub fn handle_command(&mut self, cpu: &mut Cpu, mem_map: &mut CpuMemMap, command: &Command) -> (r: Option<Vec<Report>>)
        requires
            old(self)@.wf(),
            command@ is Step || command@ is Continue || executable(command@),
        ensures
            final(self)@.wf(),
            command@ is Step ==> r is None && final(self)@ == old(self)@ && *final(cpu) == *old(cpu)
                && final(mem_map)@ == old(mem_map)@,
            command@ is Continue ==> r is None && final(self)@ == old(self)@.with_listening(false)
                && *final(cpu) == *old(cpu) && final(mem_map)@ == old(mem_map)@,
            !(command@ is Step) && !(command@ is Continue) ==> (r matches Some(v)
                && (final(self)@, *final(cpu), final(mem_map)@, reports_view(v@))
                == spec_execute(old(self)@, *old(cpu), old(mem_map)@, command@)),
    {
        match command {
            Command::Step => None,
            Command::Continue => {
                self.is_listening = false;
                None
            },
            _ => Some(self.execute_command(cpu, mem_map, command)),
        }
    }

    /// Checks the breakpoints before the CPU runs the instruction at `pc` after `cycle_count`
    /// cycles (see `spec_check_breakpoints`); returns whether execution stops.
    pub fn check_breakpoints(&mut self, pc: u16, cycle_count: u64) -> (r: bool)
        requires
            old(self)@.wf(),
        ensures
            (final(self)@, r) == spec_check_breakpoints(old(self)@, pc, cycle_count),
            final(self)@.wf(),
    {
        let on_pc = self.breakpoint_set.contains(&pc);
        if on_pc && self.cur_breakpoint_addr.is_none() {
            self.cur_breakpoint_addr = Some(pc);
            return true;
        }
        let mut cur = if on_pc { None } else { self.cur_breakpoint_addr };
        let ghost cur0 = cur;
        let mut i: usize = 0;
        while i < self.breakpoint_cycles_set.len()
            invariant
                i <= self.breakpoint_cycles_set.len(),
                self@ == old(self)@,
                self@.wf(),
                !(old(self)@.breakpoints.contains(pc) && old(self)@.cur_breakpoint_addr is None),
                cur0 == (if old(self)@.breakpoints.contains(pc) { None } else { old(self)@.cur_breakpoint_addr }),
                scan_cycle_breakpoints(self@.breakpoint_cycles, 0, cycle_count, cur0, pc)
                    == scan_cycle_breakpoints(self@.breakpoint_cycles, i as int, cycle_count, cur, pc),
            decreases self.breakpoint_cycles_set.len() - i,
        {
            if self.breakpoint_cycles_set[i] <= cycle_count {
                if cur.is_some() {
                    cur = None;
                } else {
                    let ghost s0 = self@.breakpoint_cycles;
                    proof {
                        lemma_remove_no_duplicates(s0, i as int);
                        assert(scan_cycle_breakpoints(s0, i as int, cycle_count, cur, pc) == (Some(pc), Some(i as int)));
                    }
                    self.cur_breakpoint_addr = Some(pc);
                    self.breakpoint_cycles_set.remove(i);
                    proof {
                        assert(self@.breakpoint_cycles == s0.remove(i as int));
                    }
                    return true;
                }
            }
            i += 1;
        }
        self.cur_breakpoint_addr = cur;
        false
    }

    /// Runs a command `count` times (see `spec_repeat`).
    fn repeat_command(&mut self, cpu: &mut Cpu, mem_map: &mut CpuMemMap, inner: &Command, count: u16) -> (r: Vec<Report>)
        requires
            old(self)@.wf(),
            executable(inner@),
        ensures
            (final(self)@, *final(cpu), final(mem_map)@, reports_view(r@))
                == spec_repeat(old(self)@, *old(cpu), old(mem_map)@, inner@, count as nat),
            final(self)@.wf(),
        decreases inner, 1nat,
    {
        let mut out: Vec<Report> = Vec::new();
        let mut i: u16 = 0;
        while i < count
            invariant
                i <= count,
                executable(inner@),
                self@.wf(),
                (self@, *cpu, mem_map@, reports_view(out@))
                    == spec_repeat(old(self)@, *old(cpu), old(mem_map)@, inner@, i as nat),
            decreases count - i,
        {
            let mut more = self.execute_command(cpu, mem_map, inner);
            let ghost before = out@;
            let ghost added = more@;
            out.append(&mut more);
            proof {
                assert(reports_view(out@) =~= reports_view(before) + reports_view(added));
            }
            i += 1;
        }
        out
    }
}

/// Scanning the cycle-count breakpoints from index `i` on, with `cur` the address of the
/// breakpoint that last stopped execution: a count that the CPU has reached lets execution go
/// on once after a stop (and clears `cur`), else it stops execution. The address of the stop
/// after the scan, and the index of the count that stopped execution.
pub open spec fn scan_cycle_breakpoints(s: Seq<u64>, i: int, cycles: u64, cur: Option<u16>, pc: u16) -> (Option<u16>, Option<int>)
    decreases s.len() - i,
{
    if i < 0 || i >= s.len() {
        (cur, None)
    } else if s[i] <= cycles {
        if cur is Some {
            scan_cycle_breakpoints(s, i + 1, cycles, None, pc)
        } else {
            (Some(pc), Some(i))
        }
    } else {
        scan_cycle_breakpoints(s, i + 1, cycles, cur, pc)
    }
}

/// Whether the debugger stops execution before the CPU runs the instruction at `pc` after
/// `cycles` cycles, and its state after the check. A breakpoint on `pc` stops execution, or
/// lets it go on once right after such a stop; a cycle-count breakpoint that stops execution
/// is removed.
pub open spec fn spec_check_breakpoints(d: TerminalDebuggerView, pc: u16, cycles: u64) -> (TerminalDebuggerView, bool) {
    if d.breakpoints.contains(pc) && d.cur_breakpoint_addr is None {
        (TerminalDebuggerView { cur_breakpoint_addr: Some(pc), ..d }, true)
    } else {
        let cur = if d.breakpoints.contains(pc) { None } else { d.cur_breakpoint_addr };
        let (cur1, hit) = scan_cycle_breakpoints(d.breakpoint_cycles, 0, cycles, cur, pc);
        match hit {
            Some(i) => (
                TerminalDebuggerView { cur_breakpoint_addr: cur1, breakpoint_cycles: d.breakpoint_cycles.remove(i), ..d },
                true,
            ),
            None => (TerminalDebuggerView { cur_breakpoint_addr: cur1, ..d }, false),
        }
    }
}

proof fn lemma_scan_in_range(s: Seq<u64>, i: int, cycles: u64, cur: Option<u16>, pc: u16)
    requires
        0 <= i,
    ensures
        scan_cycle_breakpoints(s, i, cycles, cur, pc).1 matches Some(k) ==> i <= k < s.len(),
    decreases s.len() - i,
{
    if i < s.len() {
        lemma_scan_in_range(s, i + 1, cycles, None, pc);
        lemma_scan_in_range(s, i + 1, cycles, cur, pc);
    }
}

proof fn lemma_remove_no_duplicates(s: Seq<u64>, i: int)
    requires
        s.no_duplicates(),
        0 <= i < s.len(),
    ensures
        s.remove(i).no_duplicates(),
{
    let t = s.remove(i);
    assert forall|a: int, b: int| 0 <= a < t.len() && 0 <= b < t.len() && a != b implies t[a] != t[b] by {
        let a1 = if a < i { a } else { a + 1 };
        let b1 = if b < i { b } else { b + 1 };
        assert(t[a] == s[a1] && t[b] == s[b1]);
    }
}

/// Whether a command can run on its own (see `executable`).
pub fn is_executable(command: &Command) -> (r: bool)
    ensures
        r == executable(command@),
    decreases command,
{
    match command {
        Command::Step => false,
        Command::Continue => false,
        Command::PrintMemory(range) => {
            if range.start > 0 {
                range.start <= range.end && (range.start as u32) + ((range.end - range.start) as u32) * 16 <= 0xFFFF
            } else {
                (range.end as u32) + 128 <= 0xFFFF
            }
        },
        Command::RepeatCommand(inner, _) => is_executable(&**inner),
        _ => true,
    }
}

/// A memory dump (see `spec_print_memory`).
fn print_memory(mem_map: &mut CpuMemMap, range: &core::ops::Range<u16>) -> (r: Vec<Report>)
    requires
        executable(CommandView::PrintMemory(range.start, range.end)),
    ensures
        (final(mem_map)@, reports_view(r@)) == spec_print_memory(old(mem_map)@, range.start, range.end),
{
    proof { reveal(spec_print_memory); }
    let (cursor, rows) = if range.start > 0 { (range.start, range.end - range.start) } else { (range.end, 8) };
    let bytes = dump_memory(mem_map, cursor, rows * 16);
    let r = vec![Report::Memory(cursor, bytes)];
    proof {
        assert(reports_view(r@) =~= seq![ReportView::Memory(cursor, bytes@)]);
    }
    r
}

/// A disassembly from the program counter on (see `spec_disassemble`).
fn disassemble(cpu: &Cpu, mem_map: &mut CpuMemMap, range: &core::ops::Range<u16>) -> (r: Vec<Report>)
    ensures
        (final(mem_map)@, reports_view(r@)) == spec_disassemble(*cpu, old(mem_map)@, range.start, range.end),
{
    proof { reveal(spec_disassemble); }
    let lines = disassemble_range(cpu.reg_pc, range, cpu, mem_map);
    match lines {
        Ok(lines) => {
            let ghost l = spec_disassemble_range::<CpuMemMap>(
                cpu.reg_pc, crate::disassembler::range_len(*range), *cpu, old(mem_map)@).0;
            proof {
                assert(lines@.map_values(|s: String| s@) =~= l);
            }
            let r = vec![Report::Disassembly(lines)];
            proof {
                assert(reports_view(r@) =~= seq![ReportView::Disassembly(l)]);
            }
            r
        },
        Err(_) => Vec::new(),
    }
}

/// Whether a command works on the debugger alone.
fn is_debugger_only(command: &Command) -> (r: bool)
    ensures
        r == is_debugger_command(command@),
{
    match command {
        Command::ShowUsage | Command::PrintBreakpoints | Command::PrintWatchpoints | Command::PrintLabels
        | Command::SetBreakpoint(_) | Command::RemoveBreakpoint(_) | Command::SetBreakpointCycles(_)
        | Command::SetWatchpoint(_) | Command::RemoveWatchpoint(_) | Command::SetLabel(_, _) | Command::RemoveLabel(_)
        | Command::ClearBreakpoints | Command::ClearWatchpoints | Command::ClearLabels | Command::Trace => true,
        _ => false,
    }
}

/// Whether `v` holds `x`.
fn vec_contains(v: &Vec<u64>, x: u64) -> (r: bool)
    ensures
        r == v@.contains(x),
{
    let mut i: usize = 0;
    while i < v.len()
        invariant
            i <= v.len(),
            forall|j: int| 0 <= j < i ==> v@[j] != x,
        decreases v.len() - i,
    {
        if v[i] == x {
            return true;
        }
        i += 1;
    }
    false
}

/// A breakpoint on an address stops execution the first time the CPU is about to run the
/// instruction there, lets it go on the next time (so that a step after the stop runs that
/// instruction), and is armed again after that: a third check stops again.
pub proof fn law_breakpoint_stops_once_then_resumes(d: TerminalDebuggerView, pc: u16, cycles: u64)
    requires
        d.wf(),
        d.breakpoints.contains(pc),
        d.cur_breakpoint_addr is None,
        forall|i: int| 0 <= i < d.breakpoint_cycles.len() ==> d.breakpoint_cycles[i] > cycles,
    ensures
        ({
            let (d1, stop1) = spec_check_breakpoints(d, pc, cycles);
            let (d2, stop2) = spec_check_breakpoints(d1, pc, cycles);
            let (d3, stop3) = spec_check_breakpoints(d2, pc, cycles);
            &&& stop1 && !stop2 && stop3
            &&& d1.breakpoints == d.breakpoints && d2.breakpoints == d.breakpoints
            &&& d2.cur_breakpoint_addr is None
        }),
{
    let (d1, _) = spec_check_breakpoints(d, pc, cycles);
    lemma_scan_no_hit(d1.breakpoint_cycles, 0, cycles, pc);
}

proof fn lemma_scan_no_hit(s: Seq<u64>, i: int, cycles: u64, pc: u16)
    requires
        0 <= i,
        forall|k: int| 0 <= k < s.len() ==> s[k] > cycles,
    ensures
        scan_cycle_breakpoints(s, i, cycles, None, pc) == (None::<u16>, None::<int>),
    decreases s.len() - i,
{
    if i < s.len() {
        lemma_scan_no_hit(s, i + 1, cycles, pc);
    }
}

/// A cycle-count breakpoint that the CPU has reached stops execution once and is then gone.
pub proof fn law_cycle_breakpoint_fires_once(d: TerminalDebuggerView, pc: u16, cycles: u64, n: u64)
    requires
        d.wf(),
        !d.breakpoints.contains(pc),
        d.cur_breakpoint_addr is None,
        d.breakpoint_cycles == seq![n],
        n <= cycles,
    ensures
        ({
            let (d1, stop1) = spec_check_breakpoints(d, pc, cycles);
            &&& stop1
            &&& d1.breakpoint_cycles == Seq::<u64>::empty()
            &&& d1.cur_breakpoint_addr == Some(pc)
        }),
{
    assert(d.breakpoint_cycles.remove(0) =~= Seq::<u64>::empty());
}

/// Removing a breakpoint right after setting it leaves the breakpoints as they were without
/// it, and reports that one was removed.
pub proof fn law_remove_after_set_breakpoint(d: TerminalDebuggerView, c: Cpu, m: CpuMemMapView, a: u16)
    ensures
        ({
            let (d1, c1, m1, _) = spec_execute(d, c, m, CommandView::SetBreakpoint(a));
            let (d2, c2, m2, r2) = spec_execute(d1, c1, m1, CommandView::RemoveBreakpoint(a));
            &&& d2.breakpoints == d.breakpoints.remove(a)
            &&& r2 == seq![ReportView::BreakpointRemoved(a, true)]
            &&& c2 == c && m2 == m
        }),
{
    let (d1, c1, m1, _) = spec_execute(d, c, m, CommandView::SetBreakpoint(a));
    assert(d1.breakpoints.remove(a) =~= d.breakpoints.remove(a));
}

/// A command repeated `n` times shows `n` times what it shows once, when what it does leaves
/// the debugger, CPU and memory as they were (a command that only prints).
pub proof fn law_repeat_reports(d: TerminalDebuggerView, c: Cpu, m: CpuMemMapView, cmd: CommandView, n: nat)
    requires
        spec_execute(d, c, m, cmd).0 == d,
        spec_execute(d, c, m, cmd).1 == c,
        spec_execute(d, c, m, cmd).2 == m,
    ensures
        ({
            let (d1, c1, m1, r) = spec_repeat(d, c, m, cmd, n);
            &&& d1 == d && c1 == c && m1 == m
            &&& r.len() == n * spec_execute(d, c, m, cmd).3.len()
        }),
    decreases n,
{
    if n > 0 {
        law_repeat_reports(d, c, m, cmd, (n - 1) as nat);
        let k = spec_execute(d, c, m, cmd).3.len();
        assert((n - 1) * k + k == n * k) by (nonlinear_arith);
    }
}

} // verus!
