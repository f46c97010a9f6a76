use igmnes::command::{Command, CommandError};
use igmnes::cpu::Cpu;
use igmnes::debugger::{Debugger, DebuggerFrontend};
use igmnes::errors::EmulationError;
use igmnes::memory::MemMapped;
use igmnes::ppu::palette::PpuPalette;
use igmnes::terminal::{is_executable, Report};
use igmnes::{BusDebugger, Core};

fn nrom_core(program: &[u8]) -> Core {
    let mut image = vec![0x4E, 0x45, 0x53, 0x1A, 1, 1, 0, 0, 0, 0, 0, 0, 0, 0, 0, 0];
    let mut prg = vec![0u8; 0x4000];
    prg[..program.len()].copy_from_slice(program);
    prg[0x3FFC] = 0x00;
    prg[0x3FFD] = 0x80;
    image.extend_from_slice(&prg);
    image.extend_from_slice(&vec![0u8; 0x2000]);
    let bytes: Vec<u8> = (0..192u32).map(|i| i as u8).collect();
    let palette = match PpuPalette::from_bytes(&bytes) {
        Ok(p) => p,
        Err(_) => panic!("palette"),
    };
    match Core::load_rom(&image, palette) {
        Ok(c) => c,
        Err(_) => panic!("core"),
    }
}

/// LDA #$42; STA $0200; JMP $8005
const PROGRAM: [u8; 8] = [0xA9, 0x42, 0x8D, 0x00, 0x02, 0x4C, 0x05, 0x80];

#[test]
fn empty_line_asks_for_usage() {
    assert!(matches!(Command::parse("\n"), Ok(Command::ShowUsage)));
    assert!(matches!(Command::parse("\r\n"), Ok(Command::ShowUsage)));
}

#[test]
fn long_and_short_keywords() {
    assert!(matches!(Command::parse("PrintState\n"), Ok(Command::PrintState)));
    assert!(matches!(Command::parse("ps\n"), Ok(Command::PrintState)));
    assert!(matches!(Command::parse("printstate\n"), Ok(Command::PrintState)));
    assert!(matches!(Command::parse("PB\n"), Ok(Command::PrintBreakpoints)));
    assert!(matches!(Command::parse("step\n"), Ok(Command::Step)));
    assert!(matches!(Command::parse("s\n"), Ok(Command::Step)));
    assert!(matches!(Command::parse("c\n"), Ok(Command::Continue)));
    assert!(matches!(Command::parse("reset\n"), Ok(Command::Reset)));
    assert!(matches!(Command::parse("trace\n"), Ok(Command::Trace)));
}

#[test]
fn numbers_in_three_notations() {
    assert!(matches!(Command::parse("sb 0x8000\n"), Ok(Command::SetBreakpoint(0x8000))));
    assert!(matches!(Command::parse("sb $C000\n"), Ok(Command::SetBreakpoint(0xC000))));
    assert!(matches!(Command::parse("SetBreakpoint 1234\n"), Ok(Command::SetBreakpoint(1234))));
    assert!(matches!(Command::parse("sbc 100000\n"), Ok(Command::SetBreakpointCycles(100000))));
    assert!(matches!(Command::parse("g 0x10\n"), Ok(Command::Goto(0x10))));
    // Decimal numbers past 65535 are no address.
    assert!(matches!(Command::parse("sb 65536\n"), Err(CommandError::Invalid)));
}

#[test]
fn memory_ranges() {
    match Command::parse("pm 0x10..0x20\n") {
        Ok(Command::PrintMemory(r)) => {
            assert_eq!(r.start, 0x10);
            assert_eq!(r.end, 0x20);
        },
        _ => panic!("expected a memory range"),
    }
    match Command::parse("pm\n") {
        Ok(Command::PrintMemory(r)) => {
            assert_eq!(r.start, 0);
            assert_eq!(r.end, 5);
        },
        _ => panic!("expected the default range"),
    }
    match Command::parse("d 8\n") {
        Ok(Command::Disassemble(r)) => {
            assert_eq!(r.start, 0);
            assert_eq!(r.end, 8);
        },
        _ => panic!("expected a disassembly range"),
    }
}

#[test]
fn labels_and_repeats() {
    match Command::parse("sl. loop 0x8005\n") {
        Ok(Command::SetLabel(l, a)) => {
            assert_eq!(l, "loop");
            assert_eq!(a, 0x8005);
        },
        _ => panic!("expected a label"),
    }
    match Command::parse("setlabel start $8000\n") {
        Ok(Command::SetLabel(l, a)) => {
            assert_eq!(l, "start");
            assert_eq!(a, 0x8000);
        },
        _ => panic!("expected a label"),
    }
    // The dot comes right after the keyword.
    assert!(matches!(Command::parse("sl .loop 0x8005\n"), Err(CommandError::Invalid)));
    match Command::parse("r ps, 3\n") {
        Ok(Command::RepeatCommand(c, n)) => {
            assert!(matches!(*c, Command::PrintState));
            assert_eq!(n, 3);
        },
        _ => panic!("expected a repeat"),
    }
}

#[test]
fn unknown_or_unterminated_lines_are_invalid() {
    assert!(matches!(Command::parse("frobnicate\n"), Err(CommandError::Invalid)));
    assert!(matches!(Command::parse("ps"), Err(CommandError::Invalid)));
    assert!(matches!(Command::parse("sb\n"), Err(CommandError::Invalid)));
}

#[test]
fn debugger_commands_change_its_state() {
    let mut core = nrom_core(&PROGRAM);
    let mut cpu: Cpu = core.cpu;
    let mut d = DebuggerFrontend::new();
    let r = d.execute_command(&mut cpu, &mut core.mem_map, &Command::SetBreakpoint(0x8005));
    assert!(matches!(r[..], [Report::BreakpointSet(0x8005)]));
    assert!(d.terminal().breakpoints().contains(&0x8005));
    let r = d.execute_command(&mut cpu, &mut core.mem_map, &Command::RemoveBreakpoint(0x8005));
    assert!(matches!(r[..], [Report::BreakpointRemoved(0x8005, true)]));
    let r = d.execute_command(&mut cpu, &mut core.mem_map, &Command::RemoveBreakpoint(0x8005));
    assert!(matches!(r[..], [Report::BreakpointRemoved(0x8005, false)]));
    let r = d.execute_command(&mut cpu, &mut core.mem_map, &Command::SetLabel(String::from("start"), 0x8000));
    assert!(matches!(&r[..], [Report::LabelSet(l, 0x8000)] if l == "start"));
    assert_eq!(d.terminal().labels().get(&0x8000).map(|s| s.as_str()), Some("start"));
    let r = d.execute_command(&mut cpu, &mut core.mem_map, &Command::Trace);
    assert!(matches!(r[..], [Report::Tracing(true)]));
    assert!(d.terminal().is_trace_active());
    let r = d.execute_command(&mut cpu, &mut core.mem_map, &Command::Goto(0x8002));
    assert!(matches!(r[..], [Report::ProgramCounterSet(0x8002)]));
    assert_eq!(cpu.reg_pc, 0x8002);
}

#[test]
fn repeated_command_runs_each_time() {
    let mut core = nrom_core(&PROGRAM);
    let mut cpu: Cpu = core.cpu;
    let mut d = DebuggerFrontend::new();
    let cmd = Command::RepeatCommand(Box::new(Command::Trace), 3);
    let r = d.execute_command(&mut cpu, &mut core.mem_map, &cmd);
    assert_eq!(r.len(), 3);
    assert!(matches!(r[..], [Report::Tracing(true), Report::Tracing(false), Report::Tracing(true)]));
}

#[test]
fn memory_dump_reads_rows_of_sixteen() {
    let mut core = nrom_core(&PROGRAM);
    for i in 0..32u16 {
        core.mem_map.write(0x10 + i, i as u8);
    }
    let mut cpu: Cpu = core.cpu;
    let mut d = DebuggerFrontend::new();
    let cmd = Command::PrintMemory(0x10..0x12);
    assert!(is_executable(&cmd));
    let r = d.execute_command(&mut cpu, &mut core.mem_map, &cmd);
    match &r[..] {
        [Report::Memory(start, bytes)] => {
            assert_eq!(*start, 0x10);
            assert_eq!(bytes.len(), 32);
            assert_eq!(bytes[0], 0);
            assert_eq!(bytes[31], 31);
        },
        _ => panic!("expected a memory dump"),
    }
    // A range starting at 0 dumps 8 rows from its end.
    let r = d.execute_command(&mut cpu, &mut core.mem_map, &Command::PrintMemory(0..0x10));
    match &r[..] {
        [Report::Memory(start, bytes)] => {
            assert_eq!(*start, 0x10);
            assert_eq!(bytes.len(), 128);
        },
        _ => panic!("expected a memory dump"),
    }
    assert!(!is_executable(&Command::PrintMemory(0xFFF0..0xFFFF)));
    assert!(!is_executable(&Command::Step));
    assert!(!is_executable(&Command::RepeatCommand(Box::new(Command::Continue), 2)));
}

#[test]
fn stepping_and_continuing_leave_the_command_loop() {
    let mut core = nrom_core(&PROGRAM);
    let mut cpu: Cpu = core.cpu;
    let mut d = DebuggerFrontend::new();
    d.start_listening();
    assert!(d.is_listening());
    assert!(d.handle_command(&mut cpu, &mut core.mem_map, &Command::Step).is_none());
    assert!(d.is_listening());
    assert!(d.handle_command(&mut cpu, &mut core.mem_map, &Command::PrintState).is_some());
    assert!(d.handle_command(&mut cpu, &mut core.mem_map, &Command::Continue).is_none());
    assert!(!d.is_listening());
}

#[test]
fn breakpoint_stops_once_then_lets_the_step_run() {
    let mut core = nrom_core(&PROGRAM);
    {
        let d = core.attach_debugger();
        let mut cpu = Cpu::default();
        let mut mem = nrom_core(&PROGRAM).mem_map;
        d.execute_command(&mut cpu, &mut mem, &Command::SetBreakpoint(0x8002));
    }
    assert!(core.is_debugger_attached);
    assert!(core.step().is_ok());
    assert_eq!(core.cpu.reg_pc, 0x8002);
    match core.step() {
        Err(EmulationError::DebuggerBreakpoint(addr)) => assert_eq!(addr, 0x8002),
        _ => panic!("expected the breakpoint"),
    }
    assert_eq!(core.cpu.reg_pc, 0x8002);
    match core.debugger() {
        Some(d) => assert!(d.is_listening()),
        None => panic!("debugger"),
    }
    // The next step runs the instruction at the breakpoint.
    assert!(core.step().is_ok());
    assert_eq!(core.cpu.reg_pc, 0x8005);
    core.detach_debugger();
    assert!(!core.is_debugger_attached);
    assert!(core.debugger().is_none());
}

#[test]
fn cycle_breakpoint_fires_once() {
    let mut core = nrom_core(&PROGRAM);
    {
        let d = core.attach_debugger();
        let mut cpu = Cpu::default();
        let mut mem = nrom_core(&PROGRAM).mem_map;
        d.execute_command(&mut cpu, &mut mem, &Command::SetBreakpointCycles(9));
    }
    assert!(core.step().is_ok());
    assert_eq!(core.cpu_cycles(), 9);
    assert!(matches!(core.step(), Err(EmulationError::DebuggerBreakpoint(0x8002))));
    assert!(core.step().is_ok());
    assert!(core.step().is_ok());
}
