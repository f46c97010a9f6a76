use igmnes::controller::{ControllerButton, ControllerIndex};
use igmnes::cpu::Cpu;
use igmnes::debug::Tracer;
use igmnes::disassembler::disassemble_range;
use igmnes::errors::EmulationError;
use igmnes::memory::MemMapped;
use igmnes::ppu::palette::PpuPalette;
use igmnes::rom::{Rom, RomError};
use igmnes::{Core, CoreError};

/// An iNES image with one 16 KiB PRG bank and one 8 KiB CHR bank (NROM), whose program
/// starts at $8000.
fn nrom_image(program: &[u8], mapper: u8) -> Vec<u8> {
    let mut image = vec![0x4E, 0x45, 0x53, 0x1A, 1, 1, mapper << 4, mapper & 0xF0, 0, 0, 0, 0, 0, 0, 0, 0];
    let mut prg = vec![0u8; 0x4000];
    prg[..program.len()].copy_from_slice(program);
    // Reset vector: $8000.
    prg[0x3FFC] = 0x00;
    prg[0x3FFD] = 0x80;
    image.extend_from_slice(&prg);
    image.extend_from_slice(&vec![0u8; 0x2000]);
    image
}

fn palette() -> PpuPalette {
    let bytes: Vec<u8> = (0..192u32).map(|i| i as u8).collect();
    match PpuPalette::from_bytes(&bytes) {
        Ok(p) => p,
        Err(_) => panic!("palette"),
    }
}

/// LDA #$42; STA $0200; JMP $8005
const PROGRAM: [u8; 8] = [0xA9, 0x42, 0x8D, 0x00, 0x02, 0x4C, 0x05, 0x80];

#[test]
fn rom_with_bad_signature_is_refused() {
    let mut image = nrom_image(&PROGRAM, 0);
    image[0] = 0x4D;
    assert!(matches!(Rom::load_rom(&image), Err(RomError::InvalidSignature)));
    assert!(matches!(Core::load_rom(&image, palette()), Err(CoreError::RomError(RomError::InvalidSignature))));
}

#[test]
fn truncated_rom_is_refused() {
    let image = nrom_image(&PROGRAM, 0);
    let short = &image[..image.len() - 1];
    assert!(matches!(Rom::load_rom(short), Err(RomError::UnexpectedEnd)));
    assert!(matches!(Rom::load_rom(&image[..10]), Err(RomError::UnexpectedEnd)));
}

#[test]
fn rom_header_is_read() {
    let image = nrom_image(&PROGRAM, 0);
    let rom = match Rom::load_rom(&image) {
        Ok(r) => r,
        Err(_) => panic!("rom"),
    };
    assert_eq!(rom.header.prg_rom_size, 0x4000);
    assert_eq!(rom.header.chr_rom_size, 0x2000);
    assert_eq!(rom.header.mapper_number, 0);
    assert_eq!(rom.prg_rom_bytes.len(), 0x4000);
    assert_eq!(rom.chr_rom_bytes.len(), 0x2000);
    assert_eq!(rom.prg_rom_bytes[0], 0xA9);
    assert!(rom.trainer_bytes.is_none());
}

#[test]
fn unsupported_mapper_is_refused() {
    let image = nrom_image(&PROGRAM, 4);
    assert!(matches!(Core::load_rom(&image, palette()), Err(CoreError::UnsupportedMapper(4))));
}

#[test]
fn console_starts_at_reset_vector() {
    let image = nrom_image(&PROGRAM, 0);
    let core = match Core::load_rom(&image, palette()) {
        Ok(c) => c,
        Err(_) => panic!("core"),
    };
    assert_eq!(core.cpu.reg_pc, 0x8000);
    assert_eq!(core.cpu_cycles(), 7);
    assert_eq!(core.cpu.reg_sp, 0xFD);
    assert!(!core.is_running);
    assert!(!core.is_debugger_attached);
}

#[test]
fn console_runs_a_program() {
    let image = nrom_image(&PROGRAM, 0);
    let mut core = match Core::load_rom(&image, palette()) {
        Ok(c) => c,
        Err(_) => panic!("core"),
    };
    assert!(core.step().is_ok());
    assert_eq!(core.cpu.reg_a, 0x42);
    assert_eq!(core.cpu.reg_pc, 0x8002);
    assert_eq!(core.cpu_cycles(), 9);
    assert!(core.step().is_ok());
    assert_eq!(core.cpu_cycles(), 13);
    assert!(core.step().is_ok());
    assert_eq!(core.cpu.reg_pc, 0x8005);
    assert_eq!(core.cpu_cycles(), 16);
    assert_eq!(core.mem_map.read(0x0200), 0x42);
    // RAM is mirrored every 2 KiB.
    assert_eq!(core.mem_map.read(0x0A00), 0x42);
}

#[test]
fn entry_point_moves_program_counter() {
    let image = nrom_image(&PROGRAM, 0);
    let mut core = match Core::load_rom(&image, palette()) {
        Ok(c) => c,
        Err(_) => panic!("core"),
    };
    core.set_entry_point(0x8002);
    assert_eq!(core.cpu.reg_pc, 0x8002);
    core.unpause();
    assert!(core.is_running);
    core.pause();
    assert!(!core.is_running);
}

#[test]
fn unknown_opcode_is_an_error() {
    // $02 is no opcode.
    let image = nrom_image(&[0x02], 0);
    let mut core = match Core::load_rom(&image, palette()) {
        Ok(c) => c,
        Err(_) => panic!("core"),
    };
    match core.step() {
        Err(EmulationError::InstructionDecoding(addr, op)) => {
            assert_eq!(addr, 0x8000);
            assert_eq!(op, 0x02);
        },
        _ => panic!("expected a decoding error"),
    }
    let e = EmulationError::InstructionDecoding(0x8000, 0x02);
    assert_eq!(e.message(), "$8000: Unknown op_code 0x02");
    assert_eq!(EmulationError::DebuggerBreakpoint(0x1234).message(), "Hit breakpoint at addr: 0x1234");
}

#[test]
fn disassembly_of_program() {
    let image = nrom_image(&PROGRAM, 0);
    let mut core = match Core::load_rom(&image, palette()) {
        Ok(c) => c,
        Err(_) => panic!("core"),
    };
    let cpu: Cpu = core.cpu;
    let lines = match disassemble_range(0x8000, &(0..3), &cpu, &mut core.mem_map) {
        Ok(l) => l,
        Err(_) => panic!("disassembly"),
    };
    assert_eq!(lines.len(), 3);
    assert_eq!(lines[0], format!("$8000($A9): LDA #$42       {:<20}", ""));
    assert_eq!(lines[1], format!("$8002($8D): STA $0200      {:<20}", "| [$0]"));
    assert_eq!(lines[2], format!("$8005($4C): JMP $8005      {:<20}", "| [$4C]"));
}

#[test]
fn controller_buttons_are_read_one_by_one() {
    let image = nrom_image(&PROGRAM, 0);
    let mut core = match Core::load_rom(&image, palette()) {
        Ok(c) => c,
        Err(_) => panic!("core"),
    };
    core.set_controller_button_state(ControllerIndex::First, &[ControllerButton::A, ControllerButton::START]);
    // Strobe: write 1 then 0 to $4016.
    core.mem_map.write(0x4016, 1);
    core.mem_map.write(0x4016, 0);
    let mut bits = Vec::new();
    for _ in 0..8 {
        bits.push(core.mem_map.read(0x4016) & 1);
    }
    // Order: A, B, Select, Start, Up, Down, Left, Right.
    assert_eq!(bits, vec![1, 0, 0, 1, 0, 0, 0, 0]);
}

#[test]
fn oam_dma_copies_a_page() {
    let image = nrom_image(&PROGRAM, 0);
    let mut core = match Core::load_rom(&image, palette()) {
        Ok(c) => c,
        Err(_) => panic!("core"),
    };
    for i in 0..256u16 {
        core.mem_map.write(0x0300 + i, (i as u8) ^ 0x5A);
    }
    // OAMADDR 0, then start a DMA from page 3.
    core.mem_map.write(0x2003, 0);
    core.mem_map.write(0x4014, 3);
    assert!(core.mem_map.dma.is_dma_active());
    let mut steps = 0;
    while core.mem_map.dma.is_dma_active() && steps < 1000 {
        core.step_devices();
        steps += 1;
    }
    assert!(!core.mem_map.dma.is_dma_active());
    for i in 0..256usize {
        let byte = (i as u8) ^ 0x5A;
        // Bits 2-4 of a sprite's attribute byte are not kept.
        let expected = if i % 4 == 2 { byte & 0xE3 } else { byte };
        assert_eq!(core.mem_map.ppu.ppu_mem_map.oam_table.read(i as u8), expected);
    }
}

#[test]
fn tracer_keeps_a_trace_with_cpu_and_ppu_parts() {
    let image = nrom_image(&PROGRAM, 0);
    let mut core = match Core::load_rom(&image, palette()) {
        Ok(c) => c,
        Err(_) => panic!("core"),
    };
    let mut t = Tracer::new();
    t.set_enabled(true);
    t.start_new_trace();
    let cpu = core.cpu;
    t.add_cpu_trace(&cpu, &mut core.mem_map);
    t.add_ppu_trace(&core.mem_map.ppu);
    t.start_new_trace();
    assert!(t.has_traces());
    assert_eq!(t.traces.len(), 1);
    assert!(t.traces[0].starts_with("$8000"));
}
