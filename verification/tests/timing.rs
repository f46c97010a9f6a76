use igmnes::memory::{MemMapped, Ram};
use igmnes::ppu::palette::PpuPalette;
use igmnes::Core;

fn palette() -> PpuPalette {
    let bytes: Vec<u8> = (0..192u32).map(|i| i as u8).collect();
    match PpuPalette::from_bytes(&bytes) {
        Ok(p) => p,
        Err(_) => panic!("palette"),
    }
}

/// An NROM image whose program sits at `start` ($C000-$FFFF) and whose BRK/IRQ vector is
/// `irq`.
fn console(start: u16, program: &[u8], irq: u16) -> Core {
    let mut image = vec![0x4E, 0x45, 0x53, 0x1A, 1, 1, 0, 0, 0, 0, 0, 0, 0, 0, 0, 0];
    let mut prg = vec![0u8; 0x4000];
    let at = (start - 0xC000) as usize;
    prg[at..at + program.len()].copy_from_slice(program);
    prg[0x3FFC] = (start & 0xFF) as u8;
    prg[0x3FFD] = (start >> 8) as u8;
    prg[0x3FFE] = (irq & 0xFF) as u8;
    prg[0x3FFF] = (irq >> 8) as u8;
    image.extend_from_slice(&prg);
    image.extend_from_slice(&vec![0u8; 0x2000]);
    match Core::load_rom(&image, palette()) {
        Ok(c) => c,
        Err(_) => panic!("core"),
    }
}

#[test]
fn taken_branch_to_the_next_page_takes_four_cycles() {
    // BNE +1 at $C0FD: the next instruction is at $C0FF, the target at $C100.
    let mut c = console(0xC0FD, &[0xD0, 0x01], 0xC000);
    assert!(!c.cpu.reg_status.zero_flag);
    assert!(matches!(c.step(), Ok(4)));
    assert_eq!(c.cpu.reg_pc, 0xC100);
    assert_eq!(c.cpu_cycles(), 7 + 4);
}

#[test]
fn taken_branch_on_the_same_page_takes_three_cycles() {
    // BNE +1 at $C0FC: from $C0FE to $C0FF.
    let mut c = console(0xC0FC, &[0xD0, 0x01], 0xC000);
    assert!(matches!(c.step(), Ok(3)));
    assert_eq!(c.cpu.reg_pc, 0xC0FF);
}

#[test]
fn branch_not_taken_takes_two_cycles() {
    // BEQ +1 with the zero flag clear.
    let mut c = console(0xC0FD, &[0xF0, 0x01], 0xC000);
    assert!(matches!(c.step(), Ok(2)));
    assert_eq!(c.cpu.reg_pc, 0xC0FF);
}

#[test]
fn brk_takes_seven_cycles() {
    let mut c = console(0xC010, &[0x00], 0xC100);
    let sp = c.cpu.reg_sp;
    assert!(matches!(c.step(), Ok(7)));
    assert_eq!(c.cpu_cycles(), 7 + 7);
    assert_eq!(c.cpu.reg_pc, 0xC100);
    assert_eq!(c.cpu.reg_sp, sp.wrapping_sub(3));
    assert!(c.cpu.reg_status.interrupt_disable);
    // Return address PC + 2, then the status with the break bit and bit 5 set.
    assert_eq!(c.mem_map.read(0x0100 + sp as u16), 0xC0);
    assert_eq!(c.mem_map.read(0x0100 + sp.wrapping_sub(1) as u16), 0x12);
    assert_eq!(c.mem_map.read(0x0100 + sp.wrapping_sub(2) as u16) & 0x30, 0x30);
}

#[test]
fn cpu_starts_in_its_reset_state() {
    let c = console(0xC010, &[0xEA], 0xC000);
    assert_eq!(c.cpu.reg_a, 0);
    assert_eq!(c.cpu.reg_x, 0);
    assert_eq!(c.cpu.reg_y, 0);
    assert!(c.cpu.pending_interrupt.is_none());
    assert!(!c.cpu.is_halted);
}

#[test]
fn status_read_has_only_three_flags() {
    let mut c = console(0xC010, &[0xEA], 0xC000);
    c.mem_map.ppu.reg_status = 0xFF;
    assert_eq!(c.mem_map.read(0x2002), 0xE0);
}

#[test]
fn mapper_189_is_refused() {
    let mut image = vec![0x4E, 0x45, 0x53, 0x1A, 1, 1, 0xD0, 0xB0, 0, 0, 0, 0, 0, 0, 0, 0];
    image.extend_from_slice(&vec![0u8; 0x6000]);
    assert!(matches!(Core::load_rom(&image, palette()), Err(igmnes::CoreError::UnsupportedMapper(189))));
}

#[test]
fn dma_halt_takes_two_cycles_after_the_next_step() {
    // NOP; NOP
    let mut c = console(0xC010, &[0xEA, 0xEA], 0xC000);
    c.cpu.dma();
    assert!(matches!(c.step(), Ok(2)));
    assert_eq!(c.cpu.reg_pc, 0xC011);
    assert!(c.cpu.is_halted);
    let before = c.cpu_cycles();
    assert!(matches!(c.step(), Ok(2)));
    assert_eq!(c.cpu_cycles(), before + 2);
    assert_eq!(c.cpu.reg_pc, 0xC011);
    assert!(!c.cpu.is_halted);
}

#[test]
fn subroutine_returns_after_the_call() {
    // JSR $C020 at $C010; RTS at $C020.
    let mut program = vec![0u8; 0x11];
    program[0] = 0x20;
    program[1] = 0x20;
    program[2] = 0xC0;
    program[0x10] = 0x60;
    let mut c = console(0xC010, &program, 0xC000);
    let sp = c.cpu.reg_sp;
    assert!(matches!(c.step(), Ok(6)));
    assert_eq!(c.cpu.reg_pc, 0xC020);
    assert!(matches!(c.step(), Ok(6)));
    assert_eq!(c.cpu.reg_pc, 0xC013);
    assert_eq!(c.cpu.reg_sp, sp);
}

#[test]
fn frame_has_256_by_240_pixels() {
    let mut c = console(0xC010, &[0xEA], 0xC000);
    assert_eq!(c.ppu_frame().len(), 256 * 240);
}

#[test]
fn ram_mirrors_past_two_kilobytes() {
    let mut r = Ram::new();
    r.write(0x0805, 7);
    assert_eq!(r.read(0x0005), 7);
}
