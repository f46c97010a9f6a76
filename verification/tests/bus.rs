use igmnes::memory::MemMapped;
use igmnes::ppu::palette::PpuPalette;
use igmnes::Core;

fn palette() -> PpuPalette {
    let bytes: Vec<u8> = (0..192u32).map(|i| i as u8).collect();
    match PpuPalette::from_bytes(&bytes) {
        Ok(p) => p,
        Err(_) => panic!("palette"),
    }
}

/// An iNES image of `banks` PRG banks (16 KiB each) and one CHR bank; bank k starts with
/// byte k, the program sits at the start of the last bank, which holds the reset vector.
fn image(mapper: u8, banks: u8, program: &[u8]) -> Vec<u8> {
    let mut image = vec![0x4E, 0x45, 0x53, 0x1A, banks, 1, mapper << 4, mapper & 0xF0, 0, 0, 0, 0, 0, 0, 0, 0];
    for k in 0..banks {
        let mut prg = vec![0u8; 0x4000];
        prg[0] = k;
        if k == banks - 1 {
            prg[0x10..0x10 + program.len()].copy_from_slice(program);
            prg[0x3FFC] = 0x10;
            prg[0x3FFD] = 0xC0;
        }
        image.extend_from_slice(&prg);
    }
    image.extend_from_slice(&vec![0u8; 0x2000]);
    image
}

fn console(mapper: u8, banks: u8, program: &[u8]) -> Core {
    match Core::load_rom(&image(mapper, banks, program), palette()) {
        Ok(c) => c,
        Err(_) => panic!("core"),
    }
}

#[test]
fn nrom_mirrors_a_single_bank() {
    let mut c = console(0, 1, &[0xEA]);
    assert_eq!(c.cpu.reg_pc, 0xC010);
    assert_eq!(c.mem_map.read(0x8000), 0);
    assert_eq!(c.mem_map.read(0x8010), 0xEA);
    assert_eq!(c.mem_map.read(0xC010), 0xEA);
}

#[test]
fn uxrom_switches_the_first_window_only() {
    let mut c = console(2, 4, &[0xEA]);
    assert_eq!(c.mem_map.read(0x8000), 0);
    assert_eq!(c.mem_map.read(0xC000), 3);
    c.mem_map.write(0x8000, 1);
    assert_eq!(c.mem_map.read(0x8000), 1);
    assert_eq!(c.mem_map.read(0xC000), 3);
    c.mem_map.write(0xFFFF, 2);
    assert_eq!(c.mem_map.read(0x8000), 2);
    assert_eq!(c.mem_map.read(0xC000), 3);
}

#[test]
fn subroutine_call_and_return() {
    // JSR $C020; NOP ... at $C020: RTS
    let mut program = vec![0u8; 0x20];
    program[0] = 0x20;
    program[1] = 0x20;
    program[2] = 0xC0;
    program[3] = 0xEA;
    program[0x10] = 0x60;
    let mut c = console(0, 1, &program);
    assert_eq!(c.cpu.reg_sp, 0xFD);
    assert!(c.step().is_ok());
    assert_eq!(c.cpu.reg_pc, 0xC020);
    assert_eq!(c.cpu.reg_sp, 0xFB);
    // The return address minus one is on the stack, high byte first.
    assert_eq!(c.mem_map.read(0x01FD), 0xC0);
    assert_eq!(c.mem_map.read(0x01FC), 0x12);
    assert!(c.step().is_ok());
    assert_eq!(c.cpu.reg_pc, 0xC013);
    assert_eq!(c.cpu.reg_sp, 0xFD);
}

#[test]
fn oam_data_through_mirrored_registers() {
    let mut c = console(0, 1, &[0xEA]);
    // $200B and $200C mirror OAMADDR and OAMDATA.
    c.mem_map.write(0x200B, 9);
    c.mem_map.write(0x200C, 0x77);
    c.mem_map.write(0x2003, 9);
    assert_eq!(c.mem_map.read(0x2004), 0x77);
    c.mem_map.write(0x3FFB, 10);
    c.mem_map.write(0x3FFC, 0xFF);
    c.mem_map.write(0x2003, 10);
    // Byte 2 of a sprite is its attributes; bits 2-4 are not kept.
    assert_eq!(c.mem_map.read(0x2004), 0xE3);
}

#[test]
fn ppuaddr_takes_high_then_low_byte() {
    let mut c = console(0, 1, &[0xEA]);
    c.mem_map.write(0x2006, 0x21);
    c.mem_map.write(0x2006, 0x08);
    assert_eq!(c.mem_map.ppu.reg_v, 0x2108);
    // Only six bits of the high byte count.
    c.mem_map.write(0x2006, 0xFF);
    c.mem_map.write(0x2006, 0x00);
    assert_eq!(c.mem_map.ppu.reg_v, 0x3F00);
}

#[test]
fn status_read_clears_vblank() {
    let mut c = console(0, 1, &[0xEA]);
    c.mem_map.ppu.reg_status = 0x80;
    assert_eq!(c.mem_map.read(0x2002) & 0x80, 0x80);
    assert_eq!(c.mem_map.ppu.reg_status & 0x80, 0);
    assert_eq!(c.mem_map.read(0x2002) & 0x80, 0);
}

#[test]
fn unmapped_io_reads_zero() {
    let mut c = console(0, 1, &[0xEA]);
    assert_eq!(c.mem_map.read(0x4018), 0);
    assert_eq!(c.mem_map.read(0x401F), 0);
}
