use igmnes::controller::{Controller, ControllerButton};
use igmnes::debug::Tracer;
use igmnes::memmap::{MemMap, Memory};
use igmnes::memory::MemMapped;
use igmnes::ppu::palette::{PpuPalette, PpuPaletteColor};
use igmnes::ppu::OamTable;
use igmnes::text::{append_decimal, append_hex2, append_hex4, append_hex_min, append_signed_decimal};

fn palette() -> PpuPalette {
    let bytes: Vec<u8> = (0..192u32).map(|i| i as u8).collect();
    match PpuPalette::from_bytes(&bytes) {
        Ok(p) => p,
        Err(_) => panic!("palette"),
    }
}

#[test]
fn short_palette_file_is_refused() {
    assert!(PpuPalette::from_bytes(&[0u8; 191]).is_err());
    assert!(PpuPalette::from_bytes(&[0u8; 192]).is_ok());
}

#[test]
fn palette_colors_follow_palette_ram() {
    let mut p = palette();
    let backdrop = PpuPaletteColor { red: 0, green: 1, blue: 2 };
    assert!(p.get_transparent_color() == backdrop);
    assert!(p.is_transparent_color(&backdrop));
    // Background palette 0, color 1 is palette RAM entry 1.
    p.write(0x01, 5);
    assert!(p.get_background_color(0, 1) == PpuPaletteColor { red: 15, green: 16, blue: 17 });
    // Sprite palette 1, color 2 is entry $16.
    p.write(0x16, 2);
    assert!(p.get_sprite_color(1, 2) == PpuPaletteColor { red: 6, green: 7, blue: 8 });
    // Color 0 of every palette is the backdrop.
    assert!(p.get_sprite_color(3, 0) == backdrop);
}

#[test]
fn palette_ram_mirrors() {
    let mut p = palette();
    p.write(0x10, 9);
    assert_eq!(p.read(0x00), 9);
    p.write(0x04, 7);
    assert_eq!(p.read(0x14), 7);
    // 32 entries, mirrored over the index.
    assert_eq!(p.read(0x24), 7);
}

#[test]
fn oam_round_trip() {
    let mut oam = OamTable::new();
    oam.write_u8(5, 0xAB);
    assert_eq!(oam.read(5), 0xAB);
    assert_eq!(oam.read(4), 0);
    let page: Vec<u8> = (0..256u32).map(|i| (255 - i) as u8).collect();
    oam.write(&page);
    assert_eq!(oam.read(0), 255);
    assert_eq!(oam.read(200), 55);
}

#[test]
fn controller_reports_buttons_in_order() {
    let mut c = Controller::new();
    c.set_button_state(&[ControllerButton::B, ControllerButton::RIGHT]);
    c.start_polling();
    c.stop_polling();
    let mut bits = Vec::new();
    for _ in 0..8 {
        bits.push(c.read(0x4016) & 1);
    }
    assert_eq!(bits, vec![0, 1, 0, 0, 0, 0, 0, 1]);
}

#[test]
fn flat_memory_reads_back_writes() {
    let mut m = Memory::new();
    assert_eq!(m.read(0x7FF), 0);
    m.write(0x7FF, 0x12);
    m.write(0, 0x34);
    assert_eq!(m.read(0x7FF), 0x12);
    assert_eq!(m.read(0), 0x34);
}

#[test]
fn hexadecimal_and_decimal_text() {
    let mut s = String::new();
    append_hex2(&mut s, 0x0F);
    s.push(' ');
    append_hex4(&mut s, 0xBEEF);
    s.push(' ');
    append_hex_min(&mut s, 0x0A);
    s.push(' ');
    append_decimal(&mut s, 1234567);
    s.push(' ');
    append_signed_decimal(&mut s, -42);
    assert_eq!(s, "0F BEEF A 1234567 -42");
}

#[test]
fn trace_needs_cpu_and_ppu_parts() {
    let mut t = Tracer::new();
    assert!(!t.is_enabled());
    t.start_new_trace();
    t.add_tick_time_ns(Some(5));
    t.start_new_trace();
    assert!(!t.has_traces());
    t.set_enabled(true);
    assert!(t.is_enabled());
    t.clear_traces();
    assert!(!t.has_traces());
}
