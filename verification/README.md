# igmnes

A NES emulator whose core is written in Verus: the 6502 CPU, the PPU, the APU (up to the
channel outputs), OAM DMA, the controllers, the cartridge mappers (0, 2, 3 and 7; the board of mapper 189 is there too, but images that ask for it are refused), the
iNES reader, the disassembler, the tracer and the terminal debugger's command language and
state all carry contracts that Verus proves.

Layout:

- `src/` is the verified library. `lib.rs` holds the console (`Core`), which ties the devices
  to the CPU's bus (`memory.rs`); `cpu.rs` and `instructions.rs` are the processor,
  `ppu.rs` and `ppu/` the picture processor with its memory and palette, `apu.rs` the audio
  channels, `mappers/` the cartridges, `rom.rs` the iNES format, `command.rs` the debugger's
  command language, `terminal.rs` and `debugger.rs` the debugger itself, and `debug.rs` and
  `disassembler.rs` the trace and disassembly text.
- `app/` is the SDL2 frontend: file and terminal I/O, the window, and the floating-point
  mixing and resampling of the audio.
- `tests/` runs the library on small cartridge images.
