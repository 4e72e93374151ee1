# aliusnes

The core of a Super Nintendo emulator, with its behaviour stated in Verus contracts and
proved.

## Layout

- `src/w65c816/` — the main CPU: addressing modes, the instruction set and the opcode table.
  Every instruction states the exact bus cycles it makes (a log of reads, writes and
  internal cycles) and the processor state it leaves; `W65C816::step` states the interrupt
  it takes and the instruction it runs. `bcd.rs` proves that decimal-mode ADC and SBC are
  BCD arithmetic at 8 and 16 bits.
- `src/apu/` — the sound unit: the SPC700 processor (`spc700/`), its bus with audio RAM and
  I/O ports, the DSP register file, voices and timers.
- `src/bus/` — the console's memory map (`SystemBus`), DMA, the multiply/divide unit and
  work RAM.
- `src/cart/` — ROM header detection, LoROM and HiROM mapping and battery RAM.
- `src/ppu/` — the picture unit's registers, counters, VRAM, OAM, CGRAM and scanline
  rendering of the tile modes.
- `src/scheduler.rs`, `src/emu.rs` — the event scheduler and the console that drives the CPU
  and the PPU by it.
- `app/` — a headless runner: loads a ROM (and battery RAM), runs frames and can write the
  last frame as a PPM image.
