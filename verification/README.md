# Rusty Raven

A cycle-counting NES emulator core, written in Verus: the 6502 CPU, the CPU
and PPU memory maps, the PPU's dot-by-dot rendering schedule, the
controllers, iNES cartridge parsing and the NROM, MMC1 and UxROM mappers.
Each operation has a contract over a mathematical model of the machine
(`CpuModel`, `PpuModel`, `CpuMemoryModel`, ...), and the properties that
hold across operations (read-after-write of every memory, stack and
subroutine round trips, interrupt entry and return, flag arithmetic, the
serial loading of MMC1 registers, vblank timing) are stated as `law_*`
proof functions next to the code they are about.

Layout:

- `src/` — the verified library (`rusty_raven`):
  - `cpu.rs`: instruction decoding, addressing, execution and timing;
    `addressing_modes.rs`, `processor_status.rs`, `bits.rs`.
  - `memory.rs`: memory segments and the CPU memory map.
  - `ppu.rs`, `ppu_registers.rs`: the picture processing unit.
  - `controller.rs`, `rom.rs`, `mappers/`.
  - `console.rs`: power-on with a cartridge and one system cycle (a CPU
    step and three PPU dots).
  - `text.rs`, `test_opcodes.rs`: trace lines, as in nestest.log.
- `tests/` — tests of the library.
- `app/` — the desktop front end (eframe/egui): file loading, the window,
  keyboard input, and a `--nestest <rom> <log>` mode that checks the CPU
  against a reference trace.
