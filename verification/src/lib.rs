//! A cycle-counting NES emulator core: 6502 CPU, memory map, PPU, cartridge
//! mappers and controllers, each with its contracts.
pub mod bits;
pub mod processor_status;
pub mod controller;
pub mod ppu_registers;
pub mod memory;
pub mod rom;
pub mod ppu;
pub mod addressing_modes;
pub mod cpu;
pub mod console;
pub mod mappers;
pub mod text;
pub mod test_opcodes;
