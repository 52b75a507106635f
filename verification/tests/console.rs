use rusty_raven::console::{power_on, run_cycle, EmulationError};
use rusty_raven::cpu::Cpu;
use rusty_raven::rom::{Mapper, NametableArrangement, NesRom};

fn rom_with(prg: Vec<u8>) -> NesRom {
    NesRom {
        prg_rom_size: prg.len(),
        chr_rom_size: 0x2000,
        name_table_arrangement: NametableArrangement::HorizontallyMirrored,
        alternative_name_table_arrangement: NametableArrangement::VerticallyMirrored,
        battery_backed_prg_ram: false,
        trainer_data_present: false,
        mapper: Mapper::Nrom,
        prg_rom_data: prg,
        chr_rom_data: vec![0u8; 0x2000],
    }
}

/// A 16 KB image: turn rendering on (LDA #$1E; STA $2001), then NOPs and a
/// JMP back to them; the reset vector points at $8000.
fn nop_loop_prg() -> Vec<u8> {
    let mut prg = vec![0xEAu8; 0x4000];
    prg[..5].copy_from_slice(&[0xA9, 0x1E, 0x8D, 0x01, 0x20]);
    prg[0x10..0x13].copy_from_slice(&[0x4C, 0x05, 0x80]); // JMP $8005
    prg[0x3FFC] = 0x00;
    prg[0x3FFD] = 0x80;
    prg
}

#[test]
fn power_on_loads_and_mirrors_prg_rom() {
    let mut cpu = power_on(&rom_with(nop_loop_prg()));
    assert_eq!(cpu.pc, 0x8000);
    assert_eq!(cpu.cycle_count, 7);
    assert_eq!(cpu.memory.read_byte(0x8010), 0x4C);
    assert_eq!(cpu.memory.read_byte(0xC010), 0x4C);
    assert_eq!(cpu.memory.read_byte(0xC000), 0xA9);
    assert_eq!(cpu.memory.read_byte(0xFFFD), 0x80);
}

#[test]
fn power_on_writes_chr_rom_past_the_pattern_tables() {
    let mut rom = rom_with(nop_loop_prg());
    let mut chr = vec![0u8; 0x2400];
    chr[0x1FFF] = 0x11;
    chr[0x2005] = 0x22;
    rom.chr_rom_size = chr.len();
    rom.chr_rom_data = chr;
    let mut cpu = power_on(&rom);
    // PPU $2005 holds CHR byte $2005 (a nametable byte).
    cpu.memory.write_byte(0x2006, 0x20);
    cpu.memory.write_byte(0x2006, 0x05);
    let _stale = cpu.memory.read_byte(0x2007);
    assert_eq!(cpu.memory.read_byte(0x2007), 0x22);
    // PPU $1FFF is the last pattern table byte.
    cpu.memory.write_byte(0x2006, 0x1F);
    cpu.memory.write_byte(0x2006, 0xFF);
    let _stale = cpu.memory.read_byte(0x2007);
    assert_eq!(cpu.memory.read_byte(0x2007), 0x11);
}

#[test]
fn run_cycle_runs_instructions_and_produces_frames() {
    let mut cpu = power_on(&rom_with(nop_loop_prg()));
    // The first cycle runs LDA # (2 cycles), leaving the budget at -1.
    assert_eq!(run_cycle(&mut cpu).map(|image| image.is_some()), Ok(false));
    assert_eq!(cpu.pc, 0x8002);
    assert_eq!(cpu.cycle_count, 9);
    assert_eq!(cpu.cycle_budget, -1);
    // The budget is back at 0: STA abs runs (4 cycles).
    assert_eq!(run_cycle(&mut cpu).map(|image| image.is_some()), Ok(false));
    assert_eq!(cpu.pc, 0x8005);
    assert_eq!(cpu.cycle_count, 13);
    assert_eq!(cpu.cycle_budget, -4);
    // Now the cycle only pays the budget back.
    assert_eq!(run_cycle(&mut cpu).map(|image| image.is_some()), Ok(false));
    assert_eq!(cpu.pc, 0x8005);
    assert_eq!(cpu.cycle_budget, -3);
    // With rendering on, 262 x 341 CPU cycles (three frames of PPU dots)
    // hand out finished 256 x 240 images.
    let mut frames = 0;
    for _ in 0..(262 * 341) {
        if let Ok(Some(image)) = run_cycle(&mut cpu) {
            assert_eq!(image.len(), 256 * 240);
            frames += 1;
        }
    }
    assert!(frames >= 2);
}

#[test]
fn run_cycle_reports_an_unknown_opcode() {
    let mut prg = nop_loop_prg();
    prg[0] = 0x02; // not an implemented opcode
    let mut cpu = power_on(&rom_with(prg));
    assert_eq!(run_cycle(&mut cpu), Err(EmulationError::UnknownOpcode(0x02)));
}

#[test]
fn run_cycle_reports_counter_overflow() {
    let mut cpu = Cpu::initialize();
    cpu.cycle_budget = i32::MAX;
    assert_eq!(run_cycle(&mut cpu), Err(EmulationError::CounterOverflow));
}
