use rusty_raven::mappers::mapper::{get_mapper, Mapper};
use rusty_raven::mappers::mapper_0::Mapper0;
use rusty_raven::mappers::mapper_2::Mapper2;
use rusty_raven::rom::{Mapper as MapperName, NametableArrangement, NesRom};

fn rom(prg: Vec<u8>, chr: Vec<u8>) -> NesRom {
    NesRom {
        prg_rom_size: prg.len(),
        chr_rom_size: chr.len(),
        name_table_arrangement: NametableArrangement::VerticallyMirrored,
        alternative_name_table_arrangement: NametableArrangement::VerticallyMirrored,
        battery_backed_prg_ram: false,
        trainer_data_present: false,
        mapper: MapperName::Nrom,
        prg_rom_data: prg,
        chr_rom_data: chr,
    }
}

#[test]
fn mapper0_mirrors_a_16_kb_image() {
    let prg: Vec<u8> = (0..0x4000usize).map(|i| (i % 251) as u8).collect();
    let chr: Vec<u8> = (0..0x2000usize).map(|i| (i % 13) as u8).collect();
    let mapper = get_mapper(&rom(prg.clone(), chr.clone()));
    assert_eq!(mapper.read_prg_rom_byte(0x8005), prg[5]);
    assert_eq!(mapper.read_prg_rom_byte(0xC005), prg[5]);
    assert_eq!(mapper.read_prg_rom_byte(0xFFFF), prg[0x3FFF]);
    assert_eq!(mapper.read_chr_rom_byte(0x1234), chr[0x1234]);
    assert_eq!(mapper.get_nametable_arrangement(), NametableArrangement::VerticallyMirrored);
}

#[test]
fn mapper0_chr_writes_and_ignored_prg_writes() {
    let mut mapper = Mapper0::test_initialize();
    assert_eq!(mapper.get_nametable_arrangement(), NametableArrangement::HorizontallyMirrored);
    mapper.write_prg_rom_byte(0x8000, 0x12);
    assert_eq!(mapper.read_prg_rom_byte(0x8000), 0x00);
    mapper.write_chr_rom_byte(0x0042, 0x12);
    assert_eq!(mapper.read_chr_rom_byte(0x0042), 0x12);
}

#[test]
fn mapper2_switches_the_low_bank() {
    let mut prg = vec![0u8; 0x10000];
    for bank in 0..4 {
        prg[bank * 0x4000] = bank as u8 + 1;
    }
    let mapper_rom = rom(prg, vec![0u8; 0x2000]);
    let mut mapper = Mapper2::from(&mapper_rom);
    assert_eq!(mapper.read_prg_rom_byte(0x8000), 1);
    // The upper window is fixed to the last bank.
    assert_eq!(mapper.read_prg_rom_byte(0xC000), 4);
    mapper.write_prg_rom_byte(0x8000, 0x02);
    assert_eq!(mapper.read_prg_rom_byte(0x8000), 3);
    assert_eq!(mapper.read_prg_rom_byte(0xC000), 4);
    // Only bits 3-0 select the bank.
    mapper.write_prg_rom_byte(0xFFFF, 0xF1);
    assert_eq!(mapper.read_prg_rom_byte(0x8000), 2);
    mapper.write_chr_rom_byte(0x1FFF, 0x77);
    assert_eq!(mapper.read_chr_rom_byte(0x1FFF), 0x77);
}
