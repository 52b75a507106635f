use rusty_raven::mappers::mapper::Mapper;
use rusty_raven::mappers::mapper_1::{ChrBankMode, Mapper1, PrgBankMode};
use rusty_raven::rom::NametableArrangement;

#[test]
fn test_writes_with_target() {
    let mut mapper = Mapper1::test_initialize();
    // We'll write the five bit value b10110
    mapper.write_prg_rom_byte(0x8000, 0x00);
    mapper.write_prg_rom_byte(0x8000, 0x01);
    mapper.write_prg_rom_byte(0x8000, 0x01);
    mapper.write_prg_rom_byte(0x8000, 0x00);
    mapper.write_prg_rom_byte(0x8000, 0x01);
    // Now after this final write we should have written to the
    // control register.
    assert_eq!(mapper.control_state.chr_bank_mode, ChrBankMode::Switch4Kb);
    assert_eq!(mapper.control_state.prg_bank_mode, PrgBankMode::Switch32Kb);
    assert_eq!(mapper.control_state.current_nt, NametableArrangement::VerticallyMirrored);
}

#[test]
fn test_get_mapped_prg_address_switch_32_kb() {
    let mut mapper = Mapper1::test_initialize();
    mapper.control_state.prg_bank_mode = PrgBankMode::Switch32Kb;
    mapper.control_state.prg_bank = 0x05;
    // Now if we have 8 4kb banks, the address should simply ignore the least
    // significant bit and we'll return (in this case), the "3rd" 8 kb bank.
    assert_eq!(mapper.get_mapped_prg_address(0x8042), 65602); // 0x02 * 0x8000 + 0x0042
    assert_eq!(mapper.get_mapped_prg_address(0xC042), 81986); // 0x02 * 0x8000 + 0x4042
}

#[test]
fn test_get_mapped_prg_address_fix_first_bank() {
    let mut mapper = Mapper1::test_initialize();
    mapper.control_state.prg_bank_mode = PrgBankMode::FixFirstBank;
    mapper.control_state.prg_bank = 0x05;
    // Now if we have 8 4kb banks, the address should simply return the fifth
    // 4 kb bank.
    assert_eq!(mapper.get_mapped_prg_address(0x8042), 66); // 0x0042 (first bank!)
    assert_eq!(mapper.get_mapped_prg_address(0xC042), 81986); // 0x05 * 0x4000 + 0x0042
}

#[test]
fn test_get_mapped_prg_address_fix_last_bank() {
    let mut mapper = Mapper1::test_initialize();
    mapper.control_state.prg_bank_mode = PrgBankMode::FixLastBank;
    mapper.control_state.prg_bank = 0x05;
    // Now if we have 8 4kb banks, the address should simply return the fifth
    // 4 kb bank when we query within [0x8000, 0xC000]
    assert_eq!(mapper.get_mapped_prg_address(0x8042), 81986); // 0x05 * 0x4000 + 0x0042
    assert_eq!(mapper.get_mapped_prg_address(0xC042), 114754); // 0x07 * 0x4000 + 0x0042 (last bank!)
}

#[test]
fn test_get_mapped_chr_rom_switch_8_kb() {
    let mut mapper = Mapper1::test_initialize();
    mapper.control_state.chr_bank_mode = ChrBankMode::Switch8Kb;
    mapper.control_state.chr_bank_0 = 0x05;
    mapper.control_state.chr_bank_1 = 0xFF;
    // Now if we have 4 8kb banks, the address should simply ignore the least
    // significant bit and we'll return (in this case), the "third" 8 kb bank.
    assert_eq!(mapper.get_mapped_chr_address(0x0042), 16450); // 2 * 0x2000 + 0x0042 (base=0x4000)
    assert_eq!(mapper.get_mapped_chr_address(0x1042), 20546); // 2 * 0x2000 + 0x1042 (base=0x5000)
}

#[test]
fn test_get_mapped_chr_rom_switch_4kb() {
    let mut mapper = Mapper1::test_initialize();
    mapper.control_state.chr_bank_mode = ChrBankMode::Switch4Kb;
    mapper.control_state.chr_bank_0 = 0x05;
    mapper.control_state.chr_bank_1 = 0xFF;
    // We have 8 4 kb banks, swap between them.
    assert_eq!(mapper.get_mapped_chr_address(0x0042), 20546); //  0x5000 + 0x0042 (base=0x5000)
    assert_eq!(mapper.get_mapped_chr_address(0x1042), 28738); //  0x7000 + 0x0042 (base=0x7000)
}

#[test]
fn mapper1_reset_write_clears_the_shift_register() {
    let mut mapper = Mapper1::test_initialize();
    mapper.control_state.prg_bank_mode = PrgBankMode::Switch32Kb;
    mapper.write_prg_rom_byte(0x8000, 0x01);
    mapper.write_prg_rom_byte(0x8000, 0x01);
    assert_eq!(mapper.control_state.bit_count, 2);
    mapper.write_prg_rom_byte(0x8000, 0x80);
    assert_eq!(mapper.control_state.bit_count, 0);
    assert_eq!(mapper.control_state.data, 0);
    assert_eq!(mapper.control_state.prg_bank_mode, PrgBankMode::FixLastBank);
}

#[test]
fn mapper1_serial_loads_go_to_the_addressed_register() {
    let mut mapper = Mapper1::test_initialize();
    // 0b00011 (LSB first) into CHR bank 0.
    for bit in [1u8, 1, 0, 0, 0] {
        mapper.write_prg_rom_byte(0xA000, bit);
    }
    assert_eq!(mapper.control_state.chr_bank_0, 0x03);
    // 0b10101 into CHR bank 1.
    for bit in [1u8, 0, 1, 0, 1] {
        mapper.write_prg_rom_byte(0xDFFF, bit);
    }
    assert_eq!(mapper.control_state.chr_bank_1, 0x15);
    // 0b00110 into the PRG bank.
    for bit in [0u8, 1, 1, 0, 0] {
        mapper.write_prg_rom_byte(0xE000, bit);
    }
    assert_eq!(mapper.control_state.prg_bank, 0x06);
    // Control 0b00011: horizontal arrangement, 32 KB PRG, 8 KB CHR.
    for bit in [1u8, 1, 0, 0, 0] {
        mapper.write_prg_rom_byte(0x9FFF, bit);
    }
    assert_eq!(mapper.get_nametable_arrangement(), NametableArrangement::HorizontallyMirrored);
    assert_eq!(mapper.control_state.prg_bank_mode, PrgBankMode::Switch32Kb);
    assert_eq!(mapper.control_state.chr_bank_mode, ChrBankMode::Switch8Kb);
}

#[test]
fn mapper1_prg_ram_and_chr_writes() {
    let mut mapper = Mapper1::test_initialize();
    mapper.write_prg_ram_byte(0x6001, 0x42);
    assert_eq!(mapper.read_prg_ram_byte(0x6001), 0x42);
    assert_eq!(mapper.read_prg_ram_byte(0x7FFF), 0x00);
    mapper.write_chr_rom_byte(0x0010, 0x99);
    assert_eq!(mapper.read_chr_rom_byte(0x0010), 0x99);
    assert_eq!(mapper.read_prg_rom_byte(0x8000), 0x00);
}
