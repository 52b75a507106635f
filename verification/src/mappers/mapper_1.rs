use vstd::prelude::*;
use crate::mappers::mapper::Mapper;
use crate::memory::Segment;
use crate::rom::{NametableArrangement, NesRom};

verus! {

/// PRG-ROM bank mode: 0 and 1 switch 32 KB at $8000 (ignoring the low bit of
/// the bank number); 2 fixes the first bank at $8000 and switches 16 KB at
/// $C000; 3 fixes the last bank at $C000 and switches 16 KB at $8000.
#[derive(Clone, Copy, Debug, PartialEq, Eq, Structural)]
pub enum PrgBankMode {
    Switch32Kb,
    FixFirstBank,
    FixLastBank,
}

/// CHR-ROM bank mode: 0 switches 8 KB at a time; 1 switches two separate
/// 4 KB banks.
#[derive(Clone, Copy, Debug, PartialEq, Eq, Structural)]
pub enum ChrBankMode {
    Switch8Kb,
    Switch4Kb,
}

/// The internal register that a completed serial load goes to, chosen by
/// the address of its last write.
#[derive(Clone, Copy, Debug, PartialEq, Eq, Structural)]
pub enum Register {
    /// $8000-$9FFF
    Control,
    /// $A000-$BFFF
    ChrBank0,
    /// $C000-$DFFF
    ChrBank1,
    /// $E000-$FFFF
    PrgBank,
}

/// The register that a write to `address` ($8000-$FFFF) targets.
pub open spec fn register_for(address: u16) -> Register {
    if address < 0xA000 {
        Register::Control
    } else if address < 0xC000 {
        Register::ChrBank0
    } else if address < 0xE000 {
        Register::ChrBank1
    } else {
        Register::PrgBank
    }
}

/// The nametable arrangement that bits 1-0 of Control select.
pub open spec fn control_arrangement(value: u8) -> NametableArrangement {
    let mm = value & 0x03;
    if mm == 0 {
        NametableArrangement::SingleScreenLo
    } else if mm == 1 {
        NametableArrangement::SingleScreenHi
    } else if mm == 2 {
        NametableArrangement::VerticallyMirrored
    } else {
        NametableArrangement::HorizontallyMirrored
    }
}

/// The PRG-ROM bank mode that bits 3-2 of Control select.
pub open spec fn control_prg_mode(value: u8) -> PrgBankMode {
    let pp = (value >> 2u8) & 0x03;
    if pp <= 1 {
        PrgBankMode::Switch32Kb
    } else if pp == 2 {
        PrgBankMode::FixFirstBank
    } else {
        PrgBankMode::FixLastBank
    }
}

/// The CHR-ROM bank mode that bit 4 of Control selects.
pub open spec fn control_chr_mode(value: u8) -> ChrBankMode {
    if (value >> 4u8) & 0x01 == 0 {
        ChrBankMode::Switch8Kb
    } else {
        ChrBankMode::Switch4Kb
    }
}

/// The MMC1's registers and its serial shift register.
#[derive(Clone, Copy, Debug)]
pub struct ControlState {
    pub current_nt: NametableArrangement,
    pub prg_bank_mode: PrgBankMode,
    pub chr_bank_mode: ChrBankMode,
    pub chr_bank_0: u8,
    pub chr_bank_1: u8,
    pub prg_bank: u8,
    /// Bits shifted in so far (0 to 4).
    pub bit_count: u8,
    /// The bits shifted in so far, the latest at bit 4.
    pub data: u8,
}

impl ControlState {
    /// The state after a write with bit 7 set: the shift register is
    /// cleared and PRG-ROM bank mode 3 is selected; the rest stays.
    pub open spec fn spec_reset(self) -> Self {
        ControlState { prg_bank_mode: PrgBankMode::FixLastBank, bit_count: 0, data: 0, ..self }
    }

    /// The registers after Control is loaded with `value`.
    pub open spec fn spec_write_control(self, value: u8) -> Self {
        ControlState {
            current_nt: control_arrangement(value),
            prg_bank_mode: control_prg_mode(value),
            chr_bank_mode: control_chr_mode(value),
            ..self
        }
    }

    /// The registers after `register` is loaded with the 5-bit `value`.
    pub open spec fn spec_load(self, register: Register, value: u8) -> Self {
        match register {
            Register::Control => self.spec_write_control(value),
            Register::ChrBank0 => ControlState { chr_bank_0: value, ..self },
            Register::ChrBank1 => ControlState { chr_bank_1: value, ..self },
            Register::PrgBank => ControlState { prg_bank: value & 0x0F, ..self },
        }
    }

    /// The state after a write of `value` to `address` ($8000-$FFFF): a
    /// reset when bit 7 is set; else bit 0 is shifted in, and on the fifth
    /// bit the five bits go to the register that `address` selects.
    pub open spec fn spec_shift_in(self, address: u16, value: u8) -> Self {
        if value & 0x80 == 0x80 {
            self.spec_reset()
        } else {
            let data = ((value & 0x01) << 4u8) | (self.data >> 1u8);
            if self.bit_count + 1 < 5 {
                ControlState { data, bit_count: (self.bit_count + 1) as u8, ..self }
            } else {
                ControlState { data: 0, bit_count: 0, ..self }.spec_load(register_for(address), data)
            }
        }
    }

    /// Can the write be handled? A fifth bit that loads the PRG bank with
    /// bit 4 set (the PRG-RAM disable of MMC1B) is not supported.
    pub open spec fn spec_writable(self, address: u16, value: u8) -> bool {
        !(value & 0x80 == 0 && self.bit_count + 1 >= 5 && register_for(address) == Register::PrgBank
            && value & 0x01 == 0x01)
    }

    /// The shift register holds at most 4 bits.
    pub open spec fn wf(self) -> bool {
        self.bit_count < 5 && self.data < 32
    }

    /// Power-up state: one-screen (lower bank) arrangement, PRG-ROM bank mode
    /// 3, 8 KB CHR banks, all banks and the shift register zero.
    pub fn initialize() -> (r: Self)
        ensures
            r.wf(),
            r.current_nt == NametableArrangement::SingleScreenLo,
            r.prg_bank_mode == PrgBankMode::FixLastBank,
            r.chr_bank_mode == ChrBankMode::Switch8Kb,
            r.chr_bank_0 == 0 && r.chr_bank_1 == 0 && r.prg_bank == 0,
            r.bit_count == 0 && r.data == 0,
    {
        Self {
            current_nt: NametableArrangement::SingleScreenLo,
            prg_bank_mode: PrgBankMode::FixLastBank,
            chr_bank_mode: ChrBankMode::Switch8Kb,
            chr_bank_0: 0x00,
            chr_bank_1: 0x00,
            prg_bank: 0x00,
            bit_count: 0x00,
            data: 0x00,
        }
    }

    /// A write with bit 7 set: clears the shift register and selects PRG-ROM
    /// bank mode 3 (last bank fixed at $C000). The CHR-ROM bank mode and the
    /// nametable arrangement stay.
    pub fn reset(&mut self)
        ensures
            *final(self) == old(self).spec_reset(),
    {
        self.prg_bank_mode = PrgBankMode::FixLastBank;
        self.bit_count = 0;
        self.data = 0x00;
    }
}

/// Shifting bit 0 of `value` in at bit 4 of the 5-bit `data`.
pub proof fn lemma_shift_bits(value: u8, data: u8)
    by (bit_vector)
    requires
        data < 32,
    ensures
        ((value & 0x01) << 4u8) | (data >> 1u8) < 32,
        (value & 0x01 == 0x01) == ((((value & 0x01) << 4u8) | (data >> 1u8)) & 0x10 == 0x10),
        (value & 0x01 != 0x01) == ((((value & 0x01) << 4u8) | (data >> 1u8)) & 0x10 == 0),
        (value & 0x80 != 0x80) == (value & 0x80 == 0),
{
}

/// The offset into PRG-ROM that CPU `address` ($8000-$FFFF) maps to.
pub open spec fn mapped_prg_address(cs: ControlState, num_banks: usize, address: u16) -> int {
    let offset = address - 0x8000;
    match cs.prg_bank_mode {
        PrgBankMode::Switch32Kb => (cs.prg_bank & 0x0E) * 0x4000 + offset,
        PrgBankMode::FixFirstBank => if offset < 0x4000 {
            offset
        } else {
            (cs.prg_bank & 0x07) * 0x4000 + (offset - 0x4000)
        },
        PrgBankMode::FixLastBank => if offset < 0x4000 {
            (cs.prg_bank & 0x07) * 0x4000 + offset
        } else {
            (num_banks - 1) * 0x4000 + (offset - 0x4000)
        },
    }
}

/// The offset into CHR memory that PPU `address` ($0000-$1FFF) maps to.
pub open spec fn mapped_chr_address(cs: ControlState, address: u16) -> int {
    match cs.chr_bank_mode {
        ChrBankMode::Switch8Kb => (cs.chr_bank_0 & 0x0E) * 0x1000 + address,
        ChrBankMode::Switch4Kb => if address < 0x1000 {
            (cs.chr_bank_0 & 0x07) * 0x1000 + address
        } else {
            (cs.chr_bank_1 & 0x07) * 0x1000 + (address - 0x1000)
        },
    }
}

/// Mapper 1 (MMC1): registers loaded one bit per write through a serial
/// shift register, which switch PRG-ROM (16 or 32 KB), CHR memory (4 or
/// 8 KB) and the nametable arrangement; 8 KB of PRG-RAM at $6000-$7FFF.
///
/// Register writes at $8000-$FFFF: $8000-$9FFF Control, $A000-$BFFF CHR
/// bank 0, $C000-$DFFF CHR bank 1, $E000-$FFFF PRG bank.
pub struct Mapper1 {
    pub prg_rom: Segment<0x20000>,
    pub num_prg_rom_banks: usize,
    pub prg_ram: Segment<0x2000>,
    pub chr_rom: Segment<0x8000>,
    pub control_state: ControlState,
}

impl Mapper1 {
    /// The 128 KB of PRG-ROM.
    pub closed spec fn prg_rom_bytes(&self) -> Seq<u8> {
        self.prg_rom@
    }

    /// The 8 KB of PRG-RAM.
    pub closed spec fn prg_ram_bytes(&self) -> Seq<u8> {
        self.prg_ram@
    }

    /// The 32 KB of CHR memory.
    pub closed spec fn chr_rom_bytes(&self) -> Seq<u8> {
        self.chr_rom@
    }

    pub proof fn lemma_sizes(&self)
        ensures
            self.prg_rom_bytes().len() == 0x20000,
            self.prg_ram_bytes().len() == 0x2000,
            self.chr_rom_bytes().len() == 0x8000,
    {
        self.prg_rom.lemma_len();
        self.prg_ram.lemma_len();
        self.chr_rom.lemma_len();
    }

    /// Does the PRG address computation for `address` stay within the
    /// machine's range (and have a last bank to fix)?
    pub open spec fn prg_address_ok(&self, address: u16) -> bool {
        &&& 0x8000 <= address
        &&& self.control_state.prg_bank_mode == PrgBankMode::FixLastBank && address >= 0xC000
            ==> self.num_prg_rom_banks >= 1 && mapped_prg_address(
            self.control_state,
            self.num_prg_rom_banks,
            address,
        ) <= usize::MAX
    }

    /// Builds the mapper from a cartridge of at most 128 KB of PRG-ROM and
    /// 32 KB of CHR memory.
    pub fn from(rom: &NesRom) -> (r: Self)
        requires
            rom.prg_rom_data@.len() <= 0x20000,
            rom.chr_rom_data@.len() <= 0x8000,
        ensures
            r.wf(),
            r.prg_rom_bytes() == rom.prg_rom_data@ + Seq::new(
                (0x20000 - rom.prg_rom_data@.len()) as nat,
                |i: int| 0u8,
            ),
            r.chr_rom_bytes() == rom.chr_rom_data@ + Seq::new(
                (0x8000 - rom.chr_rom_data@.len()) as nat,
                |i: int| 0u8,
            ),
            r.prg_ram_bytes() == Seq::new(0x2000, |i: int| 0u8),
            r.num_prg_rom_banks == rom.prg_rom_size / 0x4000,
            r.control_state == ControlState::initialize_spec(),
    {
        let mut prg_rom = Segment::<0x20000>::initialize();
        let prg_ram = Segment::<0x2000>::initialize();
        let mut chr_rom = Segment::<0x8000>::initialize();
        let control_state = ControlState::initialize();

        prg_rom.write_bytes(0x00, rom.prg_rom_data.as_slice());
        let num_prg_rom_banks = rom.prg_rom_size / 0x4000;
        // CHR may be empty: the cartridge then has CHR-RAM.
        chr_rom.write_bytes(0x00, rom.chr_rom_data.as_slice());
        let r = Self { prg_rom, num_prg_rom_banks, prg_ram, chr_rom, control_state };
        assert(r.prg_rom_bytes() =~= rom.prg_rom_data@ + Seq::new(
            (0x20000 - rom.prg_rom_data@.len()) as nat,
            |i: int| 0u8,
        ));
        assert(r.chr_rom_bytes() =~= rom.chr_rom_data@ + Seq::new(
            (0x8000 - rom.chr_rom_data@.len()) as nat,
            |i: int| 0u8,
        ));
        r
    }

    /// An empty mapper with eight PRG-ROM banks, for tests.
    pub fn test_initialize() -> (r: Self)
        ensures
            r.wf(),
            r.prg_rom_bytes() == Seq::new(0x20000, |i: int| 0u8),
            r.chr_rom_bytes() == Seq::new(0x8000, |i: int| 0u8),
            r.prg_ram_bytes() == Seq::new(0x2000, |i: int| 0u8),
            r.num_prg_rom_banks == 8,
            r.control_state == ControlState::initialize_spec(),
    {
        let prg_rom = Segment::<0x20000>::initialize();
        let num_prg_rom_banks: usize = 8;
        let prg_ram = Segment::<0x2000>::initialize();
        let chr_rom = Segment::<0x8000>::initialize();
        let control_state = ControlState::initialize();
        Self { prg_rom, num_prg_rom_banks, prg_ram, chr_rom, control_state }
    }

    /// Loads Control: arrangement (bits 1-0), PRG-ROM bank mode (bits 3-2),
    /// CHR-ROM bank mode (bit 4).
    fn write_control(&mut self, value: u8)
        ensures
            *final(self) == (Mapper1 {
                control_state: old(self).control_state.spec_write_control(value),
                ..*old(self)
            }),
    {
        self.control_state.current_nt = match value & 0x03 {
            0x00 => NametableArrangement::SingleScreenLo,
            0x01 => NametableArrangement::SingleScreenHi,
            0x02 => NametableArrangement::VerticallyMirrored,
            _ => NametableArrangement::HorizontallyMirrored,
        };
        self.control_state.prg_bank_mode = match (value >> 2) & 0x03 {
            0x00 | 0x01 => PrgBankMode::Switch32Kb,
            0x02 => PrgBankMode::FixFirstBank,
            _ => PrgBankMode::FixLastBank,
        };
        self.control_state.chr_bank_mode = match (value >> 4) & 0x01 {
            0x00 => ChrBankMode::Switch8Kb,
            _ => ChrBankMode::Switch4Kb,
        };
    }

    /// Loads CHR bank 0: the 4 KB or 8 KB bank at PPU $0000 (low bit ignored
    /// in 8 KB mode).
    fn write_chr_bank_0(&mut self, value: u8)
        ensures
            *final(self) == (Mapper1 {
                control_state: ControlState { chr_bank_0: value, ..old(self).control_state },
                ..*old(self)
            }),
    {
        self.control_state.chr_bank_0 = value;
    }

    /// Loads CHR bank 1: the 4 KB bank at PPU $1000 (ignored in 8 KB mode).
    fn write_chr_bank_1(&mut self, value: u8)
        ensures
            *final(self) == (Mapper1 {
                control_state: ControlState { chr_bank_1: value, ..old(self).control_state },
                ..*old(self)
            }),
    {
        self.control_state.chr_bank_1 = value;
    }

    /// Loads the PRG bank: the 16 KB bank (low bit ignored in 32 KB mode).
    /// Bit 4 (PRG-RAM disable) is not supported.
    fn write_prg_bank(&mut self, value: u8)
        requires
            value & 0x10 == 0,
        ensures
            *final(self) == (Mapper1 {
                control_state: ControlState { prg_bank: value & 0x0F, ..old(self).control_state },
                ..*old(self)
            }),
    {
        self.control_state.prg_bank = value & 0x0F;
    }

    /// The offset into PRG-ROM of CPU `address` ($8000-$FFFF): one 32 KB
    /// bank, or a fixed and a switched 16 KB bank.
    pub fn get_mapped_prg_address(&self, address: u16) -> (r: usize)
        requires
            self.prg_address_ok(address),
        ensures
            r == mapped_prg_address(self.control_state, self.num_prg_rom_banks, address),
    {
        let mut offset_address = (address - 0x8000) as usize;
        let base_address = match self.control_state.prg_bank_mode {
            PrgBankMode::Switch32Kb => ((self.control_state.prg_bank & 0x0E) as usize) * 0x4000,
            PrgBankMode::FixFirstBank => {
                if offset_address < 0x4000 {
                    // The first bank.
                    0x0000
                } else {
                    offset_address = offset_address - 0x4000;
                    (self.control_state.prg_bank & 0x07) as usize * 0x4000
                }
            },
            PrgBankMode::FixLastBank => {
                if offset_address < 0x4000 {
                    (self.control_state.prg_bank & 0x07) as usize * 0x4000
                } else {
                    // The last bank.
                    offset_address = offset_address - 0x4000;
                    (self.num_prg_rom_banks - 1) * 0x4000
                }
            },
        };
        base_address + offset_address
    }

    /// The offset into CHR memory of PPU `address` ($0000-$1FFF): one 8 KB
    /// bank (low bit of CHR bank 0 ignored), or two 4 KB banks.
    pub fn get_mapped_chr_address(&self, address: u16) -> (r: usize)
        requires
            address < 0x2000,
        ensures
            r == mapped_chr_address(self.control_state, address),
    {
        let mut offset_address = address as usize;
        let base_address = match self.control_state.chr_bank_mode {
            ChrBankMode::Switch8Kb => ((self.control_state.chr_bank_0 & 0x0E) as usize) * 0x1000,
            ChrBankMode::Switch4Kb => {
                if offset_address < 0x1000 {
                    (self.control_state.chr_bank_0 & 0x07) as usize * 0x1000
                } else {
                    offset_address = offset_address - 0x1000;
                    (self.control_state.chr_bank_1 & 0x07) as usize * 0x1000
                }
            },
        };
        base_address + offset_address
    }

    /// Reads PRG-RAM at CPU `address` ($6000-$7FFF).
    pub fn read_prg_ram_byte(&self, address: u16) -> (r: u8)
        requires
            0x6000 <= address < 0x8000,
        ensures
            r == self.prg_ram_bytes()[address - 0x6000],
    {
        proof {
            self.lemma_sizes();
        }
        let ram_address = (address - 0x6000) as usize;
        self.prg_ram.read_byte(ram_address)
    }

    /// Writes PRG-RAM at CPU `address` ($6000-$7FFF).
    pub fn write_prg_ram_byte(&mut self, address: u16, value: u8)
        requires
            0x6000 <= address < 0x8000,
        ensures
            final(self).prg_ram_bytes() == old(self).prg_ram_bytes().update(address - 0x6000, value),
            final(self).prg_rom_bytes() == old(self).prg_rom_bytes(),
            final(self).chr_rom_bytes() == old(self).chr_rom_bytes(),
            final(self).num_prg_rom_banks == old(self).num_prg_rom_banks,
            final(self).control_state == old(self).control_state,
    {
        let ram_address = (address - 0x6000) as usize;
        self.prg_ram.write_byte(ram_address, value);
    }
}

impl ControlState {
    pub open spec fn initialize_spec() -> Self {
        ControlState {
            current_nt: NametableArrangement::SingleScreenLo,
            prg_bank_mode: PrgBankMode::FixLastBank,
            chr_bank_mode: ChrBankMode::Switch8Kb,
            chr_bank_0: 0,
            chr_bank_1: 0,
            prg_bank: 0,
            bit_count: 0,
            data: 0,
        }
    }
}

impl Mapper for Mapper1 {
    open spec fn wf(&self) -> bool {
        self.control_state.wf()
    }

    open spec fn prg_readable(&self, address: u16) -> bool {
        self.prg_address_ok(address) && mapped_prg_address(
            self.control_state,
            self.num_prg_rom_banks,
            address,
        ) < 0x20000
    }

    open spec fn prg_byte(&self, address: u16) -> u8 {
        self.prg_rom_bytes()[mapped_prg_address(self.control_state, self.num_prg_rom_banks, address)]
    }

    open spec fn chr_readable(&self, address: u16) -> bool {
        mapped_chr_address(self.control_state, address) < 0x8000
    }

    open spec fn chr_byte(&self, address: u16) -> u8 {
        self.chr_rom_bytes()[mapped_chr_address(self.control_state, address)]
    }

    open spec fn prg_writable(&self, address: u16, value: u8) -> bool {
        self.control_state.spec_writable(address, value)
    }

    open spec fn prg_written(&self, address: u16, value: u8) -> Self {
        Mapper1 { control_state: self.control_state.spec_shift_in(address, value), ..*self }
    }

    closed spec fn chr_written(&self, address: u16, value: u8) -> Self {
        Mapper1 {
            chr_rom: Segment::spec_with(
                self.chr_rom,
                mapped_chr_address(self.control_state, address),
                value,
            ),
            ..*self
        }
    }

    open spec fn arrangement(&self) -> NametableArrangement {
        self.control_state.current_nt
    }

    fn read_prg_rom_byte(&self, address: u16) -> (r: u8) {
        proof {
            self.lemma_sizes();
        }
        self.prg_rom.read_byte(self.get_mapped_prg_address(address))
    }

    fn read_chr_rom_byte(&self, address: u16) -> (r: u8) {
        proof {
            self.lemma_sizes();
        }
        self.chr_rom.read_byte(self.get_mapped_chr_address(address))
    }

    /// One write of a serial load: a reset when bit 7 is set; else bit 0 is
    /// shifted in, and the fifth bit sends the five bits to the register
    /// that `address` selects.
    fn write_prg_rom_byte(&mut self, address: u16, value: u8) {
        proof {
            lemma_shift_bits(value, self.control_state.data);
        }
        if value & 0x80 == 0x80 {
            self.control_state.reset();
            return;
        }
        // The new bit goes in at bit 4: data abc00 with bit 1 becomes 1abc0.
        self.control_state.data = ((value & 0x01) << 4) | (self.control_state.data >> 1);
        self.control_state.bit_count = self.control_state.bit_count + 1;
        if self.control_state.bit_count < 5 {
            return;
        }
        // Five bits are in: clear the shift register and load the register
        // that the address selects.
        let data = self.control_state.data;
        self.control_state.data = 0x00;
        self.control_state.bit_count = 0;
        let register = if address < 0xA000 {
            Register::Control
        } else if address < 0xC000 {
            Register::ChrBank0
        } else if address < 0xE000 {
            Register::ChrBank1
        } else {
            Register::PrgBank
        };
        match register {
            Register::Control => self.write_control(data),
            Register::ChrBank0 => self.write_chr_bank_0(data),
            Register::ChrBank1 => self.write_chr_bank_1(data),
            Register::PrgBank => self.write_prg_bank(data),
        }
    }

    fn write_chr_rom_byte(&mut self, address: u16, value: u8) {
        proof {
            self.lemma_sizes();
        }
        let mapped = self.get_mapped_chr_address(address);
        self.chr_rom.write_byte(mapped, value);
    }

    fn get_nametable_arrangement(&self) -> (r: NametableArrangement) {
        self.control_state.current_nt
    }
}

/// Shifting in the low bits of five values, starting from an empty register.
proof fn lemma_five_shifts(v0: u8, v1: u8, v2: u8, v3: u8, v4: u8)
    by (bit_vector)
    ensures
        ({
            let d1 = ((v0 & 0x01) << 4u8) | (0u8 >> 1u8);
            let d2 = ((v1 & 0x01) << 4u8) | (d1 >> 1u8);
            let d3 = ((v2 & 0x01) << 4u8) | (d2 >> 1u8);
            let d4 = ((v3 & 0x01) << 4u8) | (d3 >> 1u8);
            let d5 = ((v4 & 0x01) << 4u8) | (d4 >> 1u8);
            d5 == (v0 & 0x01) | ((v1 & 0x01) << 1u8) | ((v2 & 0x01) << 2u8) | ((v3 & 0x01) << 3u8) | ((
            v4 & 0x01) << 4u8)
        }),
{
}

/// The 5-bit value that five serial writes carry: bit 0 of each, the first
/// write lowest.
pub open spec fn serial_value(v0: u8, v1: u8, v2: u8, v3: u8, v4: u8) -> u8 {
    (v0 & 0x01) | ((v1 & 0x01) << 1u8) | ((v2 & 0x01) << 2u8) | ((v3 & 0x01) << 3u8) | ((v4 & 0x01)
        << 4u8)
}

/// Five writes with bit 7 clear, starting with an empty shift register, load
/// the register that the fifth write's address selects with bit 0 of each
/// write (the first write lowest), and leave the shift register empty; the
/// addresses of the first four writes do not matter.
pub proof fn law_serial_load(
    cs: ControlState,
    addresses: (u16, u16, u16, u16, u16),
    v0: u8,
    v1: u8,
    v2: u8,
    v3: u8,
    v4: u8,
)
    requires
        cs.bit_count == 0,
        cs.data == 0,
        v0 & 0x80 == 0,
        v1 & 0x80 == 0,
        v2 & 0x80 == 0,
        v3 & 0x80 == 0,
        v4 & 0x80 == 0,
    ensures
        cs.spec_shift_in(addresses.0, v0).spec_shift_in(addresses.1, v1).spec_shift_in(
            addresses.2,
            v2,
        ).spec_shift_in(addresses.3, v3).spec_shift_in(addresses.4, v4) == cs.spec_load(
            register_for(addresses.4),
            serial_value(v0, v1, v2, v3, v4),
        ),
{
    lemma_five_shifts(v0, v1, v2, v3, v4);
    assert(v0 & 0x80 != 0x80 && v1 & 0x80 != 0x80 && v2 & 0x80 != 0x80 && v3 & 0x80 != 0x80 && v4
        & 0x80 != 0x80) by (bit_vector)
        requires
            v0 & 0x80 == 0,
            v1 & 0x80 == 0,
            v2 & 0x80 == 0,
            v3 & 0x80 == 0,
            v4 & 0x80 == 0,
    ;
}

proof fn lemma_control_bits(value: u8)
    by (bit_vector)
    ensures
        ((value >> 2u8) & 0x03 == 3) == (value & 0x0C == 0x0C),
        ((value >> 2u8) & 0x03 == 2) == (value & 0x0C == 0x08),
        ((value >> 2u8) & 0x03 <= 1) == (value & 0x08 == 0),
        ((value >> 4u8) & 0x01 == 0) == (value & 0x10 == 0),
{
}

/// Loading Control with `value` sets three things and nothing else.
/// Bits 1-0 pick the arrangement: 0 one screen (lower bank), 1 one screen
/// (upper bank), 2 vertical mirroring, 3 horizontal mirroring. Bits 3-2 pick
/// the PRG-ROM mode: with 3 the last bank is fixed at $C000 and the PRG bank
/// register switches $8000-$BFFF; with 2 the first bank is fixed at $8000 and
/// the register switches $C000-$FFFF; with 0 or 1 32 KB switch together.
/// Bit 4 picks 4 KB CHR banks when set, 8 KB when clear.
pub proof fn law_control_load(cs: ControlState, value: u8, num_banks: usize, address: u16)
    requires
        0x8000 <= address,
    ensures
        ({
            let c = cs.spec_load(Register::Control, value);
            &&& value & 0x03 == 0 ==> c.current_nt == NametableArrangement::SingleScreenLo
            &&& value & 0x03 == 1 ==> c.current_nt == NametableArrangement::SingleScreenHi
            &&& value & 0x03 == 2 ==> c.current_nt == NametableArrangement::VerticallyMirrored
            &&& value & 0x03 == 3 ==> c.current_nt == NametableArrangement::HorizontallyMirrored
            &&& value & 0x0C == 0x0C ==> {
                &&& c.prg_bank_mode == PrgBankMode::FixLastBank
                &&& address >= 0xC000 ==> mapped_prg_address(c, num_banks, address) == (num_banks - 1)
                    * 0x4000 + (address - 0xC000)
                &&& address < 0xC000 ==> mapped_prg_address(c, num_banks, address) == (cs.prg_bank
                    & 0x07) * 0x4000 + (address - 0x8000)
            }
            &&& value & 0x0C == 0x08 ==> {
                &&& c.prg_bank_mode == PrgBankMode::FixFirstBank
                &&& address < 0xC000 ==> mapped_prg_address(c, num_banks, address) == address - 0x8000
                &&& address >= 0xC000 ==> mapped_prg_address(c, num_banks, address) == (cs.prg_bank
                    & 0x07) * 0x4000 + (address - 0xC000)
            }
            &&& value & 0x08 == 0 ==> c.prg_bank_mode == PrgBankMode::Switch32Kb
            &&& (value & 0x10 != 0) == (c.chr_bank_mode == ChrBankMode::Switch4Kb)
            &&& c.chr_bank_0 == cs.chr_bank_0 && c.chr_bank_1 == cs.chr_bank_1
            &&& c.prg_bank == cs.prg_bank
            &&& c.bit_count == cs.bit_count && c.data == cs.data
        }),
{
    lemma_control_bits(value);
}

impl Mapper1 {
    /// A write of CHR memory is read back through the same banks, and leaves
    /// the registers as they were.
    pub proof fn law_chr_read_after_write(&self, address: u16, value: u8)
        requires
            address < 0x2000,
            self.chr_readable(address),
        ensures
            self.chr_written(address, value).chr_byte(address) == value,
            self.chr_written(address, value).control_state == self.control_state,
    {
        self.lemma_sizes();
        Segment::lemma_spec_with(
            self.chr_rom,
            mapped_chr_address(self.control_state, address),
            value,
        );
    }
}

} // verus!
