use vstd::prelude::*;
use crate::mappers::mapper::Mapper;
use crate::memory::Segment;
use crate::rom::{NametableArrangement, NesRom};

verus! {

/// The number of 16 KB banks that `size` bytes of PRG-ROM make up (a
/// partial bank counts).
pub open spec fn bank_count(size: usize) -> int {
    (size + 0x3FFF) / 0x4000
}

/// Mapper 2 (UxROM): fixed CHR memory; CPU $8000-$BFFF switches between the
/// 16 KB PRG-ROM banks, $C000-$FFFF is fixed to the last one.
///
/// A write to $8000-$FFFF selects the bank: bits 3-0 of the value.
pub struct Mapper2 {
    pub chr_rom_data: Segment<0x2000>,
    pub prg_rom_banks: Vec<Segment<0x4000>>,
    pub current_bank: u8,
    pub fixed_bank: Segment<0x4000>,
    pub nametable_arrangement: NametableArrangement,
}

impl Mapper2 {
    /// The bytes of switchable bank `i`.
    pub open spec fn bank_bytes(&self, i: int) -> Seq<u8> {
        self.prg_rom_banks@[i]@
    }

    /// Builds the mapper from a cartridge: PRG-ROM cut into 16 KB banks, the
    /// last 16 KB also in the fixed bank; CHR-ROM if it is 8 KB (else the
    /// cartridge has CHR-RAM, which starts zeroed).
    pub fn from(rom: &NesRom) -> (r: Self)
        requires
            0x4000 <= rom.prg_rom_size <= rom.prg_rom_data@.len(),
            bank_count(rom.prg_rom_size) * 0x4000 <= rom.prg_rom_data@.len(),
        ensures
            r.prg_rom_banks@.len() == bank_count(rom.prg_rom_size),
            forall|i: int|
                0 <= i < r.prg_rom_banks@.len() ==> #[trigger] r.bank_bytes(i)
                    == rom.prg_rom_data@.subrange(i * 0x4000, i * 0x4000 + 0x4000),
            r.fixed_bank@ == rom.prg_rom_data@.subrange(
                rom.prg_rom_size - 0x4000,
                rom.prg_rom_size as int,
            ),
            r.chr_rom_data@ == if rom.chr_rom_data@.len() == 0x2000 {
                rom.chr_rom_data@
            } else {
                Seq::new(0x2000, |i: int| 0u8)
            },
            r.current_bank == 0,
            r.nametable_arrangement == rom.name_table_arrangement,
    {
        let mut chr_rom_data = Segment::<0x2000>::initialize();
        let mut prg_rom_banks: Vec<Segment<0x4000>> = Vec::new();
        let mut fixed_bank = Segment::<0x4000>::initialize();
        let current_bank: u8 = 0x00;
        let nametable_arrangement = rom.name_table_arrangement;

        if rom.chr_rom_data.len() == 0x2000 {
            chr_rom_data.write_bytes(0x0000, rom.chr_rom_data.as_slice());
            assert(chr_rom_data@ =~= rom.chr_rom_data@);
        }
        let data = rom.prg_rom_data.as_slice();
        let data_len = data.len();
        let mut i: usize = 0;
        while i < rom.prg_rom_size
            invariant
                i % 0x4000 == 0,
                i <= bank_count(rom.prg_rom_size) * 0x4000,
                bank_count(rom.prg_rom_size) * 0x4000 <= data_len,
                data_len == data@.len(),
                data@ == rom.prg_rom_data@,
                prg_rom_banks@.len() == i / 0x4000,
                i < rom.prg_rom_size ==> i + 0x4000 <= bank_count(rom.prg_rom_size) * 0x4000,
                forall|j: int|
                    0 <= j < prg_rom_banks@.len() ==> #[trigger] prg_rom_banks@[j]@
                        == data@.subrange(j * 0x4000, j * 0x4000 + 0x4000),
            decreases bank_count(rom.prg_rom_size) * 0x4000 - i,
        {
            let mut prg_rom_segment = Segment::<0x4000>::initialize();
            prg_rom_segment.write_bytes(0x0000, vstd::slice::slice_subrange(data, i, i + 0x4000));
            assert(prg_rom_segment@ =~= data@.subrange(i as int, i + 0x4000));
            prg_rom_banks.push(prg_rom_segment);
            i = i + 0x4000;
            assert(i < rom.prg_rom_size ==> i + 0x4000 <= bank_count(rom.prg_rom_size) * 0x4000)
                by (nonlinear_arith)
                requires
                    i % 0x4000 == 0,
                    i <= bank_count(rom.prg_rom_size) * 0x4000,
                    bank_count(rom.prg_rom_size) == (rom.prg_rom_size + 0x3FFF) / 0x4000,
            ;
        }
        assert(prg_rom_banks@.len() == bank_count(rom.prg_rom_size)) by (nonlinear_arith)
            requires
                i % 0x4000 == 0,
                i >= rom.prg_rom_size,
                i <= bank_count(rom.prg_rom_size) * 0x4000,
                prg_rom_banks@.len() == i / 0x4000,
                bank_count(rom.prg_rom_size) == (rom.prg_rom_size + 0x3FFF) / 0x4000,
        ;
        // The last 16 KB is the fixed bank.
        fixed_bank.write_bytes(
            0x0000,
            vstd::slice::slice_subrange(data, rom.prg_rom_size - 0x4000, rom.prg_rom_size),
        );
        assert(fixed_bank@ =~= rom.prg_rom_data@.subrange(
            rom.prg_rom_size - 0x4000,
            rom.prg_rom_size as int,
        ));
        Self { chr_rom_data, prg_rom_banks, current_bank, fixed_bank, nametable_arrangement }
    }
}

impl Mapper for Mapper2 {
    open spec fn wf(&self) -> bool {
        true
    }

    /// The switched bank must exist.
    open spec fn prg_readable(&self, address: u16) -> bool {
        address >= 0xC000 || self.current_bank < self.prg_rom_banks@.len()
    }

    open spec fn prg_byte(&self, address: u16) -> u8 {
        if address < 0xC000 {
            self.bank_bytes(self.current_bank as int)[address - 0x8000]
        } else {
            self.fixed_bank@[address - 0xC000]
        }
    }

    open spec fn chr_readable(&self, address: u16) -> bool {
        true
    }

    open spec fn chr_byte(&self, address: u16) -> u8 {
        self.chr_rom_data@[address as int]
    }

    open spec fn prg_writable(&self, address: u16, value: u8) -> bool {
        true
    }

    /// A write selects the bank at $8000: bits 3-0 of the value.
    open spec fn prg_written(&self, address: u16, value: u8) -> Self {
        Mapper2 { current_bank: value & 0x0F, ..*self }
    }

    open spec fn chr_written(&self, address: u16, value: u8) -> Self {
        Mapper2 { chr_rom_data: Segment::spec_with(self.chr_rom_data, address as int, value), ..*self }
    }

    open spec fn arrangement(&self) -> NametableArrangement {
        self.nametable_arrangement
    }

    fn read_prg_rom_byte(&self, address: u16) -> (r: u8) {
        if address < 0xC000 {
            let shifted_address = (address - 0x8000) as usize;
            proof {
                self.prg_rom_banks@[self.current_bank as int].lemma_len();
            }
            self.prg_rom_banks[self.current_bank as usize].read_byte(shifted_address)
        } else {
            // The fixed bank.
            let shifted_address = (address - 0xC000) as usize;
            self.fixed_bank.read_byte(shifted_address)
        }
    }

    fn read_chr_rom_byte(&self, address: u16) -> (r: u8) {
        self.chr_rom_data.read_byte(address as usize)
    }

    fn write_prg_rom_byte(&mut self, address: u16, value: u8) {
        self.current_bank = value & 0x0F;
    }

    fn write_chr_rom_byte(&mut self, address: u16, value: u8) {
        self.chr_rom_data.write_byte(address as usize, value);
    }

    fn get_nametable_arrangement(&self) -> (r: NametableArrangement) {
        self.nametable_arrangement
    }
}

impl Mapper2 {
    /// A bank select is read back: $8000-$BFFF then shows the selected bank
    /// (bits 3-0 of the value), and $C000-$FFFF still the fixed bank.
    pub proof fn law_bank_select(&self, address: u16, value: u8, read: u16)
        requires
            0x8000 <= read,
        ensures
            read < 0xC000 ==> self.prg_written(address, value).prg_byte(read) == self.bank_bytes(
                (value & 0x0F) as int,
            )[read - 0x8000],
            read >= 0xC000 ==> self.prg_written(address, value).prg_byte(read) == self.prg_byte(read),
    {
    }

    /// A write of CHR memory is read back.
    pub proof fn law_chr_read_after_write(&self, address: u16, value: u8)
        requires
            address < 0x2000,
        ensures
            self.chr_written(address, value).chr_byte(address) == value,
    {
        self.chr_rom_data.lemma_len();
        Segment::lemma_spec_with(self.chr_rom_data, address as int, value);
    }
}

} // verus!
