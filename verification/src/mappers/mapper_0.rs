use vstd::prelude::*;
use crate::mappers::mapper::Mapper;
use crate::memory::Segment;
use crate::rom::{NametableArrangement, NesRom};

verus! {

/// The 32 KB that NROM maps at CPU $8000-$FFFF: a 32 KB image as it is, a
/// 16 KB image twice.
pub open spec fn nrom_prg_image(prg: Seq<u8>) -> Seq<u8> {
    if prg.len() == 0x4000 {
        prg + prg
    } else {
        prg
    }
}

/// Mapper 0 (NROM): a fixed mapping of CPU $8000-$FFFF onto PRG-ROM and of
/// PPU $0000-$1FFF onto CHR memory.
///
/// CPU $8000-$BFFF and $C000-$FFFF: the two 16 KB halves of `prg_rom_data`;
/// PPU $0000-$1FFF: `chr_rom_data`.
pub struct Mapper0 {
    chr_rom_data: Segment<0x2000>,
    prg_rom_data: Segment<0x8000>,
    nametable_arrangement: NametableArrangement,
}

impl Mapper0 {
    /// The 32 KB mapped at $8000-$FFFF.
    pub closed spec fn prg_bytes(&self) -> Seq<u8> {
        self.prg_rom_data@
    }

    /// The 8 KB of CHR memory.
    pub closed spec fn chr_bytes(&self) -> Seq<u8> {
        self.chr_rom_data@
    }

    pub proof fn lemma_sizes(&self)
        ensures
            self.prg_bytes().len() == 0x8000,
            self.chr_bytes().len() == 0x2000,
    {
        self.prg_rom_data.lemma_len();
        self.chr_rom_data.lemma_len();
    }

    /// Builds the mapper from a cartridge with 8 KB of CHR-ROM and 16 KB or
    /// 32 KB of PRG-ROM.
    pub fn from(rom: &NesRom) -> (r: Self)
        requires
            rom.chr_rom_data@.len() == 0x2000,
            rom.prg_rom_data@.len() == 0x4000 || rom.prg_rom_data@.len() == 0x8000,
        ensures
            r.prg_bytes() == nrom_prg_image(rom.prg_rom_data@),
            r.chr_bytes() == rom.chr_rom_data@,
            r.arrangement() == rom.name_table_arrangement,
    {
        let mut chr_rom_data = Segment::<0x2000>::initialize();
        let mut prg_rom_data = Segment::<0x8000>::initialize();
        let nametable_arrangement = rom.name_table_arrangement;

        chr_rom_data.write_bytes(0x0000, rom.chr_rom_data.as_slice());
        if rom.prg_rom_data.len() == 0x4000 {
            // A 16 KB image fills both halves.
            prg_rom_data.write_bytes(0x0000, rom.prg_rom_data.as_slice());
            prg_rom_data.write_bytes(0x4000, rom.prg_rom_data.as_slice());
        } else {
            prg_rom_data.write_bytes(0x0000, rom.prg_rom_data.as_slice());
        }
        let r = Self { chr_rom_data, prg_rom_data, nametable_arrangement };
        assert(r.chr_bytes() =~= rom.chr_rom_data@);
        assert(r.prg_bytes() =~= nrom_prg_image(rom.prg_rom_data@));
        r
    }

    /// An empty mapper (zeroed memory, horizontal arrangement) for tests.
    pub fn test_initialize() -> (r: Self)
        ensures
            r.prg_bytes() == Seq::new(0x8000, |i: int| 0u8),
            r.chr_bytes() == Seq::new(0x2000, |i: int| 0u8),
            r.arrangement() == NametableArrangement::HorizontallyMirrored,
    {
        let chr_rom_data = Segment::<0x2000>::initialize();
        let prg_rom_data = Segment::<0x8000>::initialize();
        let nametable_arrangement = NametableArrangement::HorizontallyMirrored;
        Self { chr_rom_data, prg_rom_data, nametable_arrangement }
    }
}

impl Mapper for Mapper0 {
    open spec fn wf(&self) -> bool {
        true
    }

    open spec fn prg_readable(&self, address: u16) -> bool {
        true
    }

    open spec fn prg_byte(&self, address: u16) -> u8 {
        self.prg_bytes()[address - 0x8000]
    }

    open spec fn chr_readable(&self, address: u16) -> bool {
        true
    }

    open spec fn chr_byte(&self, address: u16) -> u8 {
        self.chr_bytes()[address as int]
    }

    open spec fn prg_writable(&self, address: u16, value: u8) -> bool {
        true
    }

    /// NROM has no registers: writes change nothing.
    open spec fn prg_written(&self, address: u16, value: u8) -> Self {
        *self
    }

    closed spec fn chr_written(&self, address: u16, value: u8) -> Self {
        Mapper0 { chr_rom_data: Segment::spec_with(self.chr_rom_data, address as int, value), ..*self }
    }

    closed spec fn arrangement(&self) -> NametableArrangement {
        self.nametable_arrangement
    }

    fn read_prg_rom_byte(&self, address: u16) -> (r: u8) {
        proof {
            self.lemma_sizes();
        }
        let shifted_address = (address - 0x8000) as usize;
        self.prg_rom_data.read_byte(shifted_address)
    }

    fn read_chr_rom_byte(&self, address: u16) -> (r: u8) {
        self.chr_rom_data.read_byte(address as usize)
    }

    fn write_prg_rom_byte(&mut self, address: u16, value: u8) {
        // No bank switching on NROM.
    }

    fn write_chr_rom_byte(&mut self, address: u16, value: u8) {
        self.chr_rom_data.write_byte(address as usize, value);
    }

    fn get_nametable_arrangement(&self) -> (r: NametableArrangement) {
        self.nametable_arrangement
    }
}

impl Mapper0 {
    /// A write of CHR memory is read back, and leaves the other CHR bytes,
    /// PRG-ROM and the arrangement as they were.
    pub proof fn law_chr_read_after_write(&self, address: u16, other: u16, value: u8)
        requires
            address < 0x2000,
            other < 0x2000,
        ensures
            self.chr_written(address, value).chr_byte(address) == value,
            other != address ==> self.chr_written(address, value).chr_byte(other) == self.chr_byte(
                other,
            ),
            self.chr_written(address, value).prg_bytes() == self.prg_bytes(),
            self.chr_written(address, value).arrangement() == self.arrangement(),
    {
        self.lemma_sizes();
        Segment::lemma_spec_with(self.chr_rom_data, address as int, value);
    }
}

} // verus!
