use vstd::prelude::*;
use crate::mappers::mapper_0::{nrom_prg_image, Mapper0};
use crate::rom::{Mapper as MapperName, NametableArrangement, NesRom};

verus! {

/// A cartridge mapper, described by what its reads give back and what its
/// writes change.
pub trait Mapper: Sized {
    /// The mapper's internal invariant.
    spec fn wf(&self) -> bool;

    /// Can a PRG-ROM read at `address` ($8000-$FFFF) be served by the
    /// currently mapped banks?
    spec fn prg_readable(&self, address: u16) -> bool;

    /// The byte that a PRG-ROM read at `address` gives.
    spec fn prg_byte(&self, address: u16) -> u8;

    /// Can CHR memory at `address` ($0000-$1FFF) be reached through the
    /// currently mapped banks?
    spec fn chr_readable(&self, address: u16) -> bool;

    /// The byte of CHR memory at `address`.
    spec fn chr_byte(&self, address: u16) -> u8;

    /// Can `value` be written to `address` ($8000-$FFFF)?
    spec fn prg_writable(&self, address: u16, value: u8) -> bool;

    /// The mapper after a write of `value` to `address` ($8000-$FFFF).
    spec fn prg_written(&self, address: u16, value: u8) -> Self;

    /// The mapper after a write of `value` to CHR memory at `address`.
    spec fn chr_written(&self, address: u16, value: u8) -> Self;

    /// The nametable arrangement that the mapper currently selects.
    spec fn arrangement(&self) -> NametableArrangement;

    /// Reads a byte of PRG-ROM through the current banks; `address` is the
    /// CPU address, in $8000-$FFFF.
    fn read_prg_rom_byte(&self, address: u16) -> (r: u8)
        requires
            self.wf(),
            0x8000 <= address,
            self.prg_readable(address),
        ensures
            r == self.prg_byte(address),
    ;

    /// Reads a byte of CHR memory through the current banks; `address` is in
    /// $0000-$1FFF.
    fn read_chr_rom_byte(&self, address: u16) -> (r: u8)
        requires
            self.wf(),
            address < 0x2000,
            self.chr_readable(address),
        ensures
            r == self.chr_byte(address),
    ;

    /// A write to PRG-ROM space: read-only memory, but the write may switch
    /// banks or change the mapper's state.
    fn write_prg_rom_byte(&mut self, address: u16, value: u8)
        requires
            old(self).wf(),
            0x8000 <= address,
            old(self).prg_writable(address, value),
        ensures
            final(self).wf(),
            *final(self) == old(self).prg_written(address, value),
    ;

    /// Writes a byte of CHR memory through the current banks.
    fn write_chr_rom_byte(&mut self, address: u16, value: u8)
        requires
            old(self).wf(),
            address < 0x2000,
            old(self).chr_readable(address),
        ensures
            final(self).wf(),
            *final(self) == old(self).chr_written(address, value),
    ;

    /// The current nametable arrangement (fixed for most cartridges; some
    /// mappers switch it).
    fn get_nametable_arrangement(&self) -> (r: NametableArrangement)
        ensures
            r == self.arrangement(),
    ;
}

/// Can the mapper that `rom` names be built from it? Only NROM is
/// supported, with its sizes.
pub open spec fn mapper_supported(rom: &NesRom) -> bool {
    &&& rom.mapper == MapperName::Nrom
    &&& rom.chr_rom_data@.len() == 0x2000
    &&& (rom.prg_rom_data@.len() == 0x4000 || rom.prg_rom_data@.len() == 0x8000)
}

/// The mapper that the cartridge's header names.
pub fn get_mapper(rom: &NesRom) -> (r: Mapper0)
    requires
        mapper_supported(rom),
    ensures
        r.wf(),
        r.prg_bytes() == nrom_prg_image(rom.prg_rom_data@),
        r.chr_bytes() == rom.chr_rom_data@,
        r.arrangement() == rom.name_table_arrangement,
{
    Mapper0::from(rom)
}

} // verus!
