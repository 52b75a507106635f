use vstd::prelude::*;

verus! {

/// The cartridge mapper named by an iNES header.
#[derive(Debug, Clone, Copy, PartialEq, Eq, Structural)]
pub enum Mapper {
    Unknown(u8),
    Nrom,
}

/// How the four logical nametables map onto the PPU's nametable memory.
#[derive(Debug, Clone, Copy, PartialEq, Eq, Structural)]
pub enum NametableArrangement {
    VerticallyMirrored,
    HorizontallyMirrored,
    SingleScreenLo,
    SingleScreenHi,
}

/// Why a byte string is not an iNES image.
#[derive(Debug, Clone, Copy, PartialEq, Eq, Structural)]
pub enum RomError {
    /// The first four bytes are not `N`, `E`, `S`, 0x1A.
    BadMagic,
}

/// A parsed iNES (.nes) image.
pub struct NesRom {
    pub prg_rom_size: usize,
    pub chr_rom_size: usize,
    pub name_table_arrangement: NametableArrangement,
    pub alternative_name_table_arrangement: NametableArrangement,
    pub battery_backed_prg_ram: bool,
    pub trainer_data_present: bool,
    pub mapper: Mapper,
    pub prg_rom_data: Vec<u8>,
    pub chr_rom_data: Vec<u8>,
}

/// The iNES magic number: "NES" followed by the MS-DOS end-of-file marker.
pub open spec fn has_magic(data: Seq<u8>) -> bool {
    data.len() >= 4 && data[0] == 0x4E && data[1] == 0x45 && data[2] == 0x53 && data[3] == 0x1A
}

pub open spec fn spec_flag(b: u8, i: u8) -> bool {
    (b >> i) & 0x01 == 0x01
}

pub open spec fn spec_prg_rom_size(data: Seq<u8>) -> int {
    16384 * data[4]
}

pub open spec fn spec_chr_rom_size(data: Seq<u8>) -> int {
    8192 * data[5]
}

/// Where PRG-ROM starts: after the 16 header bytes and the 512-byte trainer,
/// when there is one.
pub open spec fn spec_prg_rom_offset(data: Seq<u8>) -> int {
    16 + if spec_flag(data[6], 2) { 512int } else { 0int }
}

pub open spec fn spec_chr_rom_offset(data: Seq<u8>) -> int {
    spec_prg_rom_offset(data) + spec_prg_rom_size(data)
}

pub open spec fn spec_arrangement(bit: bool) -> NametableArrangement {
    if bit {
        NametableArrangement::HorizontallyMirrored
    } else {
        NametableArrangement::VerticallyMirrored
    }
}

/// Mapper number: the high nibble of flags 7 plus the high nibble of flags 6.
pub open spec fn spec_mapper(data: Seq<u8>) -> Mapper {
    let value = (data[7] & 0xF0) + (data[6] >> 4u8);
    if value == 0 {
        Mapper::Nrom
    } else {
        Mapper::Unknown(value as u8)
    }
}

/// The image is long enough for every part that its header announces.
/// (Parsing a shorter image is out of bounds.)
pub open spec fn rom_fits(data: Seq<u8>) -> bool {
    &&& data.len() >= 4
    &&& has_magic(data) ==> {
        &&& data.len() >= 8
        &&& spec_chr_rom_offset(data) + spec_chr_rom_size(data) <= data.len()
    }
}

/// The mapper number is 16 times the high nibble of header byte 7 plus the
/// high nibble of byte 6; the low nibble of byte 6 (mirroring, battery,
/// trainer, four-screen bits) plays no part. Number 0 is NROM.
pub proof fn law_mapper_number(data: Seq<u8>, b6: u8)
    requires
        data.len() >= 8,
    ensures
        ({
            let number = 16 * (data[7] / 16) + data[6] / 16;
            spec_mapper(data) == if number == 0 {
                Mapper::Nrom
            } else {
                Mapper::Unknown(number as u8)
            }
        }),
        b6 / 16 == data[6] / 16 ==> spec_mapper(data.update(6, b6)) == spec_mapper(data),
{
    let f6 = data[6];
    let f7 = data[7];
    assert((f7 & 0xF0) + (f6 >> 4u8) == 16 * (f7 / 16) + f6 / 16) by (bit_vector);
    assert((f7 & 0xF0) + (b6 >> 4u8) == 16 * (f7 / 16) + b6 / 16) by (bit_vector);
    assert(data.update(6, b6)[7] == f7);
}

impl NesRom {
    /// Is `data` long enough for `from_bytes`: the magic number, and, for an
    /// iNES image, the header and the ROM sizes it gives?
    pub fn fits(data: &[u8]) -> (r: bool)
        ensures
            r == rom_fits(data@),
    {
        if data.len() < 4 {
            return false;
        }
        if !(data[0] == 0x4E && data[1] == 0x45 && data[2] == 0x53 && data[3] == 0x1A) {
            return true;
        }
        if data.len() < 8 {
            return false;
        }
        let prg_rom_size = 16384 * (data[4] as usize);
        let chr_rom_size = 8192 * (data[5] as usize);
        let trainer_num_bytes: usize = if (data[6] >> 2) & 0x01 == 0x01 {
            512
        } else {
            0
        };
        16 + trainer_num_bytes + prg_rom_size + chr_rom_size <= data.len()
    }

    /// Parses an iNES image held in memory.
    pub fn from_bytes(nes_rom_data: &[u8]) -> (r: Result<Self, RomError>)
        requires
            rom_fits(nes_rom_data@),
        ensures
            r is Err <==> !has_magic(nes_rom_data@),
            r is Err ==> r == Err::<Self, RomError>(RomError::BadMagic),
            r matches Ok(rom) ==> {
                let d = nes_rom_data@;
                &&& rom.prg_rom_size == spec_prg_rom_size(d)
                &&& rom.chr_rom_size == spec_chr_rom_size(d)
                &&& rom.name_table_arrangement == spec_arrangement(spec_flag(d[6], 0))
                &&& rom.alternative_name_table_arrangement == spec_arrangement(spec_flag(d[6], 3))
                &&& rom.battery_backed_prg_ram == spec_flag(d[6], 1)
                &&& rom.trainer_data_present == spec_flag(d[6], 2)
                &&& rom.mapper == spec_mapper(d)
                &&& rom.prg_rom_data@ == d.subrange(
                    spec_prg_rom_offset(d),
                    spec_prg_rom_offset(d) + spec_prg_rom_size(d),
                )
                &&& rom.chr_rom_data@ == d.subrange(
                    spec_chr_rom_offset(d),
                    spec_chr_rom_offset(d) + spec_chr_rom_size(d),
                )
            },
    {
        if !(nes_rom_data[0] == 0x4E && nes_rom_data[1] == 0x45 && nes_rom_data[2] == 0x53
            && nes_rom_data[3] == 0x1A) {
            return Err(RomError::BadMagic);
        }
        let prg_rom_size = 16384 * (nes_rom_data[4] as usize);  // 16 kb units
        let chr_rom_size = 8192 * (nes_rom_data[5] as usize);  // 8 kb units
        let flags_six = nes_rom_data[6];
        let flags_seven = nes_rom_data[7];
        let name_table_arrangement = if (flags_six & 0x01) == 0x01 {
            NametableArrangement::HorizontallyMirrored
        } else {
            NametableArrangement::VerticallyMirrored
        };
        let alternative_name_table_arrangement = if ((flags_six >> 3) & 0x01) == 0x01 {
            NametableArrangement::HorizontallyMirrored
        } else {
            NametableArrangement::VerticallyMirrored
        };
        let battery_backed_prg_ram = (flags_six >> 1) & 0x01 == 0x01;
        let trainer_data_present = (flags_six >> 2) & 0x01 == 0x01;
        proof {
            assert(flags_seven & 0xF0 <= 0xF0 && flags_six >> 4u8 <= 0x0F) by (bit_vector);
            assert((flags_six & 0x01) == (flags_six >> 0u8) & 0x01) by (bit_vector);
        }
        let mapper_value = (flags_seven & 0xF0) + (flags_six >> 4);
        let mapper = match mapper_value {
            0x00 => Mapper::Nrom,
            x => Mapper::Unknown(x),
        };
        let trainer_num_bytes: usize = if trainer_data_present { 512 } else { 0 };
        let prg_rom_offset = 16 + trainer_num_bytes;
        let chr_rom_offset = prg_rom_offset + prg_rom_size;
        let prg_rom_data = copy_range(nes_rom_data, prg_rom_offset, prg_rom_offset + prg_rom_size);
        let chr_rom_data = copy_range(nes_rom_data, chr_rom_offset, chr_rom_offset + chr_rom_size);
        Ok(
            Self {
                prg_rom_size,
                chr_rom_size,
                name_table_arrangement,
                alternative_name_table_arrangement,
                battery_backed_prg_ram,
                trainer_data_present,
                mapper,
                prg_rom_data,
                chr_rom_data,
            },
        )
    }
}

/// A copy of `data[start..end]`.
pub fn copy_range(data: &[u8], start: usize, end: usize) -> (r: Vec<u8>)
    requires
        start <= end <= data@.len(),
    ensures
        r@ == data@.subrange(start as int, end as int),
{
    let mut r: Vec<u8> = Vec::new();
    let mut i = start;
    while i < end
        invariant
            start <= i <= end <= data@.len(),
            r@ == data@.subrange(start as int, i as int),
        decreases end - i,
    {
        r.push(data[i]);
        i = i + 1;
        assert(r@ =~= data@.subrange(start as int, i as int));
    }
    r
}

} // verus!
