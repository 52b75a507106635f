use vstd::prelude::*;
use crate::bits::{bit_set, bit_value, lemma_byte_bits};
use crate::memory::Segment;
use crate::ppu_registers::{PpuControl, PpuMask};
use crate::rom::NametableArrangement;

verus! {

pub const PRERENDER_SCANLINE: usize = 261;
pub const NUM_SCANLINES: usize = 262;
pub const NUM_DOTS: usize = 341;
pub const BG_PALETTE_RAM: u16 = 0x3F00;
pub const SPRITE_PALETTE_RAM: u16 = 0x3F10;

/// A red-green-blue pixel.
#[derive(Clone, Copy, Debug, Default, PartialEq, Eq, Structural)]
pub struct Pixel(pub u8, pub u8, pub u8);

/// The NES system palette: the color of each of the 64 color indices.
pub open spec fn system_color(color_index: u8) -> Pixel {
    match color_index {
        0 => Pixel(0x75, 0x75, 0x75),
        1 => Pixel(0x27, 0x1B, 0x8F),
        2 => Pixel(0x00, 0x00, 0xAB),
        3 => Pixel(0x47, 0x00, 0x9F),
        4 => Pixel(0x8F, 0x00, 0x77),
        5 => Pixel(0xAB, 0x00, 0x13),
        6 => Pixel(0xA7, 0x00, 0x00),
        7 => Pixel(0x7F, 0x0B, 0x00),
        8 => Pixel(0x43, 0x2F, 0x00),
        9 => Pixel(0x00, 0x47, 0x00),
        10 => Pixel(0x00, 0x51, 0x00),
        11 => Pixel(0x00, 0x3F, 0x17),
        12 => Pixel(0x1B, 0x3F, 0x5F),
        13 => Pixel(0x00, 0x00, 0x00),
        14 => Pixel(0x00, 0x00, 0x00),
        15 => Pixel(0x00, 0x00, 0x00),
        16 => Pixel(0xBC, 0xBC, 0xBC),
        17 => Pixel(0x00, 0x73, 0xEF),
        18 => Pixel(0x23, 0x3B, 0xEF),
        19 => Pixel(0x83, 0x00, 0xF3),
        20 => Pixel(0xBF, 0x00, 0xBF),
        21 => Pixel(0xE7, 0x00, 0x5B),
        22 => Pixel(0xDB, 0x2B, 0x00),
        23 => Pixel(0xCB, 0x4F, 0x0F),
        24 => Pixel(0x8B, 0x73, 0x00),
        25 => Pixel(0x00, 0x97, 0x00),
        26 => Pixel(0x00, 0xAB, 0x00),
        27 => Pixel(0x00, 0x93, 0x3B),
        28 => Pixel(0x00, 0x83, 0x8B),
        29 => Pixel(0x00, 0x00, 0x00),
        30 => Pixel(0x00, 0x00, 0x00),
        31 => Pixel(0x00, 0x00, 0x00),
        32 => Pixel(0xFF, 0xFF, 0xFF),
        33 => Pixel(0x3F, 0xBF, 0xFF),
        34 => Pixel(0x5F, 0x97, 0xFF),
        35 => Pixel(0xA7, 0x8B, 0xFD),
        36 => Pixel(0xF7, 0x7B, 0xFF),
        37 => Pixel(0xFF, 0x77, 0xB7),
        38 => Pixel(0xFF, 0x77, 0x63),
        39 => Pixel(0xFF, 0x9B, 0x3B),
        40 => Pixel(0xF3, 0xBF, 0x3F),
        41 => Pixel(0x83, 0xD3, 0x13),
        42 => Pixel(0x4F, 0xDF, 0x4B),
        43 => Pixel(0x58, 0xF8, 0x98),
        44 => Pixel(0x00, 0xEB, 0xDB),
        45 => Pixel(0x00, 0x00, 0x00),
        46 => Pixel(0x00, 0x00, 0x00),
        47 => Pixel(0x00, 0x00, 0x00),
        48 => Pixel(0xFF, 0xFF, 0xFF),
        49 => Pixel(0xAB, 0xE7, 0xFF),
        50 => Pixel(0xC7, 0xD7, 0xFF),
        51 => Pixel(0xD7, 0xCB, 0xFF),
        52 => Pixel(0xFF, 0xC7, 0xFF),
        53 => Pixel(0xFF, 0xC7, 0xDB),
        54 => Pixel(0xFF, 0xBF, 0xB3),
        55 => Pixel(0xFF, 0xDB, 0xAB),
        56 => Pixel(0xFF, 0xE7, 0xA3),
        57 => Pixel(0xE3, 0xFF, 0xA3),
        58 => Pixel(0xAB, 0xF3, 0xBF),
        59 => Pixel(0xB3, 0xFF, 0xCF),
        60 => Pixel(0x9F, 0xFF, 0xF3),
        61 => Pixel(0x00, 0x00, 0x00),
        62 => Pixel(0x00, 0x00, 0x00),
        _ => Pixel(0x00, 0x00, 0x00),
    }
}

/// The system palette color with index `color_index` (below 64).
pub fn get_system_color(color_index: u8) -> (r: Pixel)
    requires
        color_index < 64,
    ensures
        r == system_color(color_index),
{
    match color_index {
        0 => Pixel(0x75, 0x75, 0x75),
        1 => Pixel(0x27, 0x1B, 0x8F),
        2 => Pixel(0x00, 0x00, 0xAB),
        3 => Pixel(0x47, 0x00, 0x9F),
        4 => Pixel(0x8F, 0x00, 0x77),
        5 => Pixel(0xAB, 0x00, 0x13),
        6 => Pixel(0xA7, 0x00, 0x00),
        7 => Pixel(0x7F, 0x0B, 0x00),
        8 => Pixel(0x43, 0x2F, 0x00),
        9 => Pixel(0x00, 0x47, 0x00),
        10 => Pixel(0x00, 0x51, 0x00),
        11 => Pixel(0x00, 0x3F, 0x17),
        12 => Pixel(0x1B, 0x3F, 0x5F),
        13 => Pixel(0x00, 0x00, 0x00),
        14 => Pixel(0x00, 0x00, 0x00),
        15 => Pixel(0x00, 0x00, 0x00),
        16 => Pixel(0xBC, 0xBC, 0xBC),
        17 => Pixel(0x00, 0x73, 0xEF),
        18 => Pixel(0x23, 0x3B, 0xEF),
        19 => Pixel(0x83, 0x00, 0xF3),
        20 => Pixel(0xBF, 0x00, 0xBF),
        21 => Pixel(0xE7, 0x00, 0x5B),
        22 => Pixel(0xDB, 0x2B, 0x00),
        23 => Pixel(0xCB, 0x4F, 0x0F),
        24 => Pixel(0x8B, 0x73, 0x00),
        25 => Pixel(0x00, 0x97, 0x00),
        26 => Pixel(0x00, 0xAB, 0x00),
        27 => Pixel(0x00, 0x93, 0x3B),
        28 => Pixel(0x00, 0x83, 0x8B),
        29 => Pixel(0x00, 0x00, 0x00),
        30 => Pixel(0x00, 0x00, 0x00),
        31 => Pixel(0x00, 0x00, 0x00),
        32 => Pixel(0xFF, 0xFF, 0xFF),
        33 => Pixel(0x3F, 0xBF, 0xFF),
        34 => Pixel(0x5F, 0x97, 0xFF),
        35 => Pixel(0xA7, 0x8B, 0xFD),
        36 => Pixel(0xF7, 0x7B, 0xFF),
        37 => Pixel(0xFF, 0x77, 0xB7),
        38 => Pixel(0xFF, 0x77, 0x63),
        39 => Pixel(0xFF, 0x9B, 0x3B),
        40 => Pixel(0xF3, 0xBF, 0x3F),
        41 => Pixel(0x83, 0xD3, 0x13),
        42 => Pixel(0x4F, 0xDF, 0x4B),
        43 => Pixel(0x58, 0xF8, 0x98),
        44 => Pixel(0x00, 0xEB, 0xDB),
        45 => Pixel(0x00, 0x00, 0x00),
        46 => Pixel(0x00, 0x00, 0x00),
        47 => Pixel(0x00, 0x00, 0x00),
        48 => Pixel(0xFF, 0xFF, 0xFF),
        49 => Pixel(0xAB, 0xE7, 0xFF),
        50 => Pixel(0xC7, 0xD7, 0xFF),
        51 => Pixel(0xD7, 0xCB, 0xFF),
        52 => Pixel(0xFF, 0xC7, 0xFF),
        53 => Pixel(0xFF, 0xC7, 0xDB),
        54 => Pixel(0xFF, 0xBF, 0xB3),
        55 => Pixel(0xFF, 0xDB, 0xAB),
        56 => Pixel(0xFF, 0xE7, 0xA3),
        57 => Pixel(0xE3, 0xFF, 0xA3),
        58 => Pixel(0xAB, 0xF3, 0xBF),
        59 => Pixel(0xB3, 0xFF, 0xCF),
        60 => Pixel(0x9F, 0xFF, 0xF3),
        61 => Pixel(0x00, 0x00, 0x00),
        62 => Pixel(0x00, 0x00, 0x00),
        _ => Pixel(0x00, 0x00, 0x00),
    }
}


/// Facts about the bit patterns of PPU addresses.
pub proof fn lemma_ppu_address_bits()
    by (bit_vector)
    ensures
        forall|x: u16| x < 0x1000 ==> #[trigger] (x & 0xFBFF) < 0x1000,
        forall|x: u16| x < 0x1000 ==> #[trigger] (x & 0xF7FF) < 0x1000,
        forall|x: u16| x < 0x1000 ==> #[trigger] (x & 0xF3FF) < 0x1000,
        forall|x: u16| x < 0x1000 ==> #[trigger] ((x & 0x03FF) | 0x0400) < 0x1000,
        forall|x: u16| x < 0x20 ==> #[trigger] (x & 0xFFEF) < 0x20,
        forall|x: u16| #[trigger] (0x2000 | (x & 0x0FFF)) < 0x3F00,
        forall|x: u16| #[trigger] (0x2000 | (x & 0x0FFF)) >= 0x2000,
{
}

/// Where a nametable address ($2000-$3EFF) lands in the 4 KB of nametable
/// memory under an arrangement.
pub open spec fn mirrored_nametable_address(address: u16, nt_arrangement: NametableArrangement) -> u16 {
    let nametable_address = ((address - 0x2000) % 0x1000) as u16;
    match nt_arrangement {
        NametableArrangement::HorizontallyMirrored => nametable_address & 0xFBFF,
        NametableArrangement::VerticallyMirrored => nametable_address & 0xF7FF,
        NametableArrangement::SingleScreenLo => nametable_address & 0xF3FF,
        NametableArrangement::SingleScreenHi => (nametable_address & 0x03FF) | 0x0400,
    }
}

/// The palette memory index that a write to `address` ($3F00-$3FFF) goes to:
/// the sprite backdrop entries $3F10/$3F14/$3F18/$3F1C land on $3F00/$3F04/...
pub open spec fn palette_write_index(address: u16) -> u16 {
    let p = ((address - BG_PALETTE_RAM) % 0x20) as u16;
    if p & 0x0013 == 0x0010 { p & 0xFFEF } else { p }
}

/// The palette memory index that a read of `address` ($3F00-$3FFF) uses.
pub open spec fn palette_read_index(address: u16) -> u16 {
    ((address - BG_PALETTE_RAM) % 0x20) as u16
}

/// The PPU's address space, $0000-$3FFF (mirrored up to $FFFF): pattern
/// tables, nametables, palettes; and the separately addressed sprite memory.
pub struct PpuMemory {
    // $0000-$1FFF
    chr: Segment<0x2000>,
    // $2000-$2FFF (with mirrors up to $3EFF)
    name_tables: Segment<0x1000>,
    // $3F00-$3F1F (with mirrors up to $3FFF); 64 bytes of storage
    palettes: Segment<0x0040>,
    // 256 bytes holding 64 sprites of 4 bytes each
    oam_data: Segment<0x0100>,
    nametable_arrangement: NametableArrangement,
}

impl PpuMemory {
    pub closed spec fn chr_bytes(self) -> Seq<u8> {
        self.chr@
    }

    pub closed spec fn name_table_bytes(self) -> Seq<u8> {
        self.name_tables@
    }

    pub closed spec fn palette_bytes(self) -> Seq<u8> {
        self.palettes@
    }

    pub closed spec fn oam_bytes(self) -> Seq<u8> {
        self.oam_data@
    }

    pub closed spec fn arrangement(self) -> NametableArrangement {
        self.nametable_arrangement
    }

    /// All four memories zeroed, with the given nametable arrangement.
    pub open spec fn is_power_up(self, nametable_arrangement: NametableArrangement) -> bool {
        &&& self.chr_bytes() == Seq::new(0x2000, |i: int| 0u8)
        &&& self.name_table_bytes() == Seq::new(0x1000, |i: int| 0u8)
        &&& self.palette_bytes() == Seq::new(0x40, |i: int| 0u8)
        &&& self.oam_bytes() == Seq::new(0x100, |i: int| 0u8)
        &&& self.arrangement() == nametable_arrangement
    }

    pub proof fn lemma_sizes(self)
        ensures
            self.chr_bytes().len() == 0x2000,
            self.name_table_bytes().len() == 0x1000,
            self.palette_bytes().len() == 0x40,
            self.oam_bytes().len() == 0x100,
    {
        self.chr.lemma_len();
        self.name_tables.lemma_len();
        self.palettes.lemma_len();
        self.oam_data.lemma_len();
    }

    /// The byte that a read of `address` returns.
    pub open spec fn read_value(self, address: u16) -> u8 {
        let a = (address % 0x4000) as u16;
        if a < 0x2000 {
            self.chr_bytes()[a as int]
        } else if a < BG_PALETTE_RAM {
            self.name_table_bytes()[mirrored_nametable_address(a, self.arrangement()) as int]
        } else {
            self.palette_bytes()[palette_read_index(a) as int]
        }
    }

    /// The memory after a write of `value` to `address`.
    pub closed spec fn after_write(self, address: u16, value: u8) -> Self {
        let a = (address % 0x4000) as u16;
        if a < 0x2000 {
            PpuMemory { chr: Segment::spec_with(self.chr, a as int, value), ..self }
        } else if a < BG_PALETTE_RAM {
            PpuMemory {
                name_tables: Segment::spec_with(
                    self.name_tables,
                    mirrored_nametable_address(a, self.nametable_arrangement) as int,
                    value,
                ),
                ..self
            }
        } else {
            PpuMemory {
                palettes: Segment::spec_with(self.palettes, palette_write_index(a) as int, value),
                ..self
            }
        }
    }

    /// The memory with `values` written into sprite memory from `start`.
    pub closed spec fn after_oam_write(self, start: int, values: Seq<u8>) -> Self {
        PpuMemory { oam_data: Segment::spec_with_bytes(self.oam_data, start, values), ..self }
    }

    pub proof fn lemma_after_write(self, address: u16, value: u8)
        ensures
            ({
                let m = self.after_write(address, value);
                let a = (address % 0x4000) as u16;
                &&& m.arrangement() == self.arrangement()
                &&& m.oam_bytes() == self.oam_bytes()
                &&& m.chr_bytes() == if a < 0x2000 {
                    self.chr_bytes().update(a as int, value)
                } else {
                    self.chr_bytes()
                }
                &&& m.name_table_bytes() == if 0x2000 <= a < BG_PALETTE_RAM {
                    self.name_table_bytes().update(
                        mirrored_nametable_address(a, self.arrangement()) as int,
                        value,
                    )
                } else {
                    self.name_table_bytes()
                }
                &&& m.palette_bytes() == if a >= BG_PALETTE_RAM {
                    self.palette_bytes().update(palette_write_index(a) as int, value)
                } else {
                    self.palette_bytes()
                }
            }),
    {
        lemma_ppu_address_bits();
        let a = (address % 0x4000) as u16;
        if a < 0x2000 {
            Segment::lemma_spec_with(self.chr, a as int, value);
        } else if a < BG_PALETTE_RAM {
            Segment::lemma_spec_with(
                self.name_tables,
                mirrored_nametable_address(a, self.nametable_arrangement) as int,
                value,
            );
        } else {
            Segment::lemma_spec_with(self.palettes, palette_write_index(a) as int, value);
        }
    }

    /// A write is read back at the same address, except for the four
    /// palette entries $3F10/$3F14/$3F18/$3F1C (and their mirrors), whose
    /// writes land on $3F00/$3F04/$3F08/$3F0C while reads do not.
    pub proof fn law_read_after_write(self, address: u16, value: u8)
        requires
            (address % 0x4000) < BG_PALETTE_RAM || palette_write_index(
                (address % 0x4000) as u16,
            ) == palette_read_index((address % 0x4000) as u16),
        ensures
            self.after_write(address, value).read_value(address) == value,
    {
        self.lemma_sizes();
        self.lemma_after_write(address, value);
        lemma_ppu_address_bits();
        let a = (address % 0x4000) as u16;
        if 0x2000 <= a < BG_PALETTE_RAM {
            let n = ((a - 0x2000) % 0x1000) as u16;
            assert(n < 0x1000);
            assert(mirrored_nametable_address(a, self.arrangement()) < 0x1000);
        }
    }

    /// Writes keep the nametable arrangement.
    pub proof fn lemma_write_seq_arrangement(self, address: int, values: Seq<u8>)
        ensures
            self.after_write_seq(address, values).arrangement() == self.arrangement(),
        decreases values.len(),
    {
        if values.len() > 0 {
            self.lemma_write_seq_arrangement(address, values.drop_last());
            self.after_write_seq(address, values.drop_last()).lemma_after_write(
                (address + values.len() - 1) as u16,
                values.last(),
            );
        }
    }

    /// Writing pattern data from $0000 on replaces the start of the pattern
    /// tables and leaves the rest of the memory as it was.
    pub proof fn lemma_write_seq_chr(self, values: Seq<u8>)
        requires
            values.len() <= 0x2000,
        ensures
            self.after_write_seq(0, values).chr_bytes() == values + self.chr_bytes().skip(
                values.len() as int,
            ),
            self.after_write_seq(0, values).name_table_bytes() == self.name_table_bytes(),
            self.after_write_seq(0, values).palette_bytes() == self.palette_bytes(),
            self.after_write_seq(0, values).oam_bytes() == self.oam_bytes(),
            self.after_write_seq(0, values).arrangement() == self.arrangement(),
        decreases values.len(),
    {
        self.lemma_sizes();
        if values.len() == 0 {
            assert(values + self.chr_bytes().skip(0) =~= self.chr_bytes());
        } else {
            let rest = values.drop_last();
            self.lemma_write_seq_chr(rest);
            let m = self.after_write_seq(0, rest);
            let a = (values.len() - 1) as u16;
            m.lemma_after_write(a, values.last());
            assert(m.chr_bytes().update(a as int, values.last()) =~= values + self.chr_bytes().skip(
                values.len() as int,
            ));
        }
    }

    pub proof fn lemma_after_oam_write(self, start: int, values: Seq<u8>)
        requires
            0 <= start,
            start + values.len() <= 0x100,
        ensures
            self.after_oam_write(start, values).oam_bytes() == self.oam_bytes().take(start) + values
                + self.oam_bytes().skip(start + values.len()),
            self.after_oam_write(start, values).chr_bytes() == self.chr_bytes(),
            self.after_oam_write(start, values).name_table_bytes() == self.name_table_bytes(),
            self.after_oam_write(start, values).palette_bytes() == self.palette_bytes(),
            self.after_oam_write(start, values).arrangement() == self.arrangement(),
    {
        Segment::lemma_spec_with_bytes(self.oam_data, start, values);
    }

    pub fn initialize(nametable_arrangement: NametableArrangement) -> (r: Self)
        ensures
            r.chr_bytes() == Seq::new(0x2000, |i: int| 0u8),
            r.name_table_bytes() == Seq::new(0x1000, |i: int| 0u8),
            r.palette_bytes() == Seq::new(0x40, |i: int| 0u8),
            r.oam_bytes() == Seq::new(0x100, |i: int| 0u8),
            r.arrangement() == nametable_arrangement,
    {
        Self {
            chr: Segment::<0x2000>::initialize(),
            name_tables: Segment::<0x1000>::initialize(),
            palettes: Segment::<0x0040>::initialize(),
            oam_data: Segment::<0x0100>::initialize(),
            nametable_arrangement,
        }
    }

    pub fn get_mirrored_nametable_address(address: u16, nt_arrangement: NametableArrangement) -> (r: u16)
        requires
            address >= 0x2000,
        ensures
            r == mirrored_nametable_address(address, nt_arrangement),
            r < 0x1000,
    {
        proof {
            lemma_ppu_address_bits();
        }
        let mut nametable_address = (address - 0x2000) % 0x1000;
        match nt_arrangement {
            // A: [0x2000, 0x23FF]
            // A: [0x2400, 0x27FF] (mirrored)
            // B: [0x2800, 0x2BFF]
            // B: [0x2C00, 0x2FFF] (mirrored)
            NametableArrangement::HorizontallyMirrored => {
                nametable_address = nametable_address & 0xFBFF;
            },
            // A: [0x2000, 0x23FF]
            // B: [0x2400, 0x27FF]
            // A: [0x2800, 0x2BFF] (mirrored)
            // B: [0x2C00, 0x2FFF] (mirrored)
            NametableArrangement::VerticallyMirrored => {
                nametable_address = nametable_address & 0xF7FF;
            },
            // A everywhere
            NametableArrangement::SingleScreenLo => {
                nametable_address = nametable_address & 0xF3FF;
            },
            // B everywhere
            NametableArrangement::SingleScreenHi => {
                nametable_address = nametable_address & 0x03FF;
                nametable_address = nametable_address | 0x0400;
            },
        }
        nametable_address
    }

    pub fn write_byte(&mut self, address: u16, value: u8)
        ensures
            *final(self) == old(self).after_write(address, value),
    {
        proof {
            lemma_ppu_address_bits();
        }
        // First map the address modulo 0x4000.
        let address = address % 0x4000;
        if address < 0x2000 {
            // Pattern tables
            self.chr.write_byte(address as usize, value);
        } else if address < BG_PALETTE_RAM {
            // Nametables (mirrored from $3000 up to $3EFF), mirrored by the arrangement.
            let nametable_address = Self::get_mirrored_nametable_address(
                address,
                self.nametable_arrangement,
            );
            self.name_tables.write_byte(nametable_address as usize, value);
        } else {
            // Palette memory
            let mut palette_memory_address = (address - BG_PALETTE_RAM) % 0x20;
            if palette_memory_address & 0x0013 == 0x0010 {
                palette_memory_address = palette_memory_address & 0xFFEF;
            }
            self.palettes.write_byte(palette_memory_address as usize, value);
        }
    }

    pub fn write_bytes(&mut self, address: u16, values: &[u8])
        requires
            address + values@.len() <= 0x10000,
        ensures
            *final(self) == old(self).after_write_seq(address as int, values@),
    {
        let mut i: usize = 0;
        while i < values.len()
            invariant
                i <= values@.len(),
                address + values@.len() <= 0x10000,
                *self == old(self).after_write_seq(address as int, values@.take(i as int)),
            decreases values@.len() - i,
        {
            self.write_byte(address + (i as u16), values[i]);
            proof {
                let t = values@.take(i + 1);
                assert(t.drop_last() =~= values@.take(i as int));
                assert(t.last() == values@[i as int]);
            }
            i = i + 1;
        }
        assert(values@.take(i as int) =~= values@);
    }

    /// The memory after writing `values` one by one from `address` on.
    pub open spec fn after_write_seq(self, address: int, values: Seq<u8>) -> Self
        decreases values.len(),
    {
        if values.len() == 0 {
            self
        } else {
            self.after_write_seq(address, values.drop_last()).after_write(
                (address + values.len() - 1) as u16,
                values.last(),
            )
        }
    }

    pub fn read_byte(&self, address: u16) -> (r: u8)
        ensures
            r == self.read_value(address),
    {
        proof {
            lemma_ppu_address_bits();
            self.lemma_sizes();
        }
        let address = address % 0x4000;
        if address < 0x2000 {
            self.chr.read_byte(address as usize)
        } else if address < BG_PALETTE_RAM {
            let nametable_address = Self::get_mirrored_nametable_address(
                address,
                self.nametable_arrangement,
            );
            self.name_tables.read_byte(nametable_address as usize)
        } else {
            let palette_memory_address = (address - BG_PALETTE_RAM) % 0x20;
            self.palettes.read_byte(palette_memory_address as usize)
        }
    }

    /// Reads `address` and the next address (wrapping at $FFFF) as a
    /// little-endian word.
    pub fn read_two_bytes(&self, address: u16) -> (r: u16)
        ensures
            r == self.read_value(address) + 256 * self.read_value(address.wrapping_add(1)),
    {
        let lo = self.read_byte(address);
        let hi = self.read_byte(address.wrapping_add(1));
        (hi as u16) * 256 + (lo as u16)
    }

    pub fn read_oam_byte(&self, index: u8) -> (r: u8)
        ensures
            r == self.oam_bytes()[index as int],
    {
        proof {
            self.lemma_sizes();
        }
        self.oam_data.read_byte(index as usize)
    }

    pub fn write_oam_byte(&mut self, index: u8, value: u8)
        ensures
            *final(self) == old(self).after_oam_write(index as int, seq![value]),
    {
        proof {
            self.lemma_sizes();
        }
        self.oam_data.write_byte(index as usize, value);
        proof {
            Segment::lemma_spec_with_one(old(self).oam_data, index as int, value);
        }
    }

    pub fn write_oam_bytes(&mut self, values: &[u8])
        requires
            values@.len() <= 0x100,
        ensures
            *final(self) == old(self).after_oam_write(0, values@),
    {
        self.oam_data.write_bytes(0, values);
    }
}


/// Whether a sprite pixel is drawn over or under an opaque background pixel.
#[derive(Copy, Clone, Debug, PartialEq, Eq, Structural)]
pub enum SpritePriority {
    BehindBackground,
    InFrontOfBackground,
}

/// A sprite pixel: its color, its priority, and whether it belongs to sprite 0.
#[derive(Clone, Copy, Debug, PartialEq, Eq, Structural)]
pub struct SpritePixel(pub Pixel, pub SpritePriority, pub bool);

/// One sprite of sprite memory (OAM), decoded.
#[derive(Clone, Copy, Debug, PartialEq, Eq, Structural)]
pub struct Sprite {
    pub left_x: u8,
    pub top_y: u8,
    pub tile_index: u8,
    pub palette_bits: u8,
    pub priority: SpritePriority,
    pub h_flip: bool,
    pub v_flip: bool,
    pub is_sprite_zero: bool,
}

/// The sprite that the four OAM bytes `top_y`, `tile_index`, `attributes`,
/// `left_x` describe. Attribute bits: 0-1 palette, 5 priority (1: behind the
/// background), 6 horizontal flip, 7 vertical flip.
pub open spec fn spec_sprite(top_y: u8, tile_index: u8, attributes: u8, left_x: u8, is_sprite_zero: bool) -> Sprite {
    Sprite {
        left_x,
        top_y,
        tile_index,
        palette_bits: attributes & 0x03,
        priority: if bit_set(attributes, 5) {
            SpritePriority::BehindBackground
        } else {
            SpritePriority::InFrontOfBackground
        },
        h_flip: bit_set(attributes, 6),
        v_flip: bit_set(attributes, 7),
        is_sprite_zero,
    }
}

impl Sprite {
    pub fn from(bytes: &[u8; 4], is_sprite_zero: bool) -> (r: Self)
        ensures
            r == spec_sprite(bytes@[0], bytes@[1], bytes@[2], bytes@[3], is_sprite_zero),
    {
        let top_y = bytes[0];
        let tile_index = bytes[1];
        let attributes = bytes[2];
        let left_x = bytes[3];

        let palette_bits = attributes & 0x03;
        let priority = if (attributes >> 5) & 0x01 == 0x01 {
            SpritePriority::BehindBackground
        } else {
            SpritePriority::InFrontOfBackground
        };
        let h_flip = (attributes >> 6) & 0x01 == 0x01;
        let v_flip = (attributes >> 7) & 0x01 == 0x01;

        Self { left_x, top_y, tile_index, palette_bits, priority, h_flip, v_flip, is_sprite_zero }
    }

    pub fn is_sprite_zero(&self) -> (r: bool)
        ensures
            r == self.is_sprite_zero,
    {
        self.is_sprite_zero
    }
}

/// Does the sprite whose OAM entry starts at `index` cover scanline `y`?
/// (OAM holds the top row minus one; sprites are 8 rows high; sprites with
/// X at $F9 or beyond are off the right edge and left out.)
pub open spec fn oam_entry_on_line(oam: Seq<u8>, index: int, y: u8) -> bool {
    let top_y = oam[index] + 1;
    &&& top_y <= y
    &&& y < top_y + 8
    &&& top_y <= 240
    &&& oam[index + 3] < 0xF9
}

/// The sprites among the first `n` OAM entries that cover scanline `y`, in
/// OAM order.
pub open spec fn line_sprites(oam: Seq<u8>, y: u8, n: nat) -> Seq<Sprite>
    decreases n,
{
    if n == 0 {
        Seq::empty()
    } else {
        let prev = line_sprites(oam, y, (n - 1) as nat);
        let index = 4 * (n - 1);
        if oam_entry_on_line(oam, index, y) {
            prev.push(
                spec_sprite(oam[index], oam[index + 1], oam[index + 2], oam[index + 3], index == 0),
            )
        } else {
            prev
        }
    }
}

/// A sprite covers scanline `y` (so that its row on that line is 0..=7).
pub open spec fn sprite_on_line(s: Sprite, y: u8) -> bool {
    s.top_y < 255 && s.top_y + 1 <= y && y - (s.top_y + 1) <= 7
}

/// The row of the sprite's tile drawn on scanline `y`, after vertical flip.
pub open spec fn sprite_row(s: Sprite, y: u8) -> u16 {
    let row = (y - (s.top_y + 1)) as u8;
    (if s.v_flip { (7 - row) as u8 } else { row }) as u16
}

pub open spec fn sprite_pattern_address_lo(s: Sprite, table: u16, y: u8) -> u16 {
    (table << 12u16) | ((s.tile_index as u16) << 4u16) | sprite_row(s, y)
}

pub open spec fn sprite_pattern_address_hi(s: Sprite, table: u16, y: u8) -> u16 {
    (table << 12u16) | ((s.tile_index as u16) << 4u16) | 0x08 | sprite_row(s, y)
}

/// The last column that a sprite covers (it does not wrap past 255).
pub open spec fn sprite_end(s: Sprite) -> int {
    if s.left_x + 7 < 0xFF { s.left_x + 7 } else { 0xFF }
}

/// The bit of a pattern byte that column `x` of the sprite shows.
pub open spec fn sprite_shift(s: Sprite, x: int) -> u8 {
    let offset = (x - s.left_x) as u8;
    if s.h_flip { offset } else { (7 - offset) as u8 }
}

/// A 2-bit color value out of two pattern bits.
pub open spec fn pattern_value(hi: u8, lo: u8) -> u8 {
    ((hi << 1u8) | lo) & 0x03
}

impl PpuMemory {
    /// The 2-bit pattern value of a sprite at column `x` of scanline `y`.
    pub open spec fn sprite_value(self, s: Sprite, table: u16, y: u8, x: int) -> u8 {
        let hi = (self.read_value(sprite_pattern_address_hi(s, table, y)) >> sprite_shift(s, x)) & 0x01;
        let lo = (self.read_value(sprite_pattern_address_lo(s, table, y)) >> sprite_shift(s, x)) & 0x01;
        pattern_value(hi, lo)
    }

    /// The pixel that a sprite draws at column `x` of scanline `y`, if any:
    /// none outside the sprite or where its pattern is transparent.
    pub open spec fn sprite_pixel(self, s: Sprite, table: u16, y: u8, x: int) -> Option<SpritePixel> {
        let value = self.sprite_value(s, table, y, x);
        if s.left_x <= x <= sprite_end(s) && value != 0 {
            let color_index = self.read_value(
                SPRITE_PALETTE_RAM | (((s.palette_bits & 0x03) as u16) << 2u16) | (value as u16),
            ) & 0x3F;
            Some(SpritePixel(system_color(color_index), s.priority, s.is_sprite_zero))
        } else {
            None
        }
    }

    /// The pixel at column `x` of the first sprite in `sprites` that draws
    /// one there: earlier sprites take priority over later ones.
    pub open spec fn first_sprite_pixel(self, sprites: Seq<Sprite>, table: u16, y: u8, x: int) -> Option<SpritePixel>
        decreases sprites.len(),
    {
        if sprites.len() == 0 {
            None
        } else {
            match self.sprite_pixel(sprites[0], table, y, x) {
                Some(p) => Some(p),
                None => self.first_sprite_pixel(sprites.drop_first(), table, y, x),
            }
        }
    }

    /// The sprites of sprite memory that cover scanline `y`, in OAM order.
    pub fn get_line_sprites(&self, scanline_y: u8) -> (r: Vec<Sprite>)
        ensures
            r@ == line_sprites(self.oam_bytes(), scanline_y, 64),
    {
        proof {
            self.lemma_sizes();
        }
        let mut sprites_on_scanline: Vec<Sprite> = Vec::new();
        let mut i: usize = 0;
        while i < 0x100
            invariant
                i % 4 == 0,
                i <= 0x100,
                self.oam_bytes().len() == 0x100,
                sprites_on_scanline@ == line_sprites(self.oam_bytes(), scanline_y, (i / 4) as nat),
            decreases 0x100 - i,
        {
            let index = i;
            // Sprite positions are stored minus one; a stored 0xFF puts the
            // sprite below the screen.
            let oam_y = self.oam_data.read_byte(index) as u16;
            let top_y = oam_y + 1;
            let x_pos = self.oam_data.read_byte(index + 3);

            if (scanline_y as u16) >= top_y && (scanline_y as u16) < top_y + 8 && top_y <= 240 {
                // X positions $F9-$FF put the sprite past the right edge of the screen.
                if x_pos < 0xF9 {
                    let bytes: [u8; 4] = [
                        self.oam_data.read_byte(index),
                        self.oam_data.read_byte(index + 1),
                        self.oam_data.read_byte(index + 2),
                        self.oam_data.read_byte(index + 3),
                    ];
                    sprites_on_scanline.push(Sprite::from(&bytes, index == 0));
                }
            }
            i = i + 4;
        }
        sprites_on_scanline
    }

    /// The sprite pixels of one scanline: for each of the 256 columns, the
    /// pixel of the first sprite in `sprites` that draws one there.
    pub fn create_sprite_line_pixels(
        &self,
        sprites_on_scanline: Vec<Sprite>,
        sprite_pattern_table: u16,
        scanline_y: u8,
    ) -> (r: Vec<Option<SpritePixel>>)
        requires
            forall|k: int|
                0 <= k < sprites_on_scanline@.len() ==> sprite_on_line(
                    #[trigger] sprites_on_scanline@[k],
                    scanline_y,
                ),
            sprite_pattern_table < 16,
        ensures
            r@.len() == 0x100,
            forall|x: int|
                0 <= x < 0x100 ==> #[trigger] r@[x] == self.first_sprite_pixel(
                    sprites_on_scanline@,
                    sprite_pattern_table,
                    scanline_y,
                    x,
                ),
    {
        proof {
            lemma_byte_bits();
            lemma_pattern_bits();
        }
        let ghost sprites = sprites_on_scanline@;
        let mut sprite_pixels: Vec<Option<SpritePixel>> = Vec::new();
        while sprite_pixels.len() < 0x100
            invariant
                sprite_pixels@.len() <= 0x100,
                forall|x: int| 0 <= x < sprite_pixels@.len() ==> #[trigger] sprite_pixels@[x] is None,
            decreases 0x100 - sprite_pixels@.len(),
        {
            sprite_pixels.push(None);
        }
        proof {
            assert forall|x: int| 0 <= x < 0x100 implies #[trigger] sprite_pixels@[x]
                == self.first_sprite_pixel(
                sprites.subrange(sprites.len() as int, sprites.len() as int),
                sprite_pattern_table,
                scanline_y,
                x,
            ) by {
                assert(sprites.subrange(sprites.len() as int, sprites.len() as int).len() == 0);
            }
        }
        // Go through the sprites in reverse, so that earlier sprites overwrite
        // later ones.
        let mut k = sprites_on_scanline.len();
        while k > 0
            invariant
                k <= sprites.len(),
                sprites == sprites_on_scanline@,
                sprite_pixels@.len() == 0x100,
                forall|j: int| 0 <= j < sprites.len() ==> sprite_on_line(#[trigger] sprites[j], scanline_y),
                sprite_pattern_table < 16,
                forall|x: int|
                    0 <= x < 0x100 ==> #[trigger] sprite_pixels@[x] == self.first_sprite_pixel(
                        sprites.subrange(k as int, sprites.len() as int),
                        sprite_pattern_table,
                        scanline_y,
                        x,
                    ),
            decreases k,
        {
            k = k - 1;
            let sprite = sprites_on_scanline[k];
            let ghost rest = sprites.subrange(k + 1, sprites.len() as int);
            proof {
                let all = sprites.subrange(k as int, sprites.len() as int);
                assert(all[0] == sprite);
                assert(all.drop_first() =~= rest);
            }
            let row: u8 = scanline_y - (sprite.top_y + 1);
            let y: u16 = if sprite.v_flip { 7 - row } else { row } as u16;
            let hi_pattern_table_address = (sprite_pattern_table << 12) | ((sprite.tile_index as u16) << 4) | 0x08 | y;
            let lo_pattern_table_address = (sprite_pattern_table << 12) | ((sprite.tile_index as u16) << 4) | y;
            let pattern_table_byte_hi = self.read_byte(hi_pattern_table_address);
            let pattern_table_byte_lo = self.read_byte(lo_pattern_table_address);

            // Don't go over the right edge.
            let start = sprite.left_x as u16;
            let end: u16 = if start + 7 < 0xFF { start + 7 } else { 0xFF };
            let mut i = start;
            while i <= end
                invariant
                    start == sprite.left_x,
                    end == sprite_end(sprite),
                    start <= i <= end + 1,
                    end <= 0xFF,
                    sprite_pixels@.len() == 0x100,
                    pattern_table_byte_hi == self.read_value(sprite_pattern_address_hi(sprite, sprite_pattern_table, scanline_y)),
                    pattern_table_byte_lo == self.read_value(sprite_pattern_address_lo(sprite, sprite_pattern_table, scanline_y)),
                    forall|x: int|
                        0 <= x < 0x100 ==> #[trigger] sprite_pixels@[x] == if start <= x < i
                            && self.sprite_pixel(sprite, sprite_pattern_table, scanline_y, x) is Some {
                            self.sprite_pixel(sprite, sprite_pattern_table, scanline_y, x)
                        } else {
                            self.first_sprite_pixel(rest, sprite_pattern_table, scanline_y, x)
                        },
                decreases end + 1 - i,
            {
                let offset = i - start;
                let shift: u8 = if sprite.h_flip { offset as u8 } else { 7 - offset as u8 };
                let hi = (pattern_table_byte_hi >> shift) & 0x01;
                let lo = (pattern_table_byte_lo >> shift) & 0x01;
                proof {
                    lemma_byte_bits();
                    lemma_pattern_bits();
                    assert(shift == sprite_shift(sprite, i as int));
                    assert(hi <= 1 && lo <= 1);
                    assert(self.sprite_value(sprite, sprite_pattern_table, scanline_y, i as int)
                        == pattern_value(hi, lo));
                    assert((pattern_value(hi, lo) == 0) == (hi == 0 && lo == 0));
                }
                // Skip transparent pixels.
                if !(hi == 0x00 && lo == 0x00) {
                    let palette = sprite.palette_bits & 0x03;
                    let value = (((hi << 1) | lo) & 0x03) as u16;
                    // The color index is a 6-bit index into the system colors.
                    let color_index = (self.read_byte(SPRITE_PALETTE_RAM | ((palette as u16) << 2) | value)) & 0x3F;
                    proof {
                        assert(color_index <= 0x3F) by {
                            lemma_color_index_bits();
                        }
                    }
                    let pixel = get_system_color(color_index);
                    sprite_pixels.set(
                        i as usize,
                        Some(SpritePixel(pixel, sprite.priority, sprite.is_sprite_zero())),
                    );
                    assert(sprite_pixels@[i as int] == self.sprite_pixel(
                        sprite,
                        sprite_pattern_table,
                        scanline_y,
                        i as int,
                    ));
                } else {
                    assert(self.sprite_pixel(sprite, sprite_pattern_table, scanline_y, i as int) is None);
                }
                i = i + 1;
            }
            proof {
                assert forall|x: int| 0 <= x < 0x100 implies #[trigger] sprite_pixels@[x]
                    == self.first_sprite_pixel(
                    sprites.subrange(k as int, sprites.len() as int),
                    sprite_pattern_table,
                    scanline_y,
                    x,
                ) by {
                    let all = sprites.subrange(k as int, sprites.len() as int);
                    assert(all.len() > 0);
                    assert(all[0] == sprite);
                    assert(all.drop_first() =~= rest);
                }
            }
        }
        assert(sprites.subrange(0, sprites.len() as int) =~= sprites);
        sprite_pixels
    }
}

proof fn lemma_sprite_address_bits(table: u16, tile: u8, r: u16)
    by (bit_vector)
    requires
        table < 2,
        r < 8,
    ensures
        (table << 12u16) | ((tile as u16) << 4u16) | r == table * 0x1000 + (tile as u16) * 16 + r,
        (table << 12u16) | ((tile as u16) << 4u16) | 0x08 | r == table * 0x1000 + (tile as u16) * 16
            + 8 + r,
{
}

proof fn lemma_two_bits(hi: u8, lo: u8, shift: u8)
    by (bit_vector)
    requires
        shift < 8,
    ensures
        ((((hi >> shift) & 0x01) << 1u8) | ((lo >> shift) & 0x01)) & 0x03 == 2 * ((hi >> shift) & 1)
            + ((lo >> shift) & 1),
        (hi >> shift) & 0x01 == (hi >> shift) & 1,
        (hi >> shift) & 1 <= 1,
        (lo >> shift) & 1 <= 1,
{
}

/// The pixels of one sprite on scanline `y` (which it covers), pattern
/// table half `table`: column `left_x + k` (k = 0..7) shows bit 7 - k of the
/// tile row's two pattern bytes (bit 7 is the leftmost pixel), or bit k
/// when the sprite is flipped horizontally. The tile row is `y - (top_y + 1)`,
/// counted from the bottom when flipped vertically; the low byte of row r is
/// at `table * $1000 + tile * 16 + r`, the high byte 8 further on. Its
/// 2-bit value is the high bit then the low bit; the sprite draws a pixel
/// exactly where that value is not 0, and nothing outside its 8 columns.
pub proof fn law_sprite_columns(mem: PpuMemory, s: Sprite, table: u16, y: u8, k: int, x: int)
    requires
        table < 2,
        sprite_on_line(s, y),
        0 <= k <= 7,
        s.left_x + k <= 0xFF,
    ensures
        ({
            let row = y - (s.top_y + 1);
            let r = if s.v_flip { 7 - row } else { row };
            let lo = mem.read_value((table * 0x1000 + s.tile_index * 16 + r) as u16);
            let hi = mem.read_value((table * 0x1000 + s.tile_index * 16 + 8 + r) as u16);
            let bit = (if s.h_flip { k } else { 7 - k }) as u8;
            let lo_bit = (lo >> bit) & 1;
            let hi_bit = (hi >> bit) & 1;
            &&& mem.sprite_value(s, table, y, s.left_x + k) == 2 * hi_bit + lo_bit
            &&& (mem.sprite_pixel(s, table, y, s.left_x + k) is Some) == (lo_bit == 1 || hi_bit == 1)
            &&& mem.first_sprite_pixel(seq![s], table, y, s.left_x + k) == mem.sprite_pixel(
                s,
                table,
                y,
                s.left_x + k,
            )
        }),
        x < s.left_x || x > s.left_x + 7 ==> mem.sprite_pixel(s, table, y, x) is None,
{
    let row = (y - (s.top_y + 1)) as u8;
    let r = sprite_row(s, y);
    assert(r < 8);
    lemma_sprite_address_bits(table, s.tile_index, r);
    let lo = mem.read_value(sprite_pattern_address_lo(s, table, y));
    let hi = mem.read_value(sprite_pattern_address_hi(s, table, y));
    let shift = sprite_shift(s, s.left_x + k);
    assert(shift == (if s.h_flip { k } else { 7 - k }) as u8);
    lemma_two_bits(hi, lo, shift);
    let ri = if s.v_flip { 7 - (y - (s.top_y + 1)) } else { y - (s.top_y + 1) };
    assert(r == ri);
    assert(sprite_pattern_address_lo(s, table, y) == (table * 0x1000 + s.tile_index * 16 + ri) as u16);
    assert(sprite_pattern_address_hi(s, table, y) == (table * 0x1000 + s.tile_index * 16 + 8 + ri) as u16);
    assert(mem.sprite_value(s, table, y, s.left_x + k) == 2 * ((hi >> shift) & 1) + ((lo >> shift) & 1));
    assert(s.left_x <= s.left_x + k <= sprite_end(s));
    let single = seq![s];
    assert(single.drop_first().len() == 0);
    assert(mem.first_sprite_pixel(single.drop_first(), table, y, s.left_x + k) is None);
}

/// Facts about pattern bits and color indices.
pub proof fn lemma_pattern_bits()
    by (bit_vector)
    ensures
        forall|hi: u8, lo: u8|
            hi <= 1 && lo <= 1 ==> (#[trigger] (((hi << 1u8) | lo) & 0x03) == 0) == (hi == 0 && lo == 0),
{
}

pub proof fn lemma_color_index_bits()
    by (bit_vector)
    ensures
        forall|b: u8| #[trigger] (b & 0x3F) <= 0x3F,
{
}


/// The specific operations that the PPU performs on a dot; each takes
/// exactly one cycle.
#[derive(Copy, Clone, Debug, PartialEq, Eq, Structural)]
pub enum CycleOperation {
    NameTableAccess,
    UnusedNameTableAccess,
    IgnoredNameTableAccess,
    AttributeTableAccess,
    BackgroundLsb,
    BackgroundMsb,
    IncrementHorizontalV,
    IncrementVerticalV,
    EqualizeHorizontalVT,
    EqualizeVerticalVT,
    SetVblank,
    ClearVblank,
    SpriteEvaluation,
    SpriteZeroClear,
    SpriteOverflowClear,
}

/// The background fetches of a tile: dot `k` (1-based within the fetch
/// window) of eight.
pub open spec fn tile_fetch_ops(k: int) -> Seq<CycleOperation> {
    if k % 8 == 1 {
        seq![CycleOperation::NameTableAccess]
    } else if k % 8 == 3 {
        seq![CycleOperation::AttributeTableAccess]
    } else if k % 8 == 5 {
        seq![CycleOperation::BackgroundLsb]
    } else if k % 8 == 7 {
        seq![CycleOperation::BackgroundMsb]
    } else if k % 8 == 0 {
        if k == 256 {
            seq![CycleOperation::IncrementHorizontalV, CycleOperation::IncrementVerticalV]
        } else {
            seq![CycleOperation::IncrementHorizontalV]
        }
    } else {
        Seq::empty()
    }
}

/// The operations of a dot on a rendering scanline (visible or pre-render),
/// apart from sprite evaluation and the pre-render specifics.
/// Frame diagram: https://www.nesdev.org/w/images/default/4/4f/Ppu.svg
pub open spec fn line_ops(dot: int) -> Seq<CycleOperation> {
    if 1 <= dot <= 256 {
        // 32 tiles of 8 dots
        tile_fetch_ops(dot)
    } else if dot == 257 {
        seq![CycleOperation::EqualizeHorizontalVT]
    } else if 258 <= dot <= 320 {
        // Sprite fetches for up to 8 sprites
        if (dot - 258) % 8 == 0 {
            seq![CycleOperation::UnusedNameTableAccess]
        } else if (dot - 259) % 8 == 0 {
            seq![CycleOperation::IgnoredNameTableAccess]
        } else {
            Seq::empty()
        }
    } else if 321 <= dot <= 336 {
        // The first two tiles of the next scanline
        tile_fetch_ops(dot - 320)
    } else if dot == 338 {
        seq![CycleOperation::UnusedNameTableAccess]
    } else if dot == 340 {
        seq![CycleOperation::IgnoredNameTableAccess]
    } else {
        Seq::empty()
    }
}

/// The operations that the PPU performs at `dot` of `scanline`.
pub open spec fn schedule(scanline: int, dot: int) -> Seq<CycleOperation> {
    if scanline < 240 {
        if dot == 0 {
            seq![CycleOperation::SpriteEvaluation]
        } else {
            line_ops(dot)
        }
    } else if scanline == 241 {
        if dot == 1 {
            seq![CycleOperation::SetVblank]
        } else {
            Seq::empty()
        }
    } else if scanline == PRERENDER_SCANLINE {
        if dot == 1 {
            seq![
                CycleOperation::ClearVblank,
                CycleOperation::SpriteZeroClear,
                CycleOperation::SpriteOverflowClear,
            ]
        } else if 280 <= dot <= 304 {
            line_ops(dot).push(CycleOperation::EqualizeVerticalVT)
        } else {
            line_ops(dot)
        }
    } else {
        Seq::empty()
    }
}

fn push_tile_fetch_ops(ops: &mut Vec<CycleOperation>, k: usize)
    requires
        1 <= k <= 256,
    ensures
        final(ops)@ == old(ops)@ + tile_fetch_ops(k as int),
{
    if k % 8 == 1 {
        ops.push(CycleOperation::NameTableAccess);
    } else if k % 8 == 3 {
        ops.push(CycleOperation::AttributeTableAccess);
    } else if k % 8 == 5 {
        ops.push(CycleOperation::BackgroundLsb);
    } else if k % 8 == 7 {
        ops.push(CycleOperation::BackgroundMsb);
    } else if k % 8 == 0 {
        ops.push(CycleOperation::IncrementHorizontalV);
        if k == 256 {
            ops.push(CycleOperation::IncrementVerticalV);
        }
    }
    assert(final(ops)@ =~= old(ops)@ + tile_fetch_ops(k as int));
}

fn push_line_ops(ops: &mut Vec<CycleOperation>, dot: usize)
    requires
        dot < NUM_DOTS,
    ensures
        final(ops)@ == old(ops)@ + line_ops(dot as int),
{
    if 1 <= dot && dot <= 256 {
        push_tile_fetch_ops(ops, dot);
    } else if dot == 257 {
        ops.push(CycleOperation::EqualizeHorizontalVT);
    } else if 258 <= dot && dot <= 320 {
        if (dot - 258) % 8 == 0 {
            ops.push(CycleOperation::UnusedNameTableAccess);
        } else if (dot - 259) % 8 == 0 {
            ops.push(CycleOperation::IgnoredNameTableAccess);
        }
    } else if 321 <= dot && dot <= 336 {
        push_tile_fetch_ops(ops, dot - 320);
    } else if dot == 338 {
        ops.push(CycleOperation::UnusedNameTableAccess);
    } else if dot == 340 {
        ops.push(CycleOperation::IgnoredNameTableAccess);
    }
    assert(final(ops)@ =~= old(ops)@ + line_ops(dot as int));
}

/// The operations of one dot, in the order in which they are executed.
pub fn cycle_operations(scanline: usize, dot: usize) -> (r: Vec<CycleOperation>)
    requires
        dot < NUM_DOTS,
    ensures
        r@ == schedule(scanline as int, dot as int),
{
    let mut ops: Vec<CycleOperation> = Vec::new();
    if scanline < 240 {
        if dot == 0 {
            ops.push(CycleOperation::SpriteEvaluation);
        } else {
            push_line_ops(&mut ops, dot);
        }
    } else if scanline == 241 {
        if dot == 1 {
            ops.push(CycleOperation::SetVblank);
        }
    } else if scanline == PRERENDER_SCANLINE {
        if dot == 1 {
            ops.push(CycleOperation::ClearVblank);
            ops.push(CycleOperation::SpriteZeroClear);
            ops.push(CycleOperation::SpriteOverflowClear);
        } else {
            push_line_ops(&mut ops, dot);
            if 280 <= dot && dot <= 304 {
                ops.push(CycleOperation::EqualizeVerticalVT);
            }
        }
    }
    assert(ops@ =~= schedule(scanline as int, dot as int));
    ops
}

/// Is `table` the frame schedule: 262 scanlines of 341 dots, each with the
/// operations that `schedule` gives it?
pub open spec fn is_frame_schedule(table: Seq<Vec<Vec<CycleOperation>>>) -> bool {
    &&& table.len() == NUM_SCANLINES
    &&& forall|s: int| 0 <= s < NUM_SCANLINES ==> (#[trigger] table[s])@.len() == NUM_DOTS
    &&& forall|s: int, d: int|
        0 <= s < NUM_SCANLINES && 0 <= d < NUM_DOTS ==> (#[trigger] table[s]@[d])@ == schedule(s, d)
}

/// Builds the table of the operations of every dot of a frame.
pub fn build_frame_operations() -> (r: Vec<Vec<Vec<CycleOperation>>>)
    ensures
        is_frame_schedule(r@),
{
    let mut frame_operations: Vec<Vec<Vec<CycleOperation>>> = Vec::new();
    let mut scanline: usize = 0;
    while scanline < NUM_SCANLINES
        invariant
            scanline <= NUM_SCANLINES,
            frame_operations@.len() == scanline,
            forall|s: int| 0 <= s < scanline ==> (#[trigger] frame_operations@[s])@.len() == NUM_DOTS,
            forall|s: int, d: int|
                0 <= s < scanline && 0 <= d < NUM_DOTS ==> (#[trigger] frame_operations@[s]@[d])@
                    == schedule(s, d),
        decreases NUM_SCANLINES - scanline,
    {
        let mut line: Vec<Vec<CycleOperation>> = Vec::new();
        let mut dot: usize = 0;
        while dot < NUM_DOTS
            invariant
                dot <= NUM_DOTS,
                line@.len() == dot,
                forall|d: int| 0 <= d < dot ==> (#[trigger] line@[d])@ == schedule(scanline as int, d),
            decreases NUM_DOTS - dot,
        {
            line.push(cycle_operations(scanline, dot));
            dot = dot + 1;
        }
        frame_operations.push(line);
        scanline = scanline + 1;
    }
    frame_operations
}

/// Where the PPU goes after `(scanline, dot)`.
pub open spec fn next_frame_index(index: (usize, usize)) -> (usize, usize) {
    let next_dot = (index.1 + 1) % (NUM_DOTS as int);
    let next_scanline = if next_dot == 0 { (index.0 + 1) % (NUM_SCANLINES as int) } else { index.0 as int };
    (next_scanline as usize, next_dot as usize)
}

/// A one-byte buffer: a read returns the byte latched by the previous read.
pub struct LatchedDataBuffer(u8);

impl View for LatchedDataBuffer {
    type V = u8;

    closed spec fn view(&self) -> u8 {
        self.0
    }
}

impl LatchedDataBuffer {
    pub fn read_and_set(&mut self, new_data: u8) -> (r: u8)
        ensures
            r == old(self)@,
            final(self)@ == new_data,
    {
        let data = self.0;
        // Shift in the new data.
        self.0 = new_data;
        data
    }
}

/// Two images: the front one, complete, is handed out once; the back one is
/// being drawn.
pub struct DoubleBuffer {
    front: Vec<Pixel>,
    back: Vec<Pixel>,
    ready: bool,
}

impl DoubleBuffer {
    pub closed spec fn front_pixels(&self) -> Seq<Pixel> {
        self.front@
    }

    pub closed spec fn back_pixels(&self) -> Seq<Pixel> {
        self.back@
    }

    pub closed spec fn is_ready(&self) -> bool {
        self.ready
    }

    pub fn initialize() -> (r: Self)
        ensures
            r.front_pixels() == Seq::<Pixel>::empty(),
            r.back_pixels() == Seq::<Pixel>::empty(),
            !r.is_ready(),
    {
        Self { front: Vec::with_capacity(256 * 240), back: Vec::with_capacity(256 * 240), ready: false }
    }

    /// A copy of the front image, if it has not been handed out yet.
    pub fn front(&mut self) -> (r: Option<Vec<Pixel>>)
        ensures
            old(self).is_ready() ==> (r matches Some(img) && img@ == old(self).front_pixels()),
            !old(self).is_ready() ==> r is None,
            !final(self).is_ready(),
            final(self).front_pixels() == old(self).front_pixels(),
            final(self).back_pixels() == old(self).back_pixels(),
    {
        if self.ready {
            self.ready = false;
            Some(copy_pixels(&self.front))
        } else {
            None
        }
    }

    /// Appends a pixel to the back image.
    pub fn push_back(&mut self, pixel: Pixel)
        ensures
            final(self).back_pixels() == old(self).back_pixels().push(pixel),
            final(self).front_pixels() == old(self).front_pixels(),
            final(self).is_ready() == old(self).is_ready(),
    {
        self.back.push(pixel);
    }

    /// The back image becomes the front one, ready to be handed out, and
    /// drawing starts over on an empty back image.
    pub fn swap(&mut self)
        ensures
            final(self).front_pixels() == old(self).back_pixels(),
            final(self).back_pixels() == Seq::<Pixel>::empty(),
            final(self).is_ready(),
    {
        std::mem::swap(&mut self.front, &mut self.back);
        self.back.clear();
        self.ready = true;
    }
}

/// A copy of a list of pixels.
pub fn copy_pixels(pixels: &Vec<Pixel>) -> (r: Vec<Pixel>)
    ensures
        r@ == pixels@,
{
    let mut r: Vec<Pixel> = Vec::with_capacity(pixels.len());
    let mut i: usize = 0;
    while i < pixels.len()
        invariant
            i <= pixels@.len(),
            r@ == pixels@.take(i as int),
        decreases pixels@.len() - i,
    {
        r.push(pixels[i]);
        i = i + 1;
        assert(r@ =~= pixels@.take(i as int));
    }
    assert(pixels@.take(i as int) =~= pixels@);
    r
}

/// A 16-bit shift register that shifts in a byte at a time.
pub struct ShiftRegister(u16);

impl View for ShiftRegister {
    type V = u16;

    closed spec fn view(&self) -> u16 {
        self.0
    }
}

/// The register value after shifting in `byte`.
pub open spec fn shifted_in(value: u16, byte: u8) -> u16 {
    (value << 8u16) | (byte as u16)
}

impl ShiftRegister {
    pub fn initialize() -> (r: Self)
        ensures
            r@ == 0,
    {
        Self(0x0000)
    }

    pub fn push(&mut self, byte: u8)
        ensures
            final(self)@ == shifted_in(old(self)@, byte),
    {
        self.0 = (self.0 << 8) | (byte as u16);
    }

    pub fn hi(&self) -> (r: u8)
        ensures
            r == (self@ >> 8u16) as u8,
    {
        (self.0 >> 8) as u8
    }

    pub fn lo(&self) -> (r: u8)
        ensures
            r == self@ as u8,
    {
        self.0 as u8
    }

    pub fn bit(&self, n: u8) -> (r: u8)
        requires
            n < 16,
        ensures
            r == ((self@ >> n) & 0x01) as u8,
    {
        ((self.0 >> n) & 0x01) as u8
    }
}

/// Shifting in a byte: the old low byte becomes the high byte and the new
/// byte the low byte.
pub proof fn law_shift_register_push(value: u16, byte: u8)
    ensures
        (shifted_in(value, byte) >> 8u16) as u8 == value as u8,
        shifted_in(value, byte) as u8 == byte,
{
    assert((((value << 8u16) | (byte as u16)) >> 8u16) as u8 == value as u8) by (bit_vector);
    assert(((value << 8u16) | (byte as u16)) as u8 == byte) by (bit_vector);
}


/// The write toggle shared by PPUSCROLL and PPUADDR.
#[derive(Copy, Clone, Debug, PartialEq, Eq, Structural)]
pub enum WriteToggle {
    First,
    Second,
}

/// The PPU's state as plain values: registers, internal scroll registers
/// (`loopy_v`, `loopy_t`, `fine_x`, `loopy_w`), rendering latches, the two
/// images and the sprite pixels of the current scanline.
pub struct PpuModel {
    pub memory: PpuMemory,
    pub control: u8,
    pub mask: u8,
    pub oam_address: u8,
    pub dma_complete: bool,
    pub ppu_data: u8,
    pub loopy_v: u16,
    pub loopy_t: u16,
    pub fine_x: u8,
    pub loopy_w: WriteToggle,
    pub frame_index: (usize, usize),
    pub vblank: bool,
    pub nmi: bool,
    pub sprite_overflow: bool,
    pub sprite_zero_hit: bool,
    pub name_table_byte: u8,
    pub attribute_table_group: u8,
    pub pattern_table_byte_lo: u8,
    pub pattern_table_byte_hi: u8,
    pub pattern_byte_sr_hi: u16,
    pub pattern_byte_sr_lo: u16,
    pub attribute_byte_sr: u16,
    pub front: Seq<Pixel>,
    pub back: Seq<Pixel>,
    pub ready: bool,
    pub line_sprite_pixels: Seq<Option<SpritePixel>>,
}

// Scroll register layout (https://www.nesdev.org/wiki/PPU_scrolling):
//
// yyy NN YYYYY XXXXX
// ||| || ||||| +++++-- coarse X scroll
// ||| || +++++-------- coarse Y scroll
// ||| ++-------------- nametable select
// +++----------------- fine Y scroll

/// `v` after moving one tile right: coarse X wraps from 31 to 0 and then
/// switches the horizontal nametable.
pub open spec fn coarse_x_incremented(v: u16) -> u16 {
    if v & 0x001F == 31 {
        (v & 0xFFE0) ^ 0x0400
    } else {
        (v + 1) as u16
    }
}

/// `v` after moving one pixel row down: fine Y counts to 7, then coarse Y
/// moves on; from row 29 it wraps to 0 and switches the vertical nametable,
/// from row 31 it wraps to 0 without switching.
pub open spec fn y_incremented(v: u16) -> u16 {
    if v & 0x7000 != 0x7000 {
        (v + 0x1000) as u16
    } else {
        let v1 = v & 0x0FFF;
        let coarse_y = (v1 & 0x03E0) >> 5u16;
        if coarse_y == 29 {
            ((v1 ^ 0x0800) & 0xFC1F) | (0u16 << 5u16)
        } else if coarse_y == 31 {
            (v1 & 0xFC1F) | (0u16 << 5u16)
        } else {
            (v1 & 0xFC1F) | (((coarse_y + 1) as u16) << 5u16)
        }
    }
}

/// The fine Y scroll (0..=7): the pixel row within a tile.
pub open spec fn fine_y(v: u16) -> u8 {
    ((v & 0x7000) >> 12u16) as u8
}

pub open spec fn attribute_address(v: u16) -> u16 {
    0x23C0 | (v & 0x0C00) | ((v >> 4u16) & 0x0038) | ((v >> 2u16) & 0x0007)
}

/// Which 2x2-tile quadrant of its attribute byte the tile at `v` is in.
pub open spec fn attribute_quadrant(v: u16) -> u16 {
    let coarse_x = v & 0x001F;
    let coarse_y = (v >> 5u16) & 0x001F;
    (((coarse_y >> 1u16) & 0x01) << 1u16) | ((coarse_x >> 1u16) & 0x01)
}

/// Pattern table address layout:
///
/// DCBA98 76543210
/// ---------------
/// 0HNNNN NNNNPyyy
/// |||||| |||||+++- fine Y offset, the row number within a tile
/// |||||| ||||+---- bit plane (0: low; 1: high)
/// ||++++-++++----- tile number from the name table
/// |+-------------- half of the pattern table (0: "left"; 1: "right")
/// +--------------- pattern table is at $0000-$1FFF
pub open spec fn bg_pattern_address(half: u8, tile: u8, v: u16, high_plane: bool) -> u16 {
    if high_plane {
        ((half as u16) << 12u16) | ((tile as u16) << 4u16) | 0x08 | (fine_y(v) as u16)
    } else {
        ((half as u16) << 12u16) | ((tile as u16) << 4u16) | (fine_y(v) as u16)
    }
}

/// The value that a read of PPUSTATUS returns for the three flags.
pub open spec fn status_byte(vblank: bool, sprite_zero_hit: bool, sprite_overflow: bool) -> u8 {
    (if vblank { 0x80u8 } else { 0u8 }) | (if sprite_zero_hit { 0x40u8 } else { 0u8 }) | (if sprite_overflow {
        0x20u8
    } else {
        0u8
    })
}

impl PpuModel {
    /// The state at power-up: zeroed memories and registers, first write of
    /// the address latches, on the pre-render line, no flags, no images.
    pub open spec fn is_power_up(self, nametable_arrangement: NametableArrangement) -> bool {
        &&& self.memory.is_power_up(nametable_arrangement)
        &&& self.registers_at_power_up()
    }

    /// Everything but the memories is as at power-up.
    pub open spec fn registers_at_power_up(self) -> bool {
        &&& self.control == 0
        &&& self.mask == 0
        &&& self.oam_address == 0
        &&& !self.dma_complete
        &&& self.ppu_data == 0
        &&& self.loopy_v == 0
        &&& self.loopy_t == 0
        &&& self.fine_x == 0
        &&& self.loopy_w == WriteToggle::First
        &&& self.frame_index == (PRERENDER_SCANLINE, 0usize)
        &&& !self.vblank
        &&& !self.nmi
        &&& !self.sprite_overflow
        &&& !self.sprite_zero_hit
        &&& self.name_table_byte == 0
        &&& self.attribute_table_group == 0
        &&& self.pattern_table_byte_lo == 0
        &&& self.pattern_table_byte_hi == 0
        &&& self.pattern_byte_sr_hi == 0
        &&& self.pattern_byte_sr_lo == 0
        &&& self.attribute_byte_sr == 0
        &&& self.front == Seq::<Pixel>::empty()
        &&& self.back == Seq::<Pixel>::empty()
        &&& !self.ready
        &&& self.line_sprite_pixels == Seq::new(0x100, |x: int| None::<SpritePixel>)
    }

    /// The bounds that every PPU keeps.
    pub open spec fn valid(self) -> bool {
        &&& self.frame_index.0 < NUM_SCANLINES
        &&& self.frame_index.1 < NUM_DOTS
        &&& self.fine_x < 8
        &&& self.line_sprite_pixels.len() == 0x100
    }

    pub open spec fn rendering_enabled(self) -> bool {
        bit_set(self.mask, 3) || bit_set(self.mask, 4)
    }

    /// How far PPUDATA accesses move `v`.
    pub open spec fn vram_increment(self) -> u16 {
        if bit_set(self.control, 2) { 32 } else { 1 }
    }

    /// Is the PPU on a dot where it draws eight pixels?
    pub open spec fn drawing(self) -> bool {
        self.frame_index.0 < 240 && self.frame_index.1 < 257
    }

    // ---- Register reads and writes ----

    /// The PPU after the CPU writes `data` to register `address` ($2000-$2007).
    pub open spec fn after_io_write(self, address: u16, data: u8) -> Self {
        if address == 0x2000 {
            // t: ...GH.. ........ <- d: ......GH
            PpuModel {
                control: data,
                nmi: data & 0x80 == 0x80,
                loopy_t: (((data & 0x03) as u16) << 10u16) | (self.loopy_t & 0xF3FF),
                ..self
            }
        } else if address == 0x2001 {
            PpuModel { mask: data, ..self }
        } else if address == 0x2003 {
            PpuModel { oam_address: data, ..self }
        } else if address == 0x2004 {
            PpuModel {
                memory: self.memory.after_oam_write(self.oam_address as int, seq![data]),
                oam_address: vstd::wrapping::u8_specs::wrapping_add(self.oam_address, 1),
                ..self
            }
        } else if address == 0x2005 {
            let fine = data & 0x07;
            let upper_five = (data & 0xF8) >> 3u8;
            match self.loopy_w {
                // t: ....... ...ABCDE <- d: ABCDE...
                // x:              FGH <- d: .....FGH
                WriteToggle::First => PpuModel {
                    loopy_t: (self.loopy_t & 0xFFE0) | (upper_five as u16),
                    fine_x: fine,
                    loopy_w: WriteToggle::Second,
                    ..self
                },
                // t: FGH..AB CDE..... <- d: ABCDEFGH
                WriteToggle::Second => PpuModel {
                    loopy_t: (self.loopy_t & 0x0C1F) | ((fine as u16) << 12u16) | ((upper_five as u16)
                        << 5u16),
                    loopy_w: WriteToggle::First,
                    ..self
                },
            }
        } else if address == 0x2006 {
            match self.loopy_w {
                // t: .CDEFGH ........ <- d: ..CDEFGH, bit 14 cleared
                WriteToggle::First => PpuModel {
                    loopy_t: (self.loopy_t & 0x80FF) | (((data & 0x3F) as u16) << 8u16),
                    loopy_w: WriteToggle::Second,
                    ..self
                },
                // t: ....... ABCDEFGH <- d: ABCDEFGH, then v <- t
                WriteToggle::Second => {
                    let t = (self.loopy_t & 0xFF00) | (data as u16);
                    PpuModel { loopy_t: t, loopy_w: WriteToggle::First, loopy_v: t, ..self }
                },
            }
        } else if address == 0x2007 {
            PpuModel {
                memory: self.memory.after_write(self.loopy_v, data),
                loopy_v: vstd::wrapping::u16_specs::wrapping_add(self.loopy_v, self.vram_increment()),
                ..self
            }
        } else {
            // Writes to PPUSTATUS are ignored.
            self
        }
    }

    /// The value that a CPU read of register `address` ($2000-$2007) returns.
    pub open spec fn io_read_value(self, address: u16) -> u8 {
        if address == 0x2000 {
            self.control
        } else if address == 0x2001 {
            self.mask
        } else if address == 0x2002 {
            status_byte(self.vblank, self.sprite_zero_hit, self.sprite_overflow)
        } else if address == 0x2003 {
            self.oam_address
        } else if address == 0x2004 {
            self.memory.oam_bytes()[self.oam_address as int]
        } else if address == 0x2005 {
            0x00
        } else if address == 0x2006 {
            self.loopy_v as u8
        } else {
            // PPUDATA: direct from $3400 on, else the byte latched by the last read.
            if (self.loopy_v & 0x3FFF) >= 0x3400 {
                self.memory.read_value(self.loopy_v)
            } else {
                self.ppu_data
            }
        }
    }

    /// The PPU after the CPU reads register `address` ($2000-$2007).
    pub open spec fn after_io_read(self, address: u16) -> Self {
        if address == 0x2002 {
            // The vblank flag is cleared on read, and the write toggle reset.
            PpuModel { vblank: false, loopy_w: WriteToggle::First, ..self }
        } else if address == 0x2007 {
            PpuModel {
                ppu_data: self.memory.read_value(self.loopy_v),
                loopy_v: vstd::wrapping::u16_specs::wrapping_add(self.loopy_v, self.vram_increment()),
                ..self
            }
        } else {
            self
        }
    }

    // ---- Rendering ----

    /// The background value (0 is transparent) and color of pixel `i` of
    /// the eight being drawn.
    pub open spec fn bg_pixel(self, i: u8) -> (u16, Pixel) {
        let shift = (15 - self.fine_x - i) as u8;
        let hi = ((self.pattern_byte_sr_hi >> shift) & 0x01) as u8;
        let lo = ((self.pattern_byte_sr_lo >> shift) & 0x01) as u8;
        // The current tile's palette, or the next tile's where fine X runs over.
        let palette = (if self.fine_x + i <= 7 {
            (self.attribute_byte_sr >> 8u16) as u8
        } else {
            self.attribute_byte_sr as u8
        }) & 0x03;
        let value = (((hi << 1u8) | lo) & 0x03) as u16;
        if value == 0 {
            (value, system_color(self.memory.read_value(BG_PALETTE_RAM)))
        } else {
            (
                value,
                system_color(
                    self.memory.read_value(BG_PALETTE_RAM | ((palette as u16) << 2u16) | value) & 0x3F,
                ),
            )
        }
    }

    /// The sprite pixel under pixel `i` of the eight being drawn.
    pub open spec fn sprite_pixel_under(self, i: u8) -> Option<SpritePixel> {
        self.line_sprite_pixels[self.frame_index.1 - (8 - i)]
    }

    /// Pixel `i` of the eight being drawn: a sprite pixel in front of the
    /// background wins; one behind it shows only where the background is
    /// transparent.
    pub open spec fn line_pixel(self, i: u8) -> Pixel {
        let (bg_value, bg_color) = self.bg_pixel(i);
        match self.sprite_pixel_under(i) {
            Some(SpritePixel(sp_color, SpritePriority::InFrontOfBackground, _)) => sp_color,
            Some(SpritePixel(sp_color, SpritePriority::BehindBackground, _)) => if bg_value == 0 {
                sp_color
            } else {
                bg_color
            },
            None => bg_color,
        }
    }

    /// Does pixel `i` of the eight being drawn register a sprite 0 hit?
    pub open spec fn zero_hit(self, i: u8) -> bool {
        let (bg_value, _) = self.bg_pixel(i);
        match self.sprite_pixel_under(i) {
            Some(SpritePixel(_, SpritePriority::InFrontOfBackground, is_sprite_zero)) => is_sprite_zero,
            Some(SpritePixel(_, SpritePriority::BehindBackground, is_sprite_zero)) => bg_value != 0
                && is_sprite_zero,
            None => false,
        }
    }

    /// The eight pixels drawn at a horizontal increment.
    pub open spec fn pixel_line(self) -> Seq<Pixel> {
        Seq::new(8, |i: int| self.line_pixel(i as u8))
    }

    /// Can `operation` run in this state? (Drawing reads the backdrop color
    /// from palette memory as an index into the 64 system colors.)
    pub open spec fn op_ok(self, operation: CycleOperation) -> bool {
        &&& (operation == CycleOperation::IncrementHorizontalV && self.rendering_enabled()
            && self.drawing()) ==> {
            &&& self.frame_index.1 >= 8
            &&& self.memory.read_value(BG_PALETTE_RAM) < 64
        }
        &&& (operation == CycleOperation::SpriteEvaluation && self.rendering_enabled())
            ==> self.frame_index.0 < 240
    }

    /// The PPU after one operation. Apart from the vblank flag, nothing
    /// happens while rendering is disabled.
    pub open spec fn after_op(self, operation: CycleOperation) -> Self {
        if operation != CycleOperation::SetVblank && operation != CycleOperation::ClearVblank
            && !self.rendering_enabled() {
            self
        } else {
            match operation {
                CycleOperation::NameTableAccess | CycleOperation::UnusedNameTableAccess => PpuModel {
                    name_table_byte: self.memory.read_value(0x2000 | (self.loopy_v & 0x0FFF)),
                    ..self
                },
                CycleOperation::AttributeTableAccess => {
                    let attribute_byte = self.memory.read_value(attribute_address(self.loopy_v));
                    PpuModel {
                        attribute_table_group: (attribute_byte >> ((attribute_quadrant(self.loopy_v)
                            * 2) as u8)) & 0x03,
                        ..self
                    }
                },
                CycleOperation::BackgroundLsb => PpuModel {
                    pattern_table_byte_lo: self.memory.read_value(
                        bg_pattern_address(bit_value(self.control, 4), self.name_table_byte, self.loopy_v, false),
                    ),
                    ..self
                },
                CycleOperation::BackgroundMsb => PpuModel {
                    pattern_table_byte_hi: self.memory.read_value(
                        bg_pattern_address(bit_value(self.control, 4), self.name_table_byte, self.loopy_v, true),
                    ),
                    ..self
                },
                CycleOperation::IncrementHorizontalV => PpuModel {
                    sprite_zero_hit: self.sprite_zero_hit || (self.drawing() && exists|i: u8|
                        i < 8 && #[trigger] self.zero_hit(i)),
                    back: if self.drawing() { self.back + self.pixel_line() } else { self.back },
                    pattern_byte_sr_hi: shifted_in(self.pattern_byte_sr_hi, self.pattern_table_byte_hi),
                    pattern_byte_sr_lo: shifted_in(self.pattern_byte_sr_lo, self.pattern_table_byte_lo),
                    attribute_byte_sr: shifted_in(self.attribute_byte_sr, self.attribute_table_group),
                    loopy_v: coarse_x_incremented(self.loopy_v),
                    ..self
                },
                CycleOperation::IncrementVerticalV => PpuModel {
                    loopy_v: y_incremented(self.loopy_v),
                    ..self
                },
                CycleOperation::SpriteEvaluation => {
                    let y = self.frame_index.0 as u8;
                    let sprites = line_sprites(self.memory.oam_bytes(), y, 64);
                    let table: u16 = if bit_set(self.control, 3) { 1 } else { 0 };
                    PpuModel {
                        sprite_overflow: self.sprite_overflow || sprites.len() > 8,
                        line_sprite_pixels: Seq::new(
                            0x100,
                            |x: int| self.memory.first_sprite_pixel(sprites, table, y, x),
                        ),
                        ..self
                    }
                },
                CycleOperation::ClearVblank => PpuModel { vblank: false, ..self },
                CycleOperation::SetVblank => PpuModel {
                    vblank: true,
                    front: self.back,
                    back: Seq::empty(),
                    ready: true,
                    ..self
                },
                // v: ....A.. ...BCDEF <- t: ....A.. ...BCDEF
                CycleOperation::EqualizeHorizontalVT => PpuModel {
                    loopy_v: (self.loopy_v & 0xFBE0) | (self.loopy_t & 0x041F),
                    ..self
                },
                // v: GHIA.BC DEF..... <- t: GHIA.BC DEF.....
                CycleOperation::EqualizeVerticalVT => PpuModel {
                    loopy_v: (self.loopy_v & 0x041F) | (self.loopy_t & 0xFBE0),
                    ..self
                },
                CycleOperation::SpriteZeroClear => PpuModel { sprite_zero_hit: false, ..self },
                CycleOperation::SpriteOverflowClear => PpuModel { sprite_overflow: false, ..self },
                CycleOperation::IgnoredNameTableAccess => self,
            }
        }
    }

    /// The PPU after running `ops` in order.
    pub open spec fn after_ops(self, ops: Seq<CycleOperation>) -> Self
        decreases ops.len(),
    {
        if ops.len() == 0 {
            self
        } else {
            self.after_ops(ops.drop_last()).after_op(ops.last())
        }
    }

    /// Can the current dot's operations run? (Drawing needs the backdrop
    /// color in palette memory to be one of the 64 system colors.)
    pub open spec fn cycle_ok(self) -> bool {
        (self.rendering_enabled() && self.frame_index.0 < 240 && 8 <= self.frame_index.1 <= 256
            && self.frame_index.1 % 8 == 0) ==> self.memory.read_value(BG_PALETTE_RAM) < 64
    }

    /// The PPU after one cycle: the current dot's operations, then the next dot.
    #[verifier::opaque]
    pub open spec fn after_cycle(self) -> Self {
        let done = self.after_ops(schedule(self.frame_index.0 as int, self.frame_index.1 as int));
        PpuModel { frame_index: next_frame_index(self.frame_index), ..done }
    }

    /// The image that `get_image` hands out, and the PPU after it.
    pub open spec fn image(self) -> Option<Seq<Pixel>> {
        if self.ready && self.front.len() == 256 * 240 {
            Some(self.front)
        } else {
            None
        }
    }
}


/// Facts about the bit patterns of the scroll registers.
pub proof fn lemma_scroll_bits()
    by (bit_vector)
    ensures
        forall|v: u16| (#[trigger] (v & 0x001F)) != 31 ==> v < 0xFFFF,
        forall|v: u16| (#[trigger] (v & 0x7000)) != 0x7000 ==> v < 0xF000,
        forall|v: u16| #[trigger] ((v & 0x03E0) >> 5u16) <= 31,
        forall|v: u16| #[trigger] ((v & 0x7000) >> 12u16) <= 7,
        forall|v: u16| #[trigger] attribute_quadrant(v) <= 3,
        forall|d: u8| #[trigger] (d & 0x07) < 8,
{
}

/// The picture processing unit.
pub struct Ppu {
    memory: PpuMemory,
    control: PpuControl,
    mask: PpuMask,
    oam_address: u8,
    dma_complete: bool,
    ppu_data: LatchedDataBuffer,
    loopy_v: u16,
    loopy_t: u16,
    fine_x: u8,
    loopy_w: WriteToggle,
    frame_operations: Vec<Vec<Vec<CycleOperation>>>,
    frame_index: (usize, usize),  // scanline, dot
    vblank: bool,
    nmi: bool,
    sprite_overflow: bool,
    sprite_zero_hit: bool,
    name_table_byte: u8,
    attribute_table_group: u8,
    pattern_table_byte_lo: u8,
    pattern_table_byte_hi: u8,
    pattern_byte_sr_hi: ShiftRegister,
    pattern_byte_sr_lo: ShiftRegister,
    attribute_byte_sr: ShiftRegister,
    image_buffer: DoubleBuffer,
    line_sprite_pixels: Vec<Option<SpritePixel>>,
}

impl View for Ppu {
    type V = PpuModel;

    closed spec fn view(&self) -> PpuModel {
        PpuModel {
            memory: self.memory,
            control: self.control@,
            mask: self.mask@,
            oam_address: self.oam_address,
            dma_complete: self.dma_complete,
            ppu_data: self.ppu_data@,
            loopy_v: self.loopy_v,
            loopy_t: self.loopy_t,
            fine_x: self.fine_x,
            loopy_w: self.loopy_w,
            frame_index: self.frame_index,
            vblank: self.vblank,
            nmi: self.nmi,
            sprite_overflow: self.sprite_overflow,
            sprite_zero_hit: self.sprite_zero_hit,
            name_table_byte: self.name_table_byte,
            attribute_table_group: self.attribute_table_group,
            pattern_table_byte_lo: self.pattern_table_byte_lo,
            pattern_table_byte_hi: self.pattern_table_byte_hi,
            pattern_byte_sr_hi: self.pattern_byte_sr_hi@,
            pattern_byte_sr_lo: self.pattern_byte_sr_lo@,
            attribute_byte_sr: self.attribute_byte_sr@,
            front: self.image_buffer.front_pixels(),
            back: self.image_buffer.back_pixels(),
            ready: self.image_buffer.is_ready(),
            line_sprite_pixels: self.line_sprite_pixels@,
        }
    }
}

impl Ppu {
    /// The frame table holds the schedule, the state keeps its bounds, and
    /// the NMI enable is bit 7 of PPUCTRL.
    pub closed spec fn wf(&self) -> bool {
        &&& is_frame_schedule(self.frame_operations@)
        &&& self@.valid()
        &&& self@.nmi == bit_set(self@.control, 7)
    }

    pub proof fn lemma_wf(&self)
        requires
            self.wf(),
        ensures
            self@.valid(),
            self@.nmi == bit_set(self@.control, 7),
    {
    }

    pub fn initialize(nametable_arrangement: NametableArrangement) -> (r: Self)
        ensures
            r.wf(),
            r@.is_power_up(nametable_arrangement),
    {
        let frame_operations = build_frame_operations();
        let mut line_sprite_pixels: Vec<Option<SpritePixel>> = Vec::new();
        while line_sprite_pixels.len() < 0x100
            invariant
                line_sprite_pixels@.len() <= 0x100,
                forall|x: int| 0 <= x < line_sprite_pixels@.len() ==> #[trigger] line_sprite_pixels@[x] is None,
            decreases 0x100 - line_sprite_pixels@.len(),
        {
            line_sprite_pixels.push(None);
        }
        let r = Self {
            memory: PpuMemory::initialize(nametable_arrangement),
            control: PpuControl::from(0x00),
            mask: PpuMask::from(0x00),
            oam_address: 0x00,
            dma_complete: false,
            ppu_data: LatchedDataBuffer(0x00),
            loopy_v: 0x0000,
            loopy_t: 0x0000,
            fine_x: 0x00,
            loopy_w: WriteToggle::First,
            frame_operations: frame_operations,
            frame_index: (PRERENDER_SCANLINE, 0),
            vblank: false,
            nmi: false,
            sprite_overflow: false,
            sprite_zero_hit: false,
            name_table_byte: 0x00,
            attribute_table_group: 0x00,
            pattern_table_byte_lo: 0x00,
            pattern_table_byte_hi: 0x00,
            pattern_byte_sr_hi: ShiftRegister::initialize(),
            pattern_byte_sr_lo: ShiftRegister::initialize(),
            attribute_byte_sr: ShiftRegister::initialize(),
            image_buffer: DoubleBuffer::initialize(),
            line_sprite_pixels: line_sprite_pixels,
        };
        assert(r@.line_sprite_pixels =~= Seq::new(0x100, |x: int| None::<SpritePixel>));
        assert(!bit_set(0u8, 7u8)) by (bit_vector);
        r
    }

    /// Writes pattern table data (CHR) from address $0000 on.
    pub fn write_chr_rom_data(&mut self, data: &[u8])
        requires
            old(self).wf(),
            data@.len() <= 0x10000,
        ensures
            final(self).wf(),
            final(self)@ == (PpuModel { memory: old(self)@.memory.after_write_seq(0, data@), ..old(self)@ }),
    {
        self.memory.write_bytes(0x00, data);
    }

    pub fn vblank(&self) -> (r: bool)
        ensures
            r == self@.vblank,
    {
        self.vblank
    }

    /// Is an NMI due: enabled in PPUCTRL (bit 7 of the last byte written to
    /// $2000, off at power-up) and in vblank?
    pub fn nmi(&self) -> (r: bool)
        requires
            self.wf(),
        ensures
            r == (self@.nmi && self@.vblank),
            r == (bit_set(self@.control, 7) && self@.vblank),
    {
        self.nmi && self.vblank
    }

    fn rendering_enabled(&self) -> (r: bool)
        ensures
            r == self@.rendering_enabled(),
    {
        self.mask.bg_enabled() || self.mask.sprites_enabled()
    }

    /// Handles a CPU write to one of the PPU registers $2000-$2007.
    pub fn write_io_register(&mut self, address: u16, data: u8)
        requires
            old(self).wf(),
            0x2000 <= address <= 0x2007,
        ensures
            final(self).wf(),
            final(self)@ == old(self)@.after_io_write(address, data),
    {
        proof {
            lemma_scroll_bits();
            assert((data & 0x80 == 0x80) == bit_set(data, 7)) by (bit_vector);
        }
        match address {
            // PPU Control
            0x2000 => {
                self.control = PpuControl::from(data);
                self.nmi = data & 0x80 == 0x80;
                // t: ...GH.. ........ <- d: ......GH
                self.loopy_t = (((self.control.into() & 0x03) as u16) << 10) | (self.loopy_t & 0xF3FF);
            },
            // PPU Mask
            0x2001 => {
                self.mask = PpuMask::from(data);
            },
            // OAM Address
            0x2003 => {
                self.oam_address = data;
            },
            // OAM Data
            0x2004 => {
                self.memory.write_oam_byte(self.oam_address, data);
                // Increment the OAM address after the write.
                self.oam_address = self.oam_address.wrapping_add(1);
            },
            // PPU Scroll
            0x2005 => {
                let ppu_scroll = data;
                let fine_x = ppu_scroll & 0x07;
                let upper_five = (ppu_scroll & 0xF8) >> 3;
                match self.loopy_w {
                    // t: ....... ...ABCDE <- d: ABCDE...
                    // x:              FGH <- d: .....FGH
                    // w:                  <- 1
                    WriteToggle::First => {
                        self.loopy_t = (self.loopy_t & 0xFFE0) | (upper_five as u16);
                        self.fine_x = fine_x;
                        self.loopy_w = WriteToggle::Second;
                    },
                    // t: FGH..AB CDE..... <- d: ABCDEFGH
                    // w:                  <- 0
                    WriteToggle::Second => {
                        self.loopy_t = (self.loopy_t & 0x0C1F) | ((fine_x as u16) << 12) | ((upper_five as u16) << 5);
                        self.loopy_w = WriteToggle::First;
                    },
                }
            },
            // PPU Address
            0x2006 => {
                let ppu_address = data;
                let lower_six = ppu_address & 0x3F;
                match self.loopy_w {
                    // t: .CDEFGH ........ <- d: ..CDEFGH
                    //        <unused>     <- d: AB......
                    // t: Z...... ........ <- 0 (bit Z is cleared)
                    // w:                  <- 1
                    WriteToggle::First => {
                        self.loopy_t = (self.loopy_t & 0x80FF) | ((lower_six as u16) << 8);
                        self.loopy_w = WriteToggle::Second;
                    },
                    // t: ....... ABCDEFGH <- d: ABCDEFGH
                    // w:                  <- 0
                    // v: <...all bits...> <- t: <...all bits...>
                    WriteToggle::Second => {
                        self.loopy_t = (self.loopy_t & 0xFF00) | (ppu_address as u16);
                        self.loopy_w = WriteToggle::First;
                        self.loopy_v = self.loopy_t;
                    },
                }
            },
            // PPU Data
            0x2007 => {
                self.memory.write_byte(self.loopy_v, data);
                self.increment_vram();
            },
            // PPU Status: writes are ignored.
            _ => {},
        }
    }

    /// The value that a CPU read of register `address` would return, without
    /// the read's side effects.
    pub fn peek_io_register(&self, address: u16) -> (r: u8)
        requires
            self.wf(),
            0x2000 <= address <= 0x2007,
        ensures
            r == self@.io_read_value(address),
    {
        proof {
            self.memory.lemma_sizes();
        }
        match address {
            0x2000 => self.control.into(),
            0x2001 => self.mask.into(),
            0x2002 => {
                let v_bit: u8 = if self.vblank { 0x80 } else { 0x00 };
                let s_bit: u8 = if self.sprite_zero_hit { 0x40 } else { 0x00 };
                let o_bit: u8 = if self.sprite_overflow { 0x20 } else { 0x00 };
                v_bit | s_bit | o_bit
            },
            0x2003 => self.oam_address,
            0x2004 => self.memory.read_oam_byte(self.oam_address),
            0x2005 => 0x00,
            0x2006 => self.loopy_v as u8,
            _ => {
                if (self.loopy_v & 0x3FFF) >= 0x3400 {
                    self.memory.read_byte(self.loopy_v)
                } else {
                    self.ppu_data.0
                }
            },
        }
    }

    /// Handles a CPU read of one of the PPU registers $2000-$2007.
    pub fn read_io_register(&mut self, address: u16) -> (r: u8)
        requires
            old(self).wf(),
            0x2000 <= address <= 0x2007,
        ensures
            final(self).wf(),
            r == old(self)@.io_read_value(address),
            final(self)@ == old(self)@.after_io_read(address),
    {
        proof {
            self.memory.lemma_sizes();
        }
        match address {
            // PPU Control
            0x2000 => self.control.into(),
            // PPU Mask
            0x2001 => self.mask.into(),
            // PPU Status
            0x2002 => {
                // 7  bit  0
                // ---- ----
                // VSOx xxxx
                // |||| ||||
                // |||+-++++- (PPU open bus or 2C05 PPU identifier)
                // ||+------- Sprite overflow flag
                // |+-------- Sprite 0 hit flag
                // +--------- Vblank flag, cleared on read.
                let v_bit: u8 = if self.vblank { 0x80 } else { 0x00 };
                let s_bit: u8 = if self.sprite_zero_hit { 0x40 } else { 0x00 };
                let o_bit: u8 = if self.sprite_overflow { 0x20 } else { 0x00 };

                // Clear the vblank flag.
                self.vblank = false;
                // Reset the write latch
                self.loopy_w = WriteToggle::First;
                v_bit | s_bit | o_bit
            },
            // OAM Address
            0x2003 => self.oam_address,
            // OAM Data
            0x2004 => self.memory.read_oam_byte(self.oam_address),
            // PPU Scroll: not readable
            0x2005 => 0x00,
            // PPU Address: not readable; gives the low byte of v
            0x2006 => self.loopy_v as u8,
            // PPU Data
            _ => {
                let data = if (self.loopy_v & 0x3FFF) >= 0x3400 {
                    let d = self.memory.read_byte(self.loopy_v);
                    self.ppu_data.read_and_set(d);
                    d
                } else {
                    let d = self.memory.read_byte(self.loopy_v);
                    self.ppu_data.read_and_set(d)
                };
                self.increment_vram();
                data
            },
        }
    }

    fn increment_vram(&mut self)
        requires
            old(self).wf(),
        ensures
            final(self).wf(),
            final(self).frame_operations@ == old(self).frame_operations@,
            final(self)@ == (PpuModel {
                loopy_v: vstd::wrapping::u16_specs::wrapping_add(
                    old(self)@.loopy_v,
                    old(self)@.vram_increment(),
                ),
                ..old(self)@
            }),
    {
        let inc = self.control.vram_address_increment();
        self.loopy_v = self.loopy_v.wrapping_add(inc);
    }

    /// Copies 256 bytes into sprite memory (OAM DMA).
    pub fn dma(&mut self, dma_bytes: &[u8])
        requires
            old(self).wf(),
            dma_bytes@.len() <= 0x100,
        ensures
            final(self).wf(),
            final(self)@ == (PpuModel {
                memory: old(self)@.memory.after_oam_write(0, dma_bytes@),
                dma_complete: true,
                ..old(self)@
            }),
    {
        // Write all 256 bytes into OAM.
        self.memory.write_oam_bytes(dma_bytes);
        // Flag the DMA (so that the CPU can be stalled).
        self.dma_complete = true;
    }

    /// Reports whether a DMA happened since the last call, and clears the flag.
    pub fn dma_flag(&mut self) -> (r: bool)
        requires
            old(self).wf(),
        ensures
            final(self).wf(),
            r == old(self)@.dma_complete,
            final(self)@ == (PpuModel { dma_complete: false, ..old(self)@ }),
    {
        let ret = self.dma_complete;
        self.dma_complete = false;
        ret
    }

    fn increment_coarse_x(&mut self)
        requires
            old(self).wf(),
        ensures
            final(self).wf(),
            final(self).frame_operations@ == old(self).frame_operations@,
            final(self)@ == (PpuModel { loopy_v: coarse_x_incremented(old(self)@.loopy_v), ..old(self)@ }),
    {
        proof {
            lemma_scroll_bits();
        }
        // If coarse X == 31, wrap around to 0 and switch the horizontal nametable.
        if self.loopy_v & 0x001F == 31 {
            self.loopy_v = self.loopy_v & 0xFFE0;
            self.loopy_v = self.loopy_v ^ 0x0400;
        } else {
            self.loopy_v = self.loopy_v + 1;
        }
    }

    fn increment_y(&mut self)
        requires
            old(self).wf(),
        ensures
            final(self).wf(),
            final(self).frame_operations@ == old(self).frame_operations@,
            final(self)@ == (PpuModel { loopy_v: y_incremented(old(self)@.loopy_v), ..old(self)@ }),
    {
        proof {
            lemma_scroll_bits();
        }
        if self.loopy_v & 0x7000 != 0x7000 {
            // Increment fine y
            self.loopy_v = self.loopy_v + 0x1000;
        } else {
            // Zero out fine y
            self.loopy_v = self.loopy_v & 0x0FFF;
            let mut coarse_y = (self.loopy_v & 0x03E0) >> 5;
            if coarse_y == 29 {
                coarse_y = 0;
                // Switch the vertical nametable
                self.loopy_v = self.loopy_v ^ 0x0800;
            } else if coarse_y == 31 {
                // Wrap without switching the nametable
                coarse_y = 0;
            } else {
                coarse_y = coarse_y + 1;
            }
            self.loopy_v = (self.loopy_v & 0xFC1F) | (coarse_y << 5);
        }
    }

    /// The fine Y scroll: which of a tile's 8 pixel rows is being drawn.
    fn fine_y(&self) -> (r: u8)
        ensures
            r == fine_y(self@.loopy_v),
            r <= 7,
    {
        proof {
            lemma_scroll_bits();
        }
        ((self.loopy_v & 0x7000) >> 12) as u8
    }

    /// The completed image, if one is ready that has not been handed out
    /// (and is a full 256x240 frame).
    pub fn get_image(&mut self) -> (r: Option<Vec<Pixel>>)
        requires
            old(self).wf(),
        ensures
            final(self).wf(),
            r matches Some(img) ==> old(self)@.image() == Some(img@),
            r is None ==> old(self)@.image() is None,
            final(self)@ == (PpuModel { ready: false, ..old(self)@ }),
    {
        match self.image_buffer.front() {
            Some(pixels) => {
                if pixels.len() == 256 * 240 {
                    Some(pixels)
                } else {
                    None
                }
            },
            None => None,
        }
    }

    /// Can `execute_cycle` run now? (Drawing needs the backdrop color in
    /// palette memory to be one of the 64 system colors.)
    pub fn can_execute_cycle(&self) -> (r: bool)
        requires
            self.wf(),
        ensures
            r == self@.cycle_ok(),
    {
        if self.rendering_enabled() && self.frame_index.0 < 240 && 8 <= self.frame_index.1
            && self.frame_index.1 <= 256 && self.frame_index.1 % 8 == 0 {
            self.memory.read_byte(BG_PALETTE_RAM) < 64
        } else {
            true
        }
    }

    /// Runs the operations of the current dot, then moves to the next dot.
    pub fn execute_cycle(&mut self)
        requires
            old(self).wf(),
            old(self)@.cycle_ok(),
        ensures
            final(self).wf(),
            final(self)@ == old(self)@.after_cycle(),
    {
        reveal(PpuModel::after_cycle);
        let (scanline, dot) = self.frame_index;
        let ghost ops = schedule(scanline as int, dot as int);
        let num_ops = self.frame_operations[scanline][dot].len();
        let mut i: usize = 0;
        while i < num_ops
            invariant
                self.wf(),
                i <= num_ops,
                num_ops == ops.len(),
                self.frame_operations@ == old(self).frame_operations@,
                self@.frame_index == (scanline, dot),
                scanline < NUM_SCANLINES,
                dot < NUM_DOTS,
                ops == schedule(scanline as int, dot as int),
                self.frame_operations@[scanline as int]@[dot as int]@ == ops,
                self@ == old(self)@.after_ops(ops.take(i as int)),
                self@.rendering_enabled() == old(self)@.rendering_enabled(),
                self@.memory.read_value(BG_PALETTE_RAM) == old(self)@.memory.read_value(BG_PALETTE_RAM),
                old(self)@.cycle_ok(),
            decreases num_ops - i,
        {
            // Execute the operation
            let operation = self.frame_operations[scanline][dot][i];
            proof {
                lemma_schedule_ops(scanline as int, dot as int, i as int);
            }
            self.execute_operation(operation);
            proof {
                assert(ops.take(i + 1).drop_last() =~= ops.take(i as int));
                assert(ops.take(i + 1).last() == operation);
            }
            i = i + 1;
        }
        assert(ops.take(num_ops as int) =~= ops);
        // Move to the next dot
        let next_dot = (dot + 1) % NUM_DOTS;
        let next_scanline = if next_dot == 0 {
            (scanline + 1) % NUM_SCANLINES
        } else {
            scanline
        };
        self.frame_index = (next_scanline, next_dot);
    }

    fn execute_operation(&mut self, operation: CycleOperation)
        requires
            old(self).wf(),
            old(self)@.op_ok(operation),
        ensures
            final(self).wf(),
            final(self)@ == old(self)@.after_op(operation),
            final(self).frame_operations@ == old(self).frame_operations@,
            final(self)@.frame_index == old(self)@.frame_index,
            final(self)@.rendering_enabled() == old(self)@.rendering_enabled(),
            final(self)@.memory.read_value(BG_PALETTE_RAM) == old(self)@.memory.read_value(BG_PALETTE_RAM),
            // With rendering off, only the vblank operations do anything.
            !old(self)@.rendering_enabled() && !touches_vblank(operation) ==> final(self)@ == old(self)@,
    {
        // Vblank flag maintenance happens regardless of rendering state; nothing
        // else happens while rendering is disabled.
        match operation {
            CycleOperation::SetVblank | CycleOperation::ClearVblank => {},
            _ => {
                if !self.rendering_enabled() {
                    return;
                }
            },
        }
        match operation {
            CycleOperation::NameTableAccess | CycleOperation::UnusedNameTableAccess
            | CycleOperation::AttributeTableAccess | CycleOperation::BackgroundLsb
            | CycleOperation::BackgroundMsb => {
                self.fetch_background(operation);
            },
            CycleOperation::IncrementHorizontalV => {
                self.increment_horizontal();
            },
            CycleOperation::IncrementVerticalV => {
                self.increment_y();
            },
            CycleOperation::SpriteEvaluation => {
                self.evaluate_sprites();
            },
            CycleOperation::ClearVblank => {
                self.vblank = false;
            },
            CycleOperation::SetVblank => {
                self.vblank = true;
                self.image_buffer.swap();
            },
            CycleOperation::EqualizeHorizontalVT => {
                // v: ....A.. ...BCDEF <- t: ....A.. ...BCDEF
                self.loopy_v = (self.loopy_v & 0xFBE0) | (self.loopy_t & 0x041F);
            },
            CycleOperation::EqualizeVerticalVT => {
                // v: GHIA.BC DEF..... <- t: GHIA.BC DEF.....
                self.loopy_v = (self.loopy_v & 0x041F) | (self.loopy_t & 0xFBE0);
            },
            CycleOperation::SpriteZeroClear => {
                self.sprite_zero_hit = false;
            },
            CycleOperation::SpriteOverflowClear => {
                self.sprite_overflow = false;
            },
            CycleOperation::IgnoredNameTableAccess => {},
        }
    }

    /// Draws the pixels of the tile in the shift registers (on visible
    /// dots), shifts in the next tile and moves one tile right.
    fn increment_horizontal(&mut self)
        requires
            old(self).wf(),
            old(self)@.rendering_enabled(),
            old(self)@.op_ok(CycleOperation::IncrementHorizontalV),
        ensures
            final(self).wf(),
            final(self)@ == old(self)@.after_op(CycleOperation::IncrementHorizontalV),
            final(self).frame_operations@ == old(self).frame_operations@,
    {
        let ghost m = self@;
        self.draw_pixel_line();
        let ghost m1 = self@;
        // Shift in the next tile.
        self.pattern_byte_sr_hi.push(self.pattern_table_byte_hi);
        self.pattern_byte_sr_lo.push(self.pattern_table_byte_lo);
        self.attribute_byte_sr.push(self.attribute_table_group);
        assert(self@ == (PpuModel {
            pattern_byte_sr_hi: shifted_in(m.pattern_byte_sr_hi, m.pattern_table_byte_hi),
            pattern_byte_sr_lo: shifted_in(m.pattern_byte_sr_lo, m.pattern_table_byte_lo),
            attribute_byte_sr: shifted_in(m.attribute_byte_sr, m.attribute_table_group),
            ..m1
        }));
        self.increment_coarse_x();
        assert(self@ == m.after_op(CycleOperation::IncrementHorizontalV));
    }

    /// The background fetches: nametable byte, attribute bits, and the two
    /// pattern bytes of the next tile.
    fn fetch_background(&mut self, operation: CycleOperation)
        requires
            old(self).wf(),
            old(self)@.rendering_enabled(),
            operation == CycleOperation::NameTableAccess || operation
                == CycleOperation::UnusedNameTableAccess || operation
                == CycleOperation::AttributeTableAccess || operation == CycleOperation::BackgroundLsb
                || operation == CycleOperation::BackgroundMsb,
        ensures
            final(self).wf(),
            final(self)@ == old(self)@.after_op(operation),
            final(self).frame_operations@ == old(self).frame_operations@,
    {
        proof {
            lemma_scroll_bits();
            lemma_byte_bits();
        }
        if operation == CycleOperation::AttributeTableAccess {
            let attribute_table_address = 0x23C0 | (self.loopy_v & 0x0C00) | ((self.loopy_v >> 4) & 0x0038)
                | ((self.loopy_v >> 2) & 0x0007);
            let attribute_byte = self.memory.read_byte(attribute_table_address);
            // The attribute byte holds a palette for each quadrant (YX) of 2x2 tiles.
            let coarse_x = self.loopy_v & 0x001F;
            let coarse_y = (self.loopy_v >> 5) & 0x001F;
            let quadrant = (((coarse_y >> 1) & 0x01) << 1) | ((coarse_x >> 1) & 0x01);
            proof {
                assert(quadrant == attribute_quadrant(self.loopy_v));
            }
            self.attribute_table_group = (attribute_byte >> ((quadrant * 2) as u8)) & 0x03;
        } else if operation == CycleOperation::BackgroundLsb {
            // Pattern table address with plane bit 0.
            let pattern_table_address = ((self.control.bg_pattern_table_half() as u16) << 12)
                | ((self.name_table_byte as u16) << 4) | (self.fine_y() as u16);
            self.pattern_table_byte_lo = self.memory.read_byte(pattern_table_address);
        } else if operation == CycleOperation::BackgroundMsb {
            // Pattern table address with plane bit 1.
            let pattern_table_address = ((self.control.bg_pattern_table_half() as u16) << 12)
                | ((self.name_table_byte as u16) << 4) | 0x08 | (self.fine_y() as u16);
            self.pattern_table_byte_hi = self.memory.read_byte(pattern_table_address);
        } else {
            let name_table_addr = 0x2000 | (self.loopy_v & 0x0FFF);
            self.name_table_byte = self.memory.read_byte(name_table_addr);
        }
    }

    /// Finds the sprites on the current scanline and draws their pixels for
    /// the line.
    fn evaluate_sprites(&mut self)
        requires
            old(self).wf(),
            old(self)@.rendering_enabled(),
            old(self)@.frame_index.0 < 240,
        ensures
            final(self).wf(),
            final(self)@ == old(self)@.after_op(CycleOperation::SpriteEvaluation),
            final(self).frame_operations@ == old(self).frame_operations@,
    {
        let scanline_y = self.frame_index.0 as u8;
        let sprites = self.memory.get_line_sprites(scanline_y);
        if sprites.len() > 8 {
            // More than 8 sprites on the line.
            self.sprite_overflow = true;
        }
        proof {
            self.memory.lemma_sizes();
            lemma_line_sprites_on_line(self.memory.oam_bytes(), scanline_y, 64);
        }
        let table = self.control.sprite_pattern_table_half() as u16;
        let ghost sprites_view = sprites@;
        self.line_sprite_pixels = self.memory.create_sprite_line_pixels(sprites, table, scanline_y);
        assert(self.line_sprite_pixels@ =~= Seq::new(
            0x100,
            |x: int| self.memory.first_sprite_pixel(sprites_view, table, scanline_y, x),
        ));
    }

    /// On a visible dot, draws eight pixels into the back image: background
    /// from the shift registers, combined with the scanline's sprite pixels.
    fn draw_pixel_line(&mut self)
        requires
            old(self).wf(),
            old(self)@.drawing() ==> old(self)@.frame_index.1 >= 8 && old(self)@.memory.read_value(
                BG_PALETTE_RAM,
            ) < 64,
        ensures
            final(self).wf(),
            final(self).frame_operations@ == old(self).frame_operations@,
            final(self)@ == (PpuModel {
                sprite_zero_hit: old(self)@.sprite_zero_hit || (old(self)@.drawing() && exists|i: u8|
                    i < 8 && #[trigger] old(self)@.zero_hit(i)),
                back: if old(self)@.drawing() {
                    old(self)@.back + old(self)@.pixel_line()
                } else {
                    old(self)@.back
                },
                ..old(self)@
            }),
    {
        if !(self.frame_index.0 < 240 && self.frame_index.1 < 257) {
            return;
        }
        let ghost m = self@;
        let mut i: u8 = 0;
        while i < 8
            invariant
                self.wf(),
                i <= 8,
                m == old(self)@,
                m.drawing(),
                m.frame_index.1 >= 8,
                m.memory.read_value(BG_PALETTE_RAM) < 64,
                self.frame_operations@ == old(self).frame_operations@,
                self@ == (PpuModel {
                    sprite_zero_hit: m.sprite_zero_hit || exists|j: u8| j < i && #[trigger] m.zero_hit(j),
                    back: m.back + m.pixel_line().take(i as int),
                    ..m
                }),
            decreases 8 - i,
        {
            proof {
                lemma_byte_bits();
                lemma_color_index_bits();
            }
            let shift: u8 = 15 - self.fine_x - i;
            let hi = self.pattern_byte_sr_hi.bit(shift);
            let lo = self.pattern_byte_sr_lo.bit(shift);
            // The current tile's palette, or the next tile's where fine X runs over.
            let palette = if self.fine_x + i <= 7 {
                self.attribute_byte_sr.hi()
            } else {
                self.attribute_byte_sr.lo()
            } & 0x03;
            let value = (((hi << 1) | lo) & 0x03) as u16;
            // The color index is a 6-bit index into the system colors.
            let bg_color = if value == 0x00 {
                let transparent_index = self.memory.read_byte(BG_PALETTE_RAM);
                get_system_color(transparent_index)
            } else {
                let color_index = (self.memory.read_byte(BG_PALETTE_RAM | ((palette as u16) << 2) | value)) & 0x3F;
                get_system_color(color_index)
            };
            proof {
                assert((value, bg_color) == m.bg_pixel(i));
            }
            let sprite_pixel = self.line_sprite_pixels[self.frame_index.1 - (8 - i as usize)];
            let pixel = match sprite_pixel {
                Some(SpritePixel(sp_color, SpritePriority::InFrontOfBackground, is_sprite_zero)) => {
                    if is_sprite_zero {
                        self.sprite_zero_hit = true;
                    }
                    sp_color
                },
                Some(SpritePixel(sp_color, SpritePriority::BehindBackground, is_sprite_zero)) => {
                    if value == 0 {
                        sp_color
                    } else {
                        if is_sprite_zero {
                            self.sprite_zero_hit = true;
                        }
                        bg_color
                    }
                },
                None => bg_color,
            };
            proof {
                assert(pixel == m.line_pixel(i));
                assert(m.pixel_line().take(i + 1) =~= m.pixel_line().take(i as int).push(pixel));
                if m.zero_hit(i) {
                    assert(self.sprite_zero_hit);
                }
            }
            self.image_buffer.push_back(pixel);
            i = i + 1;
            proof {
                assert(self.sprite_zero_hit == (m.sprite_zero_hit || exists|j: u8| j < i && #[trigger] m.zero_hit(j)));
                assert(self@.back =~= m.back + m.pixel_line().take(i as int));
            }
        }
        assert(m.pixel_line().take(8) =~= m.pixel_line());
    }
}

/// Every operation that the schedule puts on a dot can run there, given
/// the cycle precondition.
proof fn lemma_schedule_ops(scanline: int, dot: int, i: int)
    requires
        0 <= scanline < NUM_SCANLINES,
        0 <= dot < NUM_DOTS,
        0 <= i < schedule(scanline, dot).len(),
    ensures
        schedule(scanline, dot)[i] == CycleOperation::IncrementHorizontalV ==> dot % 8 == 0 && dot >= 8,
        schedule(scanline, dot)[i] == CycleOperation::SpriteEvaluation ==> scanline < 240,
{
}

/// Every sprite that `line_sprites` picks covers the scanline.
proof fn lemma_line_sprites_on_line(oam: Seq<u8>, y: u8, n: nat)
    requires
        oam.len() == 0x100,
        n <= 64,
    ensures
        forall|k: int|
            0 <= k < line_sprites(oam, y, n).len() ==> sprite_on_line(#[trigger] line_sprites(oam, y, n)[k], y),
    decreases n,
{
    if n > 0 {
        lemma_line_sprites_on_line(oam, y, (n - 1) as nat);
        let prev = line_sprites(oam, y, (n - 1) as nat);
        let index = 4 * (n - 1);
        if oam_entry_on_line(oam, index, y) {
            let s = spec_sprite(oam[index], oam[index + 1], oam[index + 2], oam[index + 3], index == 0);
            assert(sprite_on_line(s, y));
            assert forall|k: int| 0 <= k < prev.push(s).len() implies sprite_on_line(
                #[trigger] prev.push(s)[k],
                y,
            ) by {
                if k < prev.len() {
                    assert(prev.push(s)[k] == prev[k]);
                }
            }
        }
    }
}

/// Two writes to PPUADDR ($2006), high byte then low byte, set the VRAM
/// address to $HHLL with bits 14-15 taken from the high byte's low six bits
/// (bit 15 of `t`, which no write ever sets, carries over), and leave the
/// write toggle at the first write.
pub proof fn law_ppuaddr_writes(p: PpuModel, hi: u8, lo: u8)
    requires
        p.loopy_w == WriteToggle::First,
    ensures
        p.after_io_write(0x2006, hi).after_io_write(0x2006, lo).loopy_v == (p.loopy_t & 0x8000) | ((
        (hi & 0x3F) as u16) << 8u16) | (lo as u16),
        p.after_io_write(0x2006, hi).after_io_write(0x2006, lo).loopy_w == WriteToggle::First,
{
    let t = p.loopy_t;
    assert((((t & 0x80FF) | (((hi & 0x3F) as u16) << 8u16)) & 0xFF00) | (lo as u16) == (t & 0x8000) | ((
    (hi & 0x3F) as u16) << 8u16) | (lo as u16)) by (bit_vector);
}

/// A PPUDATA ($2007) access moves the VRAM address on by 32 when bit 2 of
/// PPUCTRL is set and by 1 when it is clear (wrapping at $FFFF): a write
/// stores the byte at the current address first, so two writes land at `v`
/// and `v` + 32 (or `v` + 1); a read moves on the same way.
pub proof fn law_ppudata_advances(p: PpuModel, d1: u8, d2: u8)
    ensures
        ({
            let step = if p.control & 0x04 != 0 { 32int } else { 1int };
            let v2 = ((p.loopy_v + step) % 0x10000) as u16;
            let w1 = p.after_io_write(0x2007, d1);
            let w2 = w1.after_io_write(0x2007, d2);
            &&& w1.loopy_v == v2
            &&& w1.memory == p.memory.after_write(p.loopy_v, d1)
            &&& w2.loopy_v == (v2 + step) % 0x10000
            &&& w2.memory == p.memory.after_write(p.loopy_v, d1).after_write(v2, d2)
            &&& p.after_io_read(0x2007).loopy_v == v2
        }),
{
    let c = p.control;
    assert(bit_set(c, 2) == (c & 0x04 != 0)) by (bit_vector);
}

/// The status byte's top bit is the vblank flag.
proof fn lemma_status_byte(v: bool, s: bool, o: bool)
    by (bit_vector)
    ensures
        (status_byte(v, s, o) & 0x80 == 0x80) == v,
        !v ==> status_byte(v, s, o) & 0x80 == 0,
        (status_byte(v, s, o) & 0x40 == 0x40) == s,
        (status_byte(v, s, o) & 0x20 == 0x20) == o,
{
}

/// A read of PPUSTATUS ($2002) reports the vblank, sprite zero hit and
/// sprite overflow flags in bits 7, 6 and 5, then clears vblank and resets
/// the write toggle, so a second read reports vblank clear.
pub proof fn law_status_read(p: PpuModel)
    ensures
        (p.io_read_value(0x2002) & 0x80 == 0x80) == p.vblank,
        (p.io_read_value(0x2002) & 0x40 == 0x40) == p.sprite_zero_hit,
        (p.io_read_value(0x2002) & 0x20 == 0x20) == p.sprite_overflow,
        !p.after_io_read(0x2002).vblank,
        p.after_io_read(0x2002).loopy_w == WriteToggle::First,
        p.after_io_read(0x2002).io_read_value(0x2002) & 0x80 == 0,
{
    lemma_status_byte(p.vblank, p.sprite_zero_hit, p.sprite_overflow);
    lemma_status_byte(false, p.sprite_zero_hit, p.sprite_overflow);
}

/// Moving one tile right changes only coarse X (bits 4-0), which counts up
/// modulo 32, and, when it wraps, the horizontal nametable bit (10). Moving
/// one pixel row down counts fine Y (bits 14-12) up modulo 8 and leaves
/// coarse X and the horizontal nametable bit alone.
pub proof fn law_scroll_increments(v: u16)
    ensures
        coarse_x_incremented(v) & 0xFBE0 == v & 0xFBE0,
        coarse_x_incremented(v) & 0x001F == ((v & 0x001F) + 1) % 32,
        (coarse_x_incremented(v) & 0x0400 != v & 0x0400) == (v & 0x001F == 31),
        y_incremented(v) & 0x041F == v & 0x041F,
        fine_y(y_incremented(v)) == (fine_y(v) + 1) % 8,
{
    lemma_scroll_increment_bits(v);
}

proof fn lemma_scroll_increment_bits(v: u16)
    by (bit_vector)
    ensures
        coarse_x_incremented(v) & 0xFBE0 == v & 0xFBE0,
        coarse_x_incremented(v) & 0x001F == (((v & 0x001F) + 1) % 32) as u16,
        (coarse_x_incremented(v) & 0x0400 != v & 0x0400) == (v & 0x001F == 31),
        y_incremented(v) & 0x041F == v & 0x041F,
        (y_incremented(v) & 0x7000) >> 12u16 == ((((v & 0x7000) >> 12u16) + 1) % 8) as u16,
        fine_y(y_incremented(v)) as u16 == (y_incremented(v) & 0x7000) >> 12u16,
        fine_y(v) as u16 == (v & 0x7000) >> 12u16,
{
}

/// Does `op` change the vblank flag?
pub open spec fn touches_vblank(op: CycleOperation) -> bool {
    op == CycleOperation::SetVblank || op == CycleOperation::ClearVblank
}

proof fn lemma_ops_keep_vblank(p: PpuModel, ops: Seq<CycleOperation>)
    requires
        forall|i: int| 0 <= i < ops.len() ==> !touches_vblank(#[trigger] ops[i]),
    ensures
        p.after_ops(ops).vblank == p.vblank,
        p.after_ops(ops).frame_index == p.frame_index,
    decreases ops.len(),
{
    if ops.len() > 0 {
        let rest = ops.drop_last();
        assert forall|i: int| 0 <= i < rest.len() implies !touches_vblank(#[trigger] rest[i]) by {
            assert(rest[i] == ops[i]);
        }
        lemma_ops_keep_vblank(p, rest);
        assert(!touches_vblank(ops[ops.len() - 1]));
    }
}

proof fn lemma_vblank_set(p: PpuModel)
    requires
        p.frame_index == (241usize, 1usize),
    ensures
        p.after_cycle().vblank,
        p.after_cycle().ready,
        p.after_cycle().front == p.back,
{
    reveal(PpuModel::after_cycle);
    let ops = schedule(241, 1);
    assert(ops =~= seq![CycleOperation::SetVblank]);
    assert(ops.drop_last() =~= Seq::<CycleOperation>::empty());
    assert(p.after_ops(ops.drop_last()) == p);
}

proof fn lemma_vblank_clear(p: PpuModel)
    requires
        p.frame_index == (PRERENDER_SCANLINE, 1usize),
    ensures
        !p.after_cycle().vblank,
        p.rendering_enabled() ==> !p.after_cycle().sprite_zero_hit && !p.after_cycle().sprite_overflow,
{
    reveal(PpuModel::after_cycle);
    let ops = schedule(PRERENDER_SCANLINE as int, 1);
    let o1 = ops.drop_last().drop_last();
    let o2 = ops.drop_last();
    assert(o1.drop_last() =~= Seq::<CycleOperation>::empty());
    assert(o1 =~= seq![CycleOperation::ClearVblank]);
    assert(o2 =~= seq![CycleOperation::ClearVblank, CycleOperation::SpriteZeroClear]);
    assert(p.after_ops(o1.drop_last()) == p);
    let p1 = p.after_op(CycleOperation::ClearVblank);
    assert(p.after_ops(o1) == p1);
    let p2 = p1.after_op(CycleOperation::SpriteZeroClear);
    assert(p.after_ops(o2) == p2);
}

/// Apart from scanline 241, dot 1 and dot 1 of the pre-render line, no
/// dot's operations touch the vblank flag.
proof fn lemma_schedule_keeps_vblank(scanline: usize, dot: usize)
    requires
        (scanline, dot) != (241usize, 1usize),
        (scanline, dot) != (PRERENDER_SCANLINE, 1usize),
    ensures
        forall|i: int|
            0 <= i < schedule(scanline as int, dot as int).len() ==> !touches_vblank(
                #[trigger] schedule(scanline as int, dot as int)[i],
            ),
{
    let ops = schedule(scanline as int, dot as int);
    assert forall|i: int| 0 <= i < ops.len() implies !touches_vblank(#[trigger] ops[i]) by {
        if scanline < 240 && dot != 0 || scanline == PRERENDER_SCANLINE {
            let line = line_ops(dot as int);
            if 1 <= dot <= 256 || 321 <= dot <= 336 {
                let k = if dot <= 256 { dot as int } else { dot - 320 };
                assert(line == tile_fetch_ops(k));
            }
            if scanline == PRERENDER_SCANLINE && 280 <= dot <= 304 {
                assert(ops == line.push(CycleOperation::EqualizeVerticalVT));
                if i < line.len() {
                    assert(ops[i] == line[i]);
                }
            }
        }
    }
}

proof fn lemma_vblank_kept(p: PpuModel)
    requires
        p.frame_index != (241usize, 1usize),
        p.frame_index != (PRERENDER_SCANLINE, 1usize),
    ensures
        p.after_cycle().vblank == p.vblank,
{
    reveal(PpuModel::after_cycle);
    let (scanline, dot) = p.frame_index;
    lemma_schedule_keeps_vblank(scanline, dot);
    lemma_ops_keep_vblank(p, schedule(scanline as int, dot as int));
}

/// Only the vblank start touches the front image and its ready flag.
proof fn lemma_ops_keep_image(p: PpuModel, ops: Seq<CycleOperation>)
    requires
        forall|i: int| 0 <= i < ops.len() ==> #[trigger] ops[i] != CycleOperation::SetVblank,
    ensures
        p.after_ops(ops).ready == p.ready,
        p.after_ops(ops).front == p.front,
    decreases ops.len(),
{
    if ops.len() > 0 {
        let rest = ops.drop_last();
        assert forall|i: int| 0 <= i < rest.len() implies #[trigger] rest[i] != CycleOperation::SetVblank by {
            assert(rest[i] == ops[i]);
        }
        lemma_ops_keep_image(p, rest);
        assert(ops[ops.len() - 1] != CycleOperation::SetVblank);
    }
}

proof fn lemma_image_kept(p: PpuModel)
    requires
        p.frame_index != (241usize, 1usize),
    ensures
        p.after_cycle().ready == p.ready,
        p.after_cycle().front == p.front,
{
    reveal(PpuModel::after_cycle);
    let (scanline, dot) = p.frame_index;
    let ops = schedule(scanline as int, dot as int);
    if p.frame_index == (PRERENDER_SCANLINE, 1usize) {
        assert forall|i: int| 0 <= i < ops.len() implies #[trigger] ops[i] != CycleOperation::SetVblank by {
            assert(ops == seq![
                CycleOperation::ClearVblank,
                CycleOperation::SpriteZeroClear,
                CycleOperation::SpriteOverflowClear,
            ]);
        }
    } else {
        lemma_schedule_keeps_vblank(scanline, dot);
        assert forall|i: int| 0 <= i < ops.len() implies #[trigger] ops[i] != CycleOperation::SetVblank by {
            assert(!touches_vblank(ops[i]));
        }
    }
    lemma_ops_keep_image(p, ops);
}

/// Once `get_image` has handed out the front image (clearing the ready
/// flag), no image is handed out again until a cycle at scanline 241, dot 1
/// swaps in the next picture: every other cycle keeps the front image and
/// the ready flag, so `image()` stays `None`.
pub proof fn law_image_withheld(p: PpuModel)
    requires
        !p.ready,
        p.frame_index != (241usize, 1usize),
    ensures
        !p.after_cycle().ready,
        p.after_cycle().image() is None,
{
    lemma_image_kept(p);
}

/// The PPU enters vblank at scanline 241, dot 1, where the finished picture
/// becomes the front image, and leaves it at dot 1 of the pre-render line,
/// where (with rendering on) the sprite zero hit and overflow flags are
/// cleared too; no other
/// dot changes the vblank flag, no other dot touches the front image or its
/// ready flag, and every cycle moves on to the next dot.
pub proof fn law_vblank_timing(p: PpuModel)
    ensures
        p.after_cycle().frame_index == next_frame_index(p.frame_index),
        p.frame_index == (241usize, 1usize) ==> {
            &&& p.after_cycle().vblank
            &&& p.after_cycle().ready
            &&& p.after_cycle().front == p.back
        },
        p.frame_index == (PRERENDER_SCANLINE, 1usize) ==> {
            &&& !p.after_cycle().vblank
            &&& p.rendering_enabled() ==> !p.after_cycle().sprite_zero_hit
                && !p.after_cycle().sprite_overflow
        },
        p.frame_index != (241usize, 1usize) && p.frame_index != (PRERENDER_SCANLINE, 1usize)
            ==> p.after_cycle().vblank == p.vblank,
        p.frame_index != (241usize, 1usize) ==> p.after_cycle().ready == p.ready
            && p.after_cycle().front == p.front,
{
    reveal(PpuModel::after_cycle);
    if p.frame_index != (241usize, 1usize) {
        lemma_image_kept(p);
    }
    if p.frame_index == (241usize, 1usize) {
        lemma_vblank_set(p);
    } else if p.frame_index == (PRERENDER_SCANLINE, 1usize) {
        lemma_vblank_clear(p);
    } else {
        lemma_vblank_kept(p);
    }
}

/// No operation touches PPUCTRL or the NMI enable.
proof fn lemma_ops_keep_control(p: PpuModel, ops: Seq<CycleOperation>)
    ensures
        p.after_ops(ops).control == p.control,
        p.after_ops(ops).nmi == p.nmi,
    decreases ops.len(),
{
    if ops.len() > 0 {
        lemma_ops_keep_control(p, ops.drop_last());
    }
}

/// The NMI enable is set and cleared by writes to PPUCTRL alone: a write to
/// $2000 stores the byte and takes its bit 7 as the NMI enable; every other
/// register write, every register read and every PPU cycle keeps both. So
/// the NMI enable is always bit 7 of PPUCTRL, the last byte written to $2000
/// (off at power-up), and `Ppu::nmi` reports an NMI only in vblank.
pub proof fn law_nmi_follows_control(p: PpuModel, address: u16, data: u8, arrangement: NametableArrangement)
    requires
        0x2000 <= address <= 0x2007,
    ensures
        p.is_power_up(arrangement) ==> p.nmi == bit_set(p.control, 7),
        p.after_io_write(0x2000, data).control == data,
        p.after_io_write(0x2000, data).nmi == bit_set(data, 7),
        address != 0x2000 ==> p.after_io_write(address, data).control == p.control
            && p.after_io_write(address, data).nmi == p.nmi,
        p.after_io_read(address).control == p.control,
        p.after_io_read(address).nmi == p.nmi,
        p.after_cycle().control == p.control,
        p.after_cycle().nmi == p.nmi,
        p.nmi == bit_set(p.control, 7) ==> {
            &&& p.after_io_write(address, data).nmi == bit_set(p.after_io_write(address, data).control, 7)
            &&& p.after_io_read(address).nmi == bit_set(p.after_io_read(address).control, 7)
            &&& p.after_cycle().nmi == bit_set(p.after_cycle().control, 7)
        },
{
    reveal(PpuModel::after_cycle);
    assert((data & 0x80 == 0x80) == ((data >> 7u8) & 1 == 1)) by (bit_vector);
    assert(((0u8 >> 7u8) & 1 == 1) == false) by (bit_vector);
    let (scanline, dot) = p.frame_index;
    lemma_ops_keep_control(p, schedule(scanline as int, dot as int));
}

/// No operation but the vblank ones does anything while rendering is off.
proof fn lemma_ops_rendering_off(p: PpuModel, ops: Seq<CycleOperation>)
    requires
        !p.rendering_enabled(),
        forall|i: int| 0 <= i < ops.len() ==> !touches_vblank(#[trigger] ops[i]),
    ensures
        p.after_ops(ops) == p,
    decreases ops.len(),
{
    if ops.len() > 0 {
        let rest = ops.drop_last();
        assert forall|i: int| 0 <= i < rest.len() implies !touches_vblank(#[trigger] rest[i]) by {
            assert(rest[i] == ops[i]);
        }
        lemma_ops_rendering_off(p, rest);
        assert(!touches_vblank(ops[ops.len() - 1]));
    }
}

/// While rendering is disabled (background and sprites both off in PPUMASK)
/// an operation other than setting or clearing the vblank flag changes
/// nothing: scroll registers, flags, shift registers, sprite pixels and
/// images keep their values. So a cycle on any dot but the two vblank dots
/// only moves on to the next dot.
pub proof fn law_rendering_off(p: PpuModel, op: CycleOperation)
    requires
        !p.rendering_enabled(),
    ensures
        !touches_vblank(op) ==> p.after_op(op) == p,
        p.frame_index != (241usize, 1usize) && p.frame_index != (PRERENDER_SCANLINE, 1usize)
            ==> p.after_cycle() == (PpuModel { frame_index: next_frame_index(p.frame_index), ..p }),
{
    if p.frame_index != (241usize, 1usize) && p.frame_index != (PRERENDER_SCANLINE, 1usize) {
        reveal(PpuModel::after_cycle);
        let (scanline, dot) = p.frame_index;
        lemma_schedule_keeps_vblank(scanline, dot);
        lemma_ops_rendering_off(p, schedule(scanline as int, dot as int));
    }
}

/// The nametable memory offset of `a` before mirroring.
pub open spec fn nametable_offset(a: u16) -> u16 {
    ((a - 0x2000) % 0x1000) as u16
}

/// The four logical nametables ($2000, $2400, $2800, $2C00) share the 2 KB
/// of nametable memory: vertical mirroring pairs $2000 with $2800, horizontal
/// mirroring pairs $2000 with $2400, and a single screen shows one table
/// everywhere. Under every arrangement, two different offsets within one
/// table land on two different bytes.
pub proof fn law_nametable_mirroring(a: u16, b: u16)
    requires
        0x2000 <= a < 0x2400,
        0x2000 <= b < 0x2400,
    ensures
        a != b ==> forall|arrangement: NametableArrangement|
            #[trigger] mirrored_nametable_address(a, arrangement) != mirrored_nametable_address(b, arrangement),
        ({
            let m = |x: u16| mirrored_nametable_address(x, NametableArrangement::VerticallyMirrored);
            &&& m(a) == m((a + 0x800) as u16)
            &&& m((a + 0x400) as u16) == m((a + 0xC00) as u16)
            &&& m(a) != m((a + 0x400) as u16)
        }),
        ({
            let m = |x: u16| mirrored_nametable_address(x, NametableArrangement::HorizontallyMirrored);
            &&& m(a) == m((a + 0x400) as u16)
            &&& m((a + 0x800) as u16) == m((a + 0xC00) as u16)
            &&& m(a) != m((a + 0x800) as u16)
        }),
        ({
            let m = |x: u16| mirrored_nametable_address(x, NametableArrangement::SingleScreenLo);
            &&& m(a) == m((a + 0x400) as u16)
            &&& m(a) == m((a + 0x800) as u16)
            &&& m(a) == m((a + 0xC00) as u16)
        }),
        ({
            let m = |x: u16| mirrored_nametable_address(x, NametableArrangement::SingleScreenHi);
            &&& m(a) == m((a + 0x400) as u16)
            &&& m(a) == m((a + 0x800) as u16)
            &&& m(a) == m((a + 0xC00) as u16)
        }),
{
    lemma_nametable_bits(a, (a + 0x400) as u16, (a + 0x800) as u16, (a + 0xC00) as u16);
    if a != b {
        lemma_nametable_offsets_distinct(a, b);
    }
}

proof fn lemma_nametable_bits(a: u16, b: u16, c: u16, d: u16)
    by (bit_vector)
    requires
        0x2000 <= a < 0x2400,
        b == a + 0x400,
        c == a + 0x800,
        d == a + 0xC00,
    ensures
        nametable_offset(a) & 0xF7FF == nametable_offset(c) & 0xF7FF,
        nametable_offset(b) & 0xF7FF == nametable_offset(d) & 0xF7FF,
        nametable_offset(a) & 0xF7FF != nametable_offset(b) & 0xF7FF,
        nametable_offset(a) & 0xFBFF == nametable_offset(b) & 0xFBFF,
        nametable_offset(c) & 0xFBFF == nametable_offset(d) & 0xFBFF,
        nametable_offset(a) & 0xFBFF != nametable_offset(c) & 0xFBFF,
        nametable_offset(a) & 0xF3FF == nametable_offset(b) & 0xF3FF,
        nametable_offset(a) & 0xF3FF == nametable_offset(c) & 0xF3FF,
        nametable_offset(a) & 0xF3FF == nametable_offset(d) & 0xF3FF,
        (nametable_offset(a) & 0x03FF) | 0x0400 == (nametable_offset(b) & 0x03FF) | 0x0400,
        (nametable_offset(a) & 0x03FF) | 0x0400 == (nametable_offset(c) & 0x03FF) | 0x0400,
        (nametable_offset(a) & 0x03FF) | 0x0400 == (nametable_offset(d) & 0x03FF) | 0x0400,
{
}

proof fn lemma_nametable_offsets_distinct(a: u16, b: u16)
    by (bit_vector)
    requires
        0x2000 <= a < 0x2400,
        0x2000 <= b < 0x2400,
        a != b,
    ensures
        nametable_offset(a) & 0xF7FF != nametable_offset(b) & 0xF7FF,
        nametable_offset(a) & 0xFBFF != nametable_offset(b) & 0xFBFF,
        nametable_offset(a) & 0xF3FF != nametable_offset(b) & 0xF3FF,
        (nametable_offset(a) & 0x03FF) | 0x0400 != (nametable_offset(b) & 0x03FF) | 0x0400,
{
}

} // verus!
