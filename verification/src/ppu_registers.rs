use vstd::prelude::*;
use crate::bits::{bit_set, lemma_byte_bits};

verus! {

/// PPUCTRL ($2000). Byte layout `VPHB SINN`:
/// V: NMI at vblank enabled; P: master/slave (ignored); H: sprite size
/// (0: 8x8, 1: 8x16); B: background pattern table; S: sprite pattern table;
/// I: VRAM address increment per PPUDATA access (0: add 1, 1: add 32);
/// NN: base nametable (0: $2000, 1: $2400, 2: $2800, 3: $2C00).
#[derive(Copy, Clone, Debug)]
pub struct PpuControl(u8);

#[derive(Debug, PartialEq, Eq, Structural, Clone, Copy)]
pub enum SpriteSize {
    EightByEight,
    EightBySixteen,
}

/// The direction in which the VRAM address moves after a PPUDATA access.
#[derive(Debug, PartialEq, Eq, Structural, Clone, Copy)]
pub enum VramIncrement {
    CoarseX,
    Y,
}

impl View for PpuControl {
    type V = u8;

    closed spec fn view(&self) -> u8 {
        self.0
    }
}

impl PpuControl {
    pub fn from(byte: u8) -> (r: Self)
        ensures
            r@ == byte,
    {
        Self(byte)
    }

    pub fn into(self) -> (r: u8)
        ensures
            r == self@,
    {
        self.0
    }

    pub fn is_nmi(self) -> (r: bool)
        ensures
            r == bit_set(self@, 7),
    {
        (self.0 >> 7 & 0x01) == 0x01
    }

    pub fn sprite_size(self) -> (r: SpriteSize)
        ensures
            r == (if bit_set(self@, 5) { SpriteSize::EightBySixteen } else { SpriteSize::EightByEight }),
    {
        proof {
            lemma_byte_bits();
        }
        if (self.0 >> 5 & 0x01) == 0x00 {
            SpriteSize::EightByEight
        } else {
            SpriteSize::EightBySixteen
        }
    }

    /// The background pattern table: $1000 when bit 4 is set, else $0000.
    pub fn bg_pattern_table_address(self) -> (r: u16)
        ensures
            r == (if bit_set(self@, 4) { 0x1000u16 } else { 0u16 }),
    {
        proof {
            lemma_byte_bits();
        }
        if (self.0 >> 4) & 0x01 == 0x01 {
            0x1000
        } else {
            0x0000
        }
    }

    /// The background pattern table half (0: $0000, 1: $1000).
    pub fn bg_pattern_table_half(self) -> (r: u8)
        ensures
            r == (if bit_set(self@, 4) { 1u8 } else { 0u8 }),
    {
        proof {
            lemma_byte_bits();
        }
        self.0 >> 4 & 0x01
    }

    /// The pattern table of 8x8 sprites: $1000 when bit 3 is set, else
    /// $0000.
    pub fn sprite_pattern_table_address(self) -> (r: u16)
        ensures
            r == (if bit_set(self@, 3) { 0x1000u16 } else { 0u16 }),
    {
        proof {
            lemma_byte_bits();
        }
        if (self.0 >> 3) & 0x01 == 0x01 {
            0x1000
        } else {
            0x0000
        }
    }

    /// The sprite pattern table half (0: $0000, 1: $1000).
    pub fn sprite_pattern_table_half(self) -> (r: u8)
        ensures
            r == (if bit_set(self@, 3) { 1u8 } else { 0u8 }),
    {
        proof {
            lemma_byte_bits();
        }
        self.0 >> 3 & 0x01
    }

    pub fn vram_increment_direction(self) -> (r: VramIncrement)
        ensures
            r == (if bit_set(self@, 2) { VramIncrement::Y } else { VramIncrement::CoarseX }),
    {
        proof {
            lemma_byte_bits();
        }
        if (self.0 >> 2 & 0x01) == 0x00 {
            VramIncrement::CoarseX
        } else {
            VramIncrement::Y
        }
    }

    /// How far the VRAM address moves after a PPUDATA access: 1 (across)
    /// or 32 (down).
    pub fn vram_address_increment(self) -> (r: u16)
        ensures
            r == (if bit_set(self@, 2) { 32u16 } else { 1u16 }),
    {
        match self.vram_increment_direction() {
            VramIncrement::CoarseX => 1,
            VramIncrement::Y => 32,
        }
    }

    pub fn base_name_table_address(self) -> (r: u16)
        ensures
            r == 0x2000 + 0x0400 * (self@ & 0x03),
    {
        let nn = self.0 & 0x03;
        proof {
            lemma_byte_bits();
        }
        match nn {
            0 => 0x2000,
            1 => 0x2400,
            2 => 0x2800,
            _ => 0x2C00,
        }
    }
}

/// PPUMASK ($2001). Byte layout `BGRs bMmG`: color emphasis, sprites
/// enabled, background enabled, sprite/background left column, greyscale.
#[derive(Copy, Clone, Debug)]
pub struct PpuMask(u8);

impl View for PpuMask {
    type V = u8;

    closed spec fn view(&self) -> u8 {
        self.0
    }
}

impl PpuMask {
    pub fn from(byte: u8) -> (r: Self)
        ensures
            r@ == byte,
    {
        Self(byte)
    }

    pub fn into(self) -> (r: u8)
        ensures
            r == self@,
    {
        self.0
    }

    pub fn sprites_enabled(self) -> (r: bool)
        ensures
            r == bit_set(self@, 4),
    {
        (self.0 >> 4 & 0x01) == 0x01
    }

    pub fn bg_enabled(self) -> (r: bool)
        ensures
            r == bit_set(self@, 3),
    {
        (self.0 >> 3 & 0x01) == 0x01
    }
}

/// PPUSTATUS ($2002). Byte layout `VSO- ----`: vblank, sprite 0 hit,
/// sprite overflow.
#[derive(Copy, Clone, Debug)]
pub struct PpuStatus(u8);

impl View for PpuStatus {
    type V = u8;

    closed spec fn view(&self) -> u8 {
        self.0
    }
}

impl PpuStatus {
    pub fn from(byte: u8) -> (r: Self)
        ensures
            r@ == byte,
    {
        Self(byte)
    }

    pub fn into(self) -> (r: u8)
        ensures
            r == self@,
    {
        self.0
    }

    pub fn is_vblank(self) -> (r: bool)
        ensures
            r == bit_set(self@, 7),
    {
        (self.0 >> 7 & 0x01) == 0x01
    }

    pub fn clear_vblank(self) -> (r: Self)
        ensures
            r@ == self@ & 0x7F,
    {
        Self(self.0 & 0x7F)
    }

    pub fn set_vblank(self) -> (r: Self)
        ensures
            r@ == self@ | 0x80,
    {
        Self(self.0 | 0x80)
    }

    pub fn sprite_zero_hit(self) -> (r: bool)
        ensures
            r == bit_set(self@, 6),
    {
        (self.0 >> 6 & 0x01) == 0x01
    }

    pub fn sprite_overflow(self) -> (r: bool)
        ensures
            r == bit_set(self@, 5),
    {
        (self.0 >> 5 & 0x01) == 0x01
    }
}

} // verus!
