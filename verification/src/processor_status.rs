use vstd::prelude::*;
use crate::bits::{bit_set, lemma_byte_bits};

verus! {

/// The 6502 status register. From high bit to low:
/// `N | V | - | B | D | I | Z | C`
#[derive(Clone, Copy, Debug)]
pub struct ProcessorStatus(u8);

impl View for ProcessorStatus {
    type V = u8;

    closed spec fn view(&self) -> u8 {
        self.0
    }
}

impl ProcessorStatus {
    pub fn initialize() -> (r: Self)
        ensures
            r@ == 0,
    {
        Self(0x00)
    }

    pub fn into(self) -> (r: u8)
        ensures
            r == self@,
    {
        self.0
    }

    pub fn from(flags: u8) -> (r: Self)
        ensures
            r@ == flags,
    {
        Self(flags)
    }

    // Carry flag
    pub fn set_carry(self) -> (r: Self)
        ensures
            r@ == self@ | 0x01,
    {
        Self::from(self.0 | 0x01)
    }

    pub fn clear_carry(self) -> (r: Self)
        ensures
            r@ == self@ & 0xFE,
    {
        Self::from(self.0 & (0xFF - 0x01))
    }

    pub fn is_carry(&self) -> (r: bool)
        ensures
            r == bit_set(self@, 0),
    {
        proof {
            lemma_byte_bits();
        }
        self.carry() == 0x01
    }

    pub fn carry(&self) -> (r: u8)
        ensures
            r == self@ & 0x01,
            r <= 1,
    {
        proof {
            lemma_byte_bits();
            assert(self.0 & 0x01 == (self.0 >> 0u8) & 1);
        }
        self.0 & 0x01
    }

    // Zero flag
    pub fn set_zero(self) -> (r: Self)
        ensures
            r@ == self@ | 0x02,
    {
        Self::from(self.0 | 0x02)
    }

    pub fn clear_zero(self) -> (r: Self)
        ensures
            r@ == self@ & 0xFD,
    {
        Self::from(self.0 & (0xFF - 0x02))
    }

    pub fn is_zero(&self) -> (r: bool)
        ensures
            r == bit_set(self@, 1),
    {
        (self.0 >> 1) & 0x01 == 0x01
    }

    // Interrupt disable flag
    pub fn set_interrupt(self) -> (r: Self)
        ensures
            r@ == self@ | 0x04,
    {
        Self::from(self.0 | 0x04)
    }

    pub fn clear_interrupt(self) -> (r: Self)
        ensures
            r@ == self@ & 0xFB,
    {
        Self::from(self.0 & (0xFF - 0x04))
    }

    pub fn is_interrupt(&self) -> (r: bool)
        ensures
            r == bit_set(self@, 2),
    {
        (self.0 >> 2) & 0x01 == 0x01
    }

    // Decimal flag (stored, but the NES ignores it in arithmetic)
    pub fn set_decimal(self) -> (r: Self)
        ensures
            r@ == self@ | 0x08,
    {
        Self::from(self.0 | 0x08)
    }

    pub fn clear_decimal(self) -> (r: Self)
        ensures
            r@ == self@ & 0xF7,
    {
        Self::from(self.0 & (0xFF - 0x08))
    }

    pub fn is_decimal(&self) -> (r: bool)
        ensures
            r == bit_set(self@, 3),
    {
        (self.0 >> 3) & 0x01 == 0x01
    }

    // Break flag
    pub fn set_break(self) -> (r: Self)
        ensures
            r@ == self@ | 0x10,
    {
        Self::from(self.0 | 0x10)
    }

    pub fn clear_break(self) -> (r: Self)
        ensures
            r@ == self@ & 0xEF,
    {
        Self::from(self.0 & (0xFF - 0x10))
    }

    pub fn is_break(&self) -> (r: bool)
        ensures
            r == bit_set(self@, 4),
    {
        (self.0 >> 4) & 0x01 == 0x01
    }

    /// Sets the unused bit 5, which is always read back as 1 when the
    /// status is pushed by `PHP`.
    pub fn set_bit_five(self) -> (r: Self)
        ensures
            r@ == self@ | 0x20,
    {
        Self::from(self.0 | 0x20)
    }

    // Overflow flag
    pub fn set_overflow(self) -> (r: Self)
        ensures
            r@ == self@ | 0x40,
    {
        Self::from(self.0 | 0x40)
    }

    pub fn clear_overflow(self) -> (r: Self)
        ensures
            r@ == self@ & 0xBF,
    {
        Self::from(self.0 & (0xFF - 0x40))
    }

    pub fn is_overflow(&self) -> (r: bool)
        ensures
            r == bit_set(self@, 6),
    {
        (self.0 >> 6) & 0x01 == 0x01
    }

    // Negative flag
    pub fn set_negative(self) -> (r: Self)
        ensures
            r@ == self@ | 0x80,
    {
        Self::from(self.0 | 0x80)
    }

    pub fn clear_negative(self) -> (r: Self)
        ensures
            r@ == self@ & 0x7F,
    {
        Self::from(self.0 & (0xFF - 0x80))
    }

    pub fn is_negative(&self) -> (r: bool)
        ensures
            r == bit_set(self@, 7),
    {
        (self.0 >> 7) & 0x01 == 0x01
    }
}

/// Setting a flag makes it read as set and clearing it makes it read as
/// clear, and either leaves the other seven bits as they were.
pub proof fn law_flags(p: u8, j: u8)
    by (bit_vector)
    requires
        j < 8,
    ensures
        bit_set(p | 0x01, 0) && !bit_set(p & 0xFE, 0),
        j != 0 ==> bit_set(p | 0x01, j) == bit_set(p, j) && bit_set(p & 0xFE, j) == bit_set(p, j),
        bit_set(p | 0x02, 1) && !bit_set(p & 0xFD, 1),
        j != 1 ==> bit_set(p | 0x02, j) == bit_set(p, j) && bit_set(p & 0xFD, j) == bit_set(p, j),
        bit_set(p | 0x04, 2) && !bit_set(p & 0xFB, 2),
        j != 2 ==> bit_set(p | 0x04, j) == bit_set(p, j) && bit_set(p & 0xFB, j) == bit_set(p, j),
        bit_set(p | 0x08, 3) && !bit_set(p & 0xF7, 3),
        j != 3 ==> bit_set(p | 0x08, j) == bit_set(p, j) && bit_set(p & 0xF7, j) == bit_set(p, j),
        bit_set(p | 0x10, 4) && !bit_set(p & 0xEF, 4),
        j != 4 ==> bit_set(p | 0x10, j) == bit_set(p, j) && bit_set(p & 0xEF, j) == bit_set(p, j),
        bit_set(p | 0x20, 5),
        j != 5 ==> bit_set(p | 0x20, j) == bit_set(p, j),
        bit_set(p | 0x40, 6) && !bit_set(p & 0xBF, 6),
        j != 6 ==> bit_set(p | 0x40, j) == bit_set(p, j) && bit_set(p & 0xBF, j) == bit_set(p, j),
        bit_set(p | 0x80, 7) && !bit_set(p & 0x7F, 7),
        j != 7 ==> bit_set(p | 0x80, j) == bit_set(p, j) && bit_set(p & 0x7F, j) == bit_set(p, j),
{
}

} // verus!
