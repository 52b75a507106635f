use vstd::prelude::*;

verus! {

/// Is bit `i` of `b` set?
pub open spec fn bit_set(b: u8, i: u8) -> bool {
    (b >> i) & 1 == 1
}

/// The value (0 or 1) of bit `i` of `b`.
pub open spec fn bit_value(b: u8, i: u8) -> u8 {
    if bit_set(b, i) { 1 } else { 0 }
}

/// Facts about single bits of a byte, used throughout the register code.
pub proof fn lemma_byte_bits()
    by (bit_vector)
    ensures
        forall|b: u8, i: u8| #[trigger] ((b >> i) & 1) <= 1,
        forall|b: u8, i: u8| #[trigger] ((b >> i) & 0x01) == (b >> i) & 1,
        forall|b: u8| #[trigger] (b & 0x01) == (b >> 0u8) & 1,
        forall|b: u8| #[trigger] (b & 0x03) <= 3,
        forall|b: u8| #[trigger] (b & 0x08) == (if (b >> 3u8) & 1 == 1 { 8u8 } else { 0u8 }),
        forall|b: u8| #[trigger] (b & 0x80) == (if (b >> 7u8) & 1 == 1 { 0x80u8 } else { 0u8 }),
        forall|b: u8| #[trigger] (((b >> 4u8) & 0x01) << 3u8) == (if (b >> 4u8) & 1 == 1 { 8u8 } else { 0u8 }),
{
}

} // verus!
