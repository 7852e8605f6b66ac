//! Small bit-manipulation lemmas shared by the packed-register types.

use vstd::prelude::*;

verus! {

/// Masking can only lower an unsigned value.
pub broadcast proof fn lemma_u8_and_le(x: u8, m: u8)
    by (bit_vector)
    ensures
        #[trigger] (x & m) <= m,
{
}

/// Masking can only lower an unsigned value.
pub broadcast proof fn lemma_u16_and_le(x: u16, m: u16)
    by (bit_vector)
    ensures
        #[trigger] (x & m) <= m,
{
}

/// Masking never raises a value above either operand.
pub broadcast proof fn lemma_u8_and_le_left(x: u8, m: u8)
    by (bit_vector)
    ensures
        #[trigger] (x & m) <= x,
{
}

/// A bitwise or never exceeds the sum of its operands.
pub broadcast proof fn lemma_u8_or_le(x: u8, y: u8)
    by (bit_vector)
    ensures
        #[trigger] (x | y) <= x + y,
{
}

/// A bitwise or never exceeds the sum of its operands.
pub broadcast proof fn lemma_u16_or_le(x: u16, y: u16)
    by (bit_vector)
    ensures
        #[trigger] (x | y) <= x + y,
{
}

/// A right shift can only lower an unsigned value.
pub broadcast proof fn lemma_u8_shr_le(x: u8, s: u8)
    by (bit_vector)
    requires
        s < 8,
    ensures
        #[trigger] (x >> s) <= x,
{
}

/// A right shift can only lower an unsigned value.
pub broadcast proof fn lemma_u16_shr_le(x: u16, s: u16)
    by (bit_vector)
    requires
        s < 16,
    ensures
        #[trigger] (x >> s) <= x,
{
}

/// A small value shifted into the high byte stays below 0x800; used to bound
/// the 11-bit wave periods built from a 3-bit high part and a low byte.
pub broadcast proof fn lemma_u16_shl8_small(x: u16)
    by (bit_vector)
    ensures
        x <= 7 ==> #[trigger] (x << 8) <= 0x700,
{
}

/// A value that already fits one bit is unchanged by masking to it.
pub broadcast proof fn lemma_u16_mask1_id(x: u16)
    by (bit_vector)
    ensures
        x <= 1 ==> #[trigger] (x & 1) == x,
{
}

/// A value that already fits three bits is unchanged by masking to them.
pub broadcast proof fn lemma_u16_mask7_id(x: u16)
    by (bit_vector)
    ensures
        x <= 7 ==> #[trigger] (x & 7) == x,
{
}

/// A value that already fits five bits is unchanged by masking to them.
pub broadcast proof fn lemma_u16_mask1f_id(x: u16)
    by (bit_vector)
    ensures
        x <= 0x1f ==> #[trigger] (x & 0x1f) == x,
{
}

/// A byte shifted right three places fits five bits.
pub broadcast proof fn lemma_u8_shr3_lt32(x: u8)
    by (bit_vector)
    ensures
        #[trigger] (x >> 3) < 32,
{
}

/// Toggling address line 12 keeps a pattern-space address inside the
/// pattern space.
pub proof fn lemma_u16_xor_0x1000(a: u16)
    by (bit_vector)
    ensures
        a <= 0x1fff ==> (a ^ 0x1000) <= 0x1fff,
{
}

/// Setting or clearing one mask in a byte fixes that mask's bits and leaves
/// every disjoint mask alone.
pub proof fn lemma_u8_bit_update(v: u8, m: u8, o: u8, on: bool)
    by (bit_vector)
    requires
        m == 1 || m == 2 || m == 4 || m == 8 || m == 16 || m == 32 || m == 64 || m == 128,
    ensures
        ((o == 1 || o == 2 || o == 4 || o == 8 || o == 16 || o == 32 || o == 64 || o == 128) && o != m) ==> ((
        if on {
            v | m
        } else {
            v & !m
        }) & o) == (v & o),
        (((if on { v | m } else { v & !m }) & m) != 0) == on,
{
}

} // verus!
