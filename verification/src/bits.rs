//! Bit fields of a byte, as numbers.
//!
//! The report formats pack several values into one byte. The decoders are
//! specified over [`field`] and [`bit_clear`], which say what a bit field is
//! by division and remainder; the lemmas here tie the masks and shifts of the
//! executable code to them.

use vstd::prelude::*;

verus! {

/// The value of bit `i` of a byte: 1, 2, 4, ... 128, and 256 from `i` = 8
/// on.
pub open spec fn weight(i: nat) -> int {
    if i == 0 {
        1
    } else if i == 1 {
        2
    } else if i == 2 {
        4
    } else if i == 3 {
        8
    } else if i == 4 {
        16
    } else if i == 5 {
        32
    } else if i == 6 {
        64
    } else if i == 7 {
        128
    } else {
        256
    }
}

/// The number held in the `width` bits of `byte` that start at bit `low`
/// (bit 0 is the least significant).
pub open spec fn field(byte: u8, low: nat, width: nat) -> int {
    (byte as int / weight(low)) % weight(width)
}

/// Bit `i` of `byte` is 0. Buttons are active-low: a clear bit is a
/// pressed button.
pub open spec fn bit_clear(byte: u8, i: nat) -> bool {
    field(byte, i, 1) == 0
}

/// Each single-bit mask tests the bit that it names.
pub(crate) proof fn lemma_mask_tests_bit(b: u8)
    ensures
        (b & 0x01 == 0) == bit_clear(b, 0),
        (b & 0x02 == 0) == bit_clear(b, 1),
        (b & 0x04 == 0) == bit_clear(b, 2),
        (b & 0x08 == 0) == bit_clear(b, 3),
        (b & 0x10 == 0) == bit_clear(b, 4),
        (b & 0x20 == 0) == bit_clear(b, 5),
        (b & 0x40 == 0) == bit_clear(b, 6),
        (b & 0x80 == 0) == bit_clear(b, 7),
{
    assert((b & 0x01 == 0) == ((b / 1) % 2 == 0)
        && (b & 0x02 == 0) == ((b / 2) % 2 == 0)
        && (b & 0x04 == 0) == ((b / 4) % 2 == 0)
        && (b & 0x08 == 0) == ((b / 8) % 2 == 0)
        && (b & 0x10 == 0) == ((b / 16) % 2 == 0)
        && (b & 0x20 == 0) == ((b / 32) % 2 == 0)
        && (b & 0x40 == 0) == ((b / 64) % 2 == 0)
        && (b & 0x80 == 0) == ((b / 128) % 2 == 0)) by (bit_vector);
}

/// A mask of the low bits keeps the field that starts at bit 0.
pub(crate) proof fn lemma_mask_keeps_low_field(b: u8)
    ensures
        (b & 0x3f) as int == field(b, 0, 6),
        (b & 0x1f) as int == field(b, 0, 5),
        (b & 0x3f) <= 63,
        (b & 0x1f) <= 31,
{
    assert((b & 0x3f) == b % 64 && (b & 0x1f) == b % 32) by (bit_vector);
}

/// The two fields of a standard Classic report that are spread over several
/// bytes: the parts, masked and shifted to their places, do not overlap, so
/// the bitwise OR of the parts is the sum of each part times its weight.
pub(crate) proof fn lemma_split_fields_join(b0: u8, b1: u8, b2: u8, b3: u8)
    ensures
        (((b2 & 0x80) >> 7) | ((b1 & 0xc0) >> 5) | ((b0 & 0xc0) >> 3)) as int == 8 * field(b0, 6, 2)
            + 2 * field(b1, 6, 2) + field(b2, 7, 1),
        (((b2 & 0x60) >> 2) | ((b3 & 0xe0) >> 5)) as int == 8 * field(b2, 5, 2) + field(b3, 5, 3),
        (((b2 & 0x80) >> 7) | ((b1 & 0xc0) >> 5) | ((b0 & 0xc0) >> 3)) <= 31,
        (((b2 & 0x60) >> 2) | ((b3 & 0xe0) >> 5)) <= 31,
{
    assert((((b2 & 0x80) >> 7) | ((b1 & 0xc0) >> 5) | ((b0 & 0xc0) >> 3)) == 8 * ((b0 / 64) % 4) + 2
        * ((b1 / 64) % 4) + ((b2 / 128) % 2)) by (bit_vector);
    assert((((b2 & 0x60) >> 2) | ((b3 & 0xe0) >> 5)) == 8 * ((b2 / 32) % 4) + ((b3 / 32) % 8))
        by (bit_vector);
}

/// A ten-bit value whose upper eight bits are the byte `high` and whose
/// lower two bits are taken from the byte `status`: shifted and masked, the
/// parts do not overlap, so their bitwise OR is four times `high` plus the
/// field of `status`.
pub(crate) proof fn lemma_low_bits_join(high: u8, status: u8)
    ensures
        (((high as u16) << 2) | (((status as u16) >> 6) & 3)) as int == 4 * high + field(
            status,
            6,
            2,
        ),
        (((high as u16) << 2) | (((status as u16) >> 4) & 3)) as int == 4 * high + field(
            status,
            4,
            2,
        ),
        (((high as u16) << 2) | (((status as u16) >> 2) & 3)) as int == 4 * high + field(
            status,
            2,
            2,
        ),
{
    assert((((high as u16) << 2) | (((status as u16) >> 6) & 3)) == 4 * high + (status / 64) % 4
        && (((high as u16) << 2) | (((status as u16) >> 4) & 3)) == 4 * high + (status / 16) % 4
        && (((high as u16) << 2) | (((status as u16) >> 2) & 3)) == 4 * high + (status / 4) % 4)
        by (bit_vector);
}

} // verus!
