//! Bit fields inside one byte, numbered from the most significant bit.
use bitvec::field::BitField;
use bitvec::order::Msb0;
use bitvec::slice::BitSlice;
use vstd::prelude::*;

verus! {

/// `x` moved up by `n` bit positions, for the `n` that occur inside one byte.
pub open spec fn shift_up(x: int, n: int) -> int {
    if n <= 0 {
        x
    } else if n == 1 {
        x * 2
    } else if n == 2 {
        x * 4
    } else if n == 3 {
        x * 8
    } else if n == 4 {
        x * 16
    } else if n == 5 {
        x * 32
    } else if n == 6 {
        x * 64
    } else if n == 7 {
        x * 128
    } else {
        x * 256
    }
}

/// `x` moved down by `n` bit positions, the bits that fall off dropped.
pub open spec fn shift_down(x: int, n: int) -> int {
    if n <= 0 {
        x
    } else if n == 1 {
        x / 2
    } else if n == 2 {
        x / 4
    } else if n == 3 {
        x / 8
    } else if n == 4 {
        x / 16
    } else if n == 5 {
        x / 32
    } else if n == 6 {
        x / 64
    } else if n == 7 {
        x / 128
    } else {
        x / 256
    }
}

/// The number made of the lowest `n` bits of `x`.
pub open spec fn low_bits(x: int, n: int) -> int {
    if n <= 0 {
        0
    } else if n == 1 {
        x % 2
    } else if n == 2 {
        x % 4
    } else if n == 3 {
        x % 8
    } else if n == 4 {
        x % 16
    } else if n == 5 {
        x % 32
    } else if n == 6 {
        x % 64
    } else if n == 7 {
        x % 128
    } else {
        x % 256
    }
}

/// The bits `start..end` of `byte` read as a number; bit 0 is the most
/// significant bit of the byte.
pub open spec fn bit_field(byte: u8, start: int, end: int) -> int {
    low_bits(shift_down(byte as int, 8 - end), end - start)
}

/// `byte` with its bits `start..end` replaced by the low `end - start` bits
/// of `value`; the other bits are kept.
pub open spec fn with_bit_field(byte: u8, start: int, end: int, value: u8) -> int {
    byte as int - shift_up(bit_field(byte, start, end), 8 - end) + shift_up(
        low_bits(value as int, end - start),
        8 - end,
    )
}

/// Trusted: `BitField::load` of bitvec on the bits `start..end` of a single
/// `u8` in `Msb0` order. Inside one element the loaded number is the
/// element shifted right until bit `end - 1` is the lowest bit, masked to
/// `end - start` bits. bitvec refuses an empty range, hence `start < end`.
#[verifier::external_body]
pub(crate) fn load_bits(byte: u8, start: usize, end: usize) -> (r: u8)
    requires
        start < end <= 8,
    ensures
        r as int == bit_field(byte, start as int, end as int),
{
    BitSlice::<u8, Msb0>::from_element(&byte)[start..end].load::<u8>()
}

/// Trusted: `BitField::store` of bitvec on the bits `start..end` of a single
/// `u8` in `Msb0` order. The low `end - start` bits of `value` are written
/// into the range and every bit outside the range keeps its value. bitvec
/// refuses an empty range, hence `start < end`.
#[verifier::external_body]
pub(crate) fn store_bits(byte: u8, start: usize, end: usize, value: u8) -> (r: u8)
    requires
        start < end <= 8,
    ensures
        r as int == with_bit_field(byte, start as int, end as int, value),
{
    let mut out: u8 = byte;
    BitSlice::<u8, Msb0>::from_element_mut(&mut out)[start..end].store::<u8>(value);
    out
}

} // verus!
