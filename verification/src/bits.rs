//! Single bits and bit pairs of a byte.

use vstd::prelude::*;

verus! {

/// Bit `n` of `byte`, as 0 or 1.
pub open spec fn bit_at(byte: u8, n: u8) -> u8 {
    (byte >> n) & 1
}

/// Bits `n` and `n + 1` of `byte`, as a number from 0 to 3.
pub open spec fn pair_at(byte: u8, n: u8) -> u8 {
    (byte >> n) & 3
}

/// Whether bit `n` of `byte` is set.
pub open spec fn bit_set(byte: u8, n: u8) -> bool {
    bit_at(byte, n) == 1
}

/// Tests bit `n` of `byte`.
pub fn test_bit(byte: u8, n: u8) -> (on: bool)
    requires
        n < 8,
    ensures
        on == bit_set(byte, n),
{
    (byte >> n) & 1 == 1
}

/// Extracts bit `n` of `byte`.
pub fn bit_of(byte: u8, n: u8) -> (bit: u8)
    requires
        n < 8,
    ensures
        bit == bit_at(byte, n),
        bit <= 1,
{
    assert((byte >> n) & 1 <= 1) by (bit_vector);
    (byte >> n) & 1
}

/// Extracts bits `n` and `n + 1` of `byte`.
pub fn pair_of(byte: u8, n: u8) -> (pair: u8)
    requires
        n < 8,
    ensures
        pair == pair_at(byte, n),
        pair <= 3,
{
    assert((byte >> n) & 3 <= 3) by (bit_vector);
    (byte >> n) & 3
}

} // verus!
