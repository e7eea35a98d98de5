//! IEEE-754 binary32 numbers seen as their 32-bit patterns.
//!
//! A pattern has a sign bit, eight exponent bits and twenty-three fraction
//! bits. Sign, order and negation of the number it stands for can be read off
//! the pattern with integer arithmetic alone, which is what this module does.
use vstd::prelude::*;

verus! {

/// The pattern in which only the sign bit is set: negative zero.
pub const SIGN_BIT: u32 = 0x8000_0000;

/// The pattern of positive infinity, the largest magnitude that is a number.
pub const INFINITY: u32 = 0x7F80_0000;

/// The one pattern by which values written here show "not a number".
pub const NAN: u32 = 0x7FC0_0000;

/// The pattern of one half.
pub const HALF: u32 = 0x3F00_0000;

/// The pattern with its sign bit cleared.
pub open spec fn magnitude(bits: u32) -> u32 {
    if bits >= SIGN_BIT {
        (bits - SIGN_BIT) as u32
    } else {
        bits
    }
}

/// Whether the pattern stands for no number at all.
pub open spec fn is_nan(bits: u32) -> bool {
    magnitude(bits) > INFINITY
}

/// The pattern itself where it stands for a number, and [`NAN`] for every
/// pattern that does not.
pub open spec fn canonical(bits: u32) -> u32 {
    if is_nan(bits) {
        NAN
    } else {
        bits
    }
}

/// The pattern of the opposite number: the sign bit flipped. A pattern that
/// stands for no number is left as it is.
pub open spec fn negated(bits: u32) -> u32 {
    if is_nan(bits) {
        bits
    } else if bits >= SIGN_BIT {
        (bits - SIGN_BIT) as u32
    } else {
        (bits + SIGN_BIT) as u32
    }
}

/// The place of a number among all binary32 numbers: patterns of greater
/// numbers have greater ranks, and both zeros have rank zero.
pub open spec fn rank(bits: u32) -> int {
    if bits >= SIGN_BIT {
        -(magnitude(bits) as int)
    } else {
        bits as int
    }
}

/// The IEEE-754 comparison `a < b`: both are numbers and `a` is the smaller.
pub open spec fn less(a: u32, b: u32) -> bool {
    &&& !is_nan(a)
    &&& !is_nan(b)
    &&& rank(a) < rank(b)
}

/// Whether the pattern stands for a number below zero.
pub open spec fn is_negative(bits: u32) -> bool {
    less(bits, 0)
}

/// Clears the sign bit.
pub fn magnitude_of(bits: u32) -> (r: u32)
    ensures
        r == magnitude(bits),
{
    assert(bits & 0x7FFF_FFFF == if bits >= 0x8000_0000u32 {
        (bits - 0x8000_0000u32) as u32
    } else {
        bits
    }) by (bit_vector);
    bits & 0x7FFF_FFFF
}

/// Tells whether a pattern stands for no number.
pub fn is_nan_bits(bits: u32) -> (r: bool)
    ensures
        r == is_nan(bits),
{
    magnitude_of(bits) > INFINITY
}

/// Replaces every pattern that stands for no number by [`NAN`].
pub fn canonical_of(bits: u32) -> (r: u32)
    ensures
        r == canonical(bits),
{
    if is_nan_bits(bits) {
        NAN
    } else {
        bits
    }
}

/// Decides `a < b` for the numbers that two patterns stand for.
pub fn is_less(a: u32, b: u32) -> (r: bool)
    ensures
        r == less(a, b),
{
    if is_nan_bits(a) || is_nan_bits(b) {
        return false;
    }
    let size_a: u32 = magnitude_of(a);
    let size_b: u32 = magnitude_of(b);
    if a >= SIGN_BIT {
        if b >= SIGN_BIT {
            size_b < size_a
        } else {
            size_a > 0 || size_b > 0
        }
    } else {
        b < SIGN_BIT && size_a < size_b
    }
}

/// Decides whether a pattern stands for a number below zero.
pub fn is_negative_bits(bits: u32) -> (r: bool)
    ensures
        r == is_negative(bits),
{
    bits > SIGN_BIT && bits <= 0xFF80_0000
}

} // verus!
