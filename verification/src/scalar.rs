//! Scalar samples as single-precision bit patterns.
//!
//! A density sample is the 32-bit IEEE-754 encoding of a single-precision
//! value, carried as a `u32`. The two predicates below give the standard
//! ordering and equality of the encoded values, stated purely over the bits:
//! a NaN encoding compares neither less than nor equal to anything, the two
//! zero encodings are equal to each other, and otherwise encodings of the
//! same sign order by magnitude (reversed for negative signs).

use vstd::prelude::*;

verus! {

/// The encoding denotes a NaN: exponent bits all set and a non-zero mantissa.
pub open spec fn sc_is_nan(a: u32) -> bool {
    (a & 0x7fff_ffffu32) > 0x7f80_0000u32
}

/// The encoding denotes a zero of either sign.
pub open spec fn sc_is_zero(a: u32) -> bool {
    (a & 0x7fff_ffffu32) == 0u32
}

/// The encoded value of `a` is strictly less than the encoded value of `b`.
pub open spec fn sc_lt(a: u32, b: u32) -> bool {
    if sc_is_nan(a) || sc_is_nan(b) {
        false
    } else if sc_is_zero(a) && sc_is_zero(b) {
        false
    } else if (a >> 31u32) != (b >> 31u32) {
        (a >> 31u32) == 1u32
    } else if (a >> 31u32) == 0u32 {
        a < b
    } else {
        b < a
    }
}

/// The encoded values of `a` and `b` are equal.
pub open spec fn sc_eq(a: u32, b: u32) -> bool {
    !sc_is_nan(a) && !sc_is_nan(b) && (a == b || (sc_is_zero(a) && sc_is_zero(b)))
}

/// Compares two encoded samples for strict order.
pub fn scalar_lt(a: u32, b: u32) -> (r: bool)
    ensures
        r == sc_lt(a, b),
{
    let a_mag: u32 = a & 0x7fff_ffff;
    let b_mag: u32 = b & 0x7fff_ffff;
    if a_mag > 0x7f80_0000 || b_mag > 0x7f80_0000 {
        false
    } else if a_mag == 0 && b_mag == 0 {
        false
    } else if (a >> 31) != (b >> 31) {
        (a >> 31) == 1
    } else if (a >> 31) == 0 {
        a < b
    } else {
        b < a
    }
}

/// Compares two encoded samples for equality.
pub fn scalar_eq(a: u32, b: u32) -> (r: bool)
    ensures
        r == sc_eq(a, b),
{
    let a_mag: u32 = a & 0x7fff_ffff;
    let b_mag: u32 = b & 0x7fff_ffff;
    if a_mag > 0x7f80_0000 || b_mag > 0x7f80_0000 {
        false
    } else {
        a == b || (a_mag == 0 && b_mag == 0)
    }
}

} // verus!
