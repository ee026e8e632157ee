//! IEEE-754 binary32 arithmetic on raw bit patterns.
//!
//! Floating-point types cannot appear in verified code, so every value is
//! carried as its `u32` bit pattern. The arithmetic itself is done by
//! `rustc_apfloat`, a software implementation of IEEE-754 whose results are a
//! deterministic function of the operand bit patterns alone; each operation is
//! named by an uninterpreted spec function that the wrappers' contracts tie to
//! the call.

use rustc_apfloat::ieee::Single;
use rustc_apfloat::Float;
use vstd::prelude::*;

verus! {

/// Bit pattern of `1.0f32`.
pub const F32_ONE_BITS: u32 = 0x3F80_0000;

/// Bit pattern of `+0.0f32`.
pub const F32_ZERO_BITS: u32 = 0;

/// Whether a bit pattern encodes a binary32 NaN: exponent field all ones and
/// a non-zero significand field.
pub open spec fn is_nan_bits(x: u32) -> bool {
    ((x >> 23) & 0xFF) == 0xFF && (x & 0x007F_FFFF) != 0
}

/// The IEEE-754 binary32 product of two bit patterns, rounded to nearest,
/// ties to even.
pub uninterp spec fn mul_bits(a: u32, b: u32) -> u32;

/// Relies on `rustc_apfloat::ieee::Single`'s multiplication (`mul_r` with
/// round-to-nearest-even): the result depends on the operand bit patterns
/// alone. Under IEEE-754 the product of a non-NaN value and one is exact, so
/// such a value comes back unchanged.
#[verifier::external_body]
pub(crate) fn f32_mul(a: u32, b: u32) -> (r: u32)
    ensures
        r == mul_bits(a, b),
        b == F32_ONE_BITS && !is_nan_bits(a) ==> r == a,
{
    (Single::from_bits(a as u128) * Single::from_bits(b as u128)).value.to_bits() as u32
}

/// The IEEE-754 binary32 sum of two bit patterns, rounded to nearest, ties
/// to even.
pub uninterp spec fn add_bits(a: u32, b: u32) -> u32;

/// Relies on `rustc_apfloat::ieee::Single`'s addition (`add_r` with
/// round-to-nearest-even): the result depends on the operand bit patterns
/// alone.
#[verifier::external_body]
pub(crate) fn f32_add(a: u32, b: u32) -> (r: u32)
    ensures
        r == add_bits(a, b),
{
    (Single::from_bits(a as u128) + Single::from_bits(b as u128)).value.to_bits() as u32
}

/// The IEEE-754 binary32 quotient of two bit patterns, rounded to nearest,
/// ties to even.
pub uninterp spec fn div_bits(a: u32, b: u32) -> u32;

/// Relies on `rustc_apfloat::ieee::Single`'s division (`div_r` with
/// round-to-nearest-even): the result depends on the operand bit patterns
/// alone. Its zero-over-zero case returns a NaN.
#[verifier::external_body]
pub(crate) fn f32_div(a: u32, b: u32) -> (r: u32)
    ensures
        r == div_bits(a, b),
        a == F32_ZERO_BITS && b == F32_ZERO_BITS ==> is_nan_bits(r),
{
    (Single::from_bits(a as u128) / Single::from_bits(b as u128)).value.to_bits() as u32
}

/// The binary32 value nearest to the non-negative integer `n`, rounded to
/// nearest, ties to even.
pub uninterp spec fn f32_of_int(n: int) -> u32;

/// Relies on `rustc_apfloat`'s `Float::from_u128` (round-to-nearest-even):
/// the result depends on the integer alone, and zero converts to `+0.0`.
#[verifier::external_body]
pub(crate) fn f32_from_usize(n: usize) -> (r: u32)
    ensures
        r == f32_of_int(n as int),
        n == 0 ==> r == F32_ZERO_BITS,
{
    Single::from_u128(n as u128).value.to_bits() as u32
}

} // verus!
