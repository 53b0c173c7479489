//! Scalar arithmetic on 32-bit float values, carried as their bit patterns.
//!
//! Verified code in this crate never manipulates a floating-point value
//! directly: every scalar is the `u32` bit pattern of an IEEE 754 binary32
//! number.  The arithmetic itself is done by the thin trusted wrappers below
//! over `rustc_apfloat`'s software implementation of binary32, and each
//! operation — a pure, machine-independent function of the operand bit
//! patterns — is given an uninterpreted name so that contracts can pin
//! results down exactly.

use vstd::prelude::*;
use rustc_apfloat::Float;
use rustc_apfloat::ieee::Single;

verus! {

/// The bit pattern of the binary32 value `0.0`.
pub const ZERO_BITS: u32 = 0;

/// The bit pattern of the binary32 value `1.0`.
pub const ONE_BITS: u32 = 0x3F80_0000;

/// The bit pattern of the binary32 sum `a + b`.
pub uninterp spec fn add_bits(a: u32, b: u32) -> u32;

/// The bit pattern of the binary32 difference `a - b`.
pub uninterp spec fn sub_bits(a: u32, b: u32) -> u32;

/// The bit pattern of the binary32 product `a * b`.
pub uninterp spec fn mul_bits(a: u32, b: u32) -> u32;

/// The bit pattern of the binary32 quotient `a / b`.
pub uninterp spec fn div_bits(a: u32, b: u32) -> u32;

/// The bit pattern of the binary32 value nearest to the integer `n`.
pub uninterp spec fn from_usize_bits(n: int) -> u32;

/// The bit pattern with the sign bit cleared: the binary32 absolute value.
pub open spec fn abs_bits(a: u32) -> u32 {
    a & 0x7FFF_FFFF
}

/// Relies on `rustc_apfloat::ieee::Single` addition: IEEE 754 binary32
/// addition (round to nearest, ties to even), an exact function of the two
/// operand bit patterns.
#[verifier::external_body]
pub(crate) fn add32(a: u32, b: u32) -> (r: u32)
    ensures
        r == add_bits(a, b),
{
    let x = Single::from_bits(a as u128);
    let y = Single::from_bits(b as u128);
    (x + y).value.to_bits() as u32
}

/// Relies on `rustc_apfloat::ieee::Single` subtraction: IEEE 754 binary32
/// subtraction (round to nearest, ties to even), an exact function of the two
/// operand bit patterns.
#[verifier::external_body]
pub(crate) fn sub32(a: u32, b: u32) -> (r: u32)
    ensures
        r == sub_bits(a, b),
{
    let x = Single::from_bits(a as u128);
    let y = Single::from_bits(b as u128);
    (x - y).value.to_bits() as u32
}

/// Relies on `rustc_apfloat::ieee::Single` multiplication: IEEE 754 binary32
/// multiplication (round to nearest, ties to even), an exact function of the
/// two operand bit patterns.
#[verifier::external_body]
pub(crate) fn mul32(a: u32, b: u32) -> (r: u32)
    ensures
        r == mul_bits(a, b),
{
    let x = Single::from_bits(a as u128);
    let y = Single::from_bits(b as u128);
    (x * y).value.to_bits() as u32
}

/// Relies on `rustc_apfloat::ieee::Single` division: IEEE 754 binary32
/// division (round to nearest, ties to even), an exact function of the two
/// operand bit patterns; division by zero yields an infinity or NaN, never a
/// panic.
#[verifier::external_body]
pub(crate) fn div32(a: u32, b: u32) -> (r: u32)
    ensures
        r == div_bits(a, b),
{
    let x = Single::from_bits(a as u128);
    let y = Single::from_bits(b as u128);
    (x / y).value.to_bits() as u32
}

/// Relies on `rustc_apfloat::ieee::Single::from_u128_r`: conversion of an
/// unsigned integer to the nearest binary32 value (ties to even), an exact
/// function of the integer alone.
#[verifier::external_body]
pub(crate) fn from_usize32(n: usize) -> (r: u32)
    ensures
        r == from_usize_bits(n as int),
{
    Single::from_u128_r(n as u128, rustc_apfloat::Round::NearestTiesToEven).value.to_bits() as u32
}

/// The binary32 absolute value: clearing the sign bit of the representation.
pub(crate) fn abs32(a: u32) -> (r: u32)
    ensures
        r == abs_bits(a),
{
    a & 0x7FFF_FFFF
}

} // verus!
