//! IEEE 754 binary64 arithmetic on bit patterns.
//!
//! The kernel stores every element as the 64-bit pattern of a binary64
//! value. Addition and multiplication of two such patterns are carried out
//! by the software implementation in `rustc_apfloat`; each result is given a
//! name here, and every contract of the kernel speaks of those names.

use vstd::prelude::*;
use rustc_apfloat::Float;

verus! {

/// The bit pattern of the binary64 sum of the values with bit patterns
/// `a` and `b`, rounded to nearest, ties to even.
pub uninterp spec fn add_bits(a: u64, b: u64) -> u64;

/// The bit pattern of the binary64 product of the values with bit patterns
/// `a` and `b`, rounded to nearest, ties to even.
pub uninterp spec fn mul_bits(a: u64, b: u64) -> u64;

/// Relies on `rustc_apfloat::ieee::Double`: `+` performs IEEE 754 binary64
/// addition with round-to-nearest-even, and the result depends on the two
/// operands alone.
#[verifier::external_body]
pub(crate) fn add_bits_exec(a: u64, b: u64) -> (r: u64)
    ensures
        r == add_bits(a, b),
{
    let x = rustc_apfloat::ieee::Double::from_bits(a as u128);
    let y = rustc_apfloat::ieee::Double::from_bits(b as u128);
    (x + y).value.to_bits() as u64
}

/// Relies on `rustc_apfloat::ieee::Double`: `*` performs IEEE 754 binary64
/// multiplication with round-to-nearest-even, and the result depends on the
/// two operands alone.
#[verifier::external_body]
pub(crate) fn mul_bits_exec(a: u64, b: u64) -> (r: u64)
    ensures
        r == mul_bits(a, b),
{
    let x = rustc_apfloat::ieee::Double::from_bits(a as u128);
    let y = rustc_apfloat::ieee::Double::from_bits(b as u128);
    (x * y).value.to_bits() as u64
}

} // verus!
