//! IEEE-754 binary64 numbers, carried as their 64-bit encodings.
//!
//! The language's `Number` values are IEEE-754 double-precision floats. The
//! verified code never computes with them directly: a number is held as the
//! `u64` bit pattern of its binary64 encoding, and every arithmetic operation,
//! comparison, decimal parse and decimal rendering goes through a trusted
//! wrapper around the `rustc_apfloat` software floating-point library. Each
//! wrapper's result is pinned to an uninterpreted name, so that the contracts
//! of the scanner and the evaluator can speak of the operations exactly while
//! the IEEE-754 semantics themselves stay outside the proof.

use vstd::prelude::*;

use core::str::FromStr;
use rustc_apfloat::ieee::Double;
use rustc_apfloat::Float;

verus! {

/// The sign bit of an IEEE-754 binary64 encoding.
pub const SIGN_BIT: u64 = 0x8000_0000_0000_0000;

/// The IEEE-754 sum (round to nearest, ties to even) of two encodings.
pub uninterp spec fn add_bits(a: u64, b: u64) -> u64;

/// The IEEE-754 difference of two encodings.
pub uninterp spec fn sub_bits(a: u64, b: u64) -> u64;

/// The IEEE-754 product of two encodings.
pub uninterp spec fn mul_bits(a: u64, b: u64) -> u64;

/// The IEEE-754 quotient of two encodings.
pub uninterp spec fn div_bits(a: u64, b: u64) -> u64;

/// Whether the first encoding is IEEE-754 less than the second.
pub uninterp spec fn lt_bits(a: u64, b: u64) -> bool;

/// Whether the first encoding is IEEE-754 less than or equal to the second.
pub uninterp spec fn le_bits(a: u64, b: u64) -> bool;

/// Whether the two encodings are IEEE-754 equal (so NaN equals nothing, and
/// the two zeroes are equal to each other).
pub uninterp spec fn eq_bits(a: u64, b: u64) -> bool;

/// The encoding of the correctly rounded value of a decimal numeric literal.
pub uninterp spec fn number_of(s: Seq<char>) -> u64;

/// The decimal text form of an encoding.
pub uninterp spec fn render_bits(b: u64) -> Seq<char>;

/// The IEEE-754 negation of an encoding: the sign bit flipped, every other
/// bit kept, for finite values, infinities and NaNs alike.
pub open spec fn neg_bits(b: u64) -> u64 {
    b ^ SIGN_BIT
}

/// Relies on `rustc_apfloat::ieee::Double`'s `Add` impl (`add_r`, round to
/// nearest, ties to even) between the binary64 values of the two encodings;
/// the result depends on the arguments alone.
#[verifier::external_body]
pub(crate) fn add_num(a: u64, b: u64) -> (r: u64)
    ensures
        r == add_bits(a, b),
{
    (Double::from_bits(a as u128) + Double::from_bits(b as u128)).value.to_bits() as u64
}

/// Relies on `rustc_apfloat::ieee::Double`'s `Sub` impl (`sub_r`, round to
/// nearest, ties to even); the result depends on the arguments alone.
#[verifier::external_body]
pub(crate) fn sub_num(a: u64, b: u64) -> (r: u64)
    ensures
        r == sub_bits(a, b),
{
    (Double::from_bits(a as u128) - Double::from_bits(b as u128)).value.to_bits() as u64
}

/// Relies on `rustc_apfloat::ieee::Double`'s `Mul` impl (`mul_r`, round to
/// nearest, ties to even); the result depends on the arguments alone.
#[verifier::external_body]
pub(crate) fn mul_num(a: u64, b: u64) -> (r: u64)
    ensures
        r == mul_bits(a, b),
{
    (Double::from_bits(a as u128) * Double::from_bits(b as u128)).value.to_bits() as u64
}

/// Relies on `rustc_apfloat::ieee::Double`'s `Div` impl (`div_r`, round to
/// nearest, ties to even); the result depends on the arguments alone.
#[verifier::external_body]
pub(crate) fn div_num(a: u64, b: u64) -> (r: u64)
    ensures
        r == div_bits(a, b),
{
    (Double::from_bits(a as u128) / Double::from_bits(b as u128)).value.to_bits() as u64
}

/// Relies on `PartialOrd for rustc_apfloat::ieee::Double`: the IEEE-754
/// partial order, under which a NaN is ordered with nothing.
#[verifier::external_body]
pub(crate) fn lt_num(a: u64, b: u64) -> (r: bool)
    ensures
        r == lt_bits(a, b),
{
    Double::from_bits(a as u128) < Double::from_bits(b as u128)
}

/// Relies on `PartialOrd for rustc_apfloat::ieee::Double`: the IEEE-754
/// partial order, under which a NaN is ordered with nothing.
#[verifier::external_body]
pub(crate) fn le_num(a: u64, b: u64) -> (r: bool)
    ensures
        r == le_bits(a, b),
{
    Double::from_bits(a as u128) <= Double::from_bits(b as u128)
}

/// Relies on `PartialEq for rustc_apfloat::ieee::Double`: IEEE-754 equality,
/// under which a NaN equals nothing and the two zeroes are equal.
#[verifier::external_body]
pub(crate) fn eq_num(a: u64, b: u64) -> (r: bool)
    ensures
        r == eq_bits(a, b),
{
    Double::from_bits(a as u128) == Double::from_bits(b as u128)
}

/// Relies on `rustc_apfloat::ieee::Double::from_str` (round to nearest, ties
/// to even): the correctly rounded binary64 value of a decimal literal, a
/// function of the text alone; a text the parser rejects is mapped to zero.
#[verifier::external_body]
pub(crate) fn parse_num(s: &str) -> (r: u64)
    ensures
        r == number_of(s@),
{
    match Double::from_str(s) {
        Ok(d) => d.to_bits() as u64,
        Err(_) => 0,
    }
}

/// Relies on `Display for rustc_apfloat::ieee::Double`: the decimal text form
/// of the value, a function of the encoding alone.
#[verifier::external_body]
pub(crate) fn render_num(b: u64) -> (r: String)
    ensures
        r@ == render_bits(b),
{
    format!("{}", Double::from_bits(b as u128))
}

/// Flips the sign bit of an encoding: IEEE-754 negation.
pub(crate) fn neg_num(b: u64) -> (r: u64)
    ensures
        r == neg_bits(b),
{
    b ^ SIGN_BIT
}

} // verus!
