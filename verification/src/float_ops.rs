//! IEEE 754 single-precision operations on raw bit patterns.
//!
//! The engine stores a float as its 32-bit pattern. The arithmetic on
//! such patterns is delegated to `rustc_apfloat`, a software
//! implementation of IEEE 754; each operation below is a function of
//! the operand bits alone, so its result is given a name that the
//! engine's contracts can speak of.

use vstd::prelude::*;
use rustc_apfloat::Float;
use rustc_apfloat::ieee::Single;

verus! {

/// The bits of the IEEE 754 sum of the two single-precision values.
pub uninterp spec fn flt_add_bits(a: u32, b: u32) -> u32;

/// The bits of the IEEE 754 difference of the two values.
pub uninterp spec fn flt_sub_bits(a: u32, b: u32) -> u32;

/// The bits of the IEEE 754 product of the two values.
pub uninterp spec fn flt_mul_bits(a: u32, b: u32) -> u32;

/// The bits of the IEEE 754 quotient of the two values.
pub uninterp spec fn flt_div_bits(a: u32, b: u32) -> u32;

/// Whether the first value compares strictly below the second.
pub uninterp spec fn flt_lt_bits(a: u32, b: u32) -> bool;

/// Whether the first value compares strictly above the second.
pub uninterp spec fn flt_gt_bits(a: u32, b: u32) -> bool;

/// The decimal rendering of the value the bits encode.
pub uninterp spec fn flt_text(bits: u32) -> Seq<char>;

/// Whether the bits encode a zero (either sign), the one divisor the
/// division instructions reject.
pub open spec fn flt_is_zero_bits(bits: u32) -> bool {
    bits & 0x7fff_ffff == 0
}

/// Whether the value is positive or negative zero, checked on the
/// bits: everything but the sign bit clear.
pub fn flt_is_zero(bits: u32) -> (r: bool)
    ensures
        r == flt_is_zero_bits(bits),
{
    bits & 0x7fff_ffff == 0
}

/// Relies on `rustc_apfloat::ieee::Single` addition, IEEE 754
/// round-to-nearest-even: a function of the operand bits alone.
#[verifier::external_body]
pub(crate) fn flt_add(a: u32, b: u32) -> (r: u32)
    ensures
        r == flt_add_bits(a, b),
{
    (Single::from_bits(a as u128) + Single::from_bits(b as u128)).value.to_bits() as u32
}

/// Relies on `rustc_apfloat::ieee::Single` subtraction, IEEE 754
/// round-to-nearest-even: a function of the operand bits alone.
#[verifier::external_body]
pub(crate) fn flt_sub(a: u32, b: u32) -> (r: u32)
    ensures
        r == flt_sub_bits(a, b),
{
    (Single::from_bits(a as u128) - Single::from_bits(b as u128)).value.to_bits() as u32
}

/// Relies on `rustc_apfloat::ieee::Single` multiplication, IEEE 754
/// round-to-nearest-even: a function of the operand bits alone.
#[verifier::external_body]
pub(crate) fn flt_mul(a: u32, b: u32) -> (r: u32)
    ensures
        r == flt_mul_bits(a, b),
{
    (Single::from_bits(a as u128) * Single::from_bits(b as u128)).value.to_bits() as u32
}

/// Relies on `rustc_apfloat::ieee::Single` division, IEEE 754
/// round-to-nearest-even: a function of the operand bits alone.
#[verifier::external_body]
pub(crate) fn flt_div(a: u32, b: u32) -> (r: u32)
    ensures
        r == flt_div_bits(a, b),
{
    (Single::from_bits(a as u128) / Single::from_bits(b as u128)).value.to_bits() as u32
}

/// Relies on `rustc_apfloat::ieee::Single`'s `PartialOrd`: the IEEE
/// 754 strict less-than, a function of the operand bits alone.
#[verifier::external_body]
pub(crate) fn flt_lt(a: u32, b: u32) -> (r: bool)
    ensures
        r == flt_lt_bits(a, b),
{
    Single::from_bits(a as u128) < Single::from_bits(b as u128)
}

/// Relies on `rustc_apfloat::ieee::Single`'s `PartialOrd`: the IEEE
/// 754 strict greater-than, a function of the operand bits alone.
#[verifier::external_body]
pub(crate) fn flt_gt(a: u32, b: u32) -> (r: bool)
    ensures
        r == flt_gt_bits(a, b),
{
    Single::from_bits(a as u128) > Single::from_bits(b as u128)
}

/// Relies on `rustc_apfloat::ieee::Single`'s `Display`: a decimal
/// rendering that depends on the bits alone.
#[verifier::external_body]
pub(crate) fn flt_to_string(bits: u32) -> (r: String)
    ensures
        r@ == flt_text(bits),
{
    format!("{}", Single::from_bits(bits as u128))
}

} // verus!
