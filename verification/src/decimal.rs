//! Fixed-point decimals with 18 fractional digits and the two roundings the
//! pricing needs; the 256-bit arithmetic is that of `cosmwasm_std`.

use vstd::arithmetic::div_mod::{lemma_div_is_ordered, lemma_div_multiples_vanish};
use vstd::arithmetic::mul::{lemma_mul_inequality, lemma_mul_is_commutative};
use vstd::prelude::*;

verus! {

/// Atomic units in 1.0: a decimal carries 18 fractional digits.
pub const DECIMAL_FRACTIONAL: u128 = 1_000_000_000_000_000_000;

/// A non-negative fixed-point number with 18 fractional digits, held as its
/// count of atomic units: `Decimal { atomics: 1_500_000_000_000_000_000 }`
/// is 1.5. The representation is that of `cosmwasm_std::Decimal`.
#[derive(Clone, Copy, Debug, PartialEq, Eq, Structural)]
pub struct Decimal {
    pub atomics: u128,
}

/// `floor(value * numerator / denominator)`: the rounding rule of every
/// product and ratio of this crate.
pub open spec fn mul_div_floor(value: nat, numerator: nat, denominator: nat) -> nat
    recommends
        denominator > 0,
{
    (value * numerator) / denominator
}

/// The ratio `numerator / denominator` in atomic units, rounded down.
pub open spec fn ratio_atomics(numerator: nat, denominator: nat) -> nat
    recommends
        denominator > 0,
{
    mul_div_floor(numerator, DECIMAL_FRACTIONAL as nat, denominator)
}

/// The product of a number and a decimal of `factor_atomics` atomic units,
/// rounded down. With a decimal's atomic units as `value` this is the product
/// of two decimals in atomic units; with an integer amount it is a whole
/// number.
pub open spec fn scaled_product(value: nat, factor_atomics: nat) -> nat {
    mul_div_floor(value, factor_atomics, DECIMAL_FRACTIONAL as nat)
}

/// [`scaled_product`] where it fits in 128 bits.
pub open spec fn checked_scaled_product(value: u128, factor_atomics: u128) -> Option<u128> {
    if scaled_product(value as nat, factor_atomics as nat) <= u128::MAX {
        Some(scaled_product(value as nat, factor_atomics as nat) as u128)
    } else {
        None
    }
}

impl Decimal {
    /// The decimal made of `atomics` atomic units.
    pub fn new(atomics: u128) -> (d: Decimal)
        ensures
            d.atomics == atomics,
    {
        Decimal { atomics }
    }

    /// The count of atomic units.
    pub fn atomics(&self) -> (a: u128)
        ensures
            a == self.atomics,
    {
        self.atomics
    }
}

/// Calls `cosmwasm_std::Decimal::from_ratio`: the ratio of two integers in
/// atomic units, computed in 256 bits and rounded down to the last fractional
/// digit. The outside function panics on a zero denominator and on a ratio
/// beyond the decimal range; both are left out here.
#[verifier::external_body]
pub(crate) fn decimal_from_ratio(numerator: u128, denominator: u128) -> (atomics: u128)
    requires
        denominator > 0,
        ratio_atomics(numerator as nat, denominator as nat) <= u128::MAX,
    ensures
        atomics == ratio_atomics(numerator as nat, denominator as nat),
{
    cosmwasm_std::Decimal::from_ratio(numerator, denominator).atomics().u128()
}

/// Calls `cosmwasm_std::Decimal::checked_mul` on two decimals given by their
/// atomic units: the product in atomic units, computed in 256 bits and rounded
/// down to the last fractional digit; `None` where it lies beyond the decimal
/// range.
#[verifier::external_body]
pub(crate) fn decimal_checked_mul(a: u128, b: u128) -> (product: Option<u128>)
    ensures
        product == checked_scaled_product(a, b),
{
    let a = cosmwasm_std::Decimal::raw(a);
    let b = cosmwasm_std::Decimal::raw(b);
    a.checked_mul(b).ok().map(|p| p.atomics().u128())
}

/// Calls `cosmwasm_std::Uint128::checked_mul_floor` with a decimal factor
/// given by its atomic units: the amount times the decimal, computed in 256
/// bits and rounded down to a whole number; `None` where it does not fit in
/// 128 bits.
#[verifier::external_body]
pub(crate) fn amount_checked_mul_floor(amount: u128, factor: u128) -> (product: Option<u128>)
    ensures
        product == checked_scaled_product(amount, factor),
{
    let factor = cosmwasm_std::Decimal::raw(factor);
    cosmwasm_std::Uint128::new(amount).checked_mul_floor(factor).ok().map(|p| p.u128())
}

/// A part of a whole is, as a ratio, at most 1.0.
pub proof fn lemma_ratio_at_most_one(part: nat, whole: nat)
    requires
        part <= whole,
        whole > 0,
    ensures
        ratio_atomics(part, whole) <= DECIMAL_FRACTIONAL,
{
    let one = DECIMAL_FRACTIONAL as int;
    let part = part as int;
    let whole = whole as int;
    lemma_mul_inequality(part, whole, one);
    lemma_div_is_ordered(part * one, whole * one, whole);
    lemma_div_multiples_vanish(one, whole);
}

/// A value times a decimal of at most 1.0 is at most the value.
pub proof fn lemma_scaled_product_at_most_value(value: nat, factor_atomics: nat)
    requires
        factor_atomics <= DECIMAL_FRACTIONAL,
    ensures
        scaled_product(value, factor_atomics) <= value,
{
    let one = DECIMAL_FRACTIONAL as int;
    let value = value as int;
    let factor = factor_atomics as int;
    lemma_mul_inequality(factor, one, value);
    lemma_mul_is_commutative(factor, value);
    lemma_div_is_ordered(value * factor, one * value, one);
    lemma_div_multiples_vanish(value, one);
}

/// A larger part of the same whole is a ratio that is no smaller.
pub proof fn lemma_ratio_grows_with_part(part: nat, larger_part: nat, whole: nat)
    requires
        part <= larger_part,
        whole > 0,
    ensures
        ratio_atomics(part, whole) <= ratio_atomics(larger_part, whole),
{
    let one = DECIMAL_FRACTIONAL as int;
    lemma_mul_inequality(part as int, larger_part as int, one);
    lemma_div_is_ordered(part as int * one, larger_part as int * one, whole as int);
}

/// A value times a larger decimal is a product that is no smaller.
pub proof fn lemma_scaled_product_grows_with_factor(value: nat, factor: nat, larger_factor: nat)
    requires
        factor <= larger_factor,
    ensures
        scaled_product(value, factor) <= scaled_product(value, larger_factor),
{
    let one = DECIMAL_FRACTIONAL as int;
    let value = value as int;
    lemma_mul_inequality(factor as int, larger_factor as int, value);
    lemma_mul_is_commutative(factor as int, value);
    lemma_mul_is_commutative(larger_factor as int, value);
    lemma_div_is_ordered(value * factor as int, value * larger_factor as int, one);
}

} // verus!
