//! Royalty and fee arithmetic.
//!
//! All amounts are integers in the smallest unit of the currency, and every quotient is
//! rounded down. The quotients are computed by the fixed-point `Decimal` of `cosmwasm_std`,
//! which carries eighteen fractional digits.

use crate::cosmwasm::{mul_atomics, percent_atomics, ratio_atomics};
use vstd::arithmetic::div_mod::{
    lemma_div_denominator, lemma_div_is_ordered, lemma_div_multiples_vanish,
};
use vstd::arithmetic::mul::{
    lemma_mul_inequality, lemma_mul_is_associative, lemma_mul_is_commutative,
};
use vstd::prelude::*;

verus! {

/// Atomic units that make up one whole `Decimal`.
pub const DECIMAL_FRACTIONAL: u128 = 1_000_000_000_000_000_000;

/// Basis points that make up the whole sale price.
pub const BASIS_POINT_SCALE: u16 = 10_000;

/// Share of a sale, in percent, that goes to the platform treasury.
pub const PLATFORM_FEE_PERCENT: u8 = 3;

/// The flat amount that the standard deployment withholds from a seller's proceeds. The
/// operations take the deduction in force as an argument; this is the value to hand them
/// where nothing else is configured.
pub const FLAT_DEDUCTION: u128 = 1_000_000;

/// `amount * numerator / denominator`, rounded down.
pub open spec fn mul_ratio(amount: int, numerator: int, denominator: int) -> int {
    amount * numerator / denominator
}

/// The royalty pool of a sale: `basis_points` hundredths of a percent of `price`.
pub open spec fn royalty_of(price: int, basis_points: int) -> int {
    mul_ratio(price, basis_points, BASIS_POINT_SCALE as int)
}

/// `percent` hundredths of `amount`.
pub open spec fn percent_of(amount: int, percent: int) -> int {
    mul_ratio(amount, percent, 100)
}

/// The platform fee charged on `amount`.
pub open spec fn platform_fee_of(amount: int) -> int {
    percent_of(amount, PLATFORM_FEE_PERCENT as int)
}

/// Scaling numerator and denominator by the same positive factor leaves the rounded
/// quotient unchanged.
pub proof fn lemma_mul_ratio_scaled(amount: int, numerator: int, denominator: int, scale: int)
    requires
        0 <= amount,
        0 <= numerator,
        0 < denominator,
        0 < scale,
    ensures
        mul_ratio(amount, numerator * scale, denominator * scale) == mul_ratio(
            amount,
            numerator,
            denominator,
        ),
{
    let x = amount * numerator;
    assert(amount * (numerator * scale) == x * scale) by {
        lemma_mul_is_associative(amount, numerator, scale);
    }
    assert(x * scale == scale * x) by {
        lemma_mul_is_commutative(x, scale);
    }
    assert(denominator * scale == scale * denominator) by {
        lemma_mul_is_commutative(denominator, scale);
    }
    assert(0 <= x) by (nonlinear_arith)
        requires
            0 <= amount,
            0 <= numerator,
            x == amount * numerator,
    ;
    assert(0 <= scale * x) by (nonlinear_arith)
        requires
            0 <= x,
            0 < scale,
    ;
    lemma_div_denominator(scale * x, scale, denominator);
    lemma_div_multiples_vanish(x, scale);
}

/// A ratio of at most one never yields more than the amount it is applied to.
pub proof fn lemma_mul_ratio_bounded(amount: int, numerator: int, denominator: int)
    requires
        0 <= amount,
        0 <= numerator <= denominator,
        0 < denominator,
    ensures
        0 <= mul_ratio(amount, numerator, denominator) <= amount,
{
    lemma_mul_inequality(numerator, denominator, amount);
    lemma_mul_is_commutative(numerator, amount);
    lemma_mul_is_commutative(denominator, amount);
    assert(0 <= amount * numerator) by (nonlinear_arith)
        requires
            0 <= amount,
            0 <= numerator,
    ;
    lemma_div_is_ordered(amount * numerator, amount * denominator, denominator);
    lemma_div_multiples_vanish(amount, denominator);
    lemma_mul_is_commutative(amount, denominator);
    lemma_div_is_ordered(0, amount * numerator, denominator);
}

/// The royalty pool of a sale at `price`.
pub fn royalty_amount(price: u128, basis_points: u16) -> (royalty: u128)
    requires
        basis_points <= BASIS_POINT_SCALE,
    ensures
        royalty == royalty_of(price as int, basis_points as int),
        royalty <= price,
{
    proof {
        // 10^18 / 10^4 == 10^14, so the rate has exactly `basis_points * 10^14` atomic units.
        lemma_mul_ratio_scaled(basis_points as int, 100_000_000_000_000, 1, 10_000);
        lemma_mul_ratio_scaled(
            price as int,
            basis_points as int,
            10_000,
            100_000_000_000_000,
        );
        lemma_mul_ratio_bounded(price as int, basis_points as int, 10_000);
    }
    let rate = ratio_atomics(basis_points as u128, BASIS_POINT_SCALE as u128);
    mul_atomics(price, rate)
}

/// `percent` hundredths of `amount`.
pub fn percent_amount(amount: u128, percent: u8) -> (part: u128)
    requires
        percent <= 100,
    ensures
        part == percent_of(amount as int, percent as int),
        part <= amount,
{
    proof {
        lemma_mul_ratio_scaled(amount as int, percent as int, 100, 10_000_000_000_000_000);
        lemma_mul_ratio_bounded(amount as int, percent as int, 100);
    }
    let rate = percent_atomics(percent as u64);
    mul_atomics(amount, rate)
}

/// The platform fee charged on `amount`.
pub fn platform_fee(amount: u128) -> (fee: u128)
    ensures
        fee == platform_fee_of(amount as int),
        fee <= amount,
{
    percent_amount(amount, PLATFORM_FEE_PERCENT)
}

} // verus!
