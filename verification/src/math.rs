//! Fixed-point proportional arithmetic.
//!
//! Every conversion in the pool is a floor-rounded proportion
//! `amount * numerator / denominator`, computed in a double-width
//! intermediate so that the product cannot wrap.  A zero denominator
//! leaves the amount unchanged; the pricing engine relies on this for
//! the 1:1 bootstrap rate of an empty pool.

use vstd::prelude::*;
use vstd::arithmetic::div_mod::{
    lemma_div_is_ordered, lemma_div_multiples_vanish, lemma_fundamental_div_mod, lemma_mod_bound,
};
use vstd::arithmetic::mul::{lemma_mul_inequality, lemma_mul_is_commutative};

use crate::error::StaderLiquidStakingError;

verus! {

/// `floor(amount * numerator / denominator)`, or `amount` itself when
/// the denominator is zero.
pub open spec fn proportional_spec(amount: int, numerator: int, denominator: int) -> int {
    if denominator == 0 {
        amount
    } else {
        (amount * numerator) / denominator
    }
}

/// Floor-rounded proportion of `amount`, computed without wrapping.
/// Rejects results that do not fit back into the working width.
pub fn proportional(amount: u64, numerator: u64, denominator: u64) -> (r: Result<
    u64,
    StaderLiquidStakingError,
>)
    ensures
        match r {
            Ok(v) => v == proportional_spec(amount as int, numerator as int, denominator as int),
            Err(e) => {
                &&& e == StaderLiquidStakingError::ArithmeticOverflow
                &&& proportional_spec(amount as int, numerator as int, denominator as int)
                    > u64::MAX
            },
        },
{
    if denominator == 0 {
        Ok(amount)
    } else {
        assert((amount as int) * (numerator as int) <= (u64::MAX as int) * (u64::MAX as int))
            by (nonlinear_arith)
            requires
                amount <= u64::MAX,
                numerator <= u64::MAX,
        ;
        let prod: u128 = (amount as u128) * (numerator as u128);
        let q: u128 = prod / (denominator as u128);
        if q > u64::MAX as u128 {
            Err(StaderLiquidStakingError::ArithmeticOverflow)
        } else {
            Ok(q as u64)
        }
    }
}

/// Scaling by a fraction of at most one never increases the amount.
pub proof fn lemma_proportional_le_amount(amount: int, numerator: int, denominator: int)
    requires
        0 <= amount,
        0 <= numerator <= denominator,
    ensures
        proportional_spec(amount, numerator, denominator) <= amount,
{
    if denominator != 0 {
        lemma_mul_inequality(numerator, denominator, amount);
        lemma_mul_is_commutative(amount, numerator);
        lemma_mul_is_commutative(amount, denominator);
        lemma_div_is_ordered(amount * numerator, amount * denominator, denominator);
        lemma_div_multiples_vanish(amount, denominator);
        lemma_mul_is_commutative(denominator, amount);
    }
}

/// A proportion of non-negative quantities is non-negative.
pub proof fn lemma_proportional_nonneg(amount: int, numerator: int, denominator: int)
    requires
        0 <= amount,
        0 <= numerator,
        0 <= denominator,
    ensures
        0 <= proportional_spec(amount, numerator, denominator),
{
    if denominator != 0 {
        vstd::arithmetic::mul::lemma_mul_nonnegative(amount, numerator);
        vstd::arithmetic::div_mod::lemma_div_pos_is_pos(amount * numerator, denominator);
    }
}

/// The proportion grows (weakly) with the numerator.
pub proof fn lemma_proportional_monotonic_numerator(
    amount: int,
    n1: int,
    n2: int,
    denominator: int,
)
    requires
        0 <= amount,
        0 <= n1 <= n2,
        0 <= denominator,
    ensures
        proportional_spec(amount, n1, denominator) <= proportional_spec(amount, n2, denominator),
{
    if denominator != 0 {
        lemma_mul_inequality(n1, n2, amount);
        lemma_mul_is_commutative(amount, n1);
        lemma_mul_is_commutative(amount, n2);
        lemma_div_is_ordered(amount * n1, amount * n2, denominator);
    }
}

/// Converting an amount down at one rate and back up at the inverse
/// rate cannot create value: anything at most `x` scaled by
/// `numerator / denominator` maps back below `x`.
pub proof fn lemma_proportional_scale_back(y: int, x: int, numerator: int, denominator: int)
    requires
        0 <= x,
        0 <= y,
        0 < numerator,
        0 < denominator,
        y <= (x * numerator) / denominator,
    ensures
        (y * denominator) / numerator <= x,
{
    let q = (x * numerator) / denominator;
    lemma_mul_inequality(y, q, denominator);
    lemma_fundamental_div_mod(x * numerator, denominator);
    lemma_mod_bound(x * numerator, denominator);
    lemma_mul_is_commutative(denominator, q);
    assert(y * denominator <= x * numerator);
    lemma_div_is_ordered(y * denominator, x * numerator, numerator);
    lemma_div_multiples_vanish(x, numerator);
    lemma_mul_is_commutative(numerator, x);
}

/// Round trip of the two conversions: scaling `x` up by
/// `total / supply` and the result back down by `supply / total` gives
/// back `x`, up to one unit lost to the two floors, provided the rate
/// is at least one (`supply <= total`).
pub proof fn lemma_proportional_round_trip(x: int, supply: int, total: int)
    requires
        0 <= x,
        0 < supply <= total,
    ensures
        proportional_spec(proportional_spec(x, total, supply), supply, total) <= x,
        x - 1 <= proportional_spec(proportional_spec(x, total, supply), supply, total),
{
    let y = (x * total) / supply;
    let z = (y * supply) / total;
    assert(0 <= y) by {
        vstd::arithmetic::div_mod::lemma_div_pos_is_pos(x * total, supply);
        vstd::arithmetic::mul::lemma_mul_nonnegative(x, total);
    }
    lemma_proportional_scale_back(y, x, total, supply);
    let r1 = (x * total) % supply;
    let r2 = (y * supply) % total;
    lemma_fundamental_div_mod(x * total, supply);
    lemma_mod_bound(x * total, supply);
    lemma_fundamental_div_mod(y * supply, total);
    lemma_mod_bound(y * supply, total);
    assert(x - 1 <= z) by (nonlinear_arith)
        requires
            0 < supply <= total,
            x * total == supply * y + r1,
            0 <= r1 < supply,
            y * supply == total * z + r2,
            0 <= r2 < total,
    ;
}

} // verus!
