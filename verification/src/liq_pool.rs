//! Fee-curve parameters of the instant-liquidity pool.

use vstd::prelude::*;

use crate::fee::Fee;
use crate::math::{
    lemma_proportional_le_amount, lemma_proportional_monotonic_numerator,
    lemma_proportional_nonneg, proportional, proportional_spec,
};

verus! {

/// Parameters of the instant-unstake fee curve and of the treasury's
/// share of collected fees.  The pool's two vaults (base-currency leg
/// and derivative-token leg) live on the external ledger; only their
/// observed balances flow through the swap engine.
#[derive(Clone, Copy, Debug, PartialEq, Eq, Structural)]
pub struct LiqPool {
    pub lp_min_fee: Fee,
    pub lp_max_fee: Fee,
    pub lp_liquidity_target: u64,
    pub treasury_cut: Fee,
}

impl LiqPool {
    /// Fees are fractions and the curve runs downhill from
    /// `lp_max_fee` to `lp_min_fee`.
    pub open spec fn is_valid(self) -> bool {
        &&& self.lp_min_fee.is_valid()
        &&& self.lp_max_fee.is_valid()
        &&& self.lp_min_fee.bp_cents <= self.lp_max_fee.bp_cents
        &&& self.treasury_cut.is_valid()
    }

    /// The fee for a withdrawal that would leave `lamports` in the
    /// pool's base-currency leg: `lp_max_fee` at zero, decreasing
    /// linearly to `lp_min_fee` at the liquidity target, and pinned at
    /// `lp_min_fee` from the target onwards.
    pub open spec fn linear_fee_spec(self, lamports: u64) -> Fee {
        if lamports >= self.lp_liquidity_target {
            self.lp_min_fee
        } else {
            Fee {
                bp_cents: (self.lp_max_fee.bp_cents - proportional_spec(
                    self.lp_max_fee.bp_cents - self.lp_min_fee.bp_cents,
                    lamports as int,
                    self.lp_liquidity_target as int,
                )) as u32,
            }
        }
    }

    /// Bounds on the curve: between the two configured fees, whatever
    /// the post-withdrawal balance.
    pub proof fn lemma_linear_fee_bounds(self, lamports: u64)
        requires
            self.is_valid(),
        ensures
            self.lp_min_fee.bp_cents <= self.linear_fee_spec(lamports).bp_cents
                <= self.lp_max_fee.bp_cents,
            self.linear_fee_spec(lamports).is_valid(),
    {
        if lamports < self.lp_liquidity_target {
            let delta = self.lp_max_fee.bp_cents - self.lp_min_fee.bp_cents;
            lemma_proportional_le_amount(
                delta,
                lamports as int,
                self.lp_liquidity_target as int,
            );
            lemma_proportional_nonneg(delta, lamports as int, self.lp_liquidity_target as int);
        }
    }

    /// The instant-unstake fee is monotonically non-increasing as the
    /// post-withdrawal balance grows toward the liquidity target, and
    /// equals `lp_min_fee` for any balance at or beyond the target.
    pub proof fn lemma_linear_fee_monotonic(self, a1: u64, a2: u64)
        requires
            self.is_valid(),
            a1 <= a2,
        ensures
            self.linear_fee_spec(a2).bp_cents <= self.linear_fee_spec(a1).bp_cents,
            a2 >= self.lp_liquidity_target ==> self.linear_fee_spec(a2) == self.lp_min_fee,
    {
        self.lemma_linear_fee_bounds(a1);
        self.lemma_linear_fee_bounds(a2);
        if a2 < self.lp_liquidity_target {
            let delta = self.lp_max_fee.bp_cents - self.lp_min_fee.bp_cents;
            let target = self.lp_liquidity_target as int;
            lemma_proportional_le_amount(delta, a1 as int, target);
            lemma_proportional_nonneg(delta, a1 as int, target);
            lemma_proportional_le_amount(delta, a2 as int, target);
            lemma_proportional_nonneg(delta, a2 as int, target);
            lemma_proportional_monotonic_numerator(delta, a1 as int, a2 as int, target);
        }
    }

    /// The current point on the fee curve.
    pub fn linear_fee(&self, lamports: u64) -> (r: Fee)
        requires
            self.is_valid(),
        ensures
            r == self.linear_fee_spec(lamports),
            r.is_valid(),
            self.lp_min_fee.bp_cents <= r.bp_cents <= self.lp_max_fee.bp_cents,
    {
        proof {
            self.lemma_linear_fee_bounds(lamports);
        }
        if lamports >= self.lp_liquidity_target {
            self.lp_min_fee
        } else {
            let delta: u32 = self.lp_max_fee.bp_cents - self.lp_min_fee.bp_cents;
            proof {
                lemma_proportional_le_amount(
                    delta as int,
                    lamports as int,
                    self.lp_liquidity_target as int,
                );
                lemma_proportional_nonneg(
                    delta as int,
                    lamports as int,
                    self.lp_liquidity_target as int,
                );
            }
            let cut: u64 = match proportional(delta as u64, lamports, self.lp_liquidity_target) {
                Ok(v) => v,
                Err(_) => {
                    proof {
                        assert(false);
                    }
                    0
                },
            };
            Fee { bp_cents: self.lp_max_fee.bp_cents - (cut as u32) }
        }
    }
}

} // verus!
