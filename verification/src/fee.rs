//! The fee model: a fraction in basis-point-cents, applied by
//! floor-rounded multiplication.

use vstd::prelude::*;

use crate::error::StaderLiquidStakingError;
use crate::math::{lemma_proportional_le_amount, proportional, proportional_spec};

verus! {

/// Denominator of the fee fraction: one unit is a hundredth of a
/// basis point, so `1_000_000` bp-cents make 100%.
pub const BP_CENTS_DENOMINATOR: u32 = 1_000_000;

/// A fraction expressed in basis-point-cents.
#[derive(Clone, Copy, Debug, PartialEq, Eq, Structural)]
pub struct Fee {
    pub bp_cents: u32,
}

impl Fee {
    /// A meaningful fee never exceeds 100%.
    pub open spec fn is_valid(self) -> bool {
        self.bp_cents <= BP_CENTS_DENOMINATOR
    }

    /// `floor(amount * bp_cents / 1_000_000)`.
    pub open spec fn apply_spec(self, amount: u64) -> int {
        proportional_spec(amount as int, self.bp_cents as int, BP_CENTS_DENOMINATOR as int)
    }

    /// The fee charged on `amount`, rounded down.  Never exceeds the
    /// amount itself.
    pub fn apply(&self, amount: u64) -> (r: u64)
        requires
            self.is_valid(),
        ensures
            r == self.apply_spec(amount),
            r <= amount,
    {
        proof {
            lemma_proportional_le_amount(
                amount as int,
                self.bp_cents as int,
                BP_CENTS_DENOMINATOR as int,
            );
        }
        match proportional(amount, self.bp_cents as u64, BP_CENTS_DENOMINATOR as u64) {
            Ok(v) => v,
            Err(_) => {
                proof {
                    assert(false);
                }
                0
            },
        }
    }
}

} // verus!
