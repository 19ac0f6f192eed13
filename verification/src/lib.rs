//! Accounting core of a liquid-staking pool.
//!
//! The pool takes deposits of the base currency, mints a derivative
//! "pool share" token against them, and keeps a deterministic exchange
//! rate between the two across staking epochs.  Everything here is the
//! bookkeeping: pricing, fees, the per-record deactivation crank, the
//! delayed-unstake ticket issuer and the instant-liquidity swap engine.
//! Actual fund movement (token transfers, mints, burns, stake
//! withdrawals) is performed by the surrounding ledger platform; the
//! functions in this crate decide the amounts and update the mirrored
//! counters.

use vstd::prelude::*;

pub mod checks;
pub mod deposit;
pub mod emergency_pause;
pub mod error;
pub mod events;
pub mod fee;
pub mod liq_pool;
pub mod liquid_unstake;
pub mod math;
pub mod order_unstake;
pub mod stake_system;
pub mod state;
pub mod ticket;
pub mod update_deactivated;

verus! {

/// Identity of an account on the external ledger.  The core only ever
/// compares identities for equality, so a single word is enough to
/// stand for the full address.
#[derive(Clone, Copy, Debug, PartialEq, Eq, Structural)]
pub struct Pubkey {
    pub id: u64,
}

} // verus!
