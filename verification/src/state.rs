//! The protocol state: aggregate counters, configuration, and the
//! pricing engine that converts between base currency and the
//! derivative token.
//!
//! Every conversion recomputes the rate from the live aggregates; the
//! stored `stader_sol_price` is a derived snapshot for external
//! observability only, never an input.

use vstd::prelude::*;

use crate::error::StaderLiquidStakingError;
use crate::fee::Fee;
use crate::liq_pool::LiqPool;
use crate::math::{lemma_proportional_round_trip, proportional, proportional_spec};
use crate::stake_system::StakeSystem;
use crate::Pubkey;

verus! {

/// Token amount whose base-currency value is stored as the
/// exchange-rate snapshot, so the snapshot is a binary fixed-point
/// price with 32 fractional bits.
pub const PRICE_DENOMINATOR: u64 = 0x1_0000_0000;

/// One pool instance's state.  Created once at pool initialization,
/// mutated per operation, never destroyed during normal operation.
#[derive(Clone, Debug)]
pub struct State {
    /// Operations are rejected while this is set.
    pub paused: bool,
    /// Principal currently delegated to validators.
    pub active_delegated_balance: u64,
    /// Spendable balance of the reserve vault, excluding its
    /// rent-exempt floor.  Kept at zero or above by saturating
    /// subtraction.
    pub available_reserve_balance: u64,
    /// Principal cooling down through the emergency path.
    pub emergency_cooling_down: u64,
    /// Tracked supply of the derivative token.
    pub stader_sol_supply: u64,
    /// Base currency promised to open delayed-unstake tickets.
    pub circulating_ticket_balance: u64,
    /// Number of open delayed-unstake tickets.
    pub circulating_ticket_count: u64,
    /// Derived exchange-rate snapshot: the base-currency value of
    /// `PRICE_DENOMINATOR` derivative tokens.
    pub stader_sol_price: u64,
    /// Protocol fee taken from staking rewards.
    pub reward_fee: Fee,
    /// Anti-arbitrage fee on delayed unstakes.
    pub delayed_unstake_fee: Fee,
    pub min_deposit: u64,
    pub min_withdraw: u64,
    /// Cap on the total base currency the pool will take under
    /// control; frozen to zero when an out-of-band mint is detected.
    pub staking_sol_cap: u64,
    /// Rent-exempt floor of protocol token accounts.
    pub rent_exempt_for_token_acc: u64,
    /// Operational account that receives freed rent-exempt balances.
    pub operational_sol_account: Pubkey,
    pub liq_pool: LiqPool,
    pub stake_system: StakeSystem,
}

impl State {
    /// Total principal cooling down, over both paths.
    pub open spec fn total_cooling_down_spec(self) -> int {
        self.stake_system.delayed_unstake_cooling_down + self.emergency_cooling_down
    }

    /// Everything the pool has under control: delegated, cooling down,
    /// or sitting in the reserve.
    pub open spec fn total_lamports_under_control_spec(self) -> int {
        self.active_delegated_balance + self.total_cooling_down_spec()
            + self.available_reserve_balance
    }

    /// The aggregate counters sum within the working width.
    pub open spec fn counters_fit(self) -> bool {
        self.total_lamports_under_control_spec() <= u64::MAX
    }

    /// The only authoritative measure of pool backing: funds under
    /// control minus funds already promised to ticket holders, floored
    /// at zero so it is never negative.
    pub open spec fn total_virtual_staked_lamports_spec(self) -> int {
        if self.total_lamports_under_control_spec() >= self.circulating_ticket_balance {
            self.total_lamports_under_control_spec() - self.circulating_ticket_balance
        } else {
            0
        }
    }

    /// Base-currency value of a derivative-token amount at the live
    /// rate; one-to-one while the supply is zero.
    pub open spec fn stader_sol_to_sol_spec(self, stader_sol_amount: u64) -> int {
        proportional_spec(
            stader_sol_amount as int,
            self.total_virtual_staked_lamports_spec(),
            self.stader_sol_supply as int,
        )
    }

    /// Derivative-token amount worth a base-currency amount at the
    /// live rate; one-to-one while the supply or the backing is zero.
    pub open spec fn calc_stader_sol_from_lamports_spec(self, lamports: u64) -> int {
        if self.stader_sol_supply == 0 {
            lamports as int
        } else {
            proportional_spec(
                lamports as int,
                self.stader_sol_supply as int,
                self.total_virtual_staked_lamports_spec(),
            )
        }
    }

    /// Total principal cooling down, over both paths.
    pub fn total_cooling_down(&self) -> (r: u64)
        requires
            self.counters_fit(),
        ensures
            r == self.total_cooling_down_spec(),
    {
        self.stake_system.delayed_unstake_cooling_down + self.emergency_cooling_down
    }

    /// Everything the pool has under control.
    pub fn total_lamports_under_control(&self) -> (r: u64)
        requires
            self.counters_fit(),
        ensures
            r == self.total_lamports_under_control_spec(),
    {
        self.active_delegated_balance + self.total_cooling_down() + self.available_reserve_balance
    }

    /// The authoritative pool backing; never negative thanks to the
    /// saturating subtraction.
    pub fn total_virtual_staked_lamports(&self) -> (r: u64)
        requires
            self.counters_fit(),
        ensures
            r == self.total_virtual_staked_lamports_spec(),
    {
        self.total_lamports_under_control().saturating_sub(self.circulating_ticket_balance)
    }

    /// Convert a derivative-token amount to base currency at the live
    /// rate, rounding down.
    pub fn stader_sol_to_sol(&self, stader_sol_amount: u64) -> (r: Result<
        u64,
        StaderLiquidStakingError,
    >)
        requires
            self.counters_fit(),
        ensures
            match r {
                Ok(v) => v == self.stader_sol_to_sol_spec(stader_sol_amount),
                Err(e) => {
                    &&& e == StaderLiquidStakingError::ArithmeticOverflow
                    &&& self.stader_sol_to_sol_spec(stader_sol_amount) > u64::MAX
                },
            },
    {
        let total_virtual = self.total_virtual_staked_lamports();
        proportional(stader_sol_amount, total_virtual, self.stader_sol_supply)
    }

    /// Convert a base-currency amount to derivative tokens at the live
    /// rate, rounding down.
    pub fn calc_stader_sol_from_lamports(&self, lamports: u64) -> (r: Result<
        u64,
        StaderLiquidStakingError,
    >)
        requires
            self.counters_fit(),
        ensures
            match r {
                Ok(v) => v == self.calc_stader_sol_from_lamports_spec(lamports),
                Err(e) => {
                    &&& e == StaderLiquidStakingError::ArithmeticOverflow
                    &&& self.calc_stader_sol_from_lamports_spec(lamports) > u64::MAX
                },
            },
    {
        if self.stader_sol_supply == 0 {
            Ok(lamports)
        } else {
            let total_virtual = self.total_virtual_staked_lamports();
            proportional(lamports, self.stader_sol_supply, total_virtual)
        }
    }

    /// Would taking `transfering_lamports` under control stay within
    /// the staking cap?
    pub fn check_staking_cap(&self, transfering_lamports: u64) -> (r: Result<
        (),
        StaderLiquidStakingError,
    >)
        requires
            self.counters_fit(),
        ensures
            match r {
                Ok(()) => self.total_lamports_under_control_spec() + transfering_lamports
                    <= self.staking_sol_cap,
                Err(e) => {
                    ||| {
                        &&& e == StaderLiquidStakingError::ArithmeticOverflow
                        &&& self.total_lamports_under_control_spec() + transfering_lamports
                            > u64::MAX
                    }
                    ||| {
                        &&& e == StaderLiquidStakingError::StakingIsCapped
                        &&& self.total_lamports_under_control_spec() + transfering_lamports
                            <= u64::MAX
                        &&& self.total_lamports_under_control_spec() + transfering_lamports
                            > self.staking_sol_cap
                    }
                },
            },
    {
        let under_control = self.total_lamports_under_control();
        match under_control.checked_add(transfering_lamports) {
            Some(result_amount) => {
                if result_amount <= self.staking_sol_cap {
                    Ok(())
                } else {
                    Err(StaderLiquidStakingError::StakingIsCapped)
                }
            },
            None => Err(StaderLiquidStakingError::ArithmeticOverflow),
        }
    }

    /// Record base currency arriving in the reserve vault.
    pub fn on_transfer_to_reserve(&mut self, amount: u64)
        requires
            old(self).available_reserve_balance + amount <= u64::MAX,
        ensures
            *final(self) == (State {
                available_reserve_balance: (old(self).available_reserve_balance + amount) as u64,
                ..*old(self)
            }),
    {
        self.available_reserve_balance = self.available_reserve_balance + amount;
    }

    /// Record base currency leaving the reserve vault; the counter is
    /// floored at zero rather than allowed to wrap.
    pub fn on_transfer_from_reserve(&mut self, amount: u64)
        ensures
            *final(self) == (State {
                available_reserve_balance: if old(self).available_reserve_balance >= amount {
                    (old(self).available_reserve_balance - amount) as u64
                } else {
                    0
                },
                ..*old(self)
            }),
    {
        self.available_reserve_balance = self.available_reserve_balance.saturating_sub(amount);
    }

    /// Record freshly minted derivative tokens.
    pub fn on_stader_sol_mint(&mut self, amount: u64)
        requires
            old(self).stader_sol_supply + amount <= u64::MAX,
        ensures
            *final(self) == (State {
                stader_sol_supply: (old(self).stader_sol_supply + amount) as u64,
                ..*old(self)
            }),
    {
        self.stader_sol_supply = self.stader_sol_supply + amount;
    }

    /// Record burned derivative tokens.
    pub fn on_stader_sol_burn(&mut self, amount: u64)
        requires
            amount <= old(self).stader_sol_supply,
        ensures
            *final(self) == (State {
                stader_sol_supply: (old(self).stader_sol_supply - amount) as u64,
                ..*old(self)
            }),
    {
        self.stader_sol_supply = self.stader_sol_supply - amount;
    }

    /// Law: the pool backing is never negative, whatever the
    /// counters hold; the subtraction of the ticket debt is floored
    /// at zero.
    pub proof fn lemma_total_virtual_nonneg(self)
        ensures
            self.total_virtual_staked_lamports_spec() >= 0,
    {
    }

    /// Law: while the pool holds at least one base-currency unit per
    /// derivative token (backing at least equal to supply), converting
    /// tokens to base currency and the result back to tokens returns
    /// the starting amount, up to a single token lost to the two
    /// floor roundings.
    pub proof fn lemma_conversion_round_trip(self, x: u64)
        requires
            self.stader_sol_supply > 0,
            self.stader_sol_supply <= self.total_virtual_staked_lamports_spec(),
        ensures
            self.stader_sol_to_sol_spec(x) <= u64::MAX ==> {
                let back = self.calc_stader_sol_from_lamports_spec(
                    self.stader_sol_to_sol_spec(x) as u64,
                );
                x - 1 <= back <= x
            },
    {
        lemma_proportional_round_trip(
            x as int,
            self.stader_sol_supply as int,
            self.total_virtual_staked_lamports_spec(),
        );
    }
}

} // verus!
