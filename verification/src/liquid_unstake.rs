//! Instant unstake: the pool buys derivative tokens from the user
//! against its base-currency leg, charging a fee that grows as the
//! withdrawal drains the pool.

use vstd::prelude::*;

use crate::checks::{check_token_source_account, token_source_check_spec, TokenSourceAccount};
use crate::error::StaderLiquidStakingError;
use crate::events::LiquidUnstakeEvent;
use crate::fee::Fee;
use crate::Pubkey;
use crate::state::State;

verus! {

/// Accounts view of the liquid-unstake instruction.
#[derive(Clone, Debug)]
pub struct LiquidUnstake {
    pub state: State,
    pub state_key: Pubkey,
    /// The derivative-token account the tokens are taken from.
    pub get_stader_sol_from: TokenSourceAccount,
    /// Signer spending from that account: its owner or its delegate.
    pub get_stader_sol_from_authority: Pubkey,
    /// Balance of the account receiving the base currency.
    pub transfer_sol_to_lamports: u64,
    /// Balance of the treasury's derivative-token account, when that
    /// account is resolvable; `None` otherwise.
    pub treasury_stader_sol_balance: Option<u64>,
    /// Balance of the pool's derivative-token leg.
    pub liq_pool_stader_sol_leg_amount: u64,
    /// Balance of the pool's base-currency leg, including its
    /// rent-exempt floor.
    pub liq_pool_sol_leg_lamports: u64,
}

impl LiquidUnstake {
    /// What the pool's base-currency leg can actually pay out: its
    /// balance above the rent-exempt floor.
    pub open spec fn available_sol_spec(self) -> int {
        if self.liq_pool_sol_leg_lamports >= self.state.rent_exempt_for_token_acc {
            self.liq_pool_sol_leg_lamports - self.state.rent_exempt_for_token_acc
        } else {
            0
        }
    }

    /// Base-currency value of the full token amount, before the fee.
    pub open spec fn user_remove_lamports_spec(self, stader_sol_amount: u64) -> int {
        self.state.stader_sol_to_sol_spec(stader_sol_amount)
    }

    /// The fee rate: `lp_max_fee` for a full drain, otherwise the
    /// linear curve over the post-withdrawal available balance.
    pub open spec fn fee_spec(self, stader_sol_amount: u64) -> Fee {
        if self.user_remove_lamports_spec(stader_sol_amount) >= self.available_sol_spec() {
            self.state.liq_pool.lp_max_fee
        } else {
            self.state.liq_pool.linear_fee_spec(
                (self.available_sol_spec() - self.user_remove_lamports_spec(
                    stader_sol_amount,
                )) as u64,
            )
        }
    }

    /// The fee, taken in derivative tokens.
    pub open spec fn stader_sol_fee_spec(self, stader_sol_amount: u64) -> int {
        self.fee_spec(stader_sol_amount).apply_spec(stader_sol_amount)
    }

    /// The base-currency payout: value of the tokens net of the fee.
    pub open spec fn working_lamports_spec(self, stader_sol_amount: u64) -> int {
        self.state.stader_sol_to_sol_spec(
            (stader_sol_amount - self.stader_sol_fee_spec(stader_sol_amount)) as u64,
        )
    }

    /// The treasury's share of the fee; zero when its account is not
    /// resolvable, in which case the whole fee stays with the pool.
    pub open spec fn treasury_cut_spec(self, stader_sol_amount: u64) -> int {
        if self.treasury_stader_sol_balance is Some {
            self.state.liq_pool.treasury_cut.apply_spec(
                self.stader_sol_fee_spec(stader_sol_amount) as u64,
            )
        } else {
            0
        }
    }

    /// The first rejection the swap runs into, `None` when it is
    /// accepted.
    pub open spec fn rejection_spec(self, stader_sol_amount: u64) -> Option<
        StaderLiquidStakingError,
    > {
        if self.state.paused {
            Some(StaderLiquidStakingError::ProgramIsPaused)
        } else if token_source_check_spec(
            self.get_stader_sol_from,
            self.get_stader_sol_from_authority,
            stader_sol_amount,
        ) is Some {
            token_source_check_spec(
                self.get_stader_sol_from,
                self.get_stader_sol_from_authority,
                stader_sol_amount,
            )
        } else if self.user_remove_lamports_spec(stader_sol_amount) > u64::MAX {
            Some(StaderLiquidStakingError::ArithmeticOverflow)
        } else if self.working_lamports_spec(stader_sol_amount) > u64::MAX {
            Some(StaderLiquidStakingError::ArithmeticOverflow)
        } else if self.working_lamports_spec(stader_sol_amount)
            + self.state.rent_exempt_for_token_acc > self.liq_pool_sol_leg_lamports {
            Some(StaderLiquidStakingError::InsufficientLiquidity)
        } else if self.working_lamports_spec(stader_sol_amount) < self.state.min_withdraw {
            Some(StaderLiquidStakingError::WithdrawAmountIsTooLow)
        } else {
            None
        }
    }

    /// Swap `stader_sol_amount` derivative tokens for base currency
    /// out of the pool's leg, at the live rate net of the dynamic fee.
    /// No aggregate counter moves: the trade only shifts balances
    /// between the pool's legs, the user and the treasury, and those
    /// movements are executed by the external services from the
    /// amounts in the returned event.
    pub fn process(&mut self, stader_sol_amount: u64) -> (r: Result<
        LiquidUnstakeEvent,
        StaderLiquidStakingError,
    >)
        requires
            old(self).state.counters_fit(),
            old(self).state.liq_pool.is_valid(),
        ensures
            *final(self) == *old(self),
            match r {
                Ok(ev) => {
                    &&& old(self).rejection_spec(stader_sol_amount) is None
                    &&& ev == (LiquidUnstakeEvent {
                        state: old(self).state_key,
                        stader_sol_owner: old(self).get_stader_sol_from.owner,
                        liq_pool_sol_balance: old(self).liq_pool_sol_leg_lamports,
                        liq_pool_stader_sol_balance: old(self).liq_pool_stader_sol_leg_amount,
                        treasury_stader_sol_balance: old(self).treasury_stader_sol_balance,
                        user_stader_sol_balance: old(self).get_stader_sol_from.amount,
                        user_sol_balance: old(self).transfer_sol_to_lamports,
                        stader_sol_amount,
                        stader_sol_fee: old(self).stader_sol_fee_spec(stader_sol_amount) as u64,
                        treasury_stader_sol_cut: old(self).treasury_cut_spec(
                            stader_sol_amount,
                        ) as u64,
                        sol_amount: old(self).working_lamports_spec(stader_sol_amount) as u64,
                        lp_liquidity_target: old(self).state.liq_pool.lp_liquidity_target,
                        lp_max_fee: old(self).state.liq_pool.lp_max_fee,
                        lp_min_fee: old(self).state.liq_pool.lp_min_fee,
                        treasury_cut: old(self).state.liq_pool.treasury_cut,
                    })
                    &&& (old(self).user_remove_lamports_spec(stader_sol_amount) >= old(
                        self,
                    ).available_sol_spec() ==> old(self).fee_spec(stader_sol_amount) == old(
                        self,
                    ).state.liq_pool.lp_max_fee)
                },
                Err(e) => old(self).rejection_spec(stader_sol_amount) == Some(e),
            },
    {
        if self.state.paused {
            return Err(StaderLiquidStakingError::ProgramIsPaused);
        }
        match check_token_source_account(
            &self.get_stader_sol_from,
            &self.get_stader_sol_from_authority,
            stader_sol_amount,
        ) {
            Ok(()) => {},
            Err(e) => {
                return Err(e);
            },
        }
        let user_sol_balance = self.transfer_sol_to_lamports;
        let user_stader_sol_balance = self.get_stader_sol_from.amount;
        let treasury_stader_sol_balance = self.treasury_stader_sol_balance;

        let liq_pool_stader_sol_balance = self.liq_pool_stader_sol_leg_amount;
        let liq_pool_sol_balance = self.liq_pool_sol_leg_lamports;
        let liq_pool_available_sol_balance = liq_pool_sol_balance.saturating_sub(
            self.state.rent_exempt_for_token_acc,
        );

        // the fee is computed against the liquidity *after* the user
        // takes the base currency out
        let user_remove_lamports = match self.state.stader_sol_to_sol(stader_sol_amount) {
            Ok(v) => v,
            Err(e) => {
                return Err(e);
            },
        };
        let liquid_unstake_fee: Fee = if user_remove_lamports >= liq_pool_available_sol_balance {
            // the user is removing all the liquidity there is
            self.state.liq_pool.lp_max_fee
        } else {
            let after_lamports: u64 = liq_pool_available_sol_balance - user_remove_lamports;
            self.state.liq_pool.linear_fee(after_lamports)
        };

        let stader_sol_fee = liquid_unstake_fee.apply(stader_sol_amount);

        // the fee goes to the treasury and the liquidity providers;
        // the user receives the value of the remainder
        let working_lamports_value = match self.state.stader_sol_to_sol(
            stader_sol_amount - stader_sol_fee,
        ) {
            Ok(v) => v,
            Err(e) => {
                return Err(e);
            },
        };

        // the payout plus the leg's rent-exempt floor must fit in the leg
        let insufficient: bool = if self.state.rent_exempt_for_token_acc > liq_pool_sol_balance {
            true
        } else {
            working_lamports_value > liq_pool_sol_balance - self.state.rent_exempt_for_token_acc
        };
        if insufficient {
            return Err(StaderLiquidStakingError::InsufficientLiquidity);
        }
        if working_lamports_value < self.state.min_withdraw {
            return Err(StaderLiquidStakingError::WithdrawAmountIsTooLow);
        }

        let treasury_stader_sol_cut: u64 = if treasury_stader_sol_balance.is_some() {
            self.state.liq_pool.treasury_cut.apply(stader_sol_fee)
        } else {
            0
        };

        Ok(
            LiquidUnstakeEvent {
                state: self.state_key,
                stader_sol_owner: self.get_stader_sol_from.owner,
                liq_pool_sol_balance,
                liq_pool_stader_sol_balance,
                treasury_stader_sol_balance,
                user_stader_sol_balance,
                user_sol_balance,
                stader_sol_amount,
                stader_sol_fee,
                treasury_stader_sol_cut,
                sol_amount: working_lamports_value,
                lp_liquidity_target: self.state.liq_pool.lp_liquidity_target,
                lp_max_fee: self.state.liq_pool.lp_max_fee,
                lp_min_fee: self.state.liq_pool.lp_min_fee,
                treasury_cut: self.state.liq_pool.treasury_cut,
            },
        )
    }
}

} // verus!
