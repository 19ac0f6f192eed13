//! Deposit of base currency: the depositor's derivative-token buy
//! order is filled from the pool's token leg first (no fee) and only
//! the remainder is freshly minted against the reserve.

use vstd::prelude::*;
use vstd::arithmetic::mul::lemma_mul_basics;

use crate::error::StaderLiquidStakingError;
use crate::events::DepositEvent;
use crate::math::{lemma_proportional_scale_back, proportional_spec};
use crate::Pubkey;
use crate::state::State;

verus! {

/// Accounts view of the deposit instruction.
#[derive(Clone, Debug)]
pub struct Deposit {
    pub state: State,
    pub state_key: Pubkey,
    /// Externally reported supply of the derivative-token mint.
    pub stader_sol_mint_supply: u64,
    /// The depositing account and its balance.
    pub transfer_from_key: Pubkey,
    pub transfer_from_lamports: u64,
    /// Balance of the depositor's derivative-token account.
    pub mint_to_amount: u64,
    /// Balance of the reserve vault.
    pub reserve_pda_lamports: u64,
    /// Balance of the pool's base-currency leg.
    pub liq_pool_sol_leg_lamports: u64,
    /// Balance of the pool's derivative-token leg.
    pub liq_pool_stader_sol_leg_amount: u64,
}

impl Deposit {
    /// How many derivative tokens the deposit buys at the live rate.
    pub open spec fn buy_order_spec(self, lamports: u64) -> int {
        self.state.calc_stader_sol_from_lamports_spec(lamports)
    }

    /// The part of the order filled from the pool's token leg: the
    /// whole order if the leg can cover it, else the whole leg.
    pub open spec fn swapped_tokens_spec(self, lamports: u64) -> int {
        if self.buy_order_spec(lamports) <= self.liq_pool_stader_sol_leg_amount {
            self.buy_order_spec(lamports)
        } else {
            self.liq_pool_stader_sol_leg_amount as int
        }
    }

    /// The base currency routed into the pool's leg in exchange: the
    /// full deposit when the order is filled completely from the leg,
    /// else the value of the tokens actually sold.
    pub open spec fn swapped_sol_spec(self, lamports: u64) -> int {
        if self.swapped_tokens_spec(lamports) > 0 {
            if self.buy_order_spec(lamports) == self.swapped_tokens_spec(lamports) {
                lamports as int
            } else {
                self.state.stader_sol_to_sol_spec(self.swapped_tokens_spec(lamports) as u64)
            }
        } else {
            0
        }
    }

    /// The base currency deposited into the main reserve.
    pub open spec fn deposited_sol_spec(self, lamports: u64) -> int {
        lamports - self.swapped_sol_spec(lamports)
    }

    /// The derivative tokens freshly minted for the remainder of the
    /// order.
    pub open spec fn minted_tokens_spec(self, lamports: u64) -> int {
        self.buy_order_spec(lamports) - self.swapped_tokens_spec(lamports)
    }

    /// The first rejection the deposit runs into, `None` when it is
    /// accepted.
    pub open spec fn rejection_spec(self, lamports: u64) -> Option<StaderLiquidStakingError> {
        if self.state.paused {
            Some(StaderLiquidStakingError::ProgramIsPaused)
        } else if lamports < self.state.min_deposit {
            Some(StaderLiquidStakingError::DepositAmountIsTooLow)
        } else if self.transfer_from_lamports < lamports {
            Some(StaderLiquidStakingError::NotEnoughUserFunds)
        } else if self.stader_sol_mint_supply > self.state.stader_sol_supply {
            Some(StaderLiquidStakingError::UnregisteredStaderSolMinted)
        } else if self.buy_order_spec(lamports) > u64::MAX {
            Some(StaderLiquidStakingError::ArithmeticOverflow)
        } else if self.deposited_sol_spec(lamports) > 0
            && self.state.total_lamports_under_control_spec() + self.deposited_sol_spec(lamports)
            > u64::MAX {
            Some(StaderLiquidStakingError::ArithmeticOverflow)
        } else if self.deposited_sol_spec(lamports) > 0
            && self.state.total_lamports_under_control_spec() + self.deposited_sol_spec(lamports)
            > self.state.staking_sol_cap {
            Some(StaderLiquidStakingError::StakingIsCapped)
        } else {
            None
        }
    }

    /// Whatever part of the buy order is sold out of the pool's token
    /// leg, its base-currency price never exceeds the deposit itself.
    pub proof fn lemma_swapped_sol_le_deposit(self, lamports: u64)
        ensures
            0 <= self.swapped_sol_spec(lamports) <= lamports,
    {
        let supply = self.state.stader_sol_supply as int;
        let total = self.state.total_virtual_staked_lamports_spec();
        let swapped = self.swapped_tokens_spec(lamports);
        if swapped > 0 && self.buy_order_spec(lamports) != swapped {
            // partially filled: the leg holds fewer tokens than the order
            if supply == 0 {
                // bootstrap rate: the order equals the deposit and the
                // conversion back is the identity
            } else if total == 0 {
                // worthless tokens: anything converts back to zero
                lemma_mul_basics(swapped);
                vstd::arithmetic::div_mod::lemma_div_pos_is_pos(0, supply);
                assert(proportional_spec(swapped, 0, supply) == 0);
            } else {
                assert(swapped <= (lamports as int * supply) / total);
                lemma_proportional_scale_back(swapped, lamports as int, supply, total);
            }
        }
    }

    /// Sum of the minted amounts of a series of deposits.
    pub open spec fn sum_minted(minted: Seq<u64>) -> int
        decreases minted.len(),
    {
        if minted.len() == 0 {
            0
        } else {
            Self::sum_minted(minted.drop_last()) + minted.last()
        }
    }

    /// Law: across any series of deposits with no intervening
    /// withdrawals or cranks, the derivative supply grows by exactly
    /// the sum of the minted amounts; pool-leg swaps never change it.
    /// `supplies` are the supply values around each deposit, stepping
    /// as the contract of `process` ensures.
    pub proof fn lemma_supply_after_deposits(supplies: Seq<u64>, minted: Seq<u64>)
        requires
            supplies.len() == minted.len() + 1,
            forall|i: int|
                0 <= i < minted.len() ==> supplies[i + 1] == supplies[i] + #[trigger] minted[i],
        ensures
            supplies.last() == supplies[0] + Self::sum_minted(minted),
        decreases minted.len(),
    {
        if minted.len() > 0 {
            let k = minted.len() - 1;
            assert(supplies[k + 1] == supplies[k] + minted[k]);
            Self::lemma_supply_after_deposits(supplies.drop_last(), minted.drop_last());
        }
    }

    /// Take `lamports` from the depositor: sell it tokens from the
    /// pool's leg at the live rate first, deposit the remainder into
    /// the reserve under the staking cap, and mint the unfilled part
    /// of the order.  The transfers themselves are executed by the
    /// external services from the amounts in the returned event.
    pub fn process(&mut self, lamports: u64) -> (r: Result<
        DepositEvent,
        StaderLiquidStakingError,
    >)
        requires
            old(self).state.counters_fit(),
            old(self).rejection_spec(lamports) is None ==> old(self).state.stader_sol_supply + old(
                self,
            ).minted_tokens_spec(lamports) <= u64::MAX,
        ensures
            match r {
                Ok(ev) => {
                    &&& old(self).rejection_spec(lamports) is None
                    &&& ev == (DepositEvent {
                        state: old(self).state_key,
                        sol_owner: old(self).transfer_from_key,
                        user_sol_balance: old(self).transfer_from_lamports,
                        user_stader_sol_balance: old(self).mint_to_amount,
                        sol_leg_balance: old(self).liq_pool_sol_leg_lamports,
                        stader_sol_leg_balance: old(self).liq_pool_stader_sol_leg_amount,
                        reserve_balance: old(self).reserve_pda_lamports,
                        sol_swapped: old(self).swapped_sol_spec(lamports) as u64,
                        stader_sol_swapped: old(self).swapped_tokens_spec(lamports) as u64,
                        sol_deposited: old(self).deposited_sol_spec(lamports) as u64,
                        stader_sol_minted: old(self).minted_tokens_spec(lamports) as u64,
                        total_virtual_staked_lamports: old(
                            self,
                        ).state.total_virtual_staked_lamports_spec() as u64,
                        stader_sol_supply: old(self).state.stader_sol_supply,
                    })
                    &&& *final(self) == (Deposit {
                        state: (State {
                            available_reserve_balance: (old(self).state.available_reserve_balance
                                + old(self).deposited_sol_spec(lamports)) as u64,
                            stader_sol_supply: (old(self).state.stader_sol_supply + old(
                                self,
                            ).minted_tokens_spec(lamports)) as u64,
                            ..old(self).state
                        }),
                        ..*old(self)
                    })
                    // the derivative supply grows by exactly what was
                    // minted; pool-leg swaps do not change it
                    &&& final(self).state.stader_sol_supply == old(self).state.stader_sol_supply
                        + ev.stader_sol_minted
                    // the pool backing never shrinks across a deposit
                    &&& final(self).state.total_virtual_staked_lamports_spec()
                        >= old(self).state.total_virtual_staked_lamports_spec()
                    // and it grows by exactly what reached the reserve,
                    // whenever the tickets were fully backed before
                    &&& (old(self).state.circulating_ticket_balance
                        <= old(self).state.total_lamports_under_control_spec()
                        ==> final(self).state.total_virtual_staked_lamports_spec()
                        == old(self).state.total_virtual_staked_lamports_spec()
                        + ev.sol_deposited)
                    // the staking cap held whenever the reserve grew
                    &&& (ev.sol_deposited > 0
                        ==> old(self).state.total_lamports_under_control_spec()
                        + ev.sol_deposited <= old(self).state.staking_sol_cap)
                },
                Err(e) => {
                    &&& old(self).rejection_spec(lamports) == Some(e)
                    &&& *final(self) == *old(self)
                },
            },
    {
        if self.state.paused {
            return Err(StaderLiquidStakingError::ProgramIsPaused);
        }
        if lamports < self.state.min_deposit {
            return Err(StaderLiquidStakingError::DepositAmountIsTooLow);
        }
        let user_sol_balance = self.transfer_from_lamports;
        if user_sol_balance < lamports {
            return Err(StaderLiquidStakingError::NotEnoughUserFunds);
        }

        // kept for the event log
        let user_stader_sol_balance = self.mint_to_amount;
        let reserve_balance = self.reserve_pda_lamports;
        let sol_leg_balance = self.liq_pool_sol_leg_lamports;

        // a supply minted past the tracked counter can only come from
        // outside the protocol
        if self.stader_sol_mint_supply > self.state.stader_sol_supply {
            return Err(StaderLiquidStakingError::UnregisteredStaderSolMinted);
        }

        let total_virtual_staked_lamports = self.state.total_virtual_staked_lamports();
        let stader_sol_supply = self.state.stader_sol_supply;

        // how many derivative tokens the deposit buys
        let user_stader_sol_buy_order = match self.state.calc_stader_sol_from_lamports(lamports) {
            Ok(v) => v,
            Err(e) => {
                return Err(e);
            },
        };

        // sell from the pool's token leg first: the pool works best
        // fully unbalanced toward base currency, so it sheds its
        // derivative tokens whenever it can (no fee)
        let stader_sol_leg_balance = self.liq_pool_stader_sol_leg_amount;
        let stader_sol_swapped: u64 = if user_stader_sol_buy_order <= stader_sol_leg_balance {
            user_stader_sol_buy_order
        } else {
            stader_sol_leg_balance
        };

        proof {
            self.lemma_swapped_sol_le_deposit(lamports);
        }
        let sol_swapped: u64 = if stader_sol_swapped > 0 {
            if user_stader_sol_buy_order == stader_sol_swapped {
                // the order is filled completely: the whole deposit
                // goes to the pool's base-currency leg
                lamports
            } else {
                // partially filled: the leg receives the value of the
                // tokens it sold
                match self.state.stader_sol_to_sol(stader_sol_swapped) {
                    Ok(v) => v,
                    Err(_) => {
                        proof {
                            assert(false);
                        }
                        0
                    },
                }
            }
        } else {
            0
        };

        // whatever was not swapped is deposited into the reserve
        let sol_deposited: u64 = lamports - sol_swapped;
        if sol_deposited > 0 {
            match self.state.check_staking_cap(sol_deposited) {
                Ok(()) => {},
                Err(e) => {
                    return Err(e);
                },
            }
            self.state.on_transfer_to_reserve(sol_deposited);
        }

        // the unfilled part of the order is freshly minted
        let stader_sol_minted: u64 = user_stader_sol_buy_order - stader_sol_swapped;
        if stader_sol_minted > 0 {
            self.state.on_stader_sol_mint(stader_sol_minted);
        }

        Ok(
            DepositEvent {
                state: self.state_key,
                sol_owner: self.transfer_from_key,
                user_sol_balance,
                user_stader_sol_balance,
                sol_leg_balance,
                stader_sol_leg_balance,
                reserve_balance,
                sol_swapped,
                stader_sol_swapped,
                sol_deposited,
                stader_sol_minted,
                total_virtual_staked_lamports,
                stader_sol_supply,
            },
        )
    }
}

} // verus!
