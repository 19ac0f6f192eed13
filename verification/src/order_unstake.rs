//! The delayed-unstake ticket issuer: burns derivative tokens now,
//! issues a fixed base-currency claim redeemable after an epoch
//! boundary.

use vstd::prelude::*;

use crate::checks::{check_token_source_account, token_source_check_spec, TokenSourceAccount};
use crate::error::StaderLiquidStakingError;
use crate::events::OrderUnstakeEvent;
use crate::state::State;
use crate::ticket::TicketAccountData;
use crate::Pubkey;

verus! {

/// Accounts view of the order-unstake instruction.
#[derive(Clone, Debug)]
pub struct OrderUnstake {
    pub state: State,
    pub state_key: Pubkey,
    /// The derivative-token account the burn is taken from.
    pub burn_stader_sol_from: TokenSourceAccount,
    /// Signer spending from that account: its owner or its delegate.
    pub burn_stader_sol_authority: Pubkey,
    /// Identity of the fresh ticket account.
    pub new_ticket_account_key: Pubkey,
    /// The current consensus epoch.
    pub epoch: u64,
}

impl OrderUnstake {
    /// Base-currency value of the burned amount, before the fee.
    pub open spec fn sol_value_spec(self, stader_sol_amount: u64) -> int {
        self.state.stader_sol_to_sol_spec(stader_sol_amount)
    }

    /// The claimable amount: the value net of the delayed-unstake fee.
    /// The fee is paid to nobody; it stays in the pool and raises the
    /// rate for every remaining holder.
    pub open spec fn lamports_for_user_spec(self, stader_sol_amount: u64) -> int {
        self.sol_value_spec(stader_sol_amount) - self.state.delayed_unstake_fee.apply_spec(
            self.sol_value_spec(stader_sol_amount) as u64,
        )
    }

    /// The epoch from which the ticket may be claimed: one past the
    /// issuance epoch when that epoch already saw a stake delta, so a
    /// same-epoch ticket cannot double-count funds not yet freed.
    pub open spec fn created_epoch_spec(self) -> int {
        self.epoch + if self.epoch == self.state.stake_system.last_stake_delta_epoch {
            1int
        } else {
            0int
        }
    }

    /// The first rejection the order runs into, `None` when it is
    /// accepted.
    pub open spec fn rejection_spec(self, stader_sol_amount: u64) -> Option<
        StaderLiquidStakingError,
    > {
        if self.state.paused {
            Some(StaderLiquidStakingError::ProgramIsPaused)
        } else if token_source_check_spec(
            self.burn_stader_sol_from,
            self.burn_stader_sol_authority,
            stader_sol_amount,
        ) is Some {
            token_source_check_spec(
                self.burn_stader_sol_from,
                self.burn_stader_sol_authority,
                stader_sol_amount,
            )
        } else if self.sol_value_spec(stader_sol_amount) > u64::MAX {
            Some(StaderLiquidStakingError::ArithmeticOverflow)
        } else if self.lamports_for_user_spec(stader_sol_amount) < self.state.min_withdraw {
            Some(StaderLiquidStakingError::WithdrawAmountIsTooLow)
        } else {
            None
        }
    }

    /// Burn `stader_sol_amount` from the source account and issue a
    /// ticket for its value net of the delayed-unstake fee.  The
    /// actual burn is executed by the external token service; this
    /// function decides the amounts and updates the counters.
    pub fn process(&mut self, stader_sol_amount: u64) -> (r: Result<
        (TicketAccountData, OrderUnstakeEvent),
        StaderLiquidStakingError,
    >)
        requires
            old(self).state.counters_fit(),
            old(self).state.delayed_unstake_fee.is_valid(),
            old(self).rejection_spec(stader_sol_amount) is None ==> {
                &&& old(self).state.circulating_ticket_balance + old(self).lamports_for_user_spec(
                    stader_sol_amount,
                ) <= u64::MAX
                &&& old(self).state.circulating_ticket_count < u64::MAX
                &&& stader_sol_amount <= old(self).state.stader_sol_supply
                &&& (old(self).epoch == old(self).state.stake_system.last_stake_delta_epoch
                    ==> old(self).epoch < u64::MAX)
            },
        ensures
            match r {
                Ok(out) => {
                    &&& old(self).rejection_spec(stader_sol_amount) is None
                    &&& out.0 == (TicketAccountData {
                        state_address: old(self).state_key,
                        beneficiary: old(self).burn_stader_sol_from.owner,
                        lamports_amount: old(self).lamports_for_user_spec(
                            stader_sol_amount,
                        ) as u64,
                        created_epoch: old(self).created_epoch_spec() as u64,
                    })
                    &&& (old(self).epoch == old(self).state.stake_system.last_stake_delta_epoch
                        ==> out.0.created_epoch > old(self).epoch)
                    &&& (old(self).epoch != old(self).state.stake_system.last_stake_delta_epoch
                        ==> out.0.created_epoch == old(self).epoch)
                    &&& *final(self) == (OrderUnstake {
                        state: (State {
                            circulating_ticket_balance: (old(self).state.circulating_ticket_balance
                                + old(self).lamports_for_user_spec(stader_sol_amount)) as u64,
                            circulating_ticket_count: (old(self).state.circulating_ticket_count
                                + 1) as u64,
                            stader_sol_supply: (old(self).state.stader_sol_supply
                                - stader_sol_amount) as u64,
                            ..old(self).state
                        }),
                        ..*old(self)
                    })
                    &&& out.1 == (OrderUnstakeEvent {
                        state: old(self).state_key,
                        ticket_epoch: out.0.created_epoch,
                        ticket: old(self).new_ticket_account_key,
                        beneficiary: old(self).burn_stader_sol_from.owner,
                        circulating_ticket_balance: old(self).state.circulating_ticket_balance,
                        circulating_ticket_count: old(self).state.circulating_ticket_count,
                        user_stader_sol_balance: old(self).burn_stader_sol_from.amount,
                        burned_stader_sol_amount: stader_sol_amount,
                        sol_amount: out.0.lamports_amount,
                        fee_bp_cents: old(self).state.delayed_unstake_fee.bp_cents,
                        total_virtual_staked_lamports: old(
                            self,
                        ).state.total_virtual_staked_lamports_spec() as u64,
                        stader_sol_supply: old(self).state.stader_sol_supply,
                    })
                },
                Err(e) => {
                    &&& old(self).rejection_spec(stader_sol_amount) == Some(e)
                    &&& *final(self) == *old(self)
                },
            },
    {
        if self.state.paused {
            return Err(StaderLiquidStakingError::ProgramIsPaused);
        }
        match check_token_source_account(
            &self.burn_stader_sol_from,
            &self.burn_stader_sol_authority,
            stader_sol_amount,
        ) {
            Ok(()) => {},
            Err(e) => {
                return Err(e);
            },
        }
        let ticket_beneficiary = self.burn_stader_sol_from.owner;
        let user_stader_sol_balance = self.burn_stader_sol_from.amount;

        let total_virtual_staked_lamports = self.state.total_virtual_staked_lamports();
        let stader_sol_supply = self.state.stader_sol_supply;

        let sol_value_of_stader_sol_burned = match self.state.stader_sol_to_sol(
            stader_sol_amount,
        ) {
            Ok(v) => v,
            Err(e) => {
                return Err(e);
            },
        };
        let delay_unstake_fee_lamports = self.state.delayed_unstake_fee.apply(
            sol_value_of_stader_sol_burned,
        );
        let lamports_for_user = sol_value_of_stader_sol_burned - delay_unstake_fee_lamports;

        if lamports_for_user < self.state.min_withdraw {
            return Err(StaderLiquidStakingError::WithdrawAmountIsTooLow);
        }

        let circulating_ticket_balance = self.state.circulating_ticket_balance;
        let circulating_ticket_count = self.state.circulating_ticket_count;
        self.state.circulating_ticket_balance = self.state.circulating_ticket_balance
            + lamports_for_user;
        self.state.circulating_ticket_count = self.state.circulating_ticket_count + 1;

        self.state.on_stader_sol_burn(stader_sol_amount);

        let created_epoch: u64 = self.epoch + (
        if self.epoch == self.state.stake_system.last_stake_delta_epoch {
            1u64
        } else {
            0u64
        });
        let ticket = TicketAccountData {
            state_address: self.state_key,
            beneficiary: ticket_beneficiary,
            lamports_amount: lamports_for_user,
            created_epoch,
        };
        let ev = OrderUnstakeEvent {
            state: self.state_key,
            ticket_epoch: created_epoch,
            ticket: self.new_ticket_account_key,
            beneficiary: ticket_beneficiary,
            circulating_ticket_balance,
            circulating_ticket_count,
            user_stader_sol_balance,
            burned_stader_sol_amount: stader_sol_amount,
            sol_amount: lamports_for_user,
            fee_bp_cents: self.state.delayed_unstake_fee.bp_cents,
            total_virtual_staked_lamports,
            stader_sol_supply,
        };
        Ok((ticket, ev))
    }
}

} // verus!
