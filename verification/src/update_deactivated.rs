//! The deactivation crank: per-record epoch reconciliation.
//! Permissionless and replayable; one call settles one fully- or
//! partially-deactivated delegation record: it measures rewards or
//! slashing against the record's baseline, mints the protocol fee,
//! moves the freed funds to the reserve, updates the exchange-rate
//! snapshot and removes the record from the ledger.

use vstd::prelude::*;

use crate::error::StaderLiquidStakingError;
use crate::events::{U64ValueChange, UpdateDeactivatedEvent};
use crate::Pubkey;
use crate::stake_system::{StakeRecord, StakeSystem};
use crate::state::{State, PRICE_DENOMINATOR};

verus! {

/// What the entry reconciliation hands to the rest of the crank.
#[derive(Clone, Copy, Debug)]
pub struct BeginOutput {
    pub stake: StakeRecord,
    pub is_treasury_stader_sol_ready_for_transfer: bool,
}

/// Accounts view of the crank instruction.
#[derive(Clone, Debug)]
pub struct UpdateDeactivated {
    pub state: State,
    pub state_key: Pubkey,
    /// Identity of the stake account named by the caller.
    pub stake_account_key: Pubkey,
    /// Its full balance, rent-exempt reserve included.
    pub stake_account_lamports: u64,
    /// The rent-exempt reserve recorded in the stake account's meta.
    pub stake_rent_exempt_reserve: u64,
    /// Deactivation epoch of the account's delegation; `None` when the
    /// account carries no delegation at all.
    pub stake_delegation_deactivation_epoch: Option<u64>,
    /// Balance of the reserve vault.
    pub reserve_pda_lamports: u64,
    /// Externally reported supply of the derivative-token mint.
    pub stader_sol_mint_supply: u64,
    /// Balance of the treasury's derivative-token account, when that
    /// account is resolvable; `None` otherwise.
    pub treasury_stader_sol_balance: Option<u64>,
    /// Balance of the operational account.
    pub operational_sol_lamports: u64,
    /// The current consensus epoch.
    pub epoch: u64,
}

impl UpdateDeactivated {
    /// The ledger slot at `stake_index` exists and still holds the
    /// record for the named stake account.
    pub open spec fn record_found_spec(self, stake_index: u32) -> bool {
        &&& (stake_index as int) < self.state.stake_system.stake_list@.len()
        &&& self.state.stake_system.stake_list@[stake_index as int].stake_account
            == self.stake_account_key
    }

    /// The record in that slot.
    pub open spec fn record_spec(self, stake_index: u32) -> StakeRecord {
        self.state.stake_system.stake_list@[stake_index as int]
    }

    /// State after the entry reconciliation: the reserve counter is
    /// re-read from the vault (net of the rent-exempt floor), the
    /// token supply from the mint, and the staking cap freezes to
    /// zero when an out-of-band mint is detected.  External balances
    /// are never trusted across calls.
    pub open spec fn reconciled_state_spec(self) -> State {
        State {
            available_reserve_balance: if self.reserve_pda_lamports
                >= self.state.rent_exempt_for_token_acc {
                (self.reserve_pda_lamports - self.state.rent_exempt_for_token_acc) as u64
            } else {
                0u64
            },
            staking_sol_cap: if self.stader_sol_mint_supply > self.state.stader_sol_supply {
                0u64
            } else {
                self.state.staking_sol_cap
            },
            stader_sol_supply: self.stader_sol_mint_supply,
            ..self.state
        }
    }

    /// Observed principal: the stake account's balance above its
    /// rent-exempt reserve.
    pub open spec fn stake_balance_without_rent_spec(self) -> int {
        self.stake_account_lamports - self.stake_rent_exempt_reserve
    }

    /// Rewards since the last observation; zero on a slashing event
    /// (the shortfall is absorbed pool-wide via the exchange rate).
    pub open spec fn rewards_spec(self, stake_index: u32) -> int {
        if self.stake_balance_without_rent_spec() >= self.record_spec(
            stake_index,
        ).last_update_delegated_lamports {
            self.stake_balance_without_rent_spec() - self.record_spec(
                stake_index,
            ).last_update_delegated_lamports
        } else {
            0
        }
    }

    /// Whether a protocol fee is minted on this call: rewards accrued
    /// and the treasury account resolvable.
    pub open spec fn fee_minted_spec(self, stake_index: u32) -> bool {
        &&& self.treasury_stader_sol_balance is Some
        &&& self.stake_balance_without_rent_spec() >= self.record_spec(
            stake_index,
        ).last_update_delegated_lamports
    }

    /// The protocol fee on the rewards, in base currency.
    pub open spec fn fee_lamports_spec(self, stake_index: u32) -> int {
        self.state.reward_fee.apply_spec(self.rewards_spec(stake_index) as u64)
    }

    /// The protocol fee converted to derivative tokens at the
    /// reconciled (pre-withdrawal) rate; zero when no fee is minted.
    pub open spec fn fee_tokens_spec(self, stake_index: u32) -> int {
        if self.fee_minted_spec(stake_index) {
            self.reconciled_state_spec().calc_stader_sol_from_lamports_spec(
                self.fee_lamports_spec(stake_index) as u64,
            )
        } else {
            0
        }
    }

    /// The fee conversion does not fit the working width.
    pub open spec fn fee_overflow_spec(self, stake_index: u32) -> bool {
        self.fee_tokens_spec(stake_index) > u64::MAX
    }

    /// Counters after the fee mint and the fund movement: the whole
    /// stake account balance is withdrawn to the reserve and its
    /// rent-exempt part moves on to the operational account.
    pub open spec fn state_after_funds_spec(self, stake_index: u32) -> State {
        let rec = self.reconciled_state_spec();
        let reserve_after_deposit = rec.available_reserve_balance + self.stake_account_lamports;
        State {
            stader_sol_supply: (rec.stader_sol_supply + self.fee_tokens_spec(
                stake_index,
            )) as u64,
            available_reserve_balance: if reserve_after_deposit
                >= self.stake_rent_exempt_reserve {
                (reserve_after_deposit - self.stake_rent_exempt_reserve) as u64
            } else {
                0u64
            },
            ..rec
        }
    }

    /// Counters after the cooldown decrement: the record's baseline
    /// leaves whichever cooldown aggregate it was counted in, since
    /// the funds now sit in the reserve.
    pub open spec fn state_after_cooldown_spec(self, stake_index: u32) -> State {
        let s = self.state_after_funds_spec(stake_index);
        let rec = self.record_spec(stake_index);
        if rec.last_update_delegated_lamports == 0 {
            s
        } else if rec.is_emergency_unstaking == 0 {
            State {
                stake_system: (StakeSystem {
                    delayed_unstake_cooling_down: (s.stake_system.delayed_unstake_cooling_down
                        - rec.last_update_delegated_lamports) as u64,
                    ..s.stake_system
                }),
                ..s
            }
        } else {
            State {
                emergency_cooling_down: (s.emergency_cooling_down
                    - rec.last_update_delegated_lamports) as u64,
                ..s
            }
        }
    }

    /// The exchange-rate snapshot recomputed at the final counters, so
    /// late-arriving rewards are captured.
    pub open spec fn new_price_spec(self, stake_index: u32) -> int {
        self.state_after_cooldown_spec(stake_index).stader_sol_to_sol_spec(PRICE_DENOMINATOR)
    }

    /// The crank has passed every check and will mint the fee (or
    /// skip it) and move the funds.
    pub open spec fn reaches_fee_mint_spec(self, stake_index: u32) -> bool {
        &&& !self.state.paused
        &&& self.record_found_spec(stake_index)
        &&& self.stake_delegation_deactivation_epoch is Some
        &&& self.stake_delegation_deactivation_epoch != Some(u64::MAX)
        &&& !self.fee_overflow_spec(stake_index)
    }

    /// The first rejection the crank runs into, `None` when it
    /// completes.
    pub open spec fn rejection_spec(self, stake_index: u32) -> Option<StaderLiquidStakingError> {
        if self.state.paused {
            Some(StaderLiquidStakingError::ProgramIsPaused)
        } else if !self.record_found_spec(stake_index) {
            Some(StaderLiquidStakingError::StakeIndexMismatch)
        } else if self.stake_delegation_deactivation_epoch is None {
            Some(StaderLiquidStakingError::RequiredDelegatedStake)
        } else if self.stake_delegation_deactivation_epoch == Some(u64::MAX) {
            Some(StaderLiquidStakingError::RequiredDeactivatingStake)
        } else if self.fee_overflow_spec(stake_index) {
            Some(StaderLiquidStakingError::ArithmeticOverflow)
        } else if self.new_price_spec(stake_index) > u64::MAX {
            Some(StaderLiquidStakingError::ArithmeticOverflow)
        } else {
            None
        }
    }

    /// Entry reconciliation plus the identity-checked record lookup.
    fn begin(&mut self, stake_index: u32) -> (r: Result<BeginOutput, StaderLiquidStakingError>)
        ensures
            *final(self) == (UpdateDeactivated {
                state: old(self).reconciled_state_spec(),
                ..*old(self)
            }),
            match r {
                Ok(out) => {
                    &&& old(self).record_found_spec(stake_index)
                    &&& out.stake == old(self).record_spec(stake_index)
                    &&& out.is_treasury_stader_sol_ready_for_transfer == (old(
                        self,
                    ).treasury_stader_sol_balance is Some)
                },
                Err(e) => {
                    &&& e == StaderLiquidStakingError::StakeIndexMismatch
                    &&& !old(self).record_found_spec(stake_index)
                },
            },
    {
        let is_treasury_stader_sol_ready_for_transfer = self.treasury_stader_sol_balance.is_some();

        // re-read the reserve from the vault, net of its rent-exempt
        // floor; the counter is a mirror, never the authority
        self.state.available_reserve_balance = self.reserve_pda_lamports.saturating_sub(
            self.state.rent_exempt_for_token_acc,
        );
        // a supply above the tracked counter means someone minted
        // outside the protocol: defensive, non-fatal, freeze the cap
        if self.stader_sol_mint_supply > self.state.stader_sol_supply {
            self.state.staking_sol_cap = 0;
        }
        self.state.stader_sol_supply = self.stader_sol_mint_supply;

        let stake = match self.state.stake_system.get_checked(
            stake_index,
            &self.stake_account_key,
        ) {
            Ok(s) => s,
            Err(e) => {
                return Err(e);
            },
        };
        Ok(BeginOutput { stake, is_treasury_stader_sol_ready_for_transfer })
    }

    /// Record the withdrawal of the stake account's whole balance into
    /// the reserve vault.  The movement itself is one atomic call of
    /// the external staking service.
    pub fn withdraw_to_reserve(&mut self, amount: u64) -> (r: Result<
        (),
        StaderLiquidStakingError,
    >)
        requires
            old(self).state.available_reserve_balance + amount <= u64::MAX,
        ensures
            r is Ok,
            *final(self) == (UpdateDeactivated {
                state: (State {
                    available_reserve_balance: (old(self).state.available_reserve_balance
                        + amount) as u64,
                    ..old(self).state
                }),
                ..*old(self)
            }),
    {
        if amount > 0 {
            self.state.on_transfer_to_reserve(amount);
        }
        Ok(())
    }

    /// Record a protocol-fee mint to the treasury's derivative-token
    /// account.  The mint itself is one atomic call of the external
    /// token service.
    pub fn mint_to_treasury(&mut self, stader_sol_lamports: u64) -> (r: Result<
        (),
        StaderLiquidStakingError,
    >)
        requires
            old(self).state.stader_sol_supply + stader_sol_lamports <= u64::MAX,
        ensures
            r is Ok,
            *final(self) == (UpdateDeactivated {
                state: (State {
                    stader_sol_supply: (old(self).state.stader_sol_supply
                        + stader_sol_lamports) as u64,
                    ..old(self).state
                }),
                ..*old(self)
            }),
    {
        if stader_sol_lamports > 0 {
            self.state.on_stader_sol_mint(stader_sol_lamports);
        }
        Ok(())
    }

    /// Recompute and store the exchange-rate snapshot from the live
    /// counters.
    pub fn update_stader_sol_price(&mut self) -> (r: Result<
        U64ValueChange,
        StaderLiquidStakingError,
    >)
        requires
            old(self).state.counters_fit(),
        ensures
            match r {
                Ok(change) => {
                    &&& change == (U64ValueChange {
                        old_value: old(self).state.stader_sol_price,
                        new_value: old(self).state.stader_sol_to_sol_spec(
                            PRICE_DENOMINATOR,
                        ) as u64,
                    })
                    &&& old(self).state.stader_sol_to_sol_spec(PRICE_DENOMINATOR) <= u64::MAX
                    &&& *final(self) == (UpdateDeactivated {
                        state: (State { stader_sol_price: change.new_value, ..old(self).state }),
                        ..*old(self)
                    })
                },
                Err(e) => {
                    &&& e == StaderLiquidStakingError::ArithmeticOverflow
                    &&& old(self).state.stader_sol_to_sol_spec(PRICE_DENOMINATOR) > u64::MAX
                    &&& *final(self) == *old(self)
                },
            },
    {
        let old_price = self.state.stader_sol_price;
        let new_price = match self.state.stader_sol_to_sol(PRICE_DENOMINATOR) {
            Ok(v) => v,
            Err(e) => {
                return Err(e);
            },
        };
        self.state.stader_sol_price = new_price;
        Ok(U64ValueChange { old_value: old_price, new_value: new_price })
    }

    /// Mint the protocol fee on `lamports_incoming` staking rewards:
    /// the reward-fee fraction of it, converted to derivative tokens
    /// at the current (pre-withdrawal) rate, minted to the treasury.
    /// Returns the minted token amount.
    pub fn mint_protocol_fees(&mut self, lamports_incoming: u64) -> (r: Result<
        u64,
        StaderLiquidStakingError,
    >)
        requires
            old(self).state.counters_fit(),
            old(self).state.reward_fee.is_valid(),
            old(self).state.calc_stader_sol_from_lamports_spec(
                old(self).state.reward_fee.apply_spec(lamports_incoming) as u64,
            ) <= u64::MAX ==> old(self).state.stader_sol_supply + old(
                self,
            ).state.calc_stader_sol_from_lamports_spec(
                old(self).state.reward_fee.apply_spec(lamports_incoming) as u64,
            ) <= u64::MAX,
        ensures
            match r {
                Ok(v) => {
                    &&& v == old(self).state.calc_stader_sol_from_lamports_spec(
                        old(self).state.reward_fee.apply_spec(lamports_incoming) as u64,
                    )
                    &&& *final(self) == (UpdateDeactivated {
                        state: (State {
                            stader_sol_supply: (old(self).state.stader_sol_supply + v) as u64,
                            ..old(self).state
                        }),
                        ..*old(self)
                    })
                },
                Err(e) => {
                    &&& e == StaderLiquidStakingError::ArithmeticOverflow
                    &&& old(self).state.calc_stader_sol_from_lamports_spec(
                        old(self).state.reward_fee.apply_spec(lamports_incoming) as u64,
                    ) > u64::MAX
                    &&& *final(self) == *old(self)
                },
            },
    {
        let protocol_rewards_fee = self.state.reward_fee.apply(lamports_incoming);
        let fee_as_stader_sol_amount = match self.state.calc_stader_sol_from_lamports(
            protocol_rewards_fee,
        ) {
            Ok(v) => v,
            Err(e) => {
                return Err(e);
            },
        };
        match self.mint_to_treasury(fee_as_stader_sol_amount) {
            Ok(()) => {},
            Err(e) => {
                proof {
                    assert(false);
                }
                return Err(e);
            },
        }
        Ok(fee_as_stader_sol_amount)
    }

    /// Settle one deactivated delegation record: reconcile the
    /// mirrored counters, measure rewards or slashing against the
    /// record's baseline, mint the protocol fee when the treasury is
    /// reachable, move the whole stake balance to the reserve and its
    /// rent-exempt part on to the operational account, take the
    /// baseline out of the cooldown aggregate, refresh the
    /// exchange-rate snapshot and drop the record from the ledger.
    pub fn process(&mut self, stake_index: u32) -> (r: Result<
        UpdateDeactivatedEvent,
        StaderLiquidStakingError,
    >)
        requires
            old(self).state.counters_fit(),
            old(self).state.reward_fee.is_valid(),
            old(self).reconciled_state_spec().total_lamports_under_control_spec() + old(
                self,
            ).stake_account_lamports <= u64::MAX,
            old(self).record_found_spec(stake_index) && old(
                self,
            ).stake_delegation_deactivation_epoch is Some && old(
                self,
            ).stake_delegation_deactivation_epoch != Some(u64::MAX) ==> old(
                self,
            ).stake_rent_exempt_reserve <= old(self).stake_account_lamports,
            old(self).reaches_fee_mint_spec(stake_index) ==> {
                &&& old(self).stader_sol_mint_supply + old(self).fee_tokens_spec(stake_index)
                    <= u64::MAX
                &&& (old(self).record_spec(stake_index).last_update_delegated_lamports != 0 && old(
                    self,
                ).record_spec(stake_index).is_emergency_unstaking == 0 ==> old(
                    self,
                ).record_spec(stake_index).last_update_delegated_lamports <= old(
                    self,
                ).state.stake_system.delayed_unstake_cooling_down)
                &&& (old(self).record_spec(stake_index).last_update_delegated_lamports != 0 && old(
                    self,
                ).record_spec(stake_index).is_emergency_unstaking != 0 ==> old(
                    self,
                ).record_spec(stake_index).last_update_delegated_lamports <= old(
                    self,
                ).state.emergency_cooling_down)
            },
        ensures
            match r {
                Ok(ev) => {
                    &&& old(self).rejection_spec(stake_index) is None
                    &&& final(self).state.stake_system.stake_list@ == old(
                        self,
                    ).state.stake_system.stake_list@.update(
                        stake_index as int,
                        old(self).state.stake_system.stake_list@.last(),
                    ).drop_last()
                    &&& final(self).state == (State {
                        stader_sol_price: old(self).new_price_spec(stake_index) as u64,
                        stake_system: (StakeSystem {
                            stake_list: final(self).state.stake_system.stake_list,
                            ..old(self).state_after_cooldown_spec(stake_index).stake_system
                        }),
                        ..old(self).state_after_cooldown_spec(stake_index)
                    })
                    &&& *final(self) == (UpdateDeactivated {
                        state: final(self).state,
                        ..*old(self)
                    })
                    &&& ev == (UpdateDeactivatedEvent {
                        state: old(self).state_key,
                        epoch: old(self).epoch,
                        stake_index,
                        stake_account: old(self).stake_account_key,
                        balance_without_rent_exempt: old(
                            self,
                        ).stake_balance_without_rent_spec() as u64,
                        last_update_delegated_lamports: old(
                            self,
                        ).record_spec(stake_index).last_update_delegated_lamports,
                        stader_sol_fees: if old(self).treasury_stader_sol_balance is Some {
                            Some(old(self).fee_tokens_spec(stake_index) as u64)
                        } else {
                            None
                        },
                        stader_sol_price_change: (U64ValueChange {
                            old_value: old(self).state.stader_sol_price,
                            new_value: old(self).new_price_spec(stake_index) as u64,
                        }),
                        reward_fee_used: old(self).state.reward_fee,
                        operational_sol_balance: old(self).operational_sol_lamports,
                        total_virtual_staked_lamports: old(
                            self,
                        ).state.total_virtual_staked_lamports_spec() as u64,
                        stader_sol_supply: old(self).state.stader_sol_supply,
                    })
                },
                Err(e) => {
                    &&& old(self).rejection_spec(stake_index) == Some(e)
                    &&& (e == StaderLiquidStakingError::ProgramIsPaused ==> *final(self) == *old(
                        self,
                    ))
                    &&& ((e == StaderLiquidStakingError::StakeIndexMismatch
                        || e == StaderLiquidStakingError::RequiredDelegatedStake
                        || e == StaderLiquidStakingError::RequiredDeactivatingStake || (e
                        == StaderLiquidStakingError::ArithmeticOverflow && old(
                        self,
                    ).fee_overflow_spec(stake_index))) ==> *final(self) == (UpdateDeactivated {
                        state: old(self).reconciled_state_spec(),
                        ..*old(self)
                    }))
                    &&& ((e == StaderLiquidStakingError::ArithmeticOverflow && !old(
                        self,
                    ).fee_overflow_spec(stake_index)) ==> *final(self) == (UpdateDeactivated {
                        state: old(self).state_after_cooldown_spec(stake_index),
                        ..*old(self)
                    }))
                },
            },
    {
        if self.state.paused {
            return Err(StaderLiquidStakingError::ProgramIsPaused);
        }

        // price source and balances recorded for the event
        let total_virtual_staked_lamports = self.state.total_virtual_staked_lamports();
        let stader_sol_supply = self.state.stader_sol_supply;
        let operational_sol_balance = self.operational_sol_lamports;

        let begin_output = match self.begin(stake_index) {
            Ok(b) => b,
            Err(e) => {
                return Err(e);
            },
        };
        let stake = begin_output.stake;
        let is_treasury_stader_sol_ready_for_transfer =
            begin_output.is_treasury_stader_sol_ready_for_transfer;

        // the account must carry a delegation that is deactivating or
        // fully deactivated
        let deactivation_epoch = match self.stake_delegation_deactivation_epoch {
            Some(d) => d,
            None => {
                return Err(StaderLiquidStakingError::RequiredDelegatedStake);
            },
        };
        if deactivation_epoch == u64::MAX {
            return Err(StaderLiquidStakingError::RequiredDeactivatingStake);
        }

        // measure against the baseline by observed balance net of
        // rent, not by the delegation's stake field: a redelegated
        // account keeps its original stake field even after its
        // balance moved on
        let rent = self.stake_rent_exempt_reserve;
        let stake_balance_without_rent = self.stake_account_lamports - rent;

        let stader_sol_fees: Option<u64> = if stake_balance_without_rent
            >= stake.last_update_delegated_lamports {
            // rewards accrued, extra lamports sent to the account
            // included; mint the protocol fee if the treasury is
            // reachable, otherwise skip it for this call
            let rewards = stake_balance_without_rent - stake.last_update_delegated_lamports;
            if is_treasury_stader_sol_ready_for_transfer {
                match self.mint_protocol_fees(rewards) {
                    Ok(v) => Some(v),
                    Err(e) => {
                        return Err(e);
                    },
                }
            } else {
                None
            }
        } else {
            // less than observed last time: a slashing event; the loss
            // is absorbed pool-wide through the exchange rate, nothing
            // is burned from anyone
            if is_treasury_stader_sol_ready_for_transfer {
                Some(0)
            } else {
                None
            }
        };

        // withdraw everything to the reserve; the stake account is
        // then marked for deletion by the system
        let stake_account_lamports = self.stake_account_lamports;
        match self.withdraw_to_reserve(stake_account_lamports) {
            Ok(()) => {},
            Err(e) => {
                proof {
                    assert(false);
                }
                return Err(e);
            },
        }
        // the freed rent-exempt part goes to the operational account
        // so the slot can be recreated later
        self.state.on_transfer_from_reserve(rent);

        if stake.last_update_delegated_lamports != 0 {
            if stake.is_emergency_unstaking == 0 {
                // the amount is in the reserve now, no longer cooling
                // down on the ordinary path
                self.state.stake_system.delayed_unstake_cooling_down =
                    self.state.stake_system.delayed_unstake_cooling_down
                    - stake.last_update_delegated_lamports;
            } else {
                // no longer cooling down on the emergency path
                self.state.emergency_cooling_down = self.state.emergency_cooling_down
                    - stake.last_update_delegated_lamports;
            }
        }

        // refresh the snapshot after the fund movement, so rewards
        // that arrived late are captured in the price
        let stader_sol_price_change = match self.update_stader_sol_price() {
            Ok(c) => c,
            Err(e) => {
                return Err(e);
            },
        };

        // drop the settled record from the ledger
        match self.state.stake_system.remove(stake_index) {
            Ok(()) => {},
            Err(e) => {
                proof {
                    assert(false);
                }
                return Err(e);
            },
        }

        Ok(
            UpdateDeactivatedEvent {
                state: self.state_key,
                epoch: self.epoch,
                stake_index,
                stake_account: stake.stake_account,
                balance_without_rent_exempt: stake_balance_without_rent,
                last_update_delegated_lamports: stake.last_update_delegated_lamports,
                stader_sol_fees,
                stader_sol_price_change,
                reward_fee_used: self.state.reward_fee,
                operational_sol_balance,
                total_virtual_staked_lamports,
                stader_sol_supply,
            },
        )
    }
}

} // verus!
