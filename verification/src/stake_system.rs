//! The stake ledger: index-addressed delegation records with
//! identity-checked lookup and swap-removal.

use vstd::prelude::*;

use crate::error::StaderLiquidStakingError;
use crate::Pubkey;

verus! {

/// One tracked unit of delegated stake.
#[derive(Clone, Copy, Debug, PartialEq, Eq, Structural)]
pub struct StakeRecord {
    /// Identity of the underlying stake account.
    pub stake_account: Pubkey,
    /// Last observed staked principal; the baseline against which the
    /// crank measures rewards and slashing.
    pub last_update_delegated_lamports: u64,
    /// Non-zero when the record cools down through the emergency path.
    pub is_emergency_unstaking: u8,
}

/// The stake ledger plus the aggregate counters that belong to it.
#[derive(Clone, Debug)]
pub struct StakeSystem {
    /// Delegation records, addressed by index.
    pub stake_list: Vec<StakeRecord>,
    /// Total principal cooling down through the ordinary
    /// delayed-unstake path.
    pub delayed_unstake_cooling_down: u64,
    /// Epoch of the last stake delta; used to gate same-epoch tickets.
    pub last_stake_delta_epoch: u64,
}

impl StakeSystem {
    /// Number of records currently in the ledger.
    pub fn stake_count(&self) -> (r: usize)
        ensures
            r == self.stake_list@.len(),
    {
        self.stake_list.len()
    }

    /// Lookup by index with identity re-check: fails unless the slot
    /// exists and still holds the expected record, defending against
    /// stale indices after concurrent removals.
    pub fn get_checked(&self, stake_index: u32, expected_stake_account: &Pubkey) -> (r: Result<
        StakeRecord,
        StaderLiquidStakingError,
    >)
        ensures
            match r {
                Ok(rec) => {
                    &&& (stake_index as int) < self.stake_list@.len()
                    &&& rec == self.stake_list@[stake_index as int]
                    &&& rec.stake_account == *expected_stake_account
                },
                Err(e) => {
                    &&& e == StaderLiquidStakingError::StakeIndexMismatch
                    &&& ((stake_index as int) >= self.stake_list@.len()
                        || self.stake_list@[stake_index as int].stake_account
                        != *expected_stake_account)
                },
            },
    {
        if (stake_index as usize) < self.stake_list.len() {
            let rec = self.stake_list[stake_index as usize];
            if rec.stake_account == *expected_stake_account {
                Ok(rec)
            } else {
                Err(StaderLiquidStakingError::StakeIndexMismatch)
            }
        } else {
            Err(StaderLiquidStakingError::StakeIndexMismatch)
        }
    }

    /// Removal by index.  Order-preservation is not promised: the last
    /// record moves into the vacated slot and the list shrinks by one.
    pub fn remove(&mut self, stake_index: u32) -> (r: Result<(), StaderLiquidStakingError>)
        ensures
            match r {
                Ok(()) => {
                    &&& (stake_index as int) < old(self).stake_list@.len()
                    &&& final(self).stake_list@ == old(self).stake_list@.update(
                        stake_index as int,
                        old(self).stake_list@.last(),
                    ).drop_last()
                    &&& final(self).stake_list@.len() == old(self).stake_list@.len() - 1
                    &&& final(self).delayed_unstake_cooling_down == old(
                        self,
                    ).delayed_unstake_cooling_down
                    &&& final(self).last_stake_delta_epoch == old(self).last_stake_delta_epoch
                },
                Err(e) => {
                    &&& e == StaderLiquidStakingError::StakeIndexMismatch
                    &&& (stake_index as int) >= old(self).stake_list@.len()
                    &&& *final(self) == *old(self)
                },
            },
    {
        if (stake_index as usize) < self.stake_list.len() {
            self.stake_list.swap_remove(stake_index as usize);
            Ok(())
        } else {
            Err(StaderLiquidStakingError::StakeIndexMismatch)
        }
    }
}

} // verus!
