//! Emergency pause and resume of the pool.

use vstd::prelude::*;

use crate::error::StaderLiquidStakingError;
use crate::events::{EmergencyPauseEvent, ResumeEvent};
use crate::state::State;
use crate::Pubkey;

verus! {

/// Accounts view of the pause and resume instructions: the pool state
/// and its identity.  The pause authority itself is validated by the
/// external authorization layer before the core runs.
#[derive(Clone, Debug)]
pub struct EmergencyPause {
    pub state: State,
    pub state_key: Pubkey,
}

impl EmergencyPause {
    /// Halt the pool.  Fails when it is already halted.
    pub fn pause(&mut self) -> (r: Result<EmergencyPauseEvent, StaderLiquidStakingError>)
        ensures
            match r {
                Ok(ev) => {
                    &&& !old(self).state.paused
                    &&& *final(self) == (EmergencyPause {
                        state: (State { paused: true, ..old(self).state }),
                        ..*old(self)
                    })
                    &&& ev == (EmergencyPauseEvent { state: old(self).state_key })
                },
                Err(e) => {
                    &&& e == StaderLiquidStakingError::AlreadyPaused
                    &&& old(self).state.paused
                    &&& *final(self) == *old(self)
                },
            },
    {
        if self.state.paused {
            Err(StaderLiquidStakingError::AlreadyPaused)
        } else {
            self.state.paused = true;
            Ok(EmergencyPauseEvent { state: self.state_key })
        }
    }

    /// Resume the pool.  Fails when it is not halted.
    pub fn resume(&mut self) -> (r: Result<ResumeEvent, StaderLiquidStakingError>)
        ensures
            match r {
                Ok(ev) => {
                    &&& old(self).state.paused
                    &&& *final(self) == (EmergencyPause {
                        state: (State { paused: false, ..old(self).state }),
                        ..*old(self)
                    })
                    &&& ev == (ResumeEvent { state: old(self).state_key })
                },
                Err(e) => {
                    &&& e == StaderLiquidStakingError::NotPaused
                    &&& !old(self).state.paused
                    &&& *final(self) == *old(self)
                },
            },
    {
        if !self.state.paused {
            Err(StaderLiquidStakingError::NotPaused)
        } else {
            self.state.paused = false;
            Ok(ResumeEvent { state: self.state_key })
        }
    }
}

} // verus!
