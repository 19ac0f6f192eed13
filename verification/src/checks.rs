//! Spending-authority checks on derivative-token source accounts.

use vstd::prelude::*;

use crate::error::StaderLiquidStakingError;
use crate::Pubkey;

verus! {

/// What the core reads of a derivative-token account it is asked to
/// spend from: owner, balance, and the optional delegation.
#[derive(Clone, Copy, Debug, PartialEq, Eq, Structural)]
pub struct TokenSourceAccount {
    pub owner: Pubkey,
    pub amount: u64,
    pub delegate: Option<Pubkey>,
    pub delegated_amount: u64,
}

/// Outcome of the authority check, as a value: `None` when the
/// authority may spend `amount` from the account, otherwise the
/// error.  The owner spends against the balance alone; a delegate
/// needs both a sufficient delegated amount and the balance to cover
/// the spend.  An owner who is also the registered delegate is judged
/// as the owner, over the full balance.
pub open spec fn token_source_check_spec(
    account: TokenSourceAccount,
    authority: Pubkey,
    amount: u64,
) -> Option<StaderLiquidStakingError> {
    if account.owner == authority {
        if account.amount < amount {
            Some(StaderLiquidStakingError::InsufficientTokenBalance)
        } else {
            None
        }
    } else if account.delegate == Some(authority) {
        if account.delegated_amount < amount || account.amount < amount {
            Some(StaderLiquidStakingError::InsufficientTokenBalance)
        } else {
            None
        }
    } else {
        Some(StaderLiquidStakingError::AuthorityMismatch)
    }
}

/// Verify that `authority` may spend `amount` from `account`: either
/// it is the owner and the balance suffices, or it is the registered
/// delegate and both the delegated amount and the balance suffice.
/// In every case the account must actually hold what is spent.
pub fn check_token_source_account(
    account: &TokenSourceAccount,
    authority: &Pubkey,
    amount: u64,
) -> (r: Result<(), StaderLiquidStakingError>)
    ensures
        match r {
            Ok(()) => token_source_check_spec(*account, *authority, amount) is None,
            Err(e) => token_source_check_spec(*account, *authority, amount) == Some(e),
        },
        r is Ok ==> account.amount >= amount,
{
    if account.owner == *authority {
        if account.amount < amount {
            Err(StaderLiquidStakingError::InsufficientTokenBalance)
        } else {
            Ok(())
        }
    } else {
        let is_delegate = match &account.delegate {
            Some(d) => *d == *authority,
            None => false,
        };
        if is_delegate {
            if account.delegated_amount < amount || account.amount < amount {
                Err(StaderLiquidStakingError::InsufficientTokenBalance)
            } else {
                Ok(())
            }
        } else {
            Err(StaderLiquidStakingError::AuthorityMismatch)
        }
    }
}

} // verus!
