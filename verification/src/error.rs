//! Error taxonomy of the accounting core.

use vstd::prelude::*;

verus! {

/// Why an operation was rejected.
///
/// Every rejection aborts the whole operation; the surrounding ledger
/// platform guarantees that no partial state survives an abort.
#[derive(Clone, Copy, Debug, PartialEq, Eq, Structural)]
pub enum StaderLiquidStakingError {
    /// The pool is paused; the operation may be retried after resume.
    ProgramIsPaused,
    /// A deposit below the configured minimum.
    DepositAmountIsTooLow,
    /// The depositor holds less base currency than the requested amount.
    NotEnoughUserFunds,
    /// The externally reported mint supply exceeds the tracked supply.
    UnregisteredStaderSolMinted,
    /// Accepting the deposit would push the pool past its staking cap.
    StakingIsCapped,
    /// The net payout would be below the configured minimum withdrawal.
    WithdrawAmountIsTooLow,
    /// The pool's base-currency leg cannot cover the requested payout.
    InsufficientLiquidity,
    /// The spending authority covers less than the requested amount.
    InsufficientTokenBalance,
    /// The caller is neither the owner nor the delegate of the account.
    AuthorityMismatch,
    /// The ledger slot at the given index holds a different record.
    StakeIndexMismatch,
    /// The stake account carries no delegation at all.
    RequiredDelegatedStake,
    /// The delegation is still active, not deactivating or deactivated.
    RequiredDeactivatingStake,
    /// A conversion result does not fit in the working integer width.
    ArithmeticOverflow,
    /// Pause requested while the pool is already paused.
    AlreadyPaused,
    /// Resume requested while the pool is not paused.
    NotPaused,
}

} // verus!
