//! Observability records.  Each successful operation returns one of
//! these; the surrounding platform emits them fire-and-forget.  They
//! never influence control flow.

use vstd::prelude::*;

use crate::fee::Fee;
use crate::Pubkey;

verus! {

/// A before/after pair of a counter.
#[derive(Clone, Copy, Debug, PartialEq, Eq, Structural)]
pub struct U64ValueChange {
    pub old_value: u64,
    pub new_value: u64,
}

/// Emitted by a successful deposit.
#[derive(Clone, Copy, Debug, PartialEq, Eq)]
pub struct DepositEvent {
    pub state: Pubkey,
    pub sol_owner: Pubkey,
    pub user_sol_balance: u64,
    pub user_stader_sol_balance: u64,
    pub sol_leg_balance: u64,
    pub stader_sol_leg_balance: u64,
    pub reserve_balance: u64,
    pub sol_swapped: u64,
    pub stader_sol_swapped: u64,
    pub sol_deposited: u64,
    pub stader_sol_minted: u64,
    pub total_virtual_staked_lamports: u64,
    pub stader_sol_supply: u64,
}

/// Emitted by a successful instant unstake.
#[derive(Clone, Copy, Debug, PartialEq, Eq)]
pub struct LiquidUnstakeEvent {
    pub state: Pubkey,
    pub stader_sol_owner: Pubkey,
    pub liq_pool_sol_balance: u64,
    pub liq_pool_stader_sol_balance: u64,
    pub treasury_stader_sol_balance: Option<u64>,
    pub user_stader_sol_balance: u64,
    pub user_sol_balance: u64,
    pub stader_sol_amount: u64,
    pub stader_sol_fee: u64,
    pub treasury_stader_sol_cut: u64,
    pub sol_amount: u64,
    pub lp_liquidity_target: u64,
    pub lp_max_fee: Fee,
    pub lp_min_fee: Fee,
    pub treasury_cut: Fee,
}

/// Emitted when liquidity is added to the pool.
#[derive(Clone, Copy, Debug, PartialEq, Eq)]
pub struct AddLiquidityEvent {
    pub state: Pubkey,
    pub sol_owner: Pubkey,
    pub user_sol_balance: u64,
    pub user_lp_balance: u64,
    pub sol_leg_balance: u64,
    pub lp_supply: u64,
    pub sol_added_amount: u64,
    pub lp_minted: u64,
    pub total_virtual_staked_lamports: u64,
    pub stader_sol_supply: u64,
}

/// Emitted when liquidity is removed from the pool.
#[derive(Clone, Copy, Debug, PartialEq, Eq)]
pub struct RemoveLiquidityEvent {
    pub state: Pubkey,
    pub sol_leg_balance: u64,
    pub stader_sol_leg_balance: u64,
    pub user_lp_balance: u64,
    pub user_sol_balance: u64,
    pub user_stader_sol_balance: u64,
    pub lp_mint_supply: u64,
    pub lp_burned: u64,
    pub sol_out_amount: u64,
    pub stader_sol_out_amount: u64,
}

/// Emitted by a successful delayed-unstake order.
#[derive(Clone, Copy, Debug, PartialEq, Eq)]
pub struct OrderUnstakeEvent {
    pub state: Pubkey,
    pub ticket_epoch: u64,
    pub ticket: Pubkey,
    pub beneficiary: Pubkey,
    pub circulating_ticket_balance: u64,
    pub circulating_ticket_count: u64,
    pub user_stader_sol_balance: u64,
    pub burned_stader_sol_amount: u64,
    pub sol_amount: u64,
    pub fee_bp_cents: u32,
    pub total_virtual_staked_lamports: u64,
    pub stader_sol_supply: u64,
}

/// Emitted when a ticket is claimed.
#[derive(Clone, Copy, Debug, PartialEq, Eq)]
pub struct ClaimEvent {
    pub state: Pubkey,
    pub epoch: u64,
    pub ticket: Pubkey,
    pub beneficiary: Pubkey,
    pub circulating_ticket_balance: u64,
    pub circulating_ticket_count: u64,
    pub reserve_balance: u64,
    pub user_balance: u64,
    pub amount: u64,
}

/// Emitted by a successful crank over one deactivated record.
#[derive(Clone, Copy, Debug, PartialEq, Eq)]
pub struct UpdateDeactivatedEvent {
    pub state: Pubkey,
    pub epoch: u64,
    pub stake_index: u32,
    pub stake_account: Pubkey,
    pub balance_without_rent_exempt: u64,
    pub last_update_delegated_lamports: u64,
    /// Protocol fee minted, in derivative tokens; absent when the
    /// treasury account was not resolvable for this call.
    pub stader_sol_fees: Option<u64>,
    pub stader_sol_price_change: U64ValueChange,
    pub reward_fee_used: Fee,
    pub operational_sol_balance: u64,
    pub total_virtual_staked_lamports: u64,
    pub stader_sol_supply: u64,
}

/// Emitted when the pool is paused.
#[derive(Clone, Copy, Debug, PartialEq, Eq)]
pub struct EmergencyPauseEvent {
    pub state: Pubkey,
}

/// Emitted when the pool is resumed.
#[derive(Clone, Copy, Debug, PartialEq, Eq)]
pub struct ResumeEvent {
    pub state: Pubkey,
}

} // verus!
