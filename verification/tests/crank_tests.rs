//! The deactivation crank: rewards, slashing, the protocol fee, the
//! ledger removal, and pause/resume.

use stader_liquid_staking::emergency_pause::EmergencyPause;
use stader_liquid_staking::error::StaderLiquidStakingError;
use stader_liquid_staking::fee::Fee;
use stader_liquid_staking::liq_pool::LiqPool;
use stader_liquid_staking::stake_system::{StakeRecord, StakeSystem};
use stader_liquid_staking::state::State;
use stader_liquid_staking::update_deactivated::UpdateDeactivated;
use stader_liquid_staking::Pubkey;

fn base_state() -> State {
    State {
        paused: false,
        active_delegated_balance: 0,
        available_reserve_balance: 500,
        emergency_cooling_down: 0,
        stader_sol_supply: 1_000,
        circulating_ticket_balance: 0,
        circulating_ticket_count: 0,
        stader_sol_price: 0,
        // 10% of staking rewards
        reward_fee: Fee { bp_cents: 100_000 },
        delayed_unstake_fee: Fee { bp_cents: 3_000 },
        min_deposit: 1,
        min_withdraw: 1,
        staking_sol_cap: u64::MAX,
        rent_exempt_for_token_acc: 0,
        operational_sol_account: Pubkey { id: 900 },
        liq_pool: LiqPool {
            lp_min_fee: Fee { bp_cents: 3_000 },
            lp_max_fee: Fee { bp_cents: 30_000 },
            lp_liquidity_target: 10_000,
            treasury_cut: Fee { bp_cents: 250_000 },
        },
        stake_system: StakeSystem {
            stake_list: vec![StakeRecord {
                stake_account: Pubkey { id: 50 },
                last_update_delegated_lamports: 500,
                is_emergency_unstaking: 0,
            }],
            delayed_unstake_cooling_down: 500,
            last_stake_delta_epoch: 0,
        },
    }
}

fn base_crank(state: State) -> UpdateDeactivated {
    UpdateDeactivated {
        state,
        state_key: Pubkey { id: 1 },
        stake_account_key: Pubkey { id: 50 },
        // 520 above the rent-exempt reserve of 20
        stake_account_lamports: 540,
        stake_rent_exempt_reserve: 20,
        stake_delegation_deactivation_epoch: Some(12),
        reserve_pda_lamports: 500,
        stader_sol_mint_supply: 1_000,
        treasury_stader_sol_balance: Some(0),
        operational_sol_lamports: 0,
        epoch: 13,
    }
}

#[test]
fn crank_mints_the_reward_fee_and_settles_the_record() {
    // baseline 500, balance net of rent 520: reward 20; the 10% fee
    // of 2 lamports converts to 2 tokens at the 1:1 rate
    let mut accounts = base_crank(base_state());
    let ev = accounts.process(0).unwrap();
    assert_eq!(ev.balance_without_rent_exempt, 520);
    assert_eq!(ev.last_update_delegated_lamports, 500);
    assert_eq!(ev.stader_sol_fees, Some(2));
    assert_eq!(accounts.state.stader_sol_supply, 1_002);
    // the whole balance went to the reserve, the rent moved on
    assert_eq!(accounts.state.available_reserve_balance, 500 + 540 - 20);
    // no longer cooling down
    assert_eq!(accounts.state.stake_system.delayed_unstake_cooling_down, 0);
    // the record left the ledger
    assert_eq!(accounts.state.stake_system.stake_count(), 0);
    // the snapshot was refreshed after the movement
    let expected_price =
        ((0x1_0000_0000u128 * 1_020u128) / 1_002u128) as u64;
    assert_eq!(accounts.state.stader_sol_price, expected_price);
    assert_eq!(ev.stader_sol_price_change.new_value, expected_price);
    assert_eq!(ev.stader_sol_price_change.old_value, 0);
}

#[test]
fn crank_skips_the_fee_without_a_treasury() {
    let mut accounts = base_crank(base_state());
    accounts.treasury_stader_sol_balance = None;
    let ev = accounts.process(0).unwrap();
    assert_eq!(ev.stader_sol_fees, None);
    assert_eq!(accounts.state.stader_sol_supply, 1_000);
}

#[test]
fn crank_takes_a_slash_without_minting_or_burning() {
    let mut accounts = base_crank(base_state());
    // balance net of rent 480, below the baseline of 500
    accounts.stake_account_lamports = 500;
    let ev = accounts.process(0).unwrap();
    assert_eq!(ev.stader_sol_fees, Some(0));
    assert_eq!(accounts.state.stader_sol_supply, 1_000);
    // the loss shows up only in the backing
    assert_eq!(accounts.state.available_reserve_balance, 500 + 500 - 20);
}

#[test]
fn crank_settles_an_emergency_record() {
    let mut state = base_state();
    state.stake_system.stake_list[0].is_emergency_unstaking = 1;
    state.stake_system.delayed_unstake_cooling_down = 0;
    state.emergency_cooling_down = 500;
    let mut accounts = base_crank(state);
    accounts.process(0).unwrap();
    assert_eq!(accounts.state.emergency_cooling_down, 0);
}

#[test]
fn crank_reconciles_the_mirrored_counters_first() {
    let mut accounts = base_crank(base_state());
    // the vault holds more than the counter and someone minted
    // outside the protocol: counters re-read, cap frozen, not fatal
    accounts.reserve_pda_lamports = 600;
    accounts.stader_sol_mint_supply = 1_100;
    accounts.process(0).unwrap();
    assert_eq!(accounts.state.staking_sol_cap, 0);
    assert_eq!(accounts.state.available_reserve_balance, 600 + 540 - 20);
    assert_eq!(accounts.state.stader_sol_supply, 1_100 + 2);
}

#[test]
fn crank_rejects_a_stale_index() {
    let mut accounts = base_crank(base_state());
    accounts.stake_account_key = Pubkey { id: 51 };
    assert_eq!(
        accounts.process(0),
        Err(StaderLiquidStakingError::StakeIndexMismatch)
    );
    assert_eq!(
        base_crank(base_state()).process(3),
        Err(StaderLiquidStakingError::StakeIndexMismatch)
    );
}

#[test]
fn crank_requires_a_delegation() {
    let mut accounts = base_crank(base_state());
    accounts.stake_delegation_deactivation_epoch = None;
    assert_eq!(
        accounts.process(0),
        Err(StaderLiquidStakingError::RequiredDelegatedStake)
    );
}

#[test]
fn crank_requires_a_deactivating_delegation() {
    let mut accounts = base_crank(base_state());
    accounts.stake_delegation_deactivation_epoch = Some(u64::MAX);
    assert_eq!(
        accounts.process(0),
        Err(StaderLiquidStakingError::RequiredDeactivatingStake)
    );
}

#[test]
fn crank_rejected_while_paused() {
    let mut state = base_state();
    state.paused = true;
    let mut accounts = base_crank(state);
    assert_eq!(
        accounts.process(0),
        Err(StaderLiquidStakingError::ProgramIsPaused)
    );
}

#[test]
fn removal_swaps_the_last_record_into_the_slot() {
    let mut state = base_state();
    state.stake_system.stake_list.push(StakeRecord {
        stake_account: Pubkey { id: 60 },
        last_update_delegated_lamports: 0,
        is_emergency_unstaking: 0,
    });
    let mut accounts = base_crank(state);
    accounts.process(0).unwrap();
    assert_eq!(accounts.state.stake_system.stake_count(), 1);
    assert_eq!(
        accounts.state.stake_system.stake_list[0].stake_account,
        Pubkey { id: 60 }
    );
}

#[test]
fn pause_and_resume_flip_the_flag_once() {
    let mut accounts = EmergencyPause {
        state: base_state(),
        state_key: Pubkey { id: 1 },
    };
    let ev = accounts.pause().unwrap();
    assert_eq!(ev.state, Pubkey { id: 1 });
    assert!(accounts.state.paused);
    assert_eq!(
        accounts.pause(),
        Err(StaderLiquidStakingError::AlreadyPaused)
    );
    accounts.resume().unwrap();
    assert!(!accounts.state.paused);
    assert_eq!(accounts.resume(), Err(StaderLiquidStakingError::NotPaused));
}
