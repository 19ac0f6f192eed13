//! The deposit-side swap: pool-leg fills first, minting covers the
//! rest, and every rejection has its input.

use stader_liquid_staking::deposit::Deposit;
use stader_liquid_staking::error::StaderLiquidStakingError;
use stader_liquid_staking::fee::Fee;
use stader_liquid_staking::liq_pool::LiqPool;
use stader_liquid_staking::stake_system::StakeSystem;
use stader_liquid_staking::state::State;
use stader_liquid_staking::Pubkey;

fn base_state() -> State {
    State {
        paused: false,
        active_delegated_balance: 0,
        available_reserve_balance: 0,
        emergency_cooling_down: 0,
        stader_sol_supply: 0,
        circulating_ticket_balance: 0,
        circulating_ticket_count: 0,
        stader_sol_price: 0,
        reward_fee: Fee { bp_cents: 0 },
        delayed_unstake_fee: Fee { bp_cents: 0 },
        min_deposit: 1,
        min_withdraw: 1,
        staking_sol_cap: u64::MAX,
        rent_exempt_for_token_acc: 0,
        operational_sol_account: Pubkey { id: 900 },
        liq_pool: LiqPool {
            lp_min_fee: Fee { bp_cents: 3_000 },
            lp_max_fee: Fee { bp_cents: 30_000 },
            lp_liquidity_target: 10_000,
            treasury_cut: Fee { bp_cents: 250_000 },
        },
        stake_system: StakeSystem {
            stake_list: vec![],
            delayed_unstake_cooling_down: 0,
            last_stake_delta_epoch: 0,
        },
    }
}

fn base_deposit(state: State) -> Deposit {
    Deposit {
        stader_sol_mint_supply: state.stader_sol_supply,
        state,
        state_key: Pubkey { id: 1 },
        transfer_from_key: Pubkey { id: 2 },
        transfer_from_lamports: 1_000_000,
        mint_to_amount: 0,
        reserve_pda_lamports: 0,
        liq_pool_sol_leg_lamports: 0,
        liq_pool_stader_sol_leg_amount: 0,
    }
}

#[test]
fn deposit_with_empty_leg_mints_exactly() {
    // rate 1:1 with supply 1000 against 1000 under control
    let mut state = base_state();
    state.stader_sol_supply = 1000;
    state.available_reserve_balance = 1000;
    let mut accounts = base_deposit(state);
    let ev = accounts.process(100).unwrap();
    assert_eq!(ev.stader_sol_minted, 100);
    assert_eq!(ev.stader_sol_swapped, 0);
    assert_eq!(ev.sol_swapped, 0);
    assert_eq!(ev.sol_deposited, 100);
    assert_eq!(accounts.state.available_reserve_balance, 1100);
    assert_eq!(accounts.state.stader_sol_supply, 1100);
}

#[test]
fn deposit_fills_fully_from_the_pool_leg() {
    let mut state = base_state();
    state.stader_sol_supply = 1000;
    state.available_reserve_balance = 1000;
    let mut accounts = base_deposit(state);
    accounts.liq_pool_stader_sol_leg_amount = 500;
    let ev = accounts.process(100).unwrap();
    // the order of 100 tokens is sold entirely out of the leg, the
    // whole deposit goes to the pool, nothing is minted
    assert_eq!(ev.stader_sol_swapped, 100);
    assert_eq!(ev.sol_swapped, 100);
    assert_eq!(ev.sol_deposited, 0);
    assert_eq!(ev.stader_sol_minted, 0);
    assert_eq!(accounts.state.stader_sol_supply, 1000);
    assert_eq!(accounts.state.available_reserve_balance, 1000);
}

#[test]
fn deposit_partial_fill_splits_between_leg_and_reserve() {
    let mut state = base_state();
    state.stader_sol_supply = 1000;
    state.available_reserve_balance = 1000;
    let mut accounts = base_deposit(state);
    accounts.liq_pool_stader_sol_leg_amount = 40;
    let ev = accounts.process(100).unwrap();
    // 40 tokens from the leg at 1:1 cost 40; the other 60 are minted
    assert_eq!(ev.stader_sol_swapped, 40);
    assert_eq!(ev.sol_swapped, 40);
    assert_eq!(ev.sol_deposited, 60);
    assert_eq!(ev.stader_sol_minted, 60);
    assert_eq!(accounts.state.available_reserve_balance, 1060);
    assert_eq!(accounts.state.stader_sol_supply, 1060);
}

#[test]
fn deposit_grows_backing_by_exactly_the_reserve_part() {
    let mut state = base_state();
    state.stader_sol_supply = 1000;
    state.available_reserve_balance = 1000;
    let before = 1000u64;
    let mut accounts = base_deposit(state);
    accounts.liq_pool_stader_sol_leg_amount = 40;
    let ev = accounts.process(100).unwrap();
    let after = accounts.state.total_virtual_staked_lamports();
    assert_eq!(after, before + ev.sol_deposited);
}

#[test]
fn supply_grows_by_the_sum_of_minted_amounts() {
    let mut state = base_state();
    state.stader_sol_supply = 1000;
    state.available_reserve_balance = 1000;
    let mut accounts = base_deposit(state);
    let supply_before = accounts.state.stader_sol_supply;
    let mut total_minted = 0u64;
    for lamports in [100u64, 250, 7] {
        let ev = accounts.process(lamports).unwrap();
        total_minted += ev.stader_sol_minted;
    }
    assert_eq!(accounts.state.stader_sol_supply, supply_before + total_minted);
}

#[test]
fn deposit_rejected_while_paused() {
    let mut state = base_state();
    state.paused = true;
    let mut accounts = base_deposit(state);
    assert_eq!(
        accounts.process(100),
        Err(StaderLiquidStakingError::ProgramIsPaused)
    );
}

#[test]
fn deposit_below_minimum_is_rejected() {
    let mut state = base_state();
    state.min_deposit = 1000;
    let mut accounts = base_deposit(state);
    assert_eq!(
        accounts.process(999),
        Err(StaderLiquidStakingError::DepositAmountIsTooLow)
    );
}

#[test]
fn deposit_over_user_balance_is_rejected() {
    let mut accounts = base_deposit(base_state());
    accounts.transfer_from_lamports = 50;
    assert_eq!(
        accounts.process(100),
        Err(StaderLiquidStakingError::NotEnoughUserFunds)
    );
}

#[test]
fn deposit_detects_out_of_band_mint() {
    let mut accounts = base_deposit(base_state());
    accounts.stader_sol_mint_supply = accounts.state.stader_sol_supply + 1;
    assert_eq!(
        accounts.process(100),
        Err(StaderLiquidStakingError::UnregisteredStaderSolMinted)
    );
}

#[test]
fn deposit_past_the_staking_cap_is_rejected() {
    let mut state = base_state();
    state.available_reserve_balance = 900;
    state.staking_sol_cap = 999;
    let mut accounts = base_deposit(state);
    assert_eq!(
        accounts.process(100),
        Err(StaderLiquidStakingError::StakingIsCapped)
    );
    // untouched on rejection
    assert_eq!(accounts.state.available_reserve_balance, 900);
}
