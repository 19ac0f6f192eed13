//! The instant-unstake swap: the dynamic fee, the treasury cut and
//! the liquidity checks.

use stader_liquid_staking::checks::TokenSourceAccount;
use stader_liquid_staking::error::StaderLiquidStakingError;
use stader_liquid_staking::fee::Fee;
use stader_liquid_staking::liq_pool::LiqPool;
use stader_liquid_staking::liquid_unstake::LiquidUnstake;
use stader_liquid_staking::stake_system::StakeSystem;
use stader_liquid_staking::state::State;
use stader_liquid_staking::Pubkey;

fn base_state() -> State {
    State {
        paused: false,
        active_delegated_balance: 0,
        available_reserve_balance: 100_000,
        emergency_cooling_down: 0,
        stader_sol_supply: 100_000,
        circulating_ticket_balance: 0,
        circulating_ticket_count: 0,
        stader_sol_price: 0,
        reward_fee: Fee { bp_cents: 0 },
        delayed_unstake_fee: Fee { bp_cents: 3_000 },
        min_deposit: 1,
        min_withdraw: 1,
        staking_sol_cap: u64::MAX,
        rent_exempt_for_token_acc: 0,
        operational_sol_account: Pubkey { id: 900 },
        liq_pool: LiqPool {
            // 0.3% to 3%, target 20_000
            lp_min_fee: Fee { bp_cents: 3_000 },
            lp_max_fee: Fee { bp_cents: 30_000 },
            lp_liquidity_target: 20_000,
            // 25% of the fee goes to the treasury
            treasury_cut: Fee { bp_cents: 250_000 },
        },
        stake_system: StakeSystem {
            stake_list: vec![],
            delayed_unstake_cooling_down: 0,
            last_stake_delta_epoch: 0,
        },
    }
}

fn base_unstake(state: State) -> LiquidUnstake {
    LiquidUnstake {
        state,
        state_key: Pubkey { id: 1 },
        get_stader_sol_from: TokenSourceAccount {
            owner: Pubkey { id: 10 },
            amount: 50_000,
            delegate: None,
            delegated_amount: 0,
        },
        get_stader_sol_from_authority: Pubkey { id: 10 },
        transfer_sol_to_lamports: 0,
        treasury_stader_sol_balance: Some(0),
        liq_pool_stader_sol_leg_amount: 0,
        liq_pool_sol_leg_lamports: 10_000,
    }
}

#[test]
fn full_drain_always_pays_the_maximum_fee() {
    // the payout would take everything the leg has above its floor:
    // the fee is pinned at lp_max_fee, never the linear curve
    let mut accounts = base_unstake(base_state());
    accounts.liq_pool_sol_leg_lamports = 10_000;
    let ev = accounts.process(10_000).unwrap();
    // value 10_000 >= available 10_000: max fee 3% of 10_000 tokens
    assert_eq!(ev.stader_sol_fee, accounts.state.liq_pool.lp_max_fee.apply(10_000));
    assert_eq!(ev.stader_sol_fee, 300);
    // payout is the value of the rest
    assert_eq!(ev.sol_amount, 9_700);
}

#[test]
fn partial_withdrawal_pays_the_linear_fee() {
    let mut accounts = base_unstake(base_state());
    // rate 1:1; removing 1_000 leaves 9_000 toward the target 20_000:
    // fee = 30_000 - 27_000 * 9_000 / 20_000 = 17_850 bp-cents
    let ev = accounts.process(1_000).unwrap();
    assert_eq!(ev.stader_sol_fee, 17); // floor(1_000 * 17_850 / 1_000_000)
    assert_eq!(ev.sol_amount, 983);
    // 25% of the fee is cut for the treasury, the rest stays with
    // the pool's token leg
    assert_eq!(ev.treasury_stader_sol_cut, 4); // floor(17 / 4)
}

#[test]
fn fee_falls_as_more_liquidity_is_left_behind() {
    let ev_small = base_unstake(base_state()).process(500).unwrap();
    let ev_large = base_unstake(base_state()).process(2_000).unwrap();
    // the larger withdrawal leaves less behind and pays a higher rate
    assert!(
        ev_large.stader_sol_fee * ev_small.stader_sol_amount
            >= ev_small.stader_sol_fee * ev_large.stader_sol_amount
    );
}

#[test]
fn unresolvable_treasury_leaves_the_whole_fee_with_the_pool() {
    let mut accounts = base_unstake(base_state());
    accounts.treasury_stader_sol_balance = None;
    let ev = accounts.process(1_000).unwrap();
    assert_eq!(ev.treasury_stader_sol_cut, 0);
    assert_eq!(ev.stader_sol_fee, 17);
}

#[test]
fn payout_beyond_the_leg_is_rejected() {
    let mut accounts = base_unstake(base_state());
    // 20_000 tokens are worth 20_000, far over the leg's 10_000
    assert_eq!(
        accounts.process(20_000),
        Err(StaderLiquidStakingError::InsufficientLiquidity)
    );
}

#[test]
fn the_rent_exempt_floor_stays_in_the_leg() {
    let mut state = base_state();
    state.rent_exempt_for_token_acc = 500;
    let mut accounts = base_unstake(state);
    accounts.liq_pool_sol_leg_lamports = 10_000;
    // available is 9_500; a full drain of value 9_500 pays max fee
    // 3%: payout 9_215 + floor 500 fits the leg
    let ev = accounts.process(9_500).unwrap();
    assert_eq!(ev.stader_sol_fee, 285);
    assert_eq!(ev.sol_amount, 9_215);
}

#[test]
fn payout_below_the_minimum_withdraw_is_rejected() {
    let mut state = base_state();
    state.min_withdraw = 1_000;
    let mut accounts = base_unstake(state);
    assert_eq!(
        accounts.process(500),
        Err(StaderLiquidStakingError::WithdrawAmountIsTooLow)
    );
}

#[test]
fn liquid_unstake_rejected_while_paused() {
    let mut state = base_state();
    state.paused = true;
    let mut accounts = base_unstake(state);
    assert_eq!(
        accounts.process(1_000),
        Err(StaderLiquidStakingError::ProgramIsPaused)
    );
}

#[test]
fn liquid_unstake_checks_the_spending_authority() {
    let mut accounts = base_unstake(base_state());
    accounts.get_stader_sol_from_authority = Pubkey { id: 99 };
    assert_eq!(
        accounts.process(1_000),
        Err(StaderLiquidStakingError::AuthorityMismatch)
    );
}
