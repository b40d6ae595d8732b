//! Admin operations and read-only inquiries on a concrete configuration.

use vesting_project::admin::{
    deposit_prize, initialize, renounce_ownership, reset_seconds_per_day, reset_sol_treasure,
    set_ico_dates, set_mint_address, set_paused, set_tge_date, transfer_ownership, withdraw_sol,
    withdraw_prize_tokens, withdraw_usdc_tokens, withdraw_usdt_tokens,
};
use vesting_project::errors::CustomError;
use vesting_project::getters::{
    get_ico_dates, get_investor_address, get_linear_vesting_end_time, get_min_max_buy_amount,
    get_seconds_per_day, get_token_rate, get_vesting_balance,
};
use vesting_project::purchase::buy_tokens_with_sol;
use vesting_project::state::{Investor, TokenIco, VESTING_TYPE_IMMEDIATE};

const ADMIN: u64 = 900;
const TGE: u64 = 10_000;
const DAY: u64 = 86_400;

fn config() -> TokenIco {
    initialize(
        ADMIN, 11, 21, 22, 23, 24, 31, 32, 6, 6, 9, 1_000, 9_000, TGE, 100, 50_000_000_000,
        20_000, 1_000, 1_000, DAY,
    )
}

#[test]
fn initialize_sets_every_field() {
    let c = config();
    assert_eq!(c.authority, ADMIN);
    assert_eq!(c.reward_token_mint, 11);
    assert_eq!(
        (c.sol_treasury, c.usdc_treasury, c.usdt_treasury, c.prize_treasury),
        (21, 22, 23, 24)
    );
    assert_eq!((c.usdc_mint, c.usdt_mint), (31, 32));
    assert_eq!((c.usdc_decimals, c.usdt_decimals, c.reward_token_decimals), (6, 6, 9));
    assert_eq!(get_ico_dates(&c), (1_000, 9_000, TGE));
    assert_eq!(get_min_max_buy_amount(&c), (100, 50_000_000_000));
    assert_eq!(get_token_rate(&c), (20_000, 1_000, 1_000));
    assert_eq!(get_seconds_per_day(&c), DAY);
    assert!(!c.paused);
    assert_eq!(c.total_allocated, 0);
    assert_eq!(c.total_claimed, 0);
    assert_eq!(c.total_prize_deposited, 0);
    assert_eq!(c.total_user_allocated, 0);
}

#[test]
fn date_changes_are_authority_gated() {
    let mut c = config();
    assert_eq!(set_ico_dates(&mut c, 5, 1, 2), Err(CustomError::UnauthorizedAccess));
    assert_eq!(set_ico_dates(&mut c, ADMIN, 2_000, 8_000), Ok(()));
    assert_eq!(get_ico_dates(&c), (2_000, 8_000, TGE));
    assert_eq!(set_tge_date(&mut c, 5, 1), Err(CustomError::UnauthorizedAccess));
    assert_eq!(set_tge_date(&mut c, ADMIN, 12_000), Ok(()));
    assert_eq!(c.tge_time, 12_000);
}

#[test]
fn pause_and_day_length_are_authority_gated() {
    let mut c = config();
    assert_eq!(set_paused(&mut c, 5, true), Err(CustomError::UnauthorizedAccess));
    assert_eq!(set_paused(&mut c, ADMIN, true), Ok(()));
    assert!(c.paused);
    assert_eq!(reset_seconds_per_day(&mut c, 5, 60), Err(CustomError::UnauthorizedAccess));
    assert_eq!(reset_seconds_per_day(&mut c, ADMIN, 60), Ok(()));
    assert_eq!(c.seconds_per_day, 60);
}

#[test]
fn treasury_and_mint_updates() {
    let mut c = config();
    assert_eq!(reset_sol_treasure(&mut c, 5, 77), Err(CustomError::UnauthorizedAccess));
    assert_eq!(reset_sol_treasure(&mut c, ADMIN, 77), Ok(()));
    assert_eq!(c.sol_treasury, 77);

    assert_eq!(set_mint_address(&mut c, ADMIN, 3, 55, 4), Err(CustomError::InvalidTokenType));
    assert_eq!(set_mint_address(&mut c, ADMIN, 0, 55, 4), Ok(()));
    assert_eq!((c.reward_token_mint, c.reward_token_decimals), (55, 4));
    assert_eq!(set_mint_address(&mut c, ADMIN, 1, 56, 5), Ok(()));
    assert_eq!((c.usdc_mint, c.usdc_decimals), (56, 5));
    assert_eq!(set_mint_address(&mut c, ADMIN, 2, 57, 7), Ok(()));
    assert_eq!((c.usdt_mint, c.usdt_decimals), (57, 7));
}

#[test]
fn ownership_transfer_and_renounce() {
    let mut c = config();
    assert_eq!(transfer_ownership(&mut c, ADMIN, 0), Err(CustomError::InvalidAddress));
    assert_eq!(transfer_ownership(&mut c, 5, 6), Err(CustomError::UnauthorizedAccess));
    assert_eq!(transfer_ownership(&mut c, ADMIN, 901), Ok(()));
    assert_eq!(c.authority, 901);
    // The old authority has lost its power.
    assert_eq!(set_paused(&mut c, ADMIN, true), Err(CustomError::UnauthorizedAccess));
    assert_eq!(renounce_ownership(&mut c, 901), Ok(()));
    assert_eq!(c.authority, 0);
    // After renouncing nobody is the authority.
    assert_eq!(set_paused(&mut c, 901, true), Err(CustomError::UnauthorizedAccess));
}

#[test]
fn prize_deposit_accumulates_checked() {
    let mut c = config();
    assert_eq!(deposit_prize(&mut c, 5, 10), Err(CustomError::UnauthorizedAccess));
    assert_eq!(deposit_prize(&mut c, ADMIN, 10), Ok(()));
    assert_eq!(deposit_prize(&mut c, ADMIN, 32), Ok(()));
    assert_eq!(c.total_prize_deposited, 42);
    assert_eq!(deposit_prize(&mut c, ADMIN, u64::MAX), Err(CustomError::ArithmeticOverflow));
    assert_eq!(c.total_prize_deposited, 42);
}

#[test]
fn withdrawal_checks_cover_the_amount() {
    let c = config();
    assert_eq!(withdraw_sol(100, 100), Ok(()));
    assert_eq!(withdraw_sol(99, 100), Err(CustomError::InsufficientFunds));
    assert_eq!(withdraw_usdc_tokens(5, 5), Ok(()));
    assert_eq!(withdraw_usdt_tokens(4, 5), Err(CustomError::InsufficientFunds));
    assert_eq!(
        withdraw_prize_tokens(&c, 5, 100, 10),
        Err(CustomError::UnauthorizedAccess)
    );
    assert_eq!(withdraw_prize_tokens(&c, ADMIN, 100, 10), Ok(()));
    assert_eq!(
        withdraw_prize_tokens(&c, ADMIN, 9, 10),
        Err(CustomError::InsufficientFunds)
    );
}

#[test]
fn vesting_balance_reports_the_engine_view() {
    let mut c = config();
    let mut inv = Investor::zeroed();
    assert_eq!(
        get_vesting_balance(&c, &inv, TGE),
        Err(CustomError::InvestorNotFound)
    );
    buy_tokens_with_sol(&mut c, &mut inv, 42, 50_000_000_000, VESTING_TYPE_IMMEDIATE, 5_000)
        .unwrap();
    let b = get_vesting_balance(&c, &inv, TGE).unwrap();
    assert_eq!(b.address, 42);
    assert_eq!(b.total_allocation, 1_000_000);
    assert_eq!(b.claimed_tokens, 0);
    assert_eq!(b.claimable_now, 100_000);
    assert_eq!(b.total_vested, 100_000);
    assert_eq!(b.remaining_tokens, 1_000_000);
    assert_eq!(b.next_cliff, TGE + DAY);
    assert_eq!(get_investor_address(&inv), 42);
}

#[test]
fn linear_schedule_lists_milestones() {
    let c = config();
    let s = get_linear_vesting_end_time(&c, TGE).unwrap();
    let m = 30 * DAY;
    assert_eq!(s.tge_timestamp, TGE);
    assert_eq!(s.milestone_8_months, TGE + 8 * m);
    assert_eq!(s.milestone_18_months, TGE + 18 * m);
    assert_eq!(s.milestone_24_months, TGE + 24 * m);
    assert_eq!(s.milestone_36_months, TGE + 36 * m);
    assert!(!s.is_completed);
    let s = get_linear_vesting_end_time(&c, TGE + 36 * m).unwrap();
    assert!(s.is_completed);
    let mut far = config();
    far.seconds_per_day = u64::MAX / 31;
    assert_eq!(
        get_linear_vesting_end_time(&far, TGE),
        Err(CustomError::ArithmeticOverflow)
    );
}
