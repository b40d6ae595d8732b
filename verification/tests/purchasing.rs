//! Purchases and admin grants against a concrete sale configuration:
//! token conversion, gating errors in order, first-grant initialization,
//! and vesting-kind immutability.

use vesting_project::admin::initialize;
use vesting_project::errors::CustomError;
use vesting_project::purchase::{
    buy_token_with_usdc, buy_token_with_usdt, buy_tokens_with_sol, process_investor_whitelist,
    purchase, whitelist_investor_by_admin, Currency,
};
use vesting_project::state::{Investor, TokenIco, VESTING_TYPE_IMMEDIATE, VESTING_TYPE_LINEAR};

const ADMIN: u64 = 900;
const SALE_START: u64 = 1_000;
const SALE_END: u64 = 9_000;
const TGE: u64 = 10_000;
const DAY: u64 = 86_400;

fn config() -> TokenIco {
    initialize(
        ADMIN, 11, 21, 22, 23, 24, 31, 32, 6, 6, 9, SALE_START, SALE_END, TGE, 100,
        50_000_000_000, 20_000, 1_000, 1_000, DAY,
    )
}

#[test]
fn sol_purchase_converts_at_rate() {
    let mut c = config();
    let mut inv = Investor::zeroed();
    // 2 SOL = 2_000_000_000 lamports at 20_000 tokens per SOL.
    let r = buy_tokens_with_sol(&mut c, &mut inv, 42, 2_000_000_000, VESTING_TYPE_IMMEDIATE, 5_000);
    assert_eq!(r, Ok(40_000));
    assert_eq!(inv.allocation, 40_000);
    assert_eq!(inv.address, 42);
    assert_eq!(inv.vesting_type, VESTING_TYPE_IMMEDIATE);
    assert_eq!(inv.cliff_end, TGE);
    assert_eq!(inv.whitelisted_at, 5_000);
    assert_eq!(inv.claimed_tokens, 0);
    assert_eq!(inv.released_tokens, 0);
    assert!(!inv.blocked);
    assert_eq!(c.total_allocated, 40_000);
    assert_eq!(c.total_claimed, 0);
}

#[test]
fn usdc_and_usdt_purchases_update_the_same_total() {
    let mut c = config();
    let mut a = Investor::zeroed();
    let mut b = Investor::zeroed();
    // 500 units of a 9-decimal stable at 1_000 tokens per unit.
    let r = buy_token_with_usdc(&mut c, &mut a, 1, 500_000_000_000, VESTING_TYPE_LINEAR, 5_000);
    assert_eq!(r, Ok(500_000));
    let r = buy_token_with_usdt(&mut c, &mut b, 2, 500_000_000_000, VESTING_TYPE_LINEAR, 5_000);
    assert_eq!(r, Ok(500_000));
    // Both stable paths feed the same aggregates.
    assert_eq!(c.total_allocated, 1_000_000);
    assert_eq!(c.total_user_allocated, 1_000_000);
}

#[test]
fn repeat_purchase_accumulates() {
    let mut c = config();
    let mut inv = Investor::zeroed();
    buy_tokens_with_sol(&mut c, &mut inv, 42, 1_000_000_000, VESTING_TYPE_LINEAR, 5_000).unwrap();
    buy_tokens_with_sol(&mut c, &mut inv, 42, 3_000_000_000, VESTING_TYPE_LINEAR, 6_000).unwrap();
    assert_eq!(inv.allocation, 80_000);
    assert_eq!(c.total_allocated, 80_000);
    // First-grant fields are set once.
    assert_eq!(inv.whitelisted_at, 5_000);
}

#[test]
fn paused_sale_rejects_purchases() {
    let mut c = config();
    c.paused = true;
    let mut inv = Investor::zeroed();
    let before = inv;
    let r = purchase(&mut c, &mut inv, 42, 1_000_000_000, Currency::Sol, 0, 5_000);
    assert_eq!(r, Err(CustomError::ICOIsPaused));
    assert_eq!(inv, before);
    assert_eq!(c.total_allocated, 0);
}

#[test]
fn purchase_after_tge_is_rejected() {
    let mut c = config();
    c.ico_end_time = TGE + DAY;
    let mut inv = Investor::zeroed();
    let r = purchase(&mut c, &mut inv, 42, 1_000_000_000, Currency::Sol, 0, TGE + 1);
    assert_eq!(r, Err(CustomError::TGEDateInvalid));
}

#[test]
fn purchase_outside_window_is_rejected() {
    let mut c = config();
    let mut inv = Investor::zeroed();
    let r = purchase(&mut c, &mut inv, 42, 1_000_000_000, Currency::Sol, 0, SALE_START - 1);
    assert_eq!(r, Err(CustomError::ICOPhaseInvalid));
    let r = purchase(&mut c, &mut inv, 42, 1_000_000_000, Currency::Sol, 0, SALE_END + 1);
    assert_eq!(r, Err(CustomError::ICOPhaseInvalid));
}

#[test]
fn unknown_vesting_kind_is_rejected_before_conversion() {
    let mut c = config();
    let mut inv = Investor::zeroed();
    let r = purchase(&mut c, &mut inv, 42, 1_000_000_000, Currency::Sol, 3, 5_000);
    assert_eq!(r, Err(CustomError::InvalidVestingType));
}

#[test]
fn purchase_bounds_are_enforced() {
    let mut c = config();
    let mut inv = Investor::zeroed();
    // Below the 100-token minimum: 0.001 SOL buys 20 tokens.
    let r = purchase(&mut c, &mut inv, 42, 1_000_000, Currency::Sol, 0, 5_000);
    assert_eq!(r, Err(CustomError::InvalidBuyAmount));
}

#[test]
fn oversized_conversion_overflows() {
    let mut c = config();
    let mut inv = Investor::zeroed();
    let r = purchase(&mut c, &mut inv, 42, u64::MAX, Currency::Sol, 0, 5_000);
    assert_eq!(r, Err(CustomError::CalculationOverflow));
}

#[test]
fn vesting_kind_is_immutable_after_first_grant() {
    let mut c = config();
    let mut inv = Investor::zeroed();
    buy_tokens_with_sol(&mut c, &mut inv, 42, 1_000_000_000, VESTING_TYPE_IMMEDIATE, 5_000)
        .unwrap();
    let r = buy_tokens_with_sol(&mut c, &mut inv, 42, 1_000_000_000, VESTING_TYPE_LINEAR, 5_500);
    assert_eq!(r, Err(CustomError::MismatchedVestingType));
    assert_eq!(inv.vesting_type, VESTING_TYPE_IMMEDIATE);
    assert_eq!(inv.allocation, 20_000);
}

#[test]
fn admin_grant_requires_authority() {
    let mut c = config();
    let mut inv = Investor::zeroed();
    let r = whitelist_investor_by_admin(&mut c, &mut inv, 5, 42, 1_000, VESTING_TYPE_LINEAR, 5_000);
    assert_eq!(r, Err(CustomError::UnauthorizedAccess));
}

#[test]
fn admin_grant_allocates_directly() {
    let mut c = config();
    let mut inv = Investor::zeroed();
    let r = whitelist_investor_by_admin(
        &mut c, &mut inv, ADMIN, 42, 1_000, VESTING_TYPE_LINEAR, 5_000,
    );
    assert_eq!(r, Ok(1_000));
    assert_eq!(inv.address, 42);
    assert_eq!(inv.allocation, 1_000);
    assert_eq!(inv.cliff_end, TGE);
    assert_eq!(c.total_allocated, 1_000);
    // An admin grant is not a purchase: the purchase counter stays.
    assert_eq!(c.total_user_allocated, 0);
}

#[test]
fn admin_grant_enforces_bounds_and_window() {
    let mut c = config();
    let mut inv = Investor::zeroed();
    let r = whitelist_investor_by_admin(&mut c, &mut inv, ADMIN, 42, 99, VESTING_TYPE_LINEAR, 5_000);
    assert_eq!(r, Err(CustomError::InvalidBuyAmount));
    let r = whitelist_investor_by_admin(
        &mut c, &mut inv, ADMIN, 42, 1_000, VESTING_TYPE_LINEAR, SALE_START - 1,
    );
    assert_eq!(r, Err(CustomError::ICOPhaseInvalid));
    let r = whitelist_investor_by_admin(&mut c, &mut inv, ADMIN, 42, 1_000, 9, 5_000);
    assert_eq!(r, Err(CustomError::InvalidVestingType));
}

#[test]
fn first_grant_initialization_is_explicit() {
    let mut inv = Investor::zeroed();
    let first = process_investor_whitelist(&mut inv, 77, TGE, VESTING_TYPE_LINEAR, 4_321);
    assert!(first);
    assert_eq!(inv.address, 77);
    assert_eq!(inv.cliff_end, TGE);
    assert_eq!(inv.whitelisted_at, 4_321);
    inv.allocation = 10;
    let again = process_investor_whitelist(&mut inv, 88, TGE, VESTING_TYPE_IMMEDIATE, 9_999);
    assert!(!again);
    assert_eq!(inv.address, 77);
    assert_eq!(inv.whitelisted_at, 4_321);
}

#[test]
fn allocation_overflow_aborts_whole_purchase() {
    let mut c = config();
    let mut inv = Investor::zeroed();
    inv.allocation = u64::MAX - 10;
    inv.vesting_type = VESTING_TYPE_IMMEDIATE;
    let before_c = c;
    let before_i = inv;
    let r = purchase(&mut c, &mut inv, 42, 1_000_000_000, Currency::Sol, 0, 5_000);
    assert_eq!(r, Err(CustomError::CalculationOverflow));
    assert_eq!(c, before_c);
    assert_eq!(inv, before_i);
}
