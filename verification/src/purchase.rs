//! The purchase processor: validating a purchase or an admin grant against
//! the sale configuration and the clock, converting payment into a token
//! allocation, and applying the resulting state transition.
//!
//! Each operation is specified as a pure transition function from the old
//! configuration and investor record to either the new pair or the exact
//! error; the executable functions implement that transition and change
//! nothing on an error.

use vstd::prelude::*;

use crate::errors::CustomError;
use crate::state::{
    AccountId, Investor, TokenIco, LAMPORTS_PER_SOL, TOKEN_DECIMALS, VESTING_TYPE_IMMEDIATE,
    VESTING_TYPE_LINEAR,
};

verus! {

/// A payment currency the sale accepts.
#[derive(Clone, Copy, PartialEq, Eq, Structural, Debug)]
pub enum Currency {
    /// The native currency, denominated in lamports.
    Sol,
    /// The first stable currency.
    Usdc,
    /// The second stable currency.
    Usdt,
}

/// The configured token rate for a currency.
pub open spec fn spec_rate(c: TokenIco, currency: Currency) -> u64 {
    match currency {
        Currency::Sol => c.tokens_per_sol,
        Currency::Usdc => c.tokens_per_usdc,
        Currency::Usdt => c.tokens_per_usdt,
    }
}

/// Smallest units per whole unit of a currency: the divisor of the rate
/// conversion.
pub open spec fn spec_unit_scale(currency: Currency) -> u64 {
    match currency {
        Currency::Sol => LAMPORTS_PER_SOL,
        Currency::Usdc => TOKEN_DECIMALS,
        Currency::Usdt => TOKEN_DECIMALS,
    }
}

/// The record an investor's first grant starts from: identity, vesting kind
/// and whitelist time set, the cliff at the token-generation event, all
/// counters zero.
pub open spec fn spec_first_grant(address: AccountId, vt: u8, tge: u64, now: u64) -> Investor {
    Investor {
        address: address,
        allocation: 0,
        vesting_type: vt,
        released_tokens: 0,
        cliff_end: tge,
        last_claimed: 0,
        claimed_tokens: 0,
        blocked: false,
        whitelisted_at: now,
    }
}

/// The common tail of every grant path: initialize the record on a first
/// grant, then add the tokens to the investor's allocation and to the
/// sale-wide total.  The two additions are checked; either overflow aborts
/// the whole transition.
pub open spec fn spec_grant_tokens(
    c: TokenIco,
    i: Investor,
    address: AccountId,
    vt: u8,
    now: u64,
    tokens: u64,
) -> Result<(TokenIco, Investor), CustomError> {
    let i1 = if i.allocation == 0 {
        spec_first_grant(address, vt, c.tge_time, now)
    } else {
        i
    };
    if i1.allocation + tokens > u64::MAX {
        Err(CustomError::CalculationOverflow)
    } else if c.total_allocated + tokens > u64::MAX {
        Err(CustomError::ArithmeticOverflow)
    } else {
        Ok(
            (
                TokenIco { total_allocated: (c.total_allocated + tokens) as u64, ..c },
                Investor { allocation: (i1.allocation + tokens) as u64, ..i1 },
            ),
        )
    }
}

/// The purchase transition.  Validation, in order: the sale is not paused;
/// the token-generation event has not passed; the clock is inside the sale
/// window; the vesting kind is supported; the converted token amount is
/// within the per-purchase bounds; an investor with an existing allocation
/// keeps their vesting kind.  Then the grant tail is applied, and the
/// purchase-only counter `total_user_allocated` is raised by the same
/// amount: every payment currency feeds the same aggregates, while admin
/// grants leave the purchase counter alone.
pub open spec fn spec_purchase(
    c: TokenIco,
    i: Investor,
    buyer: AccountId,
    amount: u64,
    currency: Currency,
    vt: u8,
    now: u64,
) -> Result<(TokenIco, Investor, u64), CustomError> {
    if c.paused {
        Err(CustomError::ICOIsPaused)
    } else if now > c.tge_time {
        Err(CustomError::TGEDateInvalid)
    } else if !(c.ico_start_time <= now && now <= c.ico_end_time) {
        Err(CustomError::ICOPhaseInvalid)
    } else if !(vt == VESTING_TYPE_IMMEDIATE || vt == VESTING_TYPE_LINEAR) {
        Err(CustomError::InvalidVestingType)
    } else if amount * spec_rate(c, currency) > u64::MAX {
        Err(CustomError::CalculationOverflow)
    } else {
        let tokens = ((amount * spec_rate(c, currency)) / (spec_unit_scale(currency) as int)) as u64;
        if !(c.min_amount <= tokens && tokens <= c.max_amount) {
            Err(CustomError::InvalidBuyAmount)
        } else if i.allocation > 0 && i.vesting_type != vt {
            Err(CustomError::MismatchedVestingType)
        } else if c.total_user_allocated + tokens > u64::MAX {
            Err(CustomError::ArithmeticOverflow)
        } else {
            match spec_grant_tokens(c, i, buyer, vt, now, tokens) {
                Ok((c2, i2)) => Ok(
                    (
                        TokenIco {
                            total_user_allocated: (c.total_user_allocated + tokens) as u64,
                            ..c2
                        },
                        i2,
                        tokens,
                    ),
                ),
                Err(e) => Err(e),
            }
        }
    }
}

/// The admin grant transition: as a purchase, but authorized against the
/// configured authority, without a payment conversion (the amount is the
/// token allocation itself) and without the pause gate.
pub open spec fn spec_whitelist_grant(
    c: TokenIco,
    i: Investor,
    caller: AccountId,
    address: AccountId,
    amount: u64,
    vt: u8,
    now: u64,
) -> Result<(TokenIco, Investor, u64), CustomError> {
    if caller != c.authority {
        Err(CustomError::UnauthorizedAccess)
    } else if !(vt == VESTING_TYPE_IMMEDIATE || vt == VESTING_TYPE_LINEAR) {
        Err(CustomError::InvalidVestingType)
    } else if now > c.tge_time {
        Err(CustomError::TGEDateInvalid)
    } else if !(c.ico_start_time <= now && now <= c.ico_end_time) {
        Err(CustomError::ICOPhaseInvalid)
    } else if !(c.min_amount <= amount && amount <= c.max_amount) {
        Err(CustomError::InvalidBuyAmount)
    } else if i.allocation > 0 && i.vesting_type != vt {
        Err(CustomError::MismatchedVestingType)
    } else {
        match spec_grant_tokens(c, i, address, vt, now, amount) {
            Ok((c2, i2)) => Ok((c2, i2, amount)),
            Err(e) => Err(e),
        }
    }
}

/// Initializes the record on the investor's first grant (no allocation
/// yet): identity, vesting kind and whitelist time are set, the cliff
/// starts at the token-generation event.  Returns whether this was the
/// first grant.
pub fn process_investor_whitelist(
    investor: &mut Investor,
    buyer_key: AccountId,
    config_tge_time: u64,
    vesting_type: u8,
    current_time: u64,
) -> (first: bool)
    ensures
        first == (old(investor).allocation == 0),
        *final(investor) == (if old(investor).allocation == 0 {
            spec_first_grant(buyer_key, vesting_type, config_tge_time, current_time)
        } else {
            *old(investor)
        }),
{
    let is_first_purchase = investor.allocation == 0;
    if is_first_purchase {
        investor.address = buyer_key;
        investor.vesting_type = vesting_type;
        investor.released_tokens = 0;
        investor.cliff_end = config_tge_time;
        investor.last_claimed = 0;
        investor.claimed_tokens = 0;
        investor.blocked = false;
        investor.whitelisted_at = current_time;
    }
    is_first_purchase
}

/// Applies the grant tail: first-grant initialization, then the checked
/// additions to the investor's allocation and the sale-wide total.
fn grant_tokens(
    config: &mut TokenIco,
    investor: &mut Investor,
    address: AccountId,
    vesting_type: u8,
    current_time: u64,
    tokens: u64,
) -> (r: Result<(), CustomError>)
    ensures
        (match spec_grant_tokens(
            *old(config),
            *old(investor),
            address,
            vesting_type,
            current_time,
            tokens,
        ) {
            Ok((c2, i2)) => r == Ok::<(), CustomError>(()) && *final(config) == c2 && *final(investor) == i2,
            Err(e) => r == Err::<(), CustomError>(e) && *final(config) == *old(config) && *final(investor) == *old(investor),
        }),
{
    let first_allocation = if investor.allocation == 0 {
        0u64
    } else {
        investor.allocation
    };
    let new_allocation = match first_allocation.checked_add(tokens) {
        Some(v) => v,
        None => {
            return Err(CustomError::CalculationOverflow);
        },
    };
    let new_total = match config.total_allocated.checked_add(tokens) {
        Some(v) => v,
        None => {
            return Err(CustomError::ArithmeticOverflow);
        },
    };
    process_investor_whitelist(investor, address, config.tge_time, vesting_type, current_time);
    investor.allocation = new_allocation;
    config.total_allocated = new_total;
    Ok(())
}

/// Converts a payment into tokens at the given rate and unit scale:
/// a checked multiplication, then truncating division.
fn tokens_for_payment(amount: u64, rate: u64, scale: u64) -> (r: Result<u64, CustomError>)
    requires
        scale > 0,
    ensures
        r == (if amount * rate > u64::MAX {
            Err::<u64, CustomError>(CustomError::CalculationOverflow)
        } else {
            Ok::<u64, CustomError>(((amount * rate) / (scale as int)) as u64)
        }),
{
    match amount.checked_mul(rate) {
        Some(v) => Ok(v / scale),
        None => Err(CustomError::CalculationOverflow),
    }
}

/// Processes a purchase paid in `currency`: validates it against the
/// configuration and the clock, converts the payment into tokens, and
/// grants them.  Returns the tokens allocated; on an error nothing
/// changes.
///
/// The host performs the actual payment transfer; it commits the new state
/// only when that transfer succeeds, which keeps the transition atomic.
pub fn purchase(
    config: &mut TokenIco,
    investor: &mut Investor,
    buyer: AccountId,
    amount: u64,
    currency: Currency,
    vesting_type: u8,
    current_time: u64,
) -> (r: Result<u64, CustomError>)
    ensures
        (match spec_purchase(
            *old(config),
            *old(investor),
            buyer,
            amount,
            currency,
            vesting_type,
            current_time,
        ) {
            Ok((c2, i2, tokens)) => r == Ok::<u64, CustomError>(tokens) && *final(config) == c2
                && *final(investor) == i2,
            Err(e) => r == Err::<u64, CustomError>(e) && *final(config) == *old(config) && *final(investor) == *old(investor),
        }),
{
    if config.paused {
        return Err(CustomError::ICOIsPaused);
    }
    if current_time > config.tge_time {
        return Err(CustomError::TGEDateInvalid);
    }
    if !(config.ico_start_time <= current_time && current_time <= config.ico_end_time) {
        return Err(CustomError::ICOPhaseInvalid);
    }
    if !(vesting_type == VESTING_TYPE_IMMEDIATE || vesting_type == VESTING_TYPE_LINEAR) {
        return Err(CustomError::InvalidVestingType);
    }
    let rate = match currency {
        Currency::Sol => config.tokens_per_sol,
        Currency::Usdc => config.tokens_per_usdc,
        Currency::Usdt => config.tokens_per_usdt,
    };
    let scale = match currency {
        Currency::Sol => LAMPORTS_PER_SOL,
        Currency::Usdc => TOKEN_DECIMALS,
        Currency::Usdt => TOKEN_DECIMALS,
    };
    let tokens_to_allocate = match tokens_for_payment(amount, rate, scale) {
        Ok(v) => v,
        Err(e) => {
            return Err(e);
        },
    };
    if !(config.min_amount <= tokens_to_allocate && tokens_to_allocate <= config.max_amount) {
        return Err(CustomError::InvalidBuyAmount);
    }
    if investor.allocation > 0 && investor.vesting_type != vesting_type {
        return Err(CustomError::MismatchedVestingType);
    }
    let new_user_allocated = match config.total_user_allocated.checked_add(tokens_to_allocate) {
        Some(v) => v,
        None => {
            return Err(CustomError::ArithmeticOverflow);
        },
    };
    match grant_tokens(config, investor, buyer, vesting_type, current_time, tokens_to_allocate) {
        Ok(()) => {
            config.total_user_allocated = new_user_allocated;
            Ok(tokens_to_allocate)
        },
        Err(e) => Err(e),
    }
}

/// A purchase paid in the native currency, `amount` in lamports.
pub fn buy_tokens_with_sol(
    config: &mut TokenIco,
    investor: &mut Investor,
    buyer: AccountId,
    amount: u64,
    vesting_type: u8,
    current_time: u64,
) -> (r: Result<u64, CustomError>)
    ensures
        (match spec_purchase(
            *old(config),
            *old(investor),
            buyer,
            amount,
            Currency::Sol,
            vesting_type,
            current_time,
        ) {
            Ok((c2, i2, tokens)) => r == Ok::<u64, CustomError>(tokens) && *final(config) == c2
                && *final(investor) == i2,
            Err(e) => r == Err::<u64, CustomError>(e) && *final(config) == *old(config) && *final(investor) == *old(investor),
        }),
{
    purchase(config, investor, buyer, amount, Currency::Sol, vesting_type, current_time)
}

/// A purchase paid in the first stable currency, `amount` in its smallest
/// units.
pub fn buy_token_with_usdc(
    config: &mut TokenIco,
    investor: &mut Investor,
    buyer: AccountId,
    amount: u64,
    vesting_type: u8,
    current_time: u64,
) -> (r: Result<u64, CustomError>)
    ensures
        (match spec_purchase(
            *old(config),
            *old(investor),
            buyer,
            amount,
            Currency::Usdc,
            vesting_type,
            current_time,
        ) {
            Ok((c2, i2, tokens)) => r == Ok::<u64, CustomError>(tokens) && *final(config) == c2
                && *final(investor) == i2,
            Err(e) => r == Err::<u64, CustomError>(e) && *final(config) == *old(config) && *final(investor) == *old(investor),
        }),
{
    purchase(config, investor, buyer, amount, Currency::Usdc, vesting_type, current_time)
}

/// A purchase paid in the second stable currency, `amount` in its smallest
/// units.  The sale-wide aggregates are updated here exactly as on every
/// other payment path, so the aggregate invariant holds uniformly.
pub fn buy_token_with_usdt(
    config: &mut TokenIco,
    investor: &mut Investor,
    buyer: AccountId,
    amount: u64,
    vesting_type: u8,
    current_time: u64,
) -> (r: Result<u64, CustomError>)
    ensures
        (match spec_purchase(
            *old(config),
            *old(investor),
            buyer,
            amount,
            Currency::Usdt,
            vesting_type,
            current_time,
        ) {
            Ok((c2, i2, tokens)) => r == Ok::<u64, CustomError>(tokens) && *final(config) == c2
                && *final(investor) == i2,
            Err(e) => r == Err::<u64, CustomError>(e) && *final(config) == *old(config) && *final(investor) == *old(investor),
        }),
{
    purchase(config, investor, buyer, amount, Currency::Usdt, vesting_type, current_time)
}

/// An authorized operator grants `amount` tokens directly, without a
/// payment transfer, under the same window, bound and vesting-kind rules
/// as a purchase.
pub fn whitelist_investor_by_admin(
    config: &mut TokenIco,
    investor: &mut Investor,
    caller: AccountId,
    investor_address: AccountId,
    amount: u64,
    vesting_type: u8,
    current_time: u64,
) -> (r: Result<u64, CustomError>)
    ensures
        (match spec_whitelist_grant(
            *old(config),
            *old(investor),
            caller,
            investor_address,
            amount,
            vesting_type,
            current_time,
        ) {
            Ok((c2, i2, tokens)) => r == Ok::<u64, CustomError>(tokens) && *final(config) == c2
                && *final(investor) == i2,
            Err(e) => r == Err::<u64, CustomError>(e) && *final(config) == *old(config) && *final(investor) == *old(investor),
        }),
{
    if caller != config.authority {
        return Err(CustomError::UnauthorizedAccess);
    }
    if !(vesting_type == VESTING_TYPE_IMMEDIATE || vesting_type == VESTING_TYPE_LINEAR) {
        return Err(CustomError::InvalidVestingType);
    }
    if current_time > config.tge_time {
        return Err(CustomError::TGEDateInvalid);
    }
    if !(config.ico_start_time <= current_time && current_time <= config.ico_end_time) {
        return Err(CustomError::ICOPhaseInvalid);
    }
    if !(config.min_amount <= amount && amount <= config.max_amount) {
        return Err(CustomError::InvalidBuyAmount);
    }
    if investor.allocation > 0 && investor.vesting_type != vesting_type {
        return Err(CustomError::MismatchedVestingType);
    }
    match grant_tokens(
        config,
        investor,
        investor_address,
        vesting_type,
        current_time,
        amount,
    ) {
        Ok(()) => Ok(amount),
        Err(e) => Err(e),
    }
}

} // verus!
