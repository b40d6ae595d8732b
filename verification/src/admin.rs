//! Administrative operations on the sale configuration: construction,
//! date and rate changes, pausing, treasury and mint updates, ownership
//! transfer, prize deposits and withdrawal checks.
//!
//! Every mutating operation is gated on the configured authority; each
//! contract pins the whole new configuration against the old one.

use vstd::prelude::*;

use crate::errors::CustomError;
use crate::state::{AccountId, TokenIco};

verus! {

/// Builds the initial sale configuration: identities, decimals, window,
/// bounds and rates as given; not paused; every aggregate zero.
pub fn initialize(
    authority: AccountId,
    reward_token_mint: AccountId,
    sol_treasury: AccountId,
    usdc_treasury: AccountId,
    usdt_treasury: AccountId,
    prize_treasury: AccountId,
    usdc_mint: AccountId,
    usdt_mint: AccountId,
    usdc_decimals: u8,
    usdt_decimals: u8,
    reward_token_decimals: u8,
    ico_start_time: u64,
    ico_end_time: u64,
    tge_time: u64,
    min_buy_amount: u64,
    max_buy_amount: u64,
    tokens_per_sol: u64,
    tokens_per_usdc: u64,
    tokens_per_usdt: u64,
    seconds_per_day: u64,
) -> (c: TokenIco)
    ensures
        c == (TokenIco {
            authority,
            reward_token_mint,
            sol_treasury,
            usdc_treasury,
            usdt_treasury,
            prize_treasury,
            usdc_mint,
            usdt_mint,
            usdc_decimals,
            usdt_decimals,
            reward_token_decimals,
            ico_start_time,
            ico_end_time,
            tge_time,
            min_amount: min_buy_amount,
            max_amount: max_buy_amount,
            tokens_per_sol,
            tokens_per_usdc,
            tokens_per_usdt,
            seconds_per_day,
            paused: false,
            total_user_allocated: 0u64,
            total_prize_deposited: 0u64,
            total_allocated: 0u64,
            total_claimed: 0u64,
        }),
{
    TokenIco {
        authority,
        reward_token_mint,
        sol_treasury,
        usdc_treasury,
        usdt_treasury,
        prize_treasury,
        usdc_mint,
        usdt_mint,
        usdc_decimals,
        usdt_decimals,
        reward_token_decimals,
        ico_start_time,
        ico_end_time,
        tge_time,
        min_amount: min_buy_amount,
        max_amount: max_buy_amount,
        tokens_per_sol,
        tokens_per_usdc,
        tokens_per_usdt,
        seconds_per_day,
        paused: false,
        total_user_allocated: 0,
        total_prize_deposited: 0,
        total_allocated: 0,
        total_claimed: 0,
    }
}

/// Moves the sale window; authority only.
pub fn set_ico_dates(
    config: &mut TokenIco,
    caller: AccountId,
    ico_start_time: u64,
    ico_end_time: u64,
) -> (r: Result<(), CustomError>)
    ensures
        caller != old(config).authority ==> r == Err::<(), CustomError>(
            CustomError::UnauthorizedAccess,
        ) && *final(config) == *old(config),
        caller == old(config).authority ==> r == Ok::<(), CustomError>(()) && *final(config)
            == (TokenIco { ico_start_time, ico_end_time, ..*old(config) }),
{
    if caller != config.authority {
        return Err(CustomError::UnauthorizedAccess);
    }
    config.ico_start_time = ico_start_time;
    config.ico_end_time = ico_end_time;
    Ok(())
}

/// Moves the token-generation event; authority only.
pub fn set_tge_date(config: &mut TokenIco, caller: AccountId, new_tge_time: u64) -> (r: Result<
    (),
    CustomError,
>)
    ensures
        caller != old(config).authority ==> r == Err::<(), CustomError>(
            CustomError::UnauthorizedAccess,
        ) && *final(config) == *old(config),
        caller == old(config).authority ==> r == Ok::<(), CustomError>(()) && *final(config)
            == (TokenIco { tge_time: new_tge_time, ..*old(config) }),
{
    if caller != config.authority {
        return Err(CustomError::UnauthorizedAccess);
    }
    config.tge_time = new_tge_time;
    Ok(())
}

/// Pauses or resumes purchases; claims are unaffected; authority only.
pub fn set_paused(config: &mut TokenIco, caller: AccountId, paused: bool) -> (r: Result<
    (),
    CustomError,
>)
    ensures
        caller != old(config).authority ==> r == Err::<(), CustomError>(
            CustomError::UnauthorizedAccess,
        ) && *final(config) == *old(config),
        caller == old(config).authority ==> r == Ok::<(), CustomError>(()) && *final(config)
            == (TokenIco { paused, ..*old(config) }),
{
    if caller != config.authority {
        return Err(CustomError::UnauthorizedAccess);
    }
    config.paused = paused;
    Ok(())
}

/// Changes the length of a vesting day; authority only.  Shortening it
/// after claims have settled can make recorded claims exceed the
/// recomputed releasable amount; the engine then saturates the claimable
/// amount at zero.
pub fn reset_seconds_per_day(config: &mut TokenIco, caller: AccountId, nos_of_seconds: u64) -> (r:
    Result<(), CustomError>)
    ensures
        caller != old(config).authority ==> r == Err::<(), CustomError>(
            CustomError::UnauthorizedAccess,
        ) && *final(config) == *old(config),
        caller == old(config).authority ==> r == Ok::<(), CustomError>(()) && *final(config)
            == (TokenIco { seconds_per_day: nos_of_seconds, ..*old(config) }),
{
    if caller != config.authority {
        return Err(CustomError::UnauthorizedAccess);
    }
    config.seconds_per_day = nos_of_seconds;
    Ok(())
}

/// Points the native-currency treasury at a new wallet; authority only.
pub fn reset_sol_treasure(config: &mut TokenIco, caller: AccountId, new_wallet: AccountId) -> (r:
    Result<(), CustomError>)
    ensures
        caller != old(config).authority ==> r == Err::<(), CustomError>(
            CustomError::UnauthorizedAccess,
        ) && *final(config) == *old(config),
        caller == old(config).authority ==> r == Ok::<(), CustomError>(()) && *final(config)
            == (TokenIco { sol_treasury: new_wallet, ..*old(config) }),
{
    if caller != config.authority {
        return Err(CustomError::UnauthorizedAccess);
    }
    config.sol_treasury = new_wallet;
    Ok(())
}

/// Which mint `set_mint_address` updates.
pub const TOKEN_TYPE_PRIZE: u8 = 0;

/// Selector for the first stable currency's mint.
pub const TOKEN_TYPE_USDC: u8 = 1;

/// Selector for the second stable currency's mint.
pub const TOKEN_TYPE_USDT: u8 = 2;

/// The mint-update transition: authority only; the selector picks which
/// mint and decimals pair changes.
pub open spec fn spec_set_mint_address(
    c: TokenIco,
    caller: AccountId,
    token_type: u8,
    token: AccountId,
    mint_decimals: u8,
) -> Result<TokenIco, CustomError> {
    if caller != c.authority {
        Err(CustomError::UnauthorizedAccess)
    } else if token_type > 2 {
        Err(CustomError::InvalidTokenType)
    } else if token_type == TOKEN_TYPE_PRIZE {
        Ok(TokenIco { reward_token_mint: token, reward_token_decimals: mint_decimals, ..c })
    } else if token_type == TOKEN_TYPE_USDC {
        Ok(TokenIco { usdc_mint: token, usdc_decimals: mint_decimals, ..c })
    } else {
        Ok(TokenIco { usdt_mint: token, usdt_decimals: mint_decimals, ..c })
    }
}

/// Repoints one of the three mints, recording the new mint's decimals as
/// the host read them; authority only.
pub fn set_mint_address(
    config: &mut TokenIco,
    caller: AccountId,
    token_type: u8,
    token: AccountId,
    mint_decimals: u8,
) -> (r: Result<(), CustomError>)
    ensures
        (match spec_set_mint_address(*old(config), caller, token_type, token, mint_decimals) {
            Ok(c2) => r == Ok::<(), CustomError>(()) && *final(config) == c2,
            Err(e) => r == Err::<(), CustomError>(e) && *final(config) == *old(config),
        }),
{
    if caller != config.authority {
        return Err(CustomError::UnauthorizedAccess);
    }
    if token_type > 2 {
        return Err(CustomError::InvalidTokenType);
    }
    if token_type == TOKEN_TYPE_PRIZE {
        config.reward_token_mint = token;
        config.reward_token_decimals = mint_decimals;
    } else if token_type == TOKEN_TYPE_USDC {
        config.usdc_mint = token;
        config.usdc_decimals = mint_decimals;
    } else {
        config.usdt_mint = token;
        config.usdt_decimals = mint_decimals;
    }
    Ok(())
}

/// Hands the authority to a new identity; authority only; the null
/// identity is rejected with `InvalidAddress` (use `renounce_ownership`).
pub fn transfer_ownership(config: &mut TokenIco, caller: AccountId, new_authority: AccountId) -> (r:
    Result<(), CustomError>)
    ensures
        caller != old(config).authority ==> r == Err::<(), CustomError>(
            CustomError::UnauthorizedAccess,
        ) && *final(config) == *old(config),
        caller == old(config).authority && new_authority == 0 ==> r == Err::<(), CustomError>(
            CustomError::InvalidAddress,
        ) && *final(config) == *old(config),
        caller == old(config).authority && new_authority != 0 ==> r == Ok::<(), CustomError>(())
            && *final(config) == (TokenIco { authority: new_authority, ..*old(config) }),
{
    if caller != config.authority {
        return Err(CustomError::UnauthorizedAccess);
    }
    if new_authority == 0 {
        return Err(CustomError::InvalidAddress);
    }
    config.authority = new_authority;
    Ok(())
}

/// Renounces the authority for good: it becomes the null identity, which
/// no caller holds, so every authority-gated operation is refused from
/// then on, the null caller included.
pub fn renounce_ownership(config: &mut TokenIco, caller: AccountId) -> (r: Result<(), CustomError>)
    ensures
        caller != old(config).authority ==> r == Err::<(), CustomError>(
            CustomError::UnauthorizedAccess,
        ) && *final(config) == *old(config),
        caller == old(config).authority ==> r == Ok::<(), CustomError>(()) && *final(config)
            == (TokenIco { authority: 0u64, ..*old(config) }),
{
    if caller != config.authority {
        return Err(CustomError::UnauthorizedAccess);
    }
    config.authority = 0;
    Ok(())
}

/// Records a deposit of reward tokens into the prize treasury; authority
/// only; the running total is a checked sum.
pub fn deposit_prize(config: &mut TokenIco, caller: AccountId, amount: u64) -> (r: Result<
    (),
    CustomError,
>)
    ensures
        caller != old(config).authority ==> r == Err::<(), CustomError>(
            CustomError::UnauthorizedAccess,
        ) && *final(config) == *old(config),
        caller == old(config).authority && old(config).total_prize_deposited + amount > u64::MAX
            ==> r == Err::<(), CustomError>(CustomError::ArithmeticOverflow) && *final(config)
            == *old(config),
        caller == old(config).authority && old(config).total_prize_deposited + amount <= u64::MAX
            ==> r == Ok::<(), CustomError>(()) && *final(config) == (TokenIco {
            total_prize_deposited: (old(config).total_prize_deposited + amount) as u64,
            ..*old(config)
        }),
{
    if caller != config.authority {
        return Err(CustomError::UnauthorizedAccess);
    }
    let new_total = match config.total_prize_deposited.checked_add(amount) {
        Some(v) => v,
        None => {
            return Err(CustomError::ArithmeticOverflow);
        },
    };
    config.total_prize_deposited = new_total;
    Ok(())
}

/// The pre-flight check for a native-currency withdrawal: the treasury
/// must cover the amount.
pub fn withdraw_sol(treasury_balance: u64, amount: u64) -> (r: Result<(), CustomError>)
    ensures
        r == (if treasury_balance >= amount {
            Ok::<(), CustomError>(())
        } else {
            Err::<(), CustomError>(CustomError::InsufficientFunds)
        }),
{
    if treasury_balance >= amount {
        Ok(())
    } else {
        Err(CustomError::InsufficientFunds)
    }
}

/// The pre-flight check for a reward-token withdrawal: authority only, and
/// the prize treasury must cover the amount.
pub fn withdraw_prize_tokens(
    config: &TokenIco,
    caller: AccountId,
    treasury_balance: u64,
    amount: u64,
) -> (r: Result<(), CustomError>)
    ensures
        r == (if caller != config.authority {
            Err::<(), CustomError>(CustomError::UnauthorizedAccess)
        } else if treasury_balance >= amount {
            Ok::<(), CustomError>(())
        } else {
            Err::<(), CustomError>(CustomError::InsufficientFunds)
        }),
{
    if caller != config.authority {
        return Err(CustomError::UnauthorizedAccess);
    }
    if treasury_balance >= amount {
        Ok(())
    } else {
        Err(CustomError::InsufficientFunds)
    }
}

/// The pre-flight check for a withdrawal from the first stable currency's
/// treasury.
pub fn withdraw_usdc_tokens(treasury_balance: u64, amount: u64) -> (r: Result<(), CustomError>)
    ensures
        r == (if treasury_balance >= amount {
            Ok::<(), CustomError>(())
        } else {
            Err::<(), CustomError>(CustomError::InsufficientFunds)
        }),
{
    if treasury_balance >= amount {
        Ok(())
    } else {
        Err(CustomError::InsufficientFunds)
    }
}

/// The pre-flight check for a withdrawal from the second stable currency's
/// treasury.
pub fn withdraw_usdt_tokens(treasury_balance: u64, amount: u64) -> (r: Result<(), CustomError>)
    ensures
        r == (if treasury_balance >= amount {
            Ok::<(), CustomError>(())
        } else {
            Err::<(), CustomError>(CustomError::InsufficientFunds)
        }),
{
    if treasury_balance >= amount {
        Ok(())
    } else {
        Err(CustomError::InsufficientFunds)
    }
}

} // verus!
