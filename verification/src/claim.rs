//! The claim processor: authorizing a claim, settling the claimable amount
//! through the vesting engine, and applying the resulting state
//! transition; with the admin paths that block or remove an investor.
//!
//! Each operation is specified as a pure transition function; the
//! executable functions implement it and change nothing on an error.  The
//! host performs the actual reward-token transfer and commits the new
//! state only when that transfer succeeds.

use vstd::prelude::*;

use crate::errors::CustomError;
use crate::state::{
    spec_zero_investor, AccountId, Investor, TokenIco, TOKEN_DECIMALS, VESTING_TYPE_IMMEDIATE,
    VESTING_TYPE_LINEAR,
};
use crate::vesting::{
    calculate_claimable_tokens, get_next_cliff_end, lemma_immediate_releasable_bounds,
    lemma_linear_releasable_bounds, spec_claimable, spec_next_cliff, spec_total_releasable,
};

verus! {

/// The claim transition.  Validation, in order: the caller is the
/// investor; the investor is not blocked; the token-generation event has
/// passed.  The claimable amount is then settled by the vesting engine and
/// must be positive and covered by the reserve.  On success the claimed
/// and released counters, the last-claimed time, the next cliff and the
/// sale-wide claimed total are updated together.
pub open spec fn spec_claim(
    c: TokenIco,
    i: Investor,
    caller: AccountId,
    now: u64,
    reserve_balance: u64,
) -> Result<(TokenIco, Investor, u64), CustomError> {
    if caller != i.address {
        Err(CustomError::UnauthorizedAccess)
    } else if i.blocked {
        Err(CustomError::InvestorIsBlocked)
    } else if now < c.tge_time {
        Err(CustomError::TGEDateInvalid)
    } else {
        match spec_claimable(
            i.vesting_type,
            i.allocation,
            i.claimed_tokens,
            c.tge_time,
            c.seconds_per_day,
            now,
        ) {
            Err(e) => Err(e),
            Ok((claimable, _releasable)) => {
                if claimable == 0 {
                    Err(CustomError::NoTokensAvailableToClaim)
                } else if reserve_balance < claimable {
                    Err(CustomError::InsufficientFunds)
                } else if claimable * TOKEN_DECIMALS > u64::MAX {
                    Err(CustomError::ArithmeticOverflow)
                } else if i.released_tokens + claimable > u64::MAX {
                    Err(CustomError::ArithmeticOverflow)
                } else {
                    match spec_next_cliff(
                        i.vesting_type,
                        i.cliff_end,
                        c.seconds_per_day,
                        c.tge_time,
                        now,
                    ) {
                        Err(e) => Err(e),
                        Ok(next_cliff) => {
                            if c.total_claimed + claimable > u64::MAX {
                                Err(CustomError::ArithmeticOverflow)
                            } else {
                                Ok(
                                    (
                                        TokenIco {
                                            total_claimed: (c.total_claimed + claimable) as u64,
                                            ..c
                                        },
                                        Investor {
                                            claimed_tokens: (i.claimed_tokens + claimable) as u64,
                                            released_tokens: (i.released_tokens + claimable) as u64,
                                            last_claimed: now,
                                            cliff_end: next_cliff,
                                            ..i
                                        },
                                        claimable,
                                    ),
                                )
                            }
                        },
                    }
                }
            },
        }
    }
}

/// Settles a claim for the investor at `current_time`, with
/// `reserve_balance` the reward reserve's current holdings as the host
/// observed them.  Returns the amount released; on an error nothing
/// changes.
pub fn claim_tokens(
    config: &mut TokenIco,
    investor: &mut Investor,
    caller: AccountId,
    current_time: u64,
    reserve_balance: u64,
) -> (r: Result<u64, CustomError>)
    ensures
        (match spec_claim(*old(config), *old(investor), caller, current_time, reserve_balance) {
            Ok((c2, i2, amount)) => r == Ok::<u64, CustomError>(amount) && *final(config) == c2
                && *final(investor) == i2,
            Err(e) => r == Err::<u64, CustomError>(e) && *final(config) == *old(config) && *final(investor) == *old(investor),
        }),
        final(investor).claimed_tokens >= old(investor).claimed_tokens,
        r is Ok ==> final(investor).claimed_tokens <= final(investor).allocation,
{
    if caller != investor.address {
        return Err(CustomError::UnauthorizedAccess);
    }
    if investor.blocked {
        return Err(CustomError::InvestorIsBlocked);
    }
    if current_time < config.tge_time {
        return Err(CustomError::TGEDateInvalid);
    }
    let claimable_tokens = match calculate_claimable_tokens(
        investor.vesting_type,
        investor.allocation,
        investor.claimed_tokens,
        config.tge_time,
        config.seconds_per_day,
        current_time,
    ) {
        Ok(p) => p.0,
        Err(e) => {
            return Err(e);
        },
    };
    if claimable_tokens == 0 {
        return Err(CustomError::NoTokensAvailableToClaim);
    }
    if reserve_balance < claimable_tokens {
        return Err(CustomError::InsufficientFunds);
    }
    match claimable_tokens.checked_mul(TOKEN_DECIMALS) {
        Some(_) => (),
        None => {
            return Err(CustomError::ArithmeticOverflow);
        },
    };
    let new_released = match investor.released_tokens.checked_add(claimable_tokens) {
        Some(v) => v,
        None => {
            return Err(CustomError::ArithmeticOverflow);
        },
    };
    let next_cliff = match get_next_cliff_end(
        investor.vesting_type,
        investor.cliff_end,
        config.seconds_per_day,
        config.tge_time,
        current_time,
    ) {
        Ok(v) => v,
        Err(e) => {
            return Err(e);
        },
    };
    let new_total_claimed = match config.total_claimed.checked_add(claimable_tokens) {
        Some(v) => v,
        None => {
            return Err(CustomError::ArithmeticOverflow);
        },
    };
    let new_claimed = investor.claimed_tokens + claimable_tokens;
    investor.claimed_tokens = new_claimed;
    investor.released_tokens = new_released;
    investor.last_claimed = current_time;
    investor.cliff_end = next_cliff;
    config.total_claimed = new_total_claimed;
    Ok(claimable_tokens)
}

/// The raw amount the host's transfer service moves for a claim of
/// `claimable` tokens: the claim scaled to the reward token's smallest
/// units.
pub fn raw_transfer_amount(claimable: u64) -> (r: Result<u64, CustomError>)
    ensures
        r == (if claimable * TOKEN_DECIMALS > u64::MAX {
            Err::<u64, CustomError>(CustomError::ArithmeticOverflow)
        } else {
            Ok::<u64, CustomError>((claimable * TOKEN_DECIMALS) as u64)
        }),
{
    match claimable.checked_mul(TOKEN_DECIMALS) {
        Some(v) => Ok(v),
        None => Err(CustomError::ArithmeticOverflow),
    }
}

/// The removal transition: authorized against the configured authority,
/// the unreleased remainder is reversed out of the sale-wide allocation
/// total and the record is reset to its zero state.  An underflow in
/// either subtraction signals a broken invariant and aborts.
pub open spec fn spec_remove_investor(c: TokenIco, i: Investor, caller: AccountId) -> Result<
    (TokenIco, Investor),
    CustomError,
> {
    if caller != c.authority {
        Err(CustomError::UnauthorizedAccess)
    } else if i.allocation < i.released_tokens {
        Err(CustomError::ArithmeticOverflow)
    } else if c.total_allocated < i.allocation - i.released_tokens {
        Err(CustomError::ArithmeticOverflow)
    } else {
        Ok(
            (
                TokenIco {
                    total_allocated: (c.total_allocated - (i.allocation - i.released_tokens)) as u64,
                    ..c
                },
                spec_zero_investor(),
            ),
        )
    }
}

/// Removes an investor: reverses their unreleased remainder out of the
/// sale-wide allocation total and resets the record.  This is the only
/// path that decreases `total_allocated`.
pub fn remove_investor(config: &mut TokenIco, investor: &mut Investor, caller: AccountId) -> (r:
    Result<(), CustomError>)
    ensures
        (match spec_remove_investor(*old(config), *old(investor), caller) {
            Ok((c2, i2)) => r == Ok::<(), CustomError>(()) && *final(config) == c2 && *final(investor) == i2,
            Err(e) => r == Err::<(), CustomError>(e) && *final(config) == *old(config) && *final(investor) == *old(investor),
        }),
{
    if caller != config.authority {
        return Err(CustomError::UnauthorizedAccess);
    }
    let remaining_allocation = match investor.allocation.checked_sub(investor.released_tokens) {
        Some(v) => v,
        None => {
            return Err(CustomError::ArithmeticOverflow);
        },
    };
    let new_total = match config.total_allocated.checked_sub(remaining_allocation) {
        Some(v) => v,
        None => {
            return Err(CustomError::ArithmeticOverflow);
        },
    };
    config.total_allocated = new_total;
    *investor = Investor::zeroed();
    Ok(())
}

/// The blocking transition: authorized against the configured authority;
/// only the `blocked` flag changes, so allocation and claim counters stay.
pub open spec fn spec_block_investor(c: TokenIco, i: Investor, caller: AccountId) -> Result<
    Investor,
    CustomError,
> {
    if caller != c.authority {
        Err(CustomError::UnauthorizedAccess)
    } else {
        Ok(Investor { blocked: true, ..i })
    }
}

/// Blocks an investor from claiming; further grants stay possible.
pub fn block_investor(config: &TokenIco, investor: &mut Investor, caller: AccountId) -> (r: Result<
    (),
    CustomError,
>)
    ensures
        (match spec_block_investor(*config, *old(investor), caller) {
            Ok(i2) => r == Ok::<(), CustomError>(()) && *final(investor) == i2,
            Err(e) => r == Err::<(), CustomError>(e) && *final(investor) == *old(investor),
        }),
{
    if caller != config.authority {
        return Err(CustomError::UnauthorizedAccess);
    }
    investor.blocked = true;
    Ok(())
}

/// Over successive claims an investor's claimed counter never decreases,
/// each successful claim releases a positive amount, and afterwards the
/// claimed counter is within the allocation.
pub proof fn lemma_claim_monotonic(
    c: TokenIco,
    i: Investor,
    caller: AccountId,
    now: u64,
    reserve_balance: u64,
)
    ensures
        (match spec_claim(c, i, caller, now, reserve_balance) {
            Ok((c2, i2, amount)) => amount > 0 && i2.allocation == i.allocation
                && i2.claimed_tokens == i.claimed_tokens + amount && i2.claimed_tokens
                <= i2.allocation,
            Err(_) => true,
        }),
{
    if spec_claim(c, i, caller, now, reserve_balance) is Ok {
        let rel = spec_total_releasable(
            i.vesting_type,
            i.allocation,
            c.tge_time,
            c.seconds_per_day,
            now,
        );
        if i.vesting_type == VESTING_TYPE_IMMEDIATE {
            lemma_immediate_releasable_bounds(i.allocation, c.tge_time, c.seconds_per_day, now);
        } else if i.vesting_type == VESTING_TYPE_LINEAR {
            lemma_linear_releasable_bounds(i.allocation, c.tge_time, c.seconds_per_day, now);
        }
    }
}

/// A second claim at the same time is a no-op: once a claim has settled,
/// claiming again with no elapsed change finds nothing claimable and fails
/// with `NoTokensAvailableToClaim`, whatever the reserve holds, leaving
/// the state unchanged.
pub proof fn lemma_claim_idempotent(
    c: TokenIco,
    i: Investor,
    caller: AccountId,
    now: u64,
    reserve_balance: u64,
    second_reserve_balance: u64,
)
    requires
        spec_claim(c, i, caller, now, reserve_balance) is Ok,
    ensures
        (match spec_claim(c, i, caller, now, reserve_balance) {
            Ok((c2, i2, _amount)) => spec_claim(c2, i2, caller, now, second_reserve_balance)
                == Err::<(TokenIco, Investor, u64), CustomError>(
                CustomError::NoTokensAvailableToClaim,
            ),
            Err(_) => true,
        }),
{
}

} // verus!
