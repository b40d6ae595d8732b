//! Read-only inquiries over the sale configuration and an investor's
//! vesting state.

use vstd::prelude::*;

use crate::errors::CustomError;
use crate::state::{AccountId, Investor, TokenIco};
use crate::vesting::{
    calculate_claimable_tokens, get_next_cliff_end, spec_claimable, spec_next_cliff,
};

verus! {

/// The sale window and token-generation event: start, end, TGE.
pub fn get_ico_dates(config: &TokenIco) -> (r: (u64, u64, u64))
    ensures
        r == (config.ico_start_time, config.ico_end_time, config.tge_time),
{
    (config.ico_start_time, config.ico_end_time, config.tge_time)
}

/// The three configured token rates: per native unit, per first stable
/// unit, per second stable unit.
pub fn get_token_rate(config: &TokenIco) -> (r: (u64, u64, u64))
    ensures
        r == (config.tokens_per_sol, config.tokens_per_usdc, config.tokens_per_usdt),
{
    (config.tokens_per_sol, config.tokens_per_usdc, config.tokens_per_usdt)
}

/// The per-purchase token bounds: minimum, maximum.
pub fn get_min_max_buy_amount(config: &TokenIco) -> (r: (u64, u64))
    ensures
        r == (config.min_amount, config.max_amount),
{
    (config.min_amount, config.max_amount)
}

/// The configured length of a vesting day in seconds.
pub fn get_seconds_per_day(config: &TokenIco) -> (r: u64)
    ensures
        r == config.seconds_per_day,
{
    config.seconds_per_day
}

/// The identity an investor record belongs to.
pub fn get_investor_address(investor: &Investor) -> (r: AccountId)
    ensures
        r == investor.address,
{
    investor.address
}

/// Everything a balance inquiry reports about one investor at one time.
#[derive(Clone, Copy, PartialEq, Eq, Structural, Debug)]
pub struct VestingBalance {
    /// The investor's identity.
    pub address: AccountId,
    /// The investor's vesting kind.
    pub vesting_type: u8,
    /// Cumulative tokens granted.
    pub total_allocation: u64,
    /// Cumulative tokens claimed.
    pub claimed_tokens: u64,
    /// What a claim now would release.
    pub claimable_now: u64,
    /// What the schedule has unlocked so far.
    pub total_vested: u64,
    /// Allocation not yet claimed, floored at zero.
    pub remaining_tokens: u64,
    /// The next cliff timestamp.
    pub next_cliff: u64,
    /// Time of the most recent claim, zero if none.
    pub last_claimed: u64,
    /// Whether claims are currently forbidden.
    pub blocked: bool,
}

/// The balance inquiry: rejected for an identity with no allocation, and
/// otherwise answered from the vesting engine at `now`.
pub open spec fn spec_vesting_balance(c: TokenIco, i: Investor, now: u64) -> Result<
    VestingBalance,
    CustomError,
> {
    if i.allocation == 0 {
        Err(CustomError::InvestorNotFound)
    } else {
        match spec_claimable(
            i.vesting_type,
            i.allocation,
            i.claimed_tokens,
            c.tge_time,
            c.seconds_per_day,
            now,
        ) {
            Err(e) => Err(e),
            Ok((claimable, releasable)) => match spec_next_cliff(
                i.vesting_type,
                i.cliff_end,
                c.seconds_per_day,
                c.tge_time,
                now,
            ) {
                Err(e) => Err(e),
                Ok(next_cliff) => Ok(
                    VestingBalance {
                        address: i.address,
                        vesting_type: i.vesting_type,
                        total_allocation: i.allocation,
                        claimed_tokens: i.claimed_tokens,
                        claimable_now: claimable,
                        total_vested: releasable,
                        remaining_tokens: (if i.claimed_tokens >= i.allocation {
                            0
                        } else {
                            i.allocation - i.claimed_tokens
                        }) as u64,
                        next_cliff,
                        last_claimed: i.last_claimed,
                        blocked: i.blocked,
                    },
                ),
            },
        }
    }
}

/// Reports an investor's vesting balance at `current_time` without
/// changing anything.
pub fn get_vesting_balance(config: &TokenIco, investor: &Investor, current_time: u64) -> (r: Result<
    VestingBalance,
    CustomError,
>)
    ensures
        r == spec_vesting_balance(*config, *investor, current_time),
{
    if investor.allocation == 0 {
        return Err(CustomError::InvestorNotFound);
    }
    let (claimable, releasable) = match calculate_claimable_tokens(
        investor.vesting_type,
        investor.allocation,
        investor.claimed_tokens,
        config.tge_time,
        config.seconds_per_day,
        current_time,
    ) {
        Ok(p) => p,
        Err(e) => {
            return Err(e);
        },
    };
    let next_cliff = match get_next_cliff_end(
        investor.vesting_type,
        investor.cliff_end,
        config.seconds_per_day,
        config.tge_time,
        current_time,
    ) {
        Ok(v) => v,
        Err(e) => {
            return Err(e);
        },
    };
    Ok(
        VestingBalance {
            address: investor.address,
            vesting_type: investor.vesting_type,
            total_allocation: investor.allocation,
            claimed_tokens: investor.claimed_tokens,
            claimable_now: claimable,
            total_vested: releasable,
            remaining_tokens: investor.allocation.saturating_sub(investor.claimed_tokens),
            next_cliff,
            last_claimed: investor.last_claimed,
            blocked: investor.blocked,
        },
    )
}

/// The four milestone dates of the Linear schedule, and whether it has
/// run to completion.
#[derive(Clone, Copy, PartialEq, Eq, Structural, Debug)]
pub struct LinearSchedule {
    /// The token-generation event the milestones are measured from.
    pub tge_timestamp: u64,
    /// When the 10% tranche unlocks.
    pub milestone_8_months: u64,
    /// When the first 20% tranche unlocks.
    pub milestone_18_months: u64,
    /// When the second 20% tranche unlocks.
    pub milestone_24_months: u64,
    /// When the whole allocation is unlocked.
    pub milestone_36_months: u64,
    /// Whether the final milestone has passed.
    pub is_completed: bool,
}

/// The Linear milestone schedule: each date is the event plus the
/// milestone's months of thirty vesting days; overflow of the furthest
/// date fails the inquiry.
pub open spec fn spec_linear_schedule(c: TokenIco, now: u64) -> Result<
    LinearSchedule,
    CustomError,
> {
    let m = 30 * c.seconds_per_day;
    if m > u64::MAX || c.tge_time + 36 * m > u64::MAX {
        Err(CustomError::ArithmeticOverflow)
    } else {
        Ok(
            LinearSchedule {
                tge_timestamp: c.tge_time,
                milestone_8_months: (c.tge_time + 8 * m) as u64,
                milestone_18_months: (c.tge_time + 18 * m) as u64,
                milestone_24_months: (c.tge_time + 24 * m) as u64,
                milestone_36_months: (c.tge_time + 36 * m) as u64,
                is_completed: now >= c.tge_time + 36 * m,
            },
        )
    }
}

/// Reports the Linear schedule's milestone dates at `current_time`.
pub fn get_linear_vesting_end_time(config: &TokenIco, current_time: u64) -> (r: Result<
    LinearSchedule,
    CustomError,
>)
    ensures
        r == spec_linear_schedule(*config, current_time),
{
    let month_in_seconds = match config.seconds_per_day.checked_mul(30) {
        Some(v) => v,
        None => {
            return Err(CustomError::ArithmeticOverflow);
        },
    };
    let offset_8 = match month_in_seconds.checked_mul(8) {
        Some(v) => v,
        None => {
            return Err(CustomError::ArithmeticOverflow);
        },
    };
    let milestone_8_months = match config.tge_time.checked_add(offset_8) {
        Some(v) => v,
        None => {
            return Err(CustomError::ArithmeticOverflow);
        },
    };
    let offset_18 = match month_in_seconds.checked_mul(18) {
        Some(v) => v,
        None => {
            return Err(CustomError::ArithmeticOverflow);
        },
    };
    let milestone_18_months = match config.tge_time.checked_add(offset_18) {
        Some(v) => v,
        None => {
            return Err(CustomError::ArithmeticOverflow);
        },
    };
    let offset_24 = match month_in_seconds.checked_mul(24) {
        Some(v) => v,
        None => {
            return Err(CustomError::ArithmeticOverflow);
        },
    };
    let milestone_24_months = match config.tge_time.checked_add(offset_24) {
        Some(v) => v,
        None => {
            return Err(CustomError::ArithmeticOverflow);
        },
    };
    let offset_36 = match month_in_seconds.checked_mul(36) {
        Some(v) => v,
        None => {
            return Err(CustomError::ArithmeticOverflow);
        },
    };
    let milestone_36_months = match config.tge_time.checked_add(offset_36) {
        Some(v) => v,
        None => {
            return Err(CustomError::ArithmeticOverflow);
        },
    };
    let is_completed = current_time >= milestone_36_months;
    Ok(
        LinearSchedule {
            tge_timestamp: config.tge_time,
            milestone_8_months,
            milestone_18_months,
            milestone_24_months,
            milestone_36_months,
            is_completed,
        },
    )
}

} // verus!
