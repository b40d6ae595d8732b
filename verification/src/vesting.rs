//! The vesting engine: pure functions from vesting kind, allocation and
//! elapsed time to the amount currently releasable and to the next cliff.
//!
//! Two schedules exist.  Immediate: one tenth of the allocation at the
//! token-generation event, then a fixed daily amount (one 365th of the
//! remainder, truncated) for 365 vesting days, with the final day forced to
//! the full allocation so truncation leaves no residue.  Linear: one
//! twentieth at the event, then 10% after 8 months, 20% after 18, 20% after
//! 24, and the full allocation from 36 months on, a month being thirty
//! vesting days.
//!
//! All arithmetic is integer; operations that could wrap are checked and
//! fail with `ArithmeticOverflow` instead of wrapping.

use vstd::arithmetic::div_mod::{
    lemma_div_is_ordered, lemma_div_multiples_vanish, lemma_fundamental_div_mod,
};
use vstd::arithmetic::mul::lemma_mul_inequality;
use vstd::prelude::*;

use crate::errors::CustomError;
use crate::state::{VESTING_TYPE_IMMEDIATE, VESTING_TYPE_LINEAR};

verus! {

/// Whole vesting days elapsed since `tge` at time `now`; zero before `tge`.
/// Meaningful only when `spd != 0` or `now <= tge`.
pub open spec fn spec_days_passed(tge: u64, spd: u64, now: u64) -> int {
    if now <= tge {
        0
    } else {
        (now - tge) / (spd as int)
    }
}

/// Seconds elapsed since `tge` at time `now`; zero before `tge`.
pub open spec fn spec_elapsed(tge: u64, now: u64) -> int {
    if now <= tge {
        0
    } else {
        now - tge
    }
}

/// The amount unlocked at `now` under the Immediate schedule, as unbounded
/// integer arithmetic.
pub open spec fn spec_immediate_releasable(alloc: u64, tge: u64, spd: u64, now: u64) -> int {
    let initial = 10 * alloc / 100;
    let daily = (alloc - initial) / 365;
    let days = spec_days_passed(tge, spd, now);
    if days >= 365 {
        alloc as int
    } else {
        initial + daily * days
    }
}

/// When the Immediate computation fails with `ArithmeticOverflow`: the
/// initial-release product does not fit, or the day length is zero while
/// time has elapsed.
pub open spec fn immediate_overflows(alloc: u64, tge: u64, spd: u64, now: u64) -> bool {
    ||| 10 * alloc > u64::MAX
    ||| (now > tge && spd == 0)
}

/// The amount unlocked at `now` under the Linear schedule, as unbounded
/// integer arithmetic.  From the 36-month milestone on, the whole
/// allocation is released, closing any truncation gap.
pub open spec fn spec_linear_releasable(alloc: u64, tge: u64, spd: u64, now: u64) -> int {
    let m = 30 * spd;
    let e = spec_elapsed(tge, now);
    if e >= 36 * m {
        alloc as int
    } else {
        5 * alloc / 100 + (if e >= 8 * m {
            10 * alloc / 100
        } else {
            0
        }) + (if e >= 18 * m {
            20 * alloc / 100
        } else {
            0
        }) + (if e >= 24 * m {
            20 * alloc / 100
        } else {
            0
        })
    }
}

/// When the Linear computation fails with `ArithmeticOverflow`: the initial
/// release or a milestone product does not fit, or a crossed milestone's
/// tranche product does not fit.
pub open spec fn linear_overflows(alloc: u64, tge: u64, spd: u64, now: u64) -> bool {
    ||| 5 * alloc > u64::MAX
    ||| 36 * (30 * spd) > u64::MAX
    ||| (spec_elapsed(tge, now) >= 8 * (30 * spd) && 10 * alloc > u64::MAX)
    ||| (spec_elapsed(tge, now) >= 18 * (30 * spd) && 20 * alloc > u64::MAX)
}

/// What the engine answers for the total releasable amount: the schedule's
/// value, or the exact error.
pub open spec fn spec_total_releasable(vt: u8, alloc: u64, tge: u64, spd: u64, now: u64) -> Result<
    u64,
    CustomError,
> {
    if vt == VESTING_TYPE_IMMEDIATE {
        if immediate_overflows(alloc, tge, spd, now) {
            Err(CustomError::ArithmeticOverflow)
        } else {
            Ok(spec_immediate_releasable(alloc, tge, spd, now) as u64)
        }
    } else if vt == VESTING_TYPE_LINEAR {
        if linear_overflows(alloc, tge, spd, now) {
            Err(CustomError::ArithmeticOverflow)
        } else {
            Ok(spec_linear_releasable(alloc, tge, spd, now) as u64)
        }
    } else {
        Err(CustomError::InvalidVestingType)
    }
}

/// What the engine answers for a claim inquiry: the pair of the claimable
/// amount (releasable minus already claimed, floored at zero) and the total
/// releasable amount, or the exact error.
pub open spec fn spec_claimable(
    vt: u8,
    alloc: u64,
    claimed: u64,
    tge: u64,
    spd: u64,
    now: u64,
) -> Result<(u64, u64), CustomError> {
    match spec_total_releasable(vt, alloc, tge, spd, now) {
        Ok(rel) => Ok(
            (
                (if claimed >= rel {
                    0
                } else {
                    rel - claimed
                }) as u64,
                rel,
            ),
        ),
        Err(e) => Err(e),
    }
}

/// The releasable amount under Immediate never exceeds the allocation.
pub proof fn lemma_immediate_releasable_bounds(alloc: u64, tge: u64, spd: u64, now: u64)
    requires
        now <= tge || spd > 0,
    ensures
        0 <= spec_immediate_releasable(alloc, tge, spd, now) <= alloc,
{
    let initial = 10 * alloc / 100;
    let daily = (alloc - initial) / 365;
    let days = spec_days_passed(tge, spd, now);
    lemma_div_is_ordered(10 * alloc, 100 * alloc, 100);
    lemma_div_multiples_vanish(alloc as int, 100);
    assert(initial <= alloc);
    if days < 365 {
        if now > tge && spd > 0 {
            lemma_div_is_ordered(0, now - tge, spd as int);
        }
        assert(0 <= days);
        lemma_div_is_ordered(0, alloc - initial, 365);
        lemma_fundamental_div_mod(alloc - initial, 365);
        assert(365 * daily <= alloc - initial);
        lemma_mul_inequality(days, 365, daily);
        assert(days * daily <= 365 * daily);
        assert(daily * days <= alloc - initial);
    }
}

/// The releasable amount under Linear never exceeds the allocation.
pub proof fn lemma_linear_releasable_bounds(alloc: u64, tge: u64, spd: u64, now: u64)
    ensures
        0 <= spec_linear_releasable(alloc, tge, spd, now) <= alloc,
{
    lemma_fundamental_div_mod(5 * alloc, 100);
    lemma_fundamental_div_mod(10 * alloc, 100);
    lemma_fundamental_div_mod(20 * alloc, 100);
    assert(100 * (5 * alloc / 100) <= 5 * alloc);
    assert(100 * (10 * alloc / 100) <= 10 * alloc);
    assert(100 * (20 * alloc / 100) <= 20 * alloc);
    lemma_div_is_ordered(0, 5 * alloc, 100);
    lemma_div_is_ordered(0, 10 * alloc, 100);
    lemma_div_is_ordered(0, 20 * alloc, 100);
}

/// Computes the pair of claimable and total-releasable amounts for an
/// investor with `total_allocation` granted and `already_claimed` claimed,
/// at `current_time`.
///
/// The claimable amount saturates at zero: it is never negative, even when
/// `already_claimed` exceeds the recomputed releasable amount (possible
/// after an admin changed `seconds_per_day`).
pub fn calculate_claimable_tokens(
    vesting_type: u8,
    total_allocation: u64,
    already_claimed: u64,
    tge_time: u64,
    seconds_per_day: u64,
    current_time: u64,
) -> (r: Result<(u64, u64), CustomError>)
    ensures
        r == spec_claimable(
            vesting_type,
            total_allocation,
            already_claimed,
            tge_time,
            seconds_per_day,
            current_time,
        ),
        (match r {
            Ok(p) => p.1 <= total_allocation && p.0 == (if already_claimed >= p.1 {
                0int
            } else {
                p.1 - already_claimed
            }),
            Err(e) => e == CustomError::ArithmeticOverflow || e == CustomError::InvalidVestingType,
        }),
{
    let total_releasable: u64 = if vesting_type == VESTING_TYPE_IMMEDIATE {
        let ten = match total_allocation.checked_mul(10) {
            Some(v) => v,
            None => {
                return Err(CustomError::ArithmeticOverflow);
            },
        };
        let initial_release: u64 = ten / 100;
        proof {
            lemma_div_is_ordered(10 * total_allocation, 100 * total_allocation, 100);
            lemma_div_multiples_vanish(total_allocation as int, 100);
        }
        let remaining_allocation: u64 = total_allocation - initial_release;
        let daily_release: u64 = remaining_allocation / 365;
        let days_passed: u64 = if current_time <= tge_time {
            0
        } else {
            match (current_time - tge_time).checked_div(seconds_per_day) {
                Some(v) => v,
                None => {
                    return Err(CustomError::ArithmeticOverflow);
                },
            }
        };
        let effective_days: u64 = if days_passed < 365 {
            days_passed
        } else {
            365
        };
        if effective_days == 365 {
            total_allocation
        } else {
            proof {
                lemma_fundamental_div_mod(remaining_allocation as int, 365);
                assert(365 * daily_release <= remaining_allocation);
                lemma_mul_inequality(effective_days as int, 365, daily_release as int);
            }
            let vested_from_daily: u64 = daily_release * effective_days;
            initial_release + vested_from_daily
        }
    } else if vesting_type == VESTING_TYPE_LINEAR {
        let five = match total_allocation.checked_mul(5) {
            Some(v) => v,
            None => {
                return Err(CustomError::ArithmeticOverflow);
            },
        };
        let initial_release: u64 = five / 100;
        let month_in_seconds = match seconds_per_day.checked_mul(30) {
            Some(v) => v,
            None => {
                return Err(CustomError::ArithmeticOverflow);
            },
        };
        let milestone_8_months = match month_in_seconds.checked_mul(8) {
            Some(v) => v,
            None => {
                return Err(CustomError::ArithmeticOverflow);
            },
        };
        let milestone_18_months = match month_in_seconds.checked_mul(18) {
            Some(v) => v,
            None => {
                return Err(CustomError::ArithmeticOverflow);
            },
        };
        let milestone_24_months = match month_in_seconds.checked_mul(24) {
            Some(v) => v,
            None => {
                return Err(CustomError::ArithmeticOverflow);
            },
        };
        let milestone_36_months = match month_in_seconds.checked_mul(36) {
            Some(v) => v,
            None => {
                return Err(CustomError::ArithmeticOverflow);
            },
        };
        let time_elapsed: u64 = if current_time <= tge_time {
            0
        } else {
            current_time - tge_time
        };
        proof {
            lemma_fundamental_div_mod(5 * total_allocation, 100);
            lemma_fundamental_div_mod(10 * total_allocation, 100);
            lemma_fundamental_div_mod(20 * total_allocation, 100);
            lemma_div_is_ordered(0, 5 * total_allocation, 100);
            lemma_div_is_ordered(0, 10 * total_allocation, 100);
            lemma_div_is_ordered(0, 20 * total_allocation, 100);
        }
        let mut vested_amount: u64 = initial_release;
        if time_elapsed >= milestone_8_months {
            let tranche = match total_allocation.checked_mul(10) {
                Some(v) => v,
                None => {
                    return Err(CustomError::ArithmeticOverflow);
                },
            };
            vested_amount = vested_amount + tranche / 100;
        }
        if time_elapsed >= milestone_18_months {
            let tranche = match total_allocation.checked_mul(20) {
                Some(v) => v,
                None => {
                    return Err(CustomError::ArithmeticOverflow);
                },
            };
            vested_amount = vested_amount + tranche / 100;
        }
        if time_elapsed >= milestone_24_months {
            let tranche = match total_allocation.checked_mul(20) {
                Some(v) => v,
                None => {
                    return Err(CustomError::ArithmeticOverflow);
                },
            };
            vested_amount = vested_amount + tranche / 100;
        }
        if time_elapsed >= milestone_36_months {
            vested_amount = total_allocation;
        }
        vested_amount
    } else {
        return Err(CustomError::InvalidVestingType);
    };
    proof {
        if vesting_type == VESTING_TYPE_IMMEDIATE {
            lemma_immediate_releasable_bounds(
                total_allocation,
                tge_time,
                seconds_per_day,
                current_time,
            );
        } else {
            lemma_linear_releasable_bounds(
                total_allocation,
                tge_time,
                seconds_per_day,
                current_time,
            );
        }
    }
    let claimable = total_releasable.saturating_sub(already_claimed);
    Ok((claimable, total_releasable))
}

/// What the engine answers for the next cliff under Immediate: the last
/// cliff advanced past `now` by whole vesting days, at most 365 of them.
pub open spec fn spec_next_cliff_immediate(lce: u64, spd: u64, now: u64) -> Result<
    u64,
    CustomError,
> {
    if now > lce && spd == 0 {
        Err(CustomError::ArithmeticOverflow)
    } else {
        let days = if now <= lce {
            0
        } else {
            (now - lce) / (spd as int)
        };
        let eff = if days + 1 <= 365 {
            days + 1
        } else {
            365
        };
        if spd * eff > u64::MAX {
            Err(CustomError::ArithmeticOverflow)
        } else if lce + spd * eff > u64::MAX {
            Err(CustomError::ArithmeticOverflow)
        } else {
            Ok((lce + spd * eff) as u64)
        }
    }
}

/// What the engine answers for the next cliff under Linear: the first
/// milestone date after `now`, or the terminal 36-month date once all are
/// passed.
pub open spec fn spec_next_cliff_linear(tge: u64, spd: u64, now: u64) -> Result<u64, CustomError> {
    let m = 30 * spd;
    if m > u64::MAX {
        Err(CustomError::ArithmeticOverflow)
    } else if tge + 8 * m > u64::MAX {
        Err(CustomError::ArithmeticOverflow)
    } else if tge + 8 * m > now {
        Ok((tge + 8 * m) as u64)
    } else if tge + 18 * m > u64::MAX {
        Err(CustomError::ArithmeticOverflow)
    } else if tge + 18 * m > now {
        Ok((tge + 18 * m) as u64)
    } else if tge + 24 * m > u64::MAX {
        Err(CustomError::ArithmeticOverflow)
    } else if tge + 24 * m > now {
        Ok((tge + 24 * m) as u64)
    } else if tge + 36 * m > u64::MAX {
        Err(CustomError::ArithmeticOverflow)
    } else {
        Ok((tge + 36 * m) as u64)
    }
}

/// What the engine answers for the next cliff, by vesting kind.
pub open spec fn spec_next_cliff(vt: u8, lce: u64, spd: u64, tge: u64, now: u64) -> Result<
    u64,
    CustomError,
> {
    if vt == VESTING_TYPE_IMMEDIATE {
        spec_next_cliff_immediate(lce, spd, now)
    } else if vt == VESTING_TYPE_LINEAR {
        spec_next_cliff_linear(tge, spd, now)
    } else {
        Err(CustomError::InvalidVestingType)
    }
}

/// Computes the earliest timestamp at which the next tranche becomes
/// available, from the last cliff (Immediate) or the milestone schedule
/// (Linear).  Informational: claims are gated only by the claimable amount.
pub fn get_next_cliff_end(
    vesting_type: u8,
    last_cliff_end: u64,
    seconds_per_day: u64,
    tge_date: u64,
    current_time: u64,
) -> (r: Result<u64, CustomError>)
    ensures
        r == spec_next_cliff(vesting_type, last_cliff_end, seconds_per_day, tge_date, current_time),
{
    if vesting_type == VESTING_TYPE_IMMEDIATE {
        let days_passed: u64 = if current_time <= last_cliff_end {
            0
        } else {
            match (current_time - last_cliff_end).checked_div(seconds_per_day) {
                Some(v) => v,
                None => {
                    return Err(CustomError::ArithmeticOverflow);
                },
            }
        };
        let effective_days: u64 = if days_passed < 365 {
            days_passed + 1
        } else {
            365
        };
        let total_seconds = match seconds_per_day.checked_mul(effective_days) {
            Some(v) => v,
            None => {
                return Err(CustomError::ArithmeticOverflow);
            },
        };
        match last_cliff_end.checked_add(total_seconds) {
            Some(v) => Ok(v),
            None => Err(CustomError::ArithmeticOverflow),
        }
    } else if vesting_type == VESTING_TYPE_LINEAR {
        let month_in_seconds = match seconds_per_day.checked_mul(30) {
            Some(v) => v,
            None => {
                return Err(CustomError::ArithmeticOverflow);
            },
        };
        let milestone_8 = match month_in_seconds.checked_mul(8) {
            Some(v) => v,
            None => {
                return Err(CustomError::ArithmeticOverflow);
            },
        };
        let date_8 = match tge_date.checked_add(milestone_8) {
            Some(v) => v,
            None => {
                return Err(CustomError::ArithmeticOverflow);
            },
        };
        if date_8 > current_time {
            return Ok(date_8);
        }
        let milestone_18 = match month_in_seconds.checked_mul(18) {
            Some(v) => v,
            None => {
                return Err(CustomError::ArithmeticOverflow);
            },
        };
        let date_18 = match tge_date.checked_add(milestone_18) {
            Some(v) => v,
            None => {
                return Err(CustomError::ArithmeticOverflow);
            },
        };
        if date_18 > current_time {
            return Ok(date_18);
        }
        let milestone_24 = match month_in_seconds.checked_mul(24) {
            Some(v) => v,
            None => {
                return Err(CustomError::ArithmeticOverflow);
            },
        };
        let date_24 = match tge_date.checked_add(milestone_24) {
            Some(v) => v,
            None => {
                return Err(CustomError::ArithmeticOverflow);
            },
        };
        if date_24 > current_time {
            return Ok(date_24);
        }
        let milestone_36 = match month_in_seconds.checked_mul(36) {
            Some(v) => v,
            None => {
                return Err(CustomError::ArithmeticOverflow);
            },
        };
        let date_36 = match tge_date.checked_add(milestone_36) {
            Some(v) => v,
            None => {
                return Err(CustomError::ArithmeticOverflow);
            },
        };
        Ok(date_36)
    } else {
        Err(CustomError::InvalidVestingType)
    }
}

/// The claimable amount saturates: when the recorded claims reach or exceed
/// the recomputed releasable amount, the claimable amount is zero, never an
/// underflowed value; and it never exceeds the releasable amount.
pub proof fn lemma_claimable_saturates(
    vt: u8,
    alloc: u64,
    claimed: u64,
    tge: u64,
    spd: u64,
    now: u64,
)
    ensures
        (match spec_claimable(vt, alloc, claimed, tge, spd, now) {
            Ok(p) => (claimed >= p.1 ==> p.0 == 0) && p.0 <= p.1,
            Err(_) => true,
        }),
{
}

/// At the token-generation event itself, the Immediate schedule releases
/// exactly one tenth of the allocation (integer truncation).
pub proof fn lemma_immediate_at_tge(alloc: u64, tge: u64, spd: u64)
    requires
        10 * alloc <= u64::MAX,
    ensures
        spec_total_releasable(VESTING_TYPE_IMMEDIATE, alloc, tge, spd, tge) == Ok::<
            u64,
            CustomError,
        >((10 * alloc / 100) as u64),
{
    lemma_immediate_releasable_bounds(alloc, tge, spd, tge);
}

/// From 365 vesting days after the token-generation event on, the Immediate
/// schedule releases the whole allocation exactly, with no truncation
/// residue.
pub proof fn lemma_immediate_completes(alloc: u64, tge: u64, spd: u64, now: u64)
    requires
        10 * alloc <= u64::MAX,
        spd > 0,
        now >= tge + 365 * spd,
    ensures
        spec_total_releasable(VESTING_TYPE_IMMEDIATE, alloc, tge, spd, now) == Ok::<
            u64,
            CustomError,
        >(alloc),
{
    lemma_div_is_ordered(365 * spd, now - tge, spd as int);
    lemma_div_multiples_vanish(365, spd as int);
}

/// At the token-generation event itself, the Linear schedule releases
/// exactly one twentieth of the allocation (integer truncation).
pub proof fn lemma_linear_at_tge(alloc: u64, tge: u64, spd: u64)
    requires
        5 * alloc <= u64::MAX,
        spd > 0,
        36 * (30 * spd) <= u64::MAX,
    ensures
        spec_total_releasable(VESTING_TYPE_LINEAR, alloc, tge, spd, tge) == Ok::<u64, CustomError>(
            (5 * alloc / 100) as u64,
        ),
{
    lemma_linear_releasable_bounds(alloc, tge, spd, tge);
}

/// Between the 24-month and 36-month milestones, with every earlier
/// milestone crossed, the Linear schedule releases the sum of the 5%, 10%,
/// 20% and 20% tranches (each truncated separately).
pub proof fn lemma_linear_before_final(alloc: u64, tge: u64, spd: u64, now: u64)
    requires
        20 * alloc <= u64::MAX,
        36 * (30 * spd) <= u64::MAX,
        spec_elapsed(tge, now) >= 24 * (30 * spd),
        spec_elapsed(tge, now) < 36 * (30 * spd),
    ensures
        spec_total_releasable(VESTING_TYPE_LINEAR, alloc, tge, spd, now) == Ok::<u64, CustomError>(
            (5 * alloc / 100 + 10 * alloc / 100 + 20 * alloc / 100 + 20 * alloc / 100) as u64,
        ),
{
    lemma_linear_releasable_bounds(alloc, tge, spd, now);
}

/// From the 36-month milestone on, the Linear schedule releases the whole
/// allocation exactly.
pub proof fn lemma_linear_completes(alloc: u64, tge: u64, spd: u64, now: u64)
    requires
        20 * alloc <= u64::MAX,
        36 * (30 * spd) <= u64::MAX,
        spec_elapsed(tge, now) >= 36 * (30 * spd),
    ensures
        spec_total_releasable(VESTING_TYPE_LINEAR, alloc, tge, spd, now) == Ok::<u64, CustomError>(
            alloc,
        ),
{
}

/// The claim inquiry as the host exposes it; answers exactly as
/// `calculate_claimable_tokens`.
pub fn determine_claimable_tokens(
    vesting_type: u8,
    total_allocation: u64,
    already_claimed: u64,
    tge_time: u64,
    seconds_per_day: u64,
    current_time: u64,
) -> (r: Result<(u64, u64), CustomError>)
    ensures
        r == spec_claimable(
            vesting_type,
            total_allocation,
            already_claimed,
            tge_time,
            seconds_per_day,
            current_time,
        ),
{
    calculate_claimable_tokens(
        vesting_type,
        total_allocation,
        already_claimed,
        tge_time,
        seconds_per_day,
        current_time,
    )
}

} // verus!
