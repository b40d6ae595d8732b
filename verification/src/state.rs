//! The sale configuration and the per-investor ledger record.

use vstd::prelude::*;

verus! {

/// The identity of an account in the host environment, reduced to the one
/// thing the engine reads of it: a comparable key.  The value `0` is the
/// null identity (no address).
pub type AccountId = u64;

/// Vesting kind: one tenth at the token-generation event, the rest released
/// daily over a year.
pub const VESTING_TYPE_IMMEDIATE: u8 = 0;

/// Vesting kind: a twentieth at the token-generation event, the rest at four
/// month-based milestones.
pub const VESTING_TYPE_LINEAR: u8 = 1;

/// Smallest units per whole unit of the native payment currency.
pub const LAMPORTS_PER_SOL: u64 = 1000000000;

/// Smallest units per whole reward token, also the denomination of the two
/// stable payment currencies.
pub const TOKEN_DECIMALS: u64 = 1000000000;

/// The one sale configuration: static parameters, admin-tunable fields and
/// running aggregates.
#[derive(Clone, Copy, PartialEq, Eq, Structural, Debug)]
pub struct TokenIco {
    /// Who may perform admin operations; `0` after ownership is renounced.
    pub authority: AccountId,
    /// Mint of the reward token being sold.
    pub reward_token_mint: AccountId,
    /// Treasury receiving native-currency payments.
    pub sol_treasury: AccountId,
    /// Treasury receiving payments in the first stable currency.
    pub usdc_treasury: AccountId,
    /// Treasury receiving payments in the second stable currency.
    pub usdt_treasury: AccountId,
    /// Treasury holding the reward tokens to be released.
    pub prize_treasury: AccountId,
    /// Mint of the first stable payment currency.
    pub usdc_mint: AccountId,
    /// Mint of the second stable payment currency.
    pub usdt_mint: AccountId,
    /// Decimals of the first stable payment currency's mint.
    pub usdc_decimals: u8,
    /// Decimals of the second stable payment currency's mint.
    pub usdt_decimals: u8,
    /// Decimals of the reward token's mint.
    pub reward_token_decimals: u8,
    /// First unix second at which purchases are accepted.
    pub ico_start_time: u64,
    /// Last unix second at which purchases are accepted.
    pub ico_end_time: u64,
    /// The token-generation event: claims start here, purchases end here.
    pub tge_time: u64,
    /// Smallest token amount a single purchase may allocate.
    pub min_amount: u64,
    /// Largest token amount a single purchase may allocate.
    pub max_amount: u64,
    /// Tokens allocated per whole unit of the native currency.
    pub tokens_per_sol: u64,
    /// Tokens allocated per whole unit of the first stable currency.
    pub tokens_per_usdc: u64,
    /// Tokens allocated per whole unit of the second stable currency.
    pub tokens_per_usdt: u64,
    /// Length of a vesting day in seconds; 86400 in production, smaller for
    /// accelerated schedules.
    pub seconds_per_day: u64,
    /// While set, purchases are rejected; claims are not.
    pub paused: bool,
    /// Running total of tokens allocated, kept for reporting.
    pub total_user_allocated: u64,
    /// Running total of reward tokens deposited into the prize treasury.
    pub total_prize_deposited: u64,
    /// Sum of every investor's `allocation`; decreased only by investor
    /// removal.
    pub total_allocated: u64,
    /// Sum of every investor's `claimed_tokens`.
    pub total_claimed: u64,
}

/// One investor's allocation and vesting state.
#[derive(Clone, Copy, PartialEq, Eq, Structural, Debug)]
pub struct Investor {
    /// The investor's identity; `0` until the first grant.
    pub address: AccountId,
    /// Cumulative tokens ever granted.
    pub allocation: u64,
    /// The vesting kind, fixed at the first grant.
    pub vesting_type: u8,
    /// Tokens released to the investor; kept in step with `claimed_tokens`.
    pub released_tokens: u64,
    /// Earliest time at which the next tranche becomes available;
    /// informational, refreshed after every successful claim.
    pub cliff_end: u64,
    /// Time of the most recent successful claim, `0` if none.
    pub last_claimed: u64,
    /// Cumulative tokens claimed.
    pub claimed_tokens: u64,
    /// While set, the investor may not claim; further grants stay allowed.
    pub blocked: bool,
    /// Time of the first grant, `0` until then.
    pub whitelisted_at: u64,
}

/// The all-zero investor record: the state before any grant, and again after
/// removal.
pub open spec fn spec_zero_investor() -> Investor {
    Investor {
        address: 0,
        allocation: 0,
        vesting_type: 0,
        released_tokens: 0,
        cliff_end: 0,
        last_claimed: 0,
        claimed_tokens: 0,
        blocked: false,
        whitelisted_at: 0,
    }
}

impl Investor {
    /// The record an investor starts from and is reset to on removal.
    pub fn zeroed() -> (r: Investor)
        ensures
            r == spec_zero_investor(),
    {
        Investor {
            address: 0,
            allocation: 0,
            vesting_type: 0,
            released_tokens: 0,
            cliff_end: 0,
            last_claimed: 0,
            claimed_tokens: 0,
            blocked: false,
            whitelisted_at: 0,
        }
    }

    /// The record's internal consistency: claims never exceed the
    /// allocation, and released tokens track claimed tokens.
    pub open spec fn wf(self) -> bool {
        &&& self.claimed_tokens <= self.allocation
        &&& self.released_tokens == self.claimed_tokens
    }
}

} // verus!
