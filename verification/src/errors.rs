//! The error taxonomy of the sale and vesting engine.

use vstd::prelude::*;

verus! {

/// Every way a sale or vesting transition can be refused.  A transition that
/// returns one of these has not changed any state.
#[derive(Clone, Copy, PartialEq, Eq, Structural, Debug)]
pub enum CustomError {
    /// The requested vesting type is not one of the supported kinds.
    InvalidVestingType,
    /// Purchases are rejected while the sale is paused.
    ICOIsPaused,
    /// The current time is outside the sale window.
    ICOPhaseInvalid,
    /// The tokens computed for a single purchase fall outside the
    /// configured per-purchase bounds.
    InvalidBuyAmount,
    /// A checked multiplication or addition on the purchase path would
    /// have wrapped.
    CalculationOverflow,
    /// The caller is not allowed to perform this operation.
    UnauthorizedAccess,
    /// No investor record exists for the given identity.
    InvestorNotFound,
    /// The token kind selector is not one of the supported kinds.
    InvalidTokenType,
    /// The reserve or treasury does not hold enough to cover the request.
    InsufficientFunds,
    /// An identity argument is the reserved null identity.
    InvalidAddress,
    /// The investor is blocked and may not claim.
    InvestorIsBlocked,
    /// The current time is on the wrong side of the token-generation event
    /// for this operation.
    TGEDateInvalid,
    /// Nothing is claimable at the current time.
    NoTokensAvailableToClaim,
    /// A checked arithmetic operation would have wrapped.
    ArithmeticOverflow,
    /// The wallet given for a treasury update is of the wrong kind.
    InvalidWalletType,
    /// The treasury account given does not match the configuration.
    InvalidTreasury,
    /// The requested vesting type differs from the investor's existing one.
    MismatchedVestingType,
    /// The buyer's remaining balance would fall below the host's
    /// rent-exemption floor.
    BuyerNotRentExempt,
}

impl CustomError {
    /// A short human-readable description of the error.
    pub fn message(&self) -> &'static str {
        match self {
            CustomError::InvalidVestingType => "The provided vesting type is not supported.",
            CustomError::ICOIsPaused => "ICO is paused.",
            CustomError::ICOPhaseInvalid => "ICO has not started or has ended.",
            CustomError::InvalidBuyAmount => "The purchase amount is below the minimum or above the maximum allowed.",
            CustomError::CalculationOverflow => "Calculation overflow occurred.",
            CustomError::UnauthorizedAccess => "Unauthorized access. Only admin can perform this action.",
            CustomError::InvestorNotFound => "Investor not found in whitelist.",
            CustomError::InvalidTokenType => "Invalid token type specified.",
            CustomError::InsufficientFunds => "Insufficient funds for withdrawal.",
            CustomError::InvalidAddress => "Invalid address provided.",
            CustomError::InvestorIsBlocked => "Investor is blocked.",
            CustomError::TGEDateInvalid => "TGE date is invalid.",
            CustomError::NoTokensAvailableToClaim => "No Token Available to claim",
            CustomError::ArithmeticOverflow => "Arithmetic overflow occurred",
            CustomError::InvalidWalletType => "Invalid Treasury wallet type. Must be a system-owned wallet.",
            CustomError::InvalidTreasury => "You assign invalid treasury",
            CustomError::MismatchedVestingType => "Mismatched vesting type for existing investor.",
            CustomError::BuyerNotRentExempt => "Buyer have not enough rent exempt",
        }
    }
}

} // verus!
