//! Accounting engine for a token sale with post-sale vesting.
//!
//! Investors purchase an allocation of a reward token with one of three
//! payment currencies during a sale window, and later claim the allocation
//! over time under one of two vesting schedules.  This crate holds the pure
//! state-transition and computation rules: converting a payment into a token
//! allocation under the sale's constraints, tracking each investor's
//! allocation and claims, and computing what is claimable at a given time.
//!
//! The host environment supplies the clock, performs the actual value
//! transfers, stores the records and authenticates signers; every function
//! here takes those observations as plain values and returns the resulting
//! state, so a failed external transfer simply means the host discards the
//! new state.

pub mod admin;
pub mod claim;
pub mod errors;
pub mod getters;
pub mod ledger;
pub mod purchase;
pub mod state;
pub mod vesting;
