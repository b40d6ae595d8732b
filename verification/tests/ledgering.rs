//! The sale as one ledger: sequences of purchases, grants, claims,
//! blocks and removals, with the aggregate totals checked against the sum
//! over every record after each step.

use vesting_project::admin::initialize;
use vesting_project::errors::CustomError;
use vesting_project::ledger::SaleLedger;
use vesting_project::purchase::Currency;
use vesting_project::state::{TokenIco, VESTING_TYPE_IMMEDIATE, VESTING_TYPE_LINEAR};

const ADMIN: u64 = 900;
const TGE: u64 = 10_000;
const DAY: u64 = 86_400;

fn config() -> TokenIco {
    initialize(
        ADMIN, 11, 21, 22, 23, 24, 31, 32, 6, 6, 9, 1_000, 9_000, TGE, 100, 50_000_000_000,
        20_000, 1_000, 1_000, DAY,
    )
}

fn totals(ledger: &SaleLedger) -> (u64, u64) {
    let mut allocated: u64 = 0;
    let mut claimed: u64 = 0;
    for inv in ledger.investors.iter() {
        allocated += inv.allocation;
        claimed += inv.claimed_tokens;
    }
    (allocated, claimed)
}

fn check_aggregates(ledger: &SaleLedger) {
    let (allocated, claimed) = totals(ledger);
    assert_eq!(ledger.config.total_allocated, allocated);
    assert_eq!(ledger.config.total_claimed, claimed);
}

#[test]
fn aggregates_match_sums_over_a_sequence() {
    let mut ledger = SaleLedger::new(config());
    check_aggregates(&ledger);

    // Three investors buy, one twice; one is granted by the admin.
    ledger.purchase(1, 1_000_000_000, Currency::Sol, VESTING_TYPE_IMMEDIATE, 5_000).unwrap();
    check_aggregates(&ledger);
    ledger.purchase(2, 2_000_000_000, Currency::Sol, VESTING_TYPE_LINEAR, 5_100).unwrap();
    check_aggregates(&ledger);
    ledger.purchase(1, 3_000_000_000, Currency::Sol, VESTING_TYPE_IMMEDIATE, 5_200).unwrap();
    check_aggregates(&ledger);
    ledger.purchase(3, 500_000_000_000, Currency::Usdc, VESTING_TYPE_LINEAR, 5_300).unwrap();
    check_aggregates(&ledger);
    ledger.whitelist_grant(ADMIN, 4, 9_999, VESTING_TYPE_IMMEDIATE, 5_400).unwrap();
    check_aggregates(&ledger);

    assert_eq!(ledger.investors.len(), 4);
    assert_eq!(ledger.config.total_allocated, 20_000 + 40_000 + 60_000 + 500_000 + 9_999);

    // Claims move both the record and the aggregate.
    ledger.claim(1, TGE, u64::MAX / 2).unwrap();
    check_aggregates(&ledger);
    ledger.claim(2, TGE + 8 * 30 * DAY, u64::MAX / 2).unwrap();
    check_aggregates(&ledger);

    // Removing an investor who never claimed reverses their allocation.
    ledger.remove(ADMIN, 3).unwrap();
    check_aggregates(&ledger);
    assert_eq!(ledger.investors.len(), 3);
    assert_eq!(ledger.investor_record(3), None);
}

#[test]
fn ledger_creates_records_on_first_touch() {
    let mut ledger = SaleLedger::new(config());
    assert_eq!(ledger.investor_record(7), None);
    ledger.purchase(7, 1_000_000_000, Currency::Sol, VESTING_TYPE_LINEAR, 5_000).unwrap();
    let rec = ledger.investor_record(7).unwrap();
    assert_eq!(rec.address, 7);
    assert_eq!(rec.allocation, 20_000);
    assert_eq!(rec.cliff_end, TGE);
    // A second purchase reuses the record.
    ledger.purchase(7, 1_000_000_000, Currency::Sol, VESTING_TYPE_LINEAR, 5_500).unwrap();
    assert_eq!(ledger.investors.len(), 1);
    assert_eq!(ledger.investor_record(7).unwrap().allocation, 40_000);
}

#[test]
fn ledger_claim_needs_a_record() {
    let mut ledger = SaleLedger::new(config());
    let r = ledger.claim(5, TGE, 1_000_000);
    assert_eq!(r, Err(CustomError::InvestorNotFound));
    let r = ledger.remove(ADMIN, 5);
    assert_eq!(r, Err(CustomError::InvestorNotFound));
    let r = ledger.block(ADMIN, 5);
    assert_eq!(r, Err(CustomError::InvestorNotFound));
}

#[test]
fn ledger_block_stops_claims_only() {
    let mut ledger = SaleLedger::new(config());
    ledger.purchase(7, 1_000_000_000, Currency::Sol, VESTING_TYPE_IMMEDIATE, 5_000).unwrap();
    assert_eq!(ledger.block(7, 7), Err(CustomError::UnauthorizedAccess));
    assert_eq!(ledger.block(ADMIN, 7), Ok(()));
    assert_eq!(ledger.claim(7, TGE, 1_000_000), Err(CustomError::InvestorIsBlocked));
    // A blocked investor can still be granted more.
    ledger.purchase(7, 1_000_000_000, Currency::Sol, VESTING_TYPE_IMMEDIATE, 5_500).unwrap();
    assert_eq!(ledger.investor_record(7).unwrap().allocation, 40_000);
    check_aggregates(&ledger);
}

#[test]
fn ledger_errors_change_nothing() {
    let mut ledger = SaleLedger::new(config());
    ledger.purchase(7, 1_000_000_000, Currency::Sol, VESTING_TYPE_IMMEDIATE, 5_000).unwrap();
    let config_before = ledger.config;
    let records_before = ledger.investors.clone();
    // Mismatched vesting kind.
    let r = ledger.purchase(7, 1_000_000_000, Currency::Sol, VESTING_TYPE_LINEAR, 5_100);
    assert_eq!(r, Err(CustomError::MismatchedVestingType));
    // Claim before the event.
    let r = ledger.claim(7, TGE - 1, 1_000_000);
    assert_eq!(r, Err(CustomError::TGEDateInvalid));
    // Unauthorized grant.
    let r = ledger.whitelist_grant(7, 8, 1_000, VESTING_TYPE_LINEAR, 5_200);
    assert_eq!(r, Err(CustomError::UnauthorizedAccess));
    assert_eq!(ledger.config, config_before);
    assert_eq!(ledger.investors, records_before);
}
