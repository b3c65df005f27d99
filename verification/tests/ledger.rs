use rwa_collateral::error::{LedgerError, StateError, ValidationError};
use rwa_collateral::ledger::Ledger;
use rwa_collateral::policy::{max_loan, max_ltv};

const NOW: i64 = 1_700_000_000;
const DAY: i64 = 86_400;

fn pid() -> Vec<u8> {
    vec![3u8; 32]
}

fn owner() -> Vec<u8> {
    vec![9u8; 32]
}

fn borrower() -> Vec<u8> {
    vec![4u8; 32]
}

fn ledger_with_asset() -> Ledger {
    let mut ledger = Ledger::new();
    ledger
        .initialize_asset(
            &pid(),
            b"RWA-1".to_vec(),
            b"real-estate".to_vec(),
            1_000_000,
            b"ipfs://QmMeta".to_vec(),
            owner(),
        )
        .unwrap();
    ledger
}

#[test]
fn ltv_tier_table() {
    assert_eq!(max_ltv(0), 70);
    assert_eq!(max_ltv(20), 70);
    assert_eq!(max_ltv(21), 60);
    assert_eq!(max_ltv(40), 60);
    assert_eq!(max_ltv(41), 50);
    assert_eq!(max_ltv(60), 50);
    assert_eq!(max_ltv(61), 35);
    assert_eq!(max_ltv(80), 35);
    assert_eq!(max_ltv(81), 20);
    assert_eq!(max_ltv(100), 20);
}

#[test]
fn max_loan_values() {
    assert_eq!(max_loan(1_000_000, 50), 500_000);
    assert_eq!(max_loan(1_000_000, 10), 700_000);
    assert_eq!(max_loan(1_000_000, 30), 600_000);
    assert_eq!(max_loan(1_000_000, 75), 350_000);
    assert_eq!(max_loan(1_000_000, 90), 200_000);
    // Rounds down.
    assert_eq!(max_loan(999, 50), 499);
    assert_eq!(max_loan(u64::MAX, 0), u64::MAX / 100 * 70 + u64::MAX % 100 * 70 / 100);
}

#[test]
fn max_loan_monotonic_spot_checks() {
    let v = 123_456_789;
    for pair in [(0u8, 20u8), (20, 21), (21, 40), (40, 41), (60, 61), (80, 81), (99, 100)] {
        assert!(max_loan(v, pair.0) >= max_loan(v, pair.1));
    }
}

#[test]
fn initialize_asset_defaults() {
    let mut ledger = Ledger::new();
    let addr = ledger
        .initialize_asset(
            &pid(),
            b"RWA-1".to_vec(),
            b"real-estate".to_vec(),
            1_000_000,
            b"ipfs://QmMeta".to_vec(),
            owner(),
        )
        .unwrap();
    assert_eq!(addr.len(), 32);
    let a = ledger.get_asset(&pid(), &b"RWA-1".to_vec()).unwrap();
    assert_eq!(a.risk_score, 50);
    assert!(a.is_active);
    assert_eq!(a.valuation, 1_000_000);
    assert_eq!(a.asset_id, b"RWA-1".to_vec());
    assert_eq!(a.owner, owner());
}

#[test]
fn initialize_asset_twice_collides() {
    let mut ledger = ledger_with_asset();
    let second = ledger.initialize_asset(
        &pid(),
        b"RWA-1".to_vec(),
        b"warehouse".to_vec(),
        5,
        b"x".to_vec(),
        owner(),
    );
    assert_eq!(second, Err(LedgerError::State(StateError::AlreadyExists)));
    // The record created first is untouched.
    let a = ledger.get_asset(&pid(), &b"RWA-1".to_vec()).unwrap();
    assert_eq!(a.valuation, 1_000_000);
}

#[test]
fn create_loan_boundary_too_high_first() {
    // At risk score 50 the ceiling is 50% of the valuation.
    let mut ledger = ledger_with_asset();
    let too_high = ledger.create_loan(
        &pid(),
        &b"RWA-1".to_vec(),
        borrower(),
        500_001,
        750,
        DAY,
        NOW,
    );
    assert_eq!(too_high, Err(LedgerError::Validation(ValidationError::LoanTooHigh)));
    // The failing call consumed nothing, so the boundary amount still works.
    let ok = ledger.create_loan(&pid(), &b"RWA-1".to_vec(), borrower(), 500_000, 750, DAY, NOW);
    assert!(ok.is_ok());
}

#[test]
fn create_loan_boundary_success_first() {
    let mut ledger = ledger_with_asset();
    let addr = ledger
        .create_loan(&pid(), &b"RWA-1".to_vec(), borrower(), 500_000, 750, DAY, NOW)
        .unwrap();
    let loan = ledger.get_loan(&addr).unwrap();
    assert_eq!(loan.principal, 500_000);
    assert_eq!(loan.interest_rate, 750);
    assert_eq!(loan.start_time, NOW);
    assert_eq!(loan.end_time, NOW + DAY);
    assert_eq!(loan.risk_score_at_creation, 50);
    assert!(loan.is_active);
    assert!(!loan.repaid);
    assert!(!loan.liquidated);
    // The first call consumed the address: the same pair now collides,
    // whatever the amount.
    let again = ledger.create_loan(&pid(), &b"RWA-1".to_vec(), borrower(), 500_001, 750, DAY, NOW);
    assert_eq!(again, Err(LedgerError::State(StateError::AlreadyExists)));
}

#[test]
fn create_loan_against_missing_asset() {
    let mut ledger = Ledger::new();
    let r = ledger.create_loan(&pid(), &b"ghost".to_vec(), borrower(), 1, 1, DAY, NOW);
    assert_eq!(r, Err(LedgerError::NotFound));
}

#[test]
fn liquidation_after_risk_rises() {
    let mut ledger = ledger_with_asset();
    let addr = ledger
        .create_loan(&pid(), &b"RWA-1".to_vec(), borrower(), 500_000, 750, DAY, NOW)
        .unwrap();
    ledger.update_risk_score(&pid(), &b"RWA-1".to_vec(), 85).unwrap();
    ledger.liquidate_loan(&addr).unwrap();
    let loan = ledger.get_loan(&addr).unwrap();
    assert!(loan.liquidated);
    assert!(!loan.is_active);
    assert!(!loan.repaid);
}

#[test]
fn liquidation_not_eligible_below_threshold() {
    let mut ledger = ledger_with_asset();
    let addr = ledger
        .create_loan(&pid(), &b"RWA-1".to_vec(), borrower(), 400_000, 750, DAY, NOW)
        .unwrap();
    ledger.update_risk_score(&pid(), &b"RWA-1".to_vec(), 75).unwrap();
    let r = ledger.liquidate_loan(&addr);
    assert_eq!(r, Err(LedgerError::Validation(ValidationError::NotEligible)));
    let loan = ledger.get_loan(&addr).unwrap();
    assert!(loan.is_active);
    assert!(!loan.liquidated);
}

#[test]
fn liquidation_fails_at_exactly_80() {
    let mut ledger = ledger_with_asset();
    let addr = ledger
        .create_loan(&pid(), &b"RWA-1".to_vec(), borrower(), 400_000, 750, DAY, NOW)
        .unwrap();
    ledger.update_risk_score(&pid(), &b"RWA-1".to_vec(), 80).unwrap();
    let r = ledger.liquidate_loan(&addr);
    assert_eq!(r, Err(LedgerError::Validation(ValidationError::NotEligible)));
}

#[test]
fn repay_then_repay_again_fails() {
    let mut ledger = ledger_with_asset();
    let addr = ledger
        .create_loan(&pid(), &b"RWA-1".to_vec(), borrower(), 500_000, 750, DAY, NOW)
        .unwrap();
    ledger.repay_loan(&addr).unwrap();
    let loan = ledger.get_loan(&addr).unwrap();
    assert!(loan.repaid);
    assert!(!loan.is_active);
    assert!(!loan.liquidated);
    assert_eq!(ledger.repay_loan(&addr), Err(LedgerError::State(StateError::Inactive)));
}

#[test]
fn liquidate_after_repay_fails() {
    let mut ledger = ledger_with_asset();
    let addr = ledger
        .create_loan(&pid(), &b"RWA-1".to_vec(), borrower(), 500_000, 750, DAY, NOW)
        .unwrap();
    ledger.repay_loan(&addr).unwrap();
    ledger.update_risk_score(&pid(), &b"RWA-1".to_vec(), 95).unwrap();
    assert_eq!(ledger.liquidate_loan(&addr), Err(LedgerError::State(StateError::Inactive)));
    // And a liquidated loan cannot be repaid or liquidated again either.
    let addr2 = ledger
        .create_loan(&pid(), &b"RWA-1".to_vec(), vec![5u8; 32], 1, 1, DAY, NOW)
        .unwrap();
    ledger.liquidate_loan(&addr2).unwrap();
    assert_eq!(ledger.liquidate_loan(&addr2), Err(LedgerError::State(StateError::Inactive)));
    assert_eq!(ledger.repay_loan(&addr2), Err(LedgerError::State(StateError::Inactive)));
}

#[test]
fn update_risk_out_of_range_leaves_record() {
    let mut ledger = ledger_with_asset();
    let r = ledger.update_risk_score(&pid(), &b"RWA-1".to_vec(), 101);
    assert_eq!(r, Err(LedgerError::Validation(ValidationError::OutOfRange)));
    let a = ledger.get_asset(&pid(), &b"RWA-1".to_vec()).unwrap();
    assert_eq!(a.risk_score, 50);
    assert!(a.is_active);
}

#[test]
fn update_risk_changes_only_the_score() {
    let mut ledger = ledger_with_asset();
    ledger.update_risk_score(&pid(), &b"RWA-1".to_vec(), 100).unwrap();
    let a = ledger.get_asset(&pid(), &b"RWA-1".to_vec()).unwrap();
    assert_eq!(a.risk_score, 100);
    assert_eq!(a.valuation, 1_000_000);
    assert_eq!(a.asset_id, b"RWA-1".to_vec());
    assert_eq!(a.asset_type, b"real-estate".to_vec());
    assert_eq!(a.metadata_uri, b"ipfs://QmMeta".to_vec());
    assert_eq!(a.owner, owner());
    assert!(a.is_active);
}

#[test]
fn update_risk_on_missing_asset() {
    let mut ledger = Ledger::new();
    let r = ledger.update_risk_score(&pid(), &b"ghost".to_vec(), 10);
    assert_eq!(r, Err(LedgerError::NotFound));
}

#[test]
fn loan_uses_current_risk_score() {
    // After the risk rises to 90 the ceiling drops to 20%.
    let mut ledger = ledger_with_asset();
    ledger.update_risk_score(&pid(), &b"RWA-1".to_vec(), 90).unwrap();
    let too_high = ledger.create_loan(&pid(), &b"RWA-1".to_vec(), borrower(), 200_001, 1, DAY, NOW);
    assert_eq!(too_high, Err(LedgerError::Validation(ValidationError::LoanTooHigh)));
    let addr = ledger
        .create_loan(&pid(), &b"RWA-1".to_vec(), borrower(), 200_000, 1, DAY, NOW)
        .unwrap();
    let loan = ledger.get_loan(&addr).unwrap();
    assert_eq!(loan.risk_score_at_creation, 90);
}

#[test]
fn get_loan_missing_and_get_asset_missing() {
    let ledger = Ledger::new();
    assert_eq!(ledger.get_loan(&vec![0u8; 32]), Err(LedgerError::NotFound));
    assert_eq!(
        ledger.get_asset(&pid(), &b"nobody".to_vec()),
        Err(LedgerError::NotFound)
    );
}
