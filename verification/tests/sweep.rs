//! The issuer's paginated sweep of the closed-escrow pool.
//!
//! Amounts carry two implied decimal places: 100 is one unit.

use securities_manager::model::{CashBucket, SecuritiesManager};

const CASH: u64 = 7;

/// Two instruments with three retired escrows: payments of 100.00 and
/// 200.00 on the first instrument and 300.00 on the second.
fn swept_setup() -> SecuritiesManager {
    let mut m = SecuritiesManager::instantiate_securities_manager(CASH);
    for issuer in [1u64, 2u64] {
        let id = m
            .issuer_create_instrument(issuer, "Bond", "Bearer", "N".to_string(), "N".to_string())
            .unwrap();
        m.agent_add_instrument_lifecycle(id, "Issuance", 10_000).unwrap();
    }
    let e0 = m.investor_subscribe(0, 10_000).unwrap();
    let e1 = m.investor_subscribe(0, 20_000).unwrap();
    let e2 = m.investor_subscribe(1, 30_000).unwrap();
    m.investor_transfer_payment(e0, CashBucket::new(CASH, 10_000)).unwrap();
    m.investor_transfer_payment(e1, CashBucket::new(CASH, 20_000)).unwrap();
    m.investor_transfer_payment(e2, CashBucket::new(CASH, 30_000)).unwrap();
    m.issuer_close_subscription(0).unwrap();
    m.issuer_close_subscription(1).unwrap();
    m.agent_issue_lifecycle_securities(0).unwrap();
    m.agent_issue_lifecycle_securities(1).unwrap();
    m.investor_claim_security(e0).unwrap();
    m.investor_claim_security(e1).unwrap();
    m.investor_claim_security(e2).unwrap();
    m
}

#[test]
fn sweep_gathers_exactly_the_matching_escrows() {
    let mut m = swept_setup();
    assert_eq!(m.cash_pool, 60_000);
    let lump = m.issuer_claim_cash(0, 100).unwrap();
    assert_eq!(lump.resource(), CASH);
    assert_eq!(lump.amount(), 30_000);
    assert_eq!(m.cash_pool, 30_000);
    // The two matching records no longer exist; the third still does.
    assert!(m.escrows[0].consumed);
    assert!(m.escrows[1].consumed);
    assert!(!m.escrows[2].consumed);
}

#[test]
fn sweep_is_paginated_by_the_batch_bound() {
    let mut m = swept_setup();
    // A batch of one examines only the first retired record.
    let first = m.issuer_claim_cash(0, 1).unwrap();
    assert_eq!(first.amount(), 10_000);
    assert!(m.escrows[0].consumed);
    assert!(!m.escrows[1].consumed);
    // Draining takes repeat calls; a batch that spans an already-consumed
    // record skips it without spending budget on it.
    let second = m.issuer_claim_cash(0, 2).unwrap();
    assert_eq!(second.amount(), 20_000);
    assert!(m.escrows[1].consumed);
    assert!(!m.escrows[2].consumed);
    let nothing_left = m.issuer_claim_cash(0, 100).unwrap();
    assert_eq!(nothing_left.amount(), 0);
    assert_eq!(m.cash_pool, 30_000);
}

#[test]
fn sweep_ignores_unretired_escrows() {
    let mut m = SecuritiesManager::instantiate_securities_manager(CASH);
    m.issuer_create_instrument(1, "Bond", "Bearer", "N".to_string(), "N".to_string())
        .unwrap();
    let e0 = m.investor_subscribe(0, 10_000).unwrap();
    m.investor_transfer_payment(e0, CashBucket::new(CASH, 10_000)).unwrap();
    // Settled but never claimed: the record is not in the closed pool yet.
    let lump = m.issuer_claim_cash(0, 100).unwrap();
    assert_eq!(lump.amount(), 0);
    assert!(!m.escrows[0].consumed);
    assert_eq!(m.cash_pool, 10_000);
}
