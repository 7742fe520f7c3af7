//! Corporate-action settlement: the coupon scenario, the payout-and-
//! rollover atomicity, and every resolution failure.
//!
//! Amounts carry two implied decimal places: 100 is one unit.

use securities_manager::model::{CashBucket, SecuritiesManager, SecurityBucket};
use securities_manager::Error;

const CASH: u64 = 7;

/// An instrument whose chain holds Issuance (100%) then Coupon (5%), with
/// issuance amount 1,000,000 units fixed at the round close, both vintages
/// minted, and an investor holding 1,000 units of the first vintage.
fn coupon_setup() -> (SecuritiesManager, SecurityBucket) {
    let mut m = SecuritiesManager::instantiate_securities_manager(CASH);
    m.issuer_create_instrument(1, "Bond", "Bearer", "N".to_string(), "N".to_string())
        .unwrap();
    m.agent_add_instrument_lifecycle(0, "Issuance", 10_000).unwrap();
    m.agent_add_instrument_lifecycle(0, "Coupon", 500).unwrap();
    let investor = m.investor_subscribe(0, 100_000).unwrap();
    let rest = m.investor_subscribe(0, 99_900_000).unwrap();
    m.investor_transfer_payment(investor, CashBucket::new(CASH, 100_000))
        .unwrap();
    m.investor_transfer_payment(rest, CashBucket::new(CASH, 99_900_000))
        .unwrap();
    m.issuer_close_subscription(0).unwrap();
    assert_eq!(m.instruments[0].issuance_amount, 100_000_000);
    m.agent_issue_lifecycle_securities(0).unwrap();
    assert_eq!(
        m.instruments[0].events[0].vintage.as_ref().unwrap().supply,
        100_000_000
    );
    let holding = m.investor_claim_security(investor).unwrap();
    assert_eq!(holding.amount(), 100_000);
    (m, holding)
}

#[test]
fn coupon_claim_scenario() {
    // Holding 1,000 units under a 5% coupon pays 1000 * 5 / 100 = 50.00
    // and rolls the full 1,000 units into the next vintage.
    let (mut m, holding) = coupon_setup();
    let pool_before = m.cash_pool;
    let custody_before = m.instruments[0].events[1].vintage.as_ref().unwrap().custody;
    let (coupon, next) = m.investor_claim_corporate_action(holding).unwrap();
    assert_eq!(coupon.resource(), CASH);
    assert_eq!(coupon.amount(), 5_000);
    assert_eq!(next.instrument(), 0);
    assert_eq!(next.version(), 2);
    assert_eq!(next.amount(), 100_000);
    assert_eq!(m.cash_pool, pool_before - 5_000);
    assert_eq!(
        m.instruments[0].events[1].vintage.as_ref().unwrap().custody,
        custody_before - 100_000
    );
    // The first vintage's custody is untouched by the rollover; the
    // presented holding itself was consumed by the call.
    assert_eq!(
        m.instruments[0].events[0].vintage.as_ref().unwrap().custody,
        100_000_000 - 100_000
    );
}

#[test]
fn claim_stops_at_the_end_of_the_chain() {
    let (mut m, holding) = coupon_setup();
    let (_, next) = m.investor_claim_corporate_action(holding).unwrap();
    // The coupon event is the last one: nothing is due after it.
    let (e, back) = m.investor_claim_corporate_action(next).unwrap_err();
    assert_eq!(e, Error::NoEventAvailable);
    assert_eq!(back.version(), 2);
    assert_eq!(back.amount(), 100_000);
}

#[test]
fn claim_supports_only_coupon_events() {
    let (mut m, holding) = coupon_setup();
    // Append a dividend after the coupon; a second-vintage holder finds it
    // next but this path does not settle dividends.
    m.agent_add_instrument_lifecycle(0, "Dividend", 300).unwrap();
    m.agent_issue_lifecycle_securities(0).unwrap();
    let (_, next) = m.investor_claim_corporate_action(holding).unwrap();
    let (e, _) = m.investor_claim_corporate_action(next).unwrap_err();
    assert_eq!(e, Error::UnsupportedAction);
}

#[test]
fn claim_needs_a_funded_pool() {
    let (mut m, holding) = coupon_setup();
    // The other subscriber claims too; the issuer then sweeps the whole
    // proceeds, leaving the pool empty.
    m.investor_claim_security(1).unwrap();
    m.issuer_claim_cash(0, 100).unwrap();
    assert_eq!(m.cash_pool, 0);
    let (e, back) = m.investor_claim_corporate_action(holding).unwrap_err();
    assert_eq!(e, Error::InsufficientFunds);
    // A top-up makes the same claim succeed.
    m.issuer_deposit_funds(CashBucket::new(CASH, 5_000)).unwrap();
    let (coupon, _) = m.investor_claim_corporate_action(back).unwrap();
    assert_eq!(coupon.amount(), 5_000);
    assert_eq!(m.cash_pool, 0);
}

#[test]
fn claim_needs_the_next_vintage_minted() {
    let (mut m, holding) = coupon_setup();
    let (_, next) = m.investor_claim_corporate_action(holding).unwrap();
    // A new coupon event exists but its vintage is not minted yet.
    m.agent_add_instrument_lifecycle(0, "Coupon", 500).unwrap();
    let (e, back) = m.investor_claim_corporate_action(next).unwrap_err();
    assert_eq!(e, Error::SupplyUnavailable);
    // Once minted, the rollover goes through.
    m.agent_issue_lifecycle_securities(0).unwrap();
    let (coupon, rolled) = m.investor_claim_corporate_action(back).unwrap();
    assert_eq!(coupon.amount(), 5_000);
    assert_eq!(rolled.version(), 3);
}

#[test]
fn payouts_can_empty_the_pool_under_a_settled_escrow() {
    // A coupon payout may leave the pool short of a settled escrow's
    // refund: the cancellation then fails with InsufficientFunds and
    // nothing moves.
    let mut m = SecuritiesManager::instantiate_securities_manager(CASH);
    m.issuer_create_instrument(1, "Bond", "Bearer", "N".to_string(), "N".to_string())
        .unwrap();
    m.agent_add_instrument_lifecycle(0, "Issuance", 10_000).unwrap();
    // A 200% coupon: the payout on the claimed holding exceeds what that
    // holding's own subscription paid in.
    m.agent_add_instrument_lifecycle(0, "Coupon", 20_000).unwrap();
    let a = m.investor_subscribe(0, 10_000).unwrap();
    let b = m.investor_subscribe(0, 20_000).unwrap();
    m.investor_transfer_payment(a, CashBucket::new(CASH, 10_000)).unwrap();
    m.investor_transfer_payment(b, CashBucket::new(CASH, 20_000)).unwrap();
    m.issuer_close_subscription(0).unwrap();
    m.agent_issue_lifecycle_securities(0).unwrap();
    let holding = m.investor_claim_security(a).unwrap();
    m.issuer_open_subscription(0).unwrap();
    let (coupon, _) = m.investor_claim_corporate_action(holding).unwrap();
    assert_eq!(coupon.amount(), 20_000);
    assert_eq!(m.cash_pool, 10_000);
    assert_eq!(m.investor_cancel_payment(b).unwrap_err(), Error::InsufficientFunds);
    assert_eq!(m.cash_pool, 10_000);
    assert_eq!(m.escrows[b].pay_amount, 20_000);
}

#[test]
fn claim_rejects_unknown_holdings() {
    let (mut m, holding) = coupon_setup();
    let mut other = SecuritiesManager::instantiate_securities_manager(CASH);
    // A holding naming an instrument the engine never registered.
    let (e, _) = other.investor_claim_corporate_action(holding).unwrap_err();
    assert_eq!(e, Error::InvalidArgument);
    drop(m);
}
