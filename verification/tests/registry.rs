//! Instrument registry behaviour: creation, defaults, metadata rules,
//! subscription round status, and the credential gates.

use securities_manager::model::SecuritiesManager;
use securities_manager::{Error, DEFAULT_SUBSCRIPTION_CAP, DEFAULT_SUBSCRIPTION_PRICE};

const CASH: u64 = 7;

fn engine() -> SecuritiesManager {
    SecuritiesManager::instantiate_securities_manager(CASH)
}

#[test]
fn fresh_engine_is_empty() {
    let m = engine();
    assert_eq!(m.instruments.len(), 0);
    assert_eq!(m.escrows.len(), 0);
    assert_eq!(m.cash_pool, 0);
    assert_eq!(m.cash_resource, CASH);
    assert_eq!(m.get_instruments(), Vec::<usize>::new());
}

#[test]
fn create_instrument_registers_defaults() {
    let mut m = engine();
    let id = m
        .issuer_create_instrument(1, "Equity", "Bearer", "Acme Shares".to_string(), "ACM".to_string())
        .unwrap();
    assert_eq!(id, 0);
    let inst = &m.instruments[0];
    assert!(inst.verified);
    assert!(inst.subscription_open);
    assert_eq!(inst.subscription_cap, DEFAULT_SUBSCRIPTION_CAP);
    assert_eq!(inst.subscription_price, DEFAULT_SUBSCRIPTION_PRICE);
    assert_eq!(inst.issuance_amount, 0);
    assert_eq!(inst.subscribed_amount, 0);
    assert_eq!(inst.events.len(), 0);
    assert_eq!(m.get_instruments(), vec![0]);
    let second = m
        .issuer_create_instrument(2, "Bond", "Registered", "Acme Notes".to_string(), "ACN".to_string())
        .unwrap();
    assert_eq!(second, 1);
    assert_eq!(m.get_instruments(), vec![0, 1]);
}

#[test]
fn create_instrument_rejects_unknown_type_and_form() {
    let mut m = engine();
    assert_eq!(
        m.issuer_create_instrument(1, "Swap", "Bearer", "X".to_string(), "X".to_string()),
        Err(Error::InvalidArgument)
    );
    assert_eq!(
        m.issuer_create_instrument(1, "Equity", "Digital", "X".to_string(), "X".to_string()),
        Err(Error::InvalidArgument)
    );
    assert_eq!(m.instruments.len(), 0);
}

#[test]
fn metadata_update_and_lookup() {
    let mut m = engine();
    m.issuer_create_instrument(1, "Bond", "Bearer", "N".to_string(), "N".to_string())
        .unwrap();
    assert_eq!(m.get_metadata(0, "coupon"), None);
    m.issuer_update_instrument_metadata(1, 0, "coupon".to_string(), "5%".to_string())
        .unwrap();
    assert_eq!(m.get_metadata(0, "coupon"), Some("5%".to_string()));
    m.issuer_update_instrument_metadata(1, 0, "coupon".to_string(), "6%".to_string())
        .unwrap();
    assert_eq!(m.get_metadata(0, "coupon"), Some("6%".to_string()));
    assert_eq!(m.get_metadata(0, "currency"), None);
    assert_eq!(m.get_metadata(9, "coupon"), None);
}

#[test]
fn metadata_protected_namespace_is_forbidden() {
    let mut m = engine();
    m.issuer_create_instrument(1, "Bond", "Bearer", "N".to_string(), "N".to_string())
        .unwrap();
    assert_eq!(
        m.issuer_update_instrument_metadata(1, 0, "sftr_security_type".to_string(), "GOVS".to_string()),
        Err(Error::Forbidden)
    );
    assert_eq!(m.get_metadata(0, "sftr_security_type"), None);
    // The bare prefix itself is protected; a shorter key is not.
    assert_eq!(
        m.issuer_update_instrument_metadata(1, 0, "sftr".to_string(), "x".to_string()),
        Err(Error::Forbidden)
    );
    assert_eq!(
        m.issuer_update_instrument_metadata(1, 0, "sft".to_string(), "x".to_string()),
        Ok(())
    );
}

#[test]
fn metadata_wrong_issuer_is_unauthorized() {
    let mut m = engine();
    m.issuer_create_instrument(1, "Bond", "Bearer", "N".to_string(), "N".to_string())
        .unwrap();
    assert_eq!(
        m.issuer_update_instrument_metadata(2, 0, "coupon".to_string(), "5%".to_string()),
        Err(Error::Unauthorized)
    );
    assert_eq!(
        m.issuer_update_instrument_metadata(1, 3, "coupon".to_string(), "5%".to_string()),
        Err(Error::InvalidArgument)
    );
}

#[test]
fn subscription_round_opens_and_closes() {
    let mut m = engine();
    m.issuer_create_instrument(1, "Equity", "Bearer", "N".to_string(), "N".to_string())
        .unwrap();
    assert_eq!(m.issuer_close_subscription(0), Ok(()));
    assert!(!m.instruments[0].subscription_open);
    assert_eq!(m.issuer_open_subscription(0), Ok(()));
    assert!(m.instruments[0].subscription_open);
    assert_eq!(m.issuer_open_subscription(4), Err(Error::InvalidArgument));
    assert_eq!(m.issuer_close_subscription(4), Err(Error::InvalidArgument));
}

#[test]
fn close_fixes_issuance_amount_and_resets_counter() {
    let mut m = engine();
    m.issuer_create_instrument(1, "Equity", "Bearer", "N".to_string(), "N".to_string())
        .unwrap();
    m.investor_subscribe(0, 2_500).unwrap();
    assert_eq!(m.instruments[0].subscribed_amount, 2_500);
    m.issuer_close_subscription(0).unwrap();
    assert_eq!(m.instruments[0].issuance_amount, 2_500);
    assert_eq!(m.instruments[0].subscribed_amount, 0);
}

#[test]
fn agent_badge_links_agent_to_issuer() {
    let m = engine();
    let badge = m.issuer_mint_agent_badge(42, "LEI000000000000".to_string(), 9);
    assert_eq!(badge.issuer_id, 42);
    assert_eq!(badge.company_lei, "LEI000000000000");
    assert_eq!(badge.local_id, 9);
}

#[test]
fn kyc_refuses_us_and_666() {
    let m = engine();
    assert_eq!(m.investor_check_kyc("US".to_string(), 1).unwrap_err(), Error::Forbidden);
    assert_eq!(m.investor_check_kyc("USA".to_string(), 1).unwrap_err(), Error::Forbidden);
    assert_eq!(m.investor_check_kyc("DE".to_string(), 666).unwrap_err(), Error::Forbidden);
    let badge = m.investor_check_kyc("DE".to_string(), 5).unwrap();
    assert_eq!(badge.country, "DE");
    assert_eq!(badge.local_id, 5);
}
