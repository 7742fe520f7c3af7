//! Lifecycle chain ordering and vintage issuance: strict sequencing, the
//! issuance-first rule, and the idempotence of the vintage issuer.

use securities_manager::model::{ActionKind, SecuritiesManager};
use securities_manager::Error;

fn engine_with_instrument() -> SecuritiesManager {
    let mut m = SecuritiesManager::instantiate_securities_manager(7);
    m.issuer_create_instrument(1, "Bond", "Bearer", "N".to_string(), "N".to_string())
        .unwrap();
    m
}

#[test]
fn first_event_must_be_issuance() {
    let mut m = engine_with_instrument();
    assert_eq!(
        m.agent_add_instrument_lifecycle(0, "Coupon", 500),
        Err(Error::SequenceViolation)
    );
    assert_eq!(
        m.agent_add_instrument_lifecycle(0, "Dividend", 500),
        Err(Error::SequenceViolation)
    );
    assert_eq!(m.instruments[0].events.len(), 0);
    assert_eq!(m.agent_add_instrument_lifecycle(0, "Issuance", 10_000), Ok(1));
    assert_eq!(m.instruments[0].events[0].seq, 1);
    assert_eq!(m.instruments[0].events[0].kind, ActionKind::Issuance);
    assert!(m.instruments[0].events[0].available);
}

#[test]
fn sequence_numbers_rise_by_one_without_gaps() {
    let mut m = engine_with_instrument();
    assert_eq!(m.agent_add_instrument_lifecycle(0, "Issuance", 10_000), Ok(1));
    assert_eq!(m.agent_add_instrument_lifecycle(0, "Coupon", 500), Ok(2));
    assert_eq!(m.agent_add_instrument_lifecycle(0, "Dividend", 300), Ok(3));
    assert_eq!(m.agent_add_instrument_lifecycle(0, "Coupon", 500), Ok(4));
    for (k, ev) in m.instruments[0].events.iter().enumerate() {
        assert_eq!(ev.seq, k + 1);
    }
}

#[test]
fn append_rejects_unknown_kind_and_instrument() {
    let mut m = engine_with_instrument();
    assert_eq!(
        m.agent_add_instrument_lifecycle(0, "Split", 500),
        Err(Error::InvalidArgument)
    );
    assert_eq!(
        m.agent_add_instrument_lifecycle(3, "Issuance", 10_000),
        Err(Error::InvalidArgument)
    );
}

#[test]
fn issuance_needs_closed_round() {
    let mut m = engine_with_instrument();
    m.agent_add_instrument_lifecycle(0, "Issuance", 10_000).unwrap();
    assert_eq!(m.agent_issue_lifecycle_securities(0), Err(Error::NotReady));
    assert_eq!(m.agent_issue_lifecycle_securities(5), Err(Error::InvalidArgument));
}

#[test]
fn issuance_mints_one_vintage_per_event() {
    let mut m = engine_with_instrument();
    m.agent_add_instrument_lifecycle(0, "Issuance", 10_000).unwrap();
    m.agent_add_instrument_lifecycle(0, "Coupon", 500).unwrap();
    m.investor_subscribe(0, 4_000).unwrap();
    m.issuer_close_subscription(0).unwrap();
    m.agent_issue_lifecycle_securities(0).unwrap();
    for ev in m.instruments[0].events.iter() {
        let vintage = ev.vintage.as_ref().unwrap();
        assert_eq!(vintage.supply, 4_000);
        assert_eq!(vintage.custody, 4_000);
    }
}

#[test]
fn reissuing_with_no_new_events_changes_nothing() {
    let mut m = engine_with_instrument();
    m.agent_add_instrument_lifecycle(0, "Issuance", 10_000).unwrap();
    m.agent_add_instrument_lifecycle(0, "Coupon", 500).unwrap();
    m.investor_subscribe(0, 4_000).unwrap();
    m.issuer_close_subscription(0).unwrap();
    m.agent_issue_lifecycle_securities(0).unwrap();
    let before: Vec<(u128, u128)> = m.instruments[0]
        .events
        .iter()
        .map(|ev| {
            let v = ev.vintage.as_ref().unwrap();
            (v.supply, v.custody)
        })
        .collect();
    assert_eq!(m.agent_issue_lifecycle_securities(0), Ok(()));
    let after: Vec<(u128, u128)> = m.instruments[0]
        .events
        .iter()
        .map(|ev| {
            let v = ev.vintage.as_ref().unwrap();
            (v.supply, v.custody)
        })
        .collect();
    assert_eq!(before, after);
    assert_eq!(m.instruments[0].events.len(), 2);
}

#[test]
fn reissuing_after_new_event_mints_only_the_new_vintage() {
    let mut m = engine_with_instrument();
    m.agent_add_instrument_lifecycle(0, "Issuance", 10_000).unwrap();
    m.investor_subscribe(0, 4_000).unwrap();
    m.issuer_close_subscription(0).unwrap();
    m.agent_issue_lifecycle_securities(0).unwrap();
    m.agent_add_instrument_lifecycle(0, "Coupon", 500).unwrap();
    assert!(m.instruments[0].events[1].vintage.is_none());
    m.agent_issue_lifecycle_securities(0).unwrap();
    assert!(m.instruments[0].events[1].vintage.is_some());
    assert_eq!(m.instruments[0].events[1].vintage.as_ref().unwrap().supply, 4_000);
    assert_eq!(m.instruments[0].events[0].vintage.as_ref().unwrap().supply, 4_000);
}
