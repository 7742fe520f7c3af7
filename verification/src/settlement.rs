//! Corporate-action settlement: a holder of one vintage presents it, the
//! engine resolves the next lifecycle event through the forward chain, pays
//! the proportional cash entitlement out of the pool, and rolls the whole
//! held quantity into the next vintage. The presented vintage is consumed
//! entirely: there are no partial rollovers.

use vstd::prelude::*;
use crate::{coupon_payout, Amount, Error, DEFAULT_SUBSCRIPTION_CAP, MAX_EVENT_PERCENT};
use crate::model::{ActionKind, CashBucket, InstrumentView, LifecycleEvent, ManagerView,
    SecuritiesManager, SecurityBucket, Vintage};

verus! {

/// Whether a presented holding names a vintage this engine has issued: a
/// registered instrument, a sequence number on its chain, and a minted
/// vintage at that position.
pub open spec fn holding_known(v: ManagerView, instrument: usize, version: usize) -> bool {
    &&& v.has_instrument(instrument)
    &&& 1 <= version <= v.instruments[instrument as int].events.len()
    &&& v.instruments[instrument as int].events[version as int - 1].vintage is Some
}

/// Whether a lifecycle event exists at the holding's forward link: the
/// position right after the held vintage's own event.
pub open spec fn next_event_exists(v: ManagerView, instrument: usize, version: usize) -> bool {
    (version as int) < v.instruments[instrument as int].events.len()
}

/// The lifecycle event the holding's forward link resolves to.
pub open spec fn next_event(v: ManagerView, instrument: usize, version: usize) -> LifecycleEvent {
    v.instruments[instrument as int].events[version as int]
}

/// The engine after a successful settlement: the payout gone from the cash
/// pool and the rolled-over quantity gone from the next vintage's custody.
pub open spec fn spec_claim_corporate_action(
    v: ManagerView,
    instrument: usize,
    version: usize,
    amount: Amount,
) -> ManagerView {
    let iv = v.instruments[instrument as int];
    let nxt = iv.events[version as int];
    let vin = nxt.vintage->Some_0;
    ManagerView {
        instruments: v.instruments.update(
            instrument as int,
            (InstrumentView {
                events: iv.events.update(
                    version as int,
                    (LifecycleEvent {
                        vintage: Some(
                            Vintage {
                                supply: vin.supply,
                                custody: (vin.custody - amount) as Amount,
                            },
                        ),
                        ..nxt
                    }),
                ),
                ..iv
            }),
        ),
        cash_pool: (v.cash_pool - coupon_payout(amount, nxt.percent)) as Amount,
        ..v
    }
}

impl SecuritiesManager {
    /// Settles the next corporate action for a presented vintage holding:
    /// resolves the event after the holding's own, pays
    /// `held * percent / 100` cash out of the pool, withdraws the same held
    /// quantity from the next vintage's custody, and consumes the presented
    /// holding — payout and rollover happen together or not at all. A
    /// holding this engine never issued is `InvalidArgument`; a forward
    /// link with no event yet is `NoEventAvailable`; an event that is not a
    /// coupon is `UnsupportedAction` (issuance and dividend settlement are
    /// not served by this path); a pool short of the payout is
    /// `InsufficientFunds`; a next vintage not minted or short of custody
    /// is `SupplyUnavailable`. On failure the holding comes back untouched.
    pub fn investor_claim_corporate_action(&mut self, security_holding: SecurityBucket) -> (r:
        Result<(CashBucket, SecurityBucket), (Error, SecurityBucket)>)
        requires
            old(self)@.wf(),
        ensures
            final(self)@.wf(),
            !holding_known(
                old(self)@,
                security_holding.spec_instrument(),
                security_holding.spec_version(),
            ) ==> (r matches Err(p) && p.0 == Error::InvalidArgument && p.1 == security_holding)
                && final(self)@ == old(self)@,
            holding_known(
                old(self)@,
                security_holding.spec_instrument(),
                security_holding.spec_version(),
            ) && !next_event_exists(
                old(self)@,
                security_holding.spec_instrument(),
                security_holding.spec_version(),
            ) ==> (r matches Err(p) && p.0 == Error::NoEventAvailable && p.1 == security_holding)
                && final(self)@ == old(self)@,
            holding_known(
                old(self)@,
                security_holding.spec_instrument(),
                security_holding.spec_version(),
            ) && next_event_exists(
                old(self)@,
                security_holding.spec_instrument(),
                security_holding.spec_version(),
            ) && next_event(
                old(self)@,
                security_holding.spec_instrument(),
                security_holding.spec_version(),
            ).kind != ActionKind::Coupon ==> (r matches Err(p) && p.0 == Error::UnsupportedAction
                && p.1 == security_holding) && final(self)@ == old(self)@,
            holding_known(
                old(self)@,
                security_holding.spec_instrument(),
                security_holding.spec_version(),
            ) && next_event_exists(
                old(self)@,
                security_holding.spec_instrument(),
                security_holding.spec_version(),
            ) && next_event(
                old(self)@,
                security_holding.spec_instrument(),
                security_holding.spec_version(),
            ).kind == ActionKind::Coupon && old(self)@.cash_pool < coupon_payout(
                security_holding.spec_amount(),
                next_event(
                    old(self)@,
                    security_holding.spec_instrument(),
                    security_holding.spec_version(),
                ).percent,
            ) ==> (r matches Err(p) && p.0 == Error::InsufficientFunds && p.1 == security_holding)
                && final(self)@ == old(self)@,
            holding_known(
                old(self)@,
                security_holding.spec_instrument(),
                security_holding.spec_version(),
            ) && next_event_exists(
                old(self)@,
                security_holding.spec_instrument(),
                security_holding.spec_version(),
            ) && next_event(
                old(self)@,
                security_holding.spec_instrument(),
                security_holding.spec_version(),
            ).kind == ActionKind::Coupon && old(self)@.cash_pool >= coupon_payout(
                security_holding.spec_amount(),
                next_event(
                    old(self)@,
                    security_holding.spec_instrument(),
                    security_holding.spec_version(),
                ).percent,
            ) && !(next_event(
                old(self)@,
                security_holding.spec_instrument(),
                security_holding.spec_version(),
            ).vintage matches Some(vin) && vin.custody >= security_holding.spec_amount()) ==> (
            r matches Err(p) && p.0 == Error::SupplyUnavailable && p.1 == security_holding)
                && final(self)@ == old(self)@,
            holding_known(
                old(self)@,
                security_holding.spec_instrument(),
                security_holding.spec_version(),
            ) && next_event_exists(
                old(self)@,
                security_holding.spec_instrument(),
                security_holding.spec_version(),
            ) && next_event(
                old(self)@,
                security_holding.spec_instrument(),
                security_holding.spec_version(),
            ).kind == ActionKind::Coupon && old(self)@.cash_pool >= coupon_payout(
                security_holding.spec_amount(),
                next_event(
                    old(self)@,
                    security_holding.spec_instrument(),
                    security_holding.spec_version(),
                ).percent,
            ) && (next_event(
                old(self)@,
                security_holding.spec_instrument(),
                security_holding.spec_version(),
            ).vintage matches Some(vin) && vin.custody >= security_holding.spec_amount()) ==> (
            r matches Ok(out) && out.0.spec_resource() == old(self)@.cash_resource
                && out.0.spec_amount() == coupon_payout(
                security_holding.spec_amount(),
                next_event(
                    old(self)@,
                    security_holding.spec_instrument(),
                    security_holding.spec_version(),
                ).percent,
            ) && out.1.spec_instrument() == security_holding.spec_instrument()
                && out.1.spec_version() == security_holding.spec_version() + 1
                && out.1.spec_amount() == security_holding.spec_amount()) && final(self)@
                == spec_claim_corporate_action(
                old(self)@,
                security_holding.spec_instrument(),
                security_holding.spec_version(),
                security_holding.spec_amount(),
            ),
    {
        proof {
            use_type_invariant(&security_holding);
        }
        let inst_id = security_holding.instrument();
        let version = security_holding.version();
        let amt = security_holding.amount();
        if inst_id >= self.instruments.len() {
            return Err((Error::InvalidArgument, security_holding));
        }
        if version < 1 || version > self.instruments[inst_id].events.len() {
            return Err((Error::InvalidArgument, security_holding));
        }
        if self.instruments[inst_id].events[version - 1].vintage.is_none() {
            return Err((Error::InvalidArgument, security_holding));
        }
        if version >= self.instruments[inst_id].events.len() {
            return Err((Error::NoEventAvailable, security_holding));
        }
        let nxt = self.instruments[inst_id].events[version];
        if nxt.kind != ActionKind::Coupon {
            return Err((Error::UnsupportedAction, security_holding));
        }
        proof {
            assert(old(self)@.instruments[inst_id as int].wf());
            assert(old(self)@.instruments[inst_id as int].events[version as int].wf(
                version as int,
            ));
            assert(amt * nxt.percent <= DEFAULT_SUBSCRIPTION_CAP * MAX_EVENT_PERCENT)
                by (nonlinear_arith)
                requires
                    amt <= DEFAULT_SUBSCRIPTION_CAP,
                    nxt.percent <= MAX_EVENT_PERCENT,
            ;
        }
        let payout = amt * nxt.percent / 10_000;
        if self.cash_pool < payout {
            return Err((Error::InsufficientFunds, security_holding));
        }
        let vin = match nxt.vintage {
            Some(v) => v,
            None => {
                return Err((Error::SupplyUnavailable, security_holding));
            },
        };
        if vin.custody < amt {
            return Err((Error::SupplyUnavailable, security_holding));
        }
        self.cash_pool = self.cash_pool - payout;
        self.instruments[inst_id].events[version].vintage = Some(
            Vintage { supply: vin.supply, custody: vin.custody - amt },
        );
        let coupon_bucket = CashBucket::new(self.cash_resource, payout);
        let next_holding = SecurityBucket::new(inst_id, version + 1, amt);
        proof {
            assert(self@.instruments =~~= spec_claim_corporate_action(
                old(self)@,
                inst_id,
                version,
                amt,
            ).instruments);
            assert(self@ =~~= spec_claim_corporate_action(old(self)@, inst_id, version, amt));
        }
        Ok((coupon_bucket, next_holding))
    }
}

} // verus!
