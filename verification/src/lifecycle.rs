//! The lifecycle ledger and the vintage issuer: appending corporate-action
//! events in strict sequence, and minting one fungible security vintage per
//! event once the subscription round has closed.

use vstd::prelude::*;
use crate::{Amount, Error, MAX_EVENT_PERCENT};
use crate::model::{ActionKind, InstrumentView, LifecycleEvent, ManagerView, SecuritiesManager,
    Vintage};
use crate::text::str_eq;

verus! {

/// The action kind named by `s`, if it is one of the enumerated words.
pub open spec fn parse_action_kind(s: Seq<char>) -> Option<ActionKind> {
    if s == "Issuance"@ {
        Some(ActionKind::Issuance)
    } else if s == "Coupon"@ {
        Some(ActionKind::Coupon)
    } else if s == "Dividend"@ {
        Some(ActionKind::Dividend)
    } else {
        None
    }
}

/// The engine after a successful append: the event takes the next sequence
/// number of the instrument's chain, is marked available, and has no
/// vintage yet.
pub open spec fn spec_append_event(
    v: ManagerView,
    instrument: usize,
    kind: ActionKind,
    percent: Amount,
) -> ManagerView {
    let iv = v.instruments[instrument as int];
    let ev = LifecycleEvent {
        seq: (iv.events.len() + 1) as usize,
        kind,
        percent,
        available: true,
        vintage: None,
    };
    ManagerView {
        instruments: v.instruments.update(
            instrument as int,
            (InstrumentView { events: iv.events.push(ev), ..iv }),
        ),
        ..v
    }
}

/// One event after a pass of the vintage issuer: a pending event receives a
/// vintage whose supply is the instrument's issuance amount, fixed when the
/// round closed; an event already carrying its vintage is left alone.
pub open spec fn spec_issue_event(e: LifecycleEvent, supply: Amount) -> LifecycleEvent {
    if e.vintage is None {
        LifecycleEvent { vintage: Some(Vintage { supply, custody: supply }), ..e }
    } else {
        e
    }
}

/// The engine after a successful pass of the vintage issuer over an
/// instrument's chain.
pub open spec fn spec_issue_vintages(v: ManagerView, instrument: usize) -> ManagerView {
    let iv = v.instruments[instrument as int];
    ManagerView {
        instruments: v.instruments.update(
            instrument as int,
            (InstrumentView {
                events: Seq::new(
                    iv.events.len(),
                    |k: int| spec_issue_event(iv.events[k], iv.issuance_amount),
                ),
                ..iv
            }),
        ),
        ..v
    }
}

impl SecuritiesManager {
    /// Appends a corporate-action event to a verified instrument's
    /// lifecycle chain and returns its sequence number. An unknown
    /// instrument or action kind is `InvalidArgument`; an instrument not
    /// verified is `NotReady`; a first event that is not an issuance is a
    /// `SequenceViolation`. The percent is bounded so that every payout
    /// later computed from it fits the engine's cash representation.
    pub fn agent_add_instrument_lifecycle(
        &mut self,
        instrument: usize,
        action_type: &str,
        percent: Amount,
    ) -> (r: Result<usize, Error>)
        requires
            old(self)@.wf(),
            percent <= MAX_EVENT_PERCENT,
        ensures
            final(self)@.wf(),
            !old(self)@.has_instrument(instrument) ==> r == Err::<usize, Error>(
                Error::InvalidArgument,
            ) && final(self)@ == old(self)@,
            old(self)@.has_instrument(instrument) && !old(
                self,
            )@.instruments[instrument as int].verified ==> r == Err::<usize, Error>(Error::NotReady)
                && final(self)@ == old(self)@,
            old(self)@.has_instrument(instrument) && old(
                self,
            )@.instruments[instrument as int].verified && parse_action_kind(action_type@) is None
                ==> r == Err::<usize, Error>(Error::InvalidArgument) && final(self)@ == old(self)@,
            old(self)@.has_instrument(instrument) && old(
                self,
            )@.instruments[instrument as int].verified && parse_action_kind(action_type@) is Some
                && old(self)@.instruments[instrument as int].events.len() == 0 && parse_action_kind(
                action_type@,
            )->Some_0 != ActionKind::Issuance ==> r == Err::<usize, Error>(Error::SequenceViolation)
                && final(self)@ == old(self)@,
            old(self)@.has_instrument(instrument) && old(
                self,
            )@.instruments[instrument as int].verified && parse_action_kind(action_type@) is Some
                && (old(self)@.instruments[instrument as int].events.len() > 0 || parse_action_kind(
                action_type@,
            )->Some_0 == ActionKind::Issuance) ==> r == Ok::<usize, Error>(
                (old(self)@.instruments[instrument as int].events.len() + 1) as usize,
            ) && final(self)@ == spec_append_event(
                old(self)@,
                instrument,
                parse_action_kind(action_type@)->Some_0,
                percent,
            ),
    {
        if instrument >= self.instruments.len() {
            return Err(Error::InvalidArgument);
        }
        if !self.instruments[instrument].verified {
            return Err(Error::NotReady);
        }
        let parsed = if str_eq(action_type, "Issuance") {
            Some(ActionKind::Issuance)
        } else if str_eq(action_type, "Coupon") {
            Some(ActionKind::Coupon)
        } else if str_eq(action_type, "Dividend") {
            Some(ActionKind::Dividend)
        } else {
            None
        };
        let kind = match parsed {
            Some(k) => k,
            None => {
                return Err(Error::InvalidArgument);
            },
        };
        if self.instruments[instrument].events.len() == 0 && kind != ActionKind::Issuance {
            return Err(Error::SequenceViolation);
        }
        let inst = &mut self.instruments[instrument];
        inst.events.push(
            LifecycleEvent { seq: 0, kind, percent, available: true, vintage: None },
        );
        let n = inst.events.len();
        inst.events[n - 1].seq = n;
        proof {
            assert(parse_action_kind(action_type@) == Some(kind));
            assert(inst.events@ =~= old(self)@.instruments[instrument as int].events.push(
                LifecycleEvent { seq: n, kind, percent, available: true, vintage: None },
            ));
            assert(self@.instruments =~~= spec_append_event(
                old(self)@,
                instrument,
                kind,
                percent,
            ).instruments);
            assert(self@ =~~= spec_append_event(old(self)@, instrument, kind, percent));
        }
        Ok(n)
    }

    /// Mints the security vintage of every lifecycle event of the
    /// instrument that still lacks one, each with supply equal to the
    /// issuance amount fixed when the round closed, held in engine custody.
    /// Events already carrying a vintage are skipped, so a repeat call
    /// after no new events changes nothing. An unknown instrument is
    /// `InvalidArgument`; an instrument whose round is still open is
    /// `NotReady`.
    pub fn agent_issue_lifecycle_securities(&mut self, instrument: usize) -> (r: Result<
        (),
        Error,
    >)
        requires
            old(self)@.wf(),
        ensures
            final(self)@.wf(),
            !old(self)@.has_instrument(instrument) ==> r == Err::<(), Error>(
                Error::InvalidArgument,
            ) && final(self)@ == old(self)@,
            old(self)@.has_instrument(instrument) && old(
                self,
            )@.instruments[instrument as int].subscription_open ==> r == Err::<(), Error>(
                Error::NotReady,
            ) && final(self)@ == old(self)@,
            old(self)@.has_instrument(instrument) && !old(
                self,
            )@.instruments[instrument as int].subscription_open ==> r == Ok::<(), Error>(())
                && final(self)@ == spec_issue_vintages(old(self)@, instrument),
    {
        if instrument >= self.instruments.len() {
            return Err(Error::InvalidArgument);
        }
        if self.instruments[instrument].subscription_open {
            return Err(Error::NotReady);
        }
        let inst = &mut self.instruments[instrument];
        let supply = inst.issuance_amount;
        let ghost old_inst = *inst;
        let n = inst.events.len();
        let mut k: usize = 0;
        while k < n
            invariant
                k <= n,
                n == inst.events@.len(),
                supply == old_inst.issuance_amount,
                *inst == (crate::model::Instrument { events: inst.events, ..old_inst }),
                forall|j: int| 0 <= j < k ==> inst.events@[j] == spec_issue_event(
                    old_inst.events@[j],
                    supply,
                ),
                forall|j: int| k <= j < n ==> inst.events@[j] == old_inst.events@[j],
            decreases n - k,
        {
            if inst.events[k].vintage.is_none() {
                inst.events[k].vintage = Some(Vintage { supply, custody: supply });
            }
            k += 1;
        }
        proof {
            assert(self@.instruments =~~= spec_issue_vintages(old(self)@, instrument).instruments);
            assert(self@ =~~= spec_issue_vintages(old(self)@, instrument));
        }
        Ok(())
    }
}

} // verus!
