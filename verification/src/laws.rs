//! The engine's standing guarantees, proved once over the abstract views.
//! Each law holds of every well-formed engine state, and every operation of
//! the engine keeps states well-formed (each one's contract ends in
//! `final(self)@.wf()`), so the laws hold across any sequence of calls.

use vstd::prelude::*;
use crate::{coupon_payout, Amount};
use crate::model::{ActionKind, Escrow, EscrowStatus, ManagerView};
use crate::escrow::{spec_cancel_payment, spec_transfer_payment};
use crate::lifecycle::{spec_issue_event, spec_issue_vintages};
use crate::settlement::{holding_known, next_event, next_event_exists, spec_claim_corporate_action};

verus! {

/// A non-empty lifecycle chain starts with sequence number 1 and kind
/// `Issuance`. The other half of the guarantee is the contract of
/// `agent_add_instrument_lifecycle`: appending any other kind as the first
/// event fails with `SequenceViolation` and changes nothing.
pub proof fn lemma_first_event_is_issuance(v: ManagerView, i: int)
    requires
        v.wf(),
        0 <= i < v.instruments.len(),
        v.instruments[i].events.len() > 0,
    ensures
        v.instruments[i].events[0].seq == 1,
        v.instruments[i].events[0].kind == ActionKind::Issuance,
{
    assert(v.instruments[i].events[0].wf(0));
}

/// Lifecycle sequence numbers are dense: the event at position `k` carries
/// sequence number `k + 1`, so successive events differ by exactly one and
/// no number is skipped.
pub proof fn lemma_sequence_numbers_dense(v: ManagerView, i: int)
    requires
        v.wf(),
        0 <= i < v.instruments.len(),
    ensures
        forall|k: int|
            0 <= k < v.instruments[i].events.len() ==> (#[trigger] v.instruments[i].events[k]).seq
                == k + 1,
        forall|k: int|
            0 < k < v.instruments[i].events.len() ==> (#[trigger] v.instruments[i].events[k]).seq
                == v.instruments[i].events[k - 1].seq + 1,
{
    assert forall|k: int| 0 <= k < v.instruments[i].events.len() implies (#[trigger] v.instruments[
        i
    ].events[k]).seq == k + 1 by {
        assert(v.instruments[i].events[k].wf(k));
    }
}

/// The vintage issuer is idempotent: a second pass over the same chain is a
/// no-op — the same events, the same vintages, the same custody balances,
/// and no new vintage minted.
pub proof fn lemma_issue_vintages_idempotent(v: ManagerView, instrument: usize)
    requires
        v.has_instrument(instrument),
    ensures
        spec_issue_vintages(spec_issue_vintages(v, instrument), instrument) == spec_issue_vintages(
            v,
            instrument,
        ),
{
    let v1 = spec_issue_vintages(v, instrument);
    let v2 = spec_issue_vintages(v1, instrument);
    let iv = v.instruments[instrument as int];
    let iv1 = v1.instruments[instrument as int];
    let iv2 = v2.instruments[instrument as int];
    assert forall|k: int| 0 <= k < iv1.events.len() implies #[trigger] iv2.events[k]
        == iv1.events[k] by {
        assert(iv1.events[k] == spec_issue_event(iv.events[k], iv.issuance_amount));
        assert(iv1.events[k].vintage is Some);
    }
    assert(iv2.events =~= iv1.events);
    assert(iv2 =~~= iv1);
    assert(v2.instruments =~~= v1.instruments);
    assert(v2 =~~= v1);
}

/// The running subscription counter never exceeds the instrument's cap in
/// any well-formed state. Together with the contract of
/// `investor_subscribe` — which raises the counter only when the new total
/// still fits and otherwise fails with `CapacityExceeded`, unchanged — the
/// sum of accepted quantities of any sequence of subscriptions stays within
/// the cap.
pub proof fn lemma_running_counter_within_cap(v: ManagerView, i: int)
    requires
        v.wf(),
        0 <= i < v.instruments.len(),
    ensures
        v.instruments[i].subscribed_amount <= v.instruments[i].subscription_cap,
{
    assert(v.instruments[i].wf());
}

/// Paying an escrow and then cancelling the payment is a round trip: the
/// escrow returns to pending, the refund is exactly the amount that was
/// paid in, and the whole engine — the cash pool included — is back in its
/// starting state.
pub proof fn lemma_payment_cancel_round_trip(v: ManagerView, escrow: usize)
    requires
        v.wf(),
        escrow < v.escrows.len(),
        v.escrows[escrow as int].live(),
        v.escrows[escrow as int].status == EscrowStatus::Pending,
        v.instruments[v.escrows[escrow as int].instrument as int].subscription_open,
        v.cash_pool + v.escrows[escrow as int].pay_amount <= u128::MAX,
    ensures
        spec_transfer_payment(v, escrow).escrows[escrow as int].pay_amount == v.escrows[
            escrow as int
        ].pay_amount,
        spec_cancel_payment(spec_transfer_payment(v, escrow), escrow) == v,
{
    let v1 = spec_transfer_payment(v, escrow);
    let v2 = spec_cancel_payment(v1, escrow);
    let e = v.escrows[escrow as int];
    assert(e.wf(v.instruments.len() as int));
    assert(v2.escrows[escrow as int] == (Escrow { status: EscrowStatus::Pending, ..e }));
    assert(v2.escrows[escrow as int] == e);
    assert(v2.escrows =~= v.escrows);
    assert(v2.cash_pool == v.cash_pool);
    assert(v2 =~~= v);
}

/// A successful corporate-action settlement is payout-and-rollover atomic:
/// the cash pool drops by exactly `amount * percent / 100`, the next
/// vintage's custody drops by exactly the held amount with its supply
/// untouched, and nothing else of the engine moves — not the escrows, not
/// the other instruments, not the other events of this instrument. The
/// presented holding itself is consumed by `investor_claim_corporate_action`,
/// which takes it by value and returns the next-vintage holding of the same
/// amount in its place.
pub proof fn lemma_settlement_atomic(
    v: ManagerView,
    instrument: usize,
    version: usize,
    amount: Amount,
)
    requires
        v.wf(),
        holding_known(v, instrument, version),
        next_event_exists(v, instrument, version),
        next_event(v, instrument, version).vintage is Some,
        next_event(v, instrument, version).vintage->Some_0.custody >= amount,
        v.cash_pool >= coupon_payout(amount, next_event(v, instrument, version).percent),
    ensures
        ({
            let v2 = spec_claim_corporate_action(v, instrument, version, amount);
            let nxt = next_event(v, instrument, version);
            &&& v2.cash_pool == v.cash_pool - coupon_payout(amount, nxt.percent)
            &&& v2.instruments[instrument as int].events[version as int].vintage->Some_0.custody
                == nxt.vintage->Some_0.custody - amount
            &&& v2.instruments[instrument as int].events[version as int].vintage->Some_0.supply
                == nxt.vintage->Some_0.supply
            &&& v2.escrows == v.escrows
            &&& v2.cash_resource == v.cash_resource
            &&& forall|i: int|
                0 <= i < v.instruments.len() && i != instrument ==> #[trigger] v2.instruments[i]
                    == v.instruments[i]
            &&& forall|k: int|
                0 <= k < v.instruments[instrument as int].events.len() && k != version
                    ==> #[trigger] v2.instruments[instrument as int].events[k] == v.instruments[
                    instrument as int
                ].events[k]
        }),
{
    assert(v.instruments[instrument as int].events[version as int].wf(version as int));
}

} // verus!
