//! The subscription escrow engine: investors subscribe against the running
//! cap, escrow payment into the shared cash pool, claim their securities,
//! and the issuer sweeps retired escrows to withdraw the proceeds.

use vstd::prelude::*;
use vstd::arithmetic::div_mod::lemma_div_is_ordered;
use crate::{payment_due, Amount, Error, DEFAULT_SUBSCRIPTION_CAP, DEFAULT_SUBSCRIPTION_PRICE,
    MAX_ESCROW_PAYMENT};
use crate::model::{CashBucket, Escrow, EscrowStatus, InstrumentView, LifecycleEvent, ManagerView,
    SecuritiesManager, SecurityBucket, Vintage};

verus! {

/// The engine after a successful subscription: the escrow record appended
/// with the payment it owes, and the instrument's running counter raised by
/// the subscribed quantity.
pub open spec fn spec_subscribe(v: ManagerView, instrument: usize, quantity: Amount) -> ManagerView {
    let iv = v.instruments[instrument as int];
    let e = Escrow {
        instrument,
        rec_qty: quantity,
        pay_resource: v.cash_resource,
        pay_amount: payment_due(quantity, iv.subscription_price) as Amount,
        status: EscrowStatus::Pending,
        retired: false,
        consumed: false,
    };
    ManagerView {
        instruments: v.instruments.update(
            instrument as int,
            (InstrumentView {
                subscribed_amount: (iv.subscribed_amount + quantity) as Amount,
                ..iv
            }),
        ),
        escrows: v.escrows.push(e),
        ..v
    }
}

/// The engine after a successful payment transfer: the amount due moved
/// into the cash pool and the escrow settled.
pub open spec fn spec_transfer_payment(v: ManagerView, escrow: usize) -> ManagerView {
    let e = v.escrows[escrow as int];
    ManagerView {
        escrows: v.escrows.update(escrow as int, (Escrow { status: EscrowStatus::Settled, ..e })),
        cash_pool: (v.cash_pool + e.pay_amount) as Amount,
        ..v
    }
}

/// The engine after a successful cancellation: the amount due refunded out
/// of the cash pool and the escrow back to pending.
pub open spec fn spec_cancel_payment(v: ManagerView, escrow: usize) -> ManagerView {
    let e = v.escrows[escrow as int];
    ManagerView {
        escrows: v.escrows.update(escrow as int, (Escrow { status: EscrowStatus::Pending, ..e })),
        cash_pool: (v.cash_pool - e.pay_amount) as Amount,
        ..v
    }
}

/// Whether the vintage of an instrument's first lifecycle event has been
/// issued and its custody can cover `qty`.
pub open spec fn first_vintage_available(iv: InstrumentView, qty: Amount) -> bool {
    &&& iv.events.len() > 0
    &&& iv.events[0].vintage is Some
    &&& iv.events[0].vintage->Some_0.custody >= qty
}

/// The engine after a successful security claim: the subscribed quantity
/// withdrawn from the first vintage's custody and the escrow retired into
/// the closed-escrow pool.
pub open spec fn spec_claim_security(v: ManagerView, escrow: usize) -> ManagerView {
    let e = v.escrows[escrow as int];
    let iv = v.instruments[e.instrument as int];
    let ev0 = iv.events[0];
    let vin = ev0.vintage->Some_0;
    ManagerView {
        instruments: v.instruments.update(
            e.instrument as int,
            (InstrumentView {
                events: iv.events.update(
                    0,
                    (LifecycleEvent {
                        vintage: Some(
                            Vintage {
                                supply: vin.supply,
                                custody: (vin.custody - e.rec_qty) as Amount,
                            },
                        ),
                        ..ev0
                    }),
                ),
                ..iv
            }),
        ),
        escrows: v.escrows.update(escrow as int, (Escrow { retired: true, ..e })),
        ..v
    }
}

/// The budget left and the cash total gathered after the issuer sweep has
/// walked `es`: the sweep examines retired, still-existing records while it
/// has budget, and gathers the payment of each examined record that belongs
/// to the requested instrument.
pub open spec fn spec_sweep_state(es: Seq<Escrow>, instrument: usize, batch: usize) -> (int, int)
    decreases es.len(),
{
    if es.len() == 0 {
        (batch as int, 0)
    } else {
        let (b, t) = spec_sweep_state(es.drop_last(), instrument, batch);
        let e = es.last();
        if e.retired && !e.consumed && b > 0 {
            if e.instrument == instrument {
                (b - 1, t + e.pay_amount)
            } else {
                (b - 1, t)
            }
        } else {
            (b, t)
        }
    }
}

/// The escrow store after the issuer sweep has walked `es`: each examined
/// record of the requested instrument destroyed, everything else as it was.
pub open spec fn spec_sweep_escrows(es: Seq<Escrow>, instrument: usize, batch: usize) -> Seq<
    Escrow,
>
    decreases es.len(),
{
    if es.len() == 0 {
        es
    } else {
        let pre = spec_sweep_escrows(es.drop_last(), instrument, batch);
        let b = spec_sweep_state(es.drop_last(), instrument, batch).0;
        let e = es.last();
        if e.retired && !e.consumed && b > 0 && e.instrument == instrument {
            pre.push((Escrow { consumed: true, ..e }))
        } else {
            pre.push(e)
        }
    }
}

/// The engine after a successful issuer sweep: the matched records
/// destroyed and their total withdrawn from the cash pool.
pub open spec fn spec_claim_cash(v: ManagerView, instrument: usize, batch: usize) -> ManagerView {
    ManagerView {
        escrows: spec_sweep_escrows(v.escrows, instrument, batch),
        cash_pool: (v.cash_pool - spec_sweep_state(v.escrows, instrument, batch).1) as Amount,
        ..v
    }
}

/// A sweep leaves the number of escrow slots unchanged: it destroys records
/// in place.
pub proof fn lemma_sweep_escrows_len(es: Seq<Escrow>, instrument: usize, batch: usize)
    ensures
        spec_sweep_escrows(es, instrument, batch).len() == es.len(),
    decreases es.len(),
{
    if es.len() > 0 {
        lemma_sweep_escrows_len(es.drop_last(), instrument, batch);
    }
}

/// One more gathered payment keeps the sweep total under its running bound.
proof fn lemma_sweep_step_bound(total: int, pay: int, i: int)
    requires
        0 <= i,
        i < usize::MAX,
        total <= i * MAX_ESCROW_PAYMENT,
        0 <= pay <= MAX_ESCROW_PAYMENT,
    ensures
        total + pay <= (i + 1) * MAX_ESCROW_PAYMENT,
        total + pay <= u128::MAX,
{
    assert((i + 1) * MAX_ESCROW_PAYMENT == i * MAX_ESCROW_PAYMENT + MAX_ESCROW_PAYMENT)
        by (nonlinear_arith);
    assert(usize::MAX as int <= u64::MAX as int);
    assert((i + 1) * MAX_ESCROW_PAYMENT <= usize::MAX as int * MAX_ESCROW_PAYMENT)
        by (nonlinear_arith)
        requires
            0 <= i,
            i + 1 <= usize::MAX as int,
    ;
    assert(usize::MAX as int * MAX_ESCROW_PAYMENT <= u64::MAX as int * MAX_ESCROW_PAYMENT)
        by (nonlinear_arith)
        requires
            usize::MAX as int <= u64::MAX as int,
    ;
}

impl SecuritiesManager {
    /// Subscribes `quantity` units of an instrument. The payment due is
    /// `quantity / 100 * price`, the price being quoted per 100 units; a
    /// pending escrow records it and the running counter rises by the
    /// quantity. An unknown instrument is `InvalidArgument`; a round not
    /// open is `WindowClosed`; a quantity the cap cannot take is
    /// `CapacityExceeded`.
    pub fn investor_subscribe(&mut self, instrument: usize, subscribe_amount: Amount) -> (r: Result<
        usize,
        Error,
    >)
        requires
            old(self)@.wf(),
        ensures
            final(self)@.wf(),
            !old(self)@.has_instrument(instrument) ==> r == Err::<usize, Error>(
                Error::InvalidArgument,
            ) && final(self)@ == old(self)@,
            old(self)@.has_instrument(instrument) && !old(
                self,
            )@.instruments[instrument as int].subscription_open ==> r == Err::<usize, Error>(
                Error::WindowClosed,
            ) && final(self)@ == old(self)@,
            old(self)@.has_instrument(instrument) && old(
                self,
            )@.instruments[instrument as int].subscription_open && old(
                self,
            )@.instruments[instrument as int].subscribed_amount + subscribe_amount > old(
                self,
            )@.instruments[instrument as int].subscription_cap ==> r == Err::<usize, Error>(
                Error::CapacityExceeded,
            ) && final(self)@ == old(self)@,
            old(self)@.has_instrument(instrument) && old(
                self,
            )@.instruments[instrument as int].subscription_open && old(
                self,
            )@.instruments[instrument as int].subscribed_amount + subscribe_amount <= old(
                self,
            )@.instruments[instrument as int].subscription_cap ==> r == Ok::<usize, Error>(
                old(self)@.escrows.len() as usize,
            ) && final(self)@ == spec_subscribe(old(self)@, instrument, subscribe_amount),
    {
        if instrument >= self.instruments.len() {
            return Err(Error::InvalidArgument);
        }
        proof {
            assert(old(self)@.instruments[instrument as int].wf());
        }
        if !self.instruments[instrument].subscription_open {
            return Err(Error::WindowClosed);
        }
        let cap = self.instruments[instrument].subscription_cap;
        let subscribed = self.instruments[instrument].subscribed_amount;
        let price = self.instruments[instrument].subscription_price;
        if subscribe_amount > cap - subscribed {
            return Err(Error::CapacityExceeded);
        }
        proof {
            assert(subscribe_amount * price <= DEFAULT_SUBSCRIPTION_CAP
                * DEFAULT_SUBSCRIPTION_PRICE) by (nonlinear_arith)
                requires
                    subscribe_amount <= DEFAULT_SUBSCRIPTION_CAP,
                    price <= DEFAULT_SUBSCRIPTION_PRICE,
            ;
            lemma_div_is_ordered(
                subscribe_amount * price,
                DEFAULT_SUBSCRIPTION_CAP * DEFAULT_SUBSCRIPTION_PRICE,
                10_000,
            );
        }
        let pay_amount = subscribe_amount * price / 10_000;
        let id = self.escrows.len();
        let inst = &mut self.instruments[instrument];
        inst.subscribed_amount = subscribed + subscribe_amount;
        self.escrows.push(
            Escrow {
                instrument,
                rec_qty: subscribe_amount,
                pay_resource: self.cash_resource,
                pay_amount,
                status: EscrowStatus::Pending,
                retired: false,
                consumed: false,
            },
        );
        proof {
            assert(self@.instruments =~~= spec_subscribe(
                old(self)@,
                instrument,
                subscribe_amount,
            ).instruments);
            assert(self@ =~~= spec_subscribe(old(self)@, instrument, subscribe_amount));
        }
        Ok(id)
    }

    /// Transfers the payment a pending escrow owes: exactly the amount due
    /// moves into the cash pool, the escrow settles, and any overpayment
    /// comes back untouched. An unknown or consumed escrow is
    /// `InvalidArgument`; one not pending is `NotReady`; a payment of the
    /// wrong resource is `ResourceMismatch`; one short of the amount due is
    /// `InsufficientPayment`. On failure the whole payment comes back.
    pub fn investor_transfer_payment(&mut self, escrow: usize, payment: CashBucket) -> (r: Result<
        CashBucket,
        (Error, CashBucket),
    >)
        requires
            old(self)@.wf(),
            old(self)@.has_escrow(escrow) ==> old(self)@.cash_pool + old(self)@.escrows[
                escrow as int
            ].pay_amount <= u128::MAX,
        ensures
            final(self)@.wf(),
            !old(self)@.has_escrow(escrow) ==> (r matches Err(p) && p.0 == Error::InvalidArgument
                && p.1 == payment) && final(self)@ == old(self)@,
            old(self)@.has_escrow(escrow) && old(self)@.escrows[escrow as int].status
                != EscrowStatus::Pending ==> (r matches Err(p) && p.0 == Error::NotReady && p.1
                == payment) && final(self)@ == old(self)@,
            old(self)@.has_escrow(escrow) && old(self)@.escrows[escrow as int].status
                == EscrowStatus::Pending && payment.spec_resource() != old(self)@.escrows[
                escrow as int
            ].pay_resource ==> (r matches Err(p) && p.0 == Error::ResourceMismatch && p.1
                == payment) && final(self)@ == old(self)@,
            old(self)@.has_escrow(escrow) && old(self)@.escrows[escrow as int].status
                == EscrowStatus::Pending && payment.spec_resource() == old(self)@.escrows[
                escrow as int
            ].pay_resource && payment.spec_amount() < old(self)@.escrows[escrow as int].pay_amount
                ==> (r matches Err(p) && p.0 == Error::InsufficientPayment && p.1 == payment)
                && final(self)@ == old(self)@,
            old(self)@.has_escrow(escrow) && old(self)@.escrows[escrow as int].status
                == EscrowStatus::Pending && payment.spec_resource() == old(self)@.escrows[
                escrow as int
            ].pay_resource && payment.spec_amount() >= old(self)@.escrows[escrow as int].pay_amount
                ==> (r matches Ok(rem) && rem.spec_resource() == payment.spec_resource()
                && rem.spec_amount() == payment.spec_amount() - old(self)@.escrows[
                escrow as int
            ].pay_amount) && final(self)@ == spec_transfer_payment(old(self)@, escrow),
    {
        if escrow >= self.escrows.len() {
            return Err((Error::InvalidArgument, payment));
        }
        let e = self.escrows[escrow];
        if e.consumed {
            return Err((Error::InvalidArgument, payment));
        }
        if e.status != EscrowStatus::Pending {
            return Err((Error::NotReady, payment));
        }
        if payment.resource() != e.pay_resource {
            return Err((Error::ResourceMismatch, payment));
        }
        let offered = payment.amount();
        if offered < e.pay_amount {
            return Err((Error::InsufficientPayment, payment));
        }
        self.cash_pool = self.cash_pool + e.pay_amount;
        self.escrows[escrow].status = EscrowStatus::Settled;
        let remainder = CashBucket::new(e.pay_resource, offered - e.pay_amount);
        proof {
            assert(self@ =~~= spec_transfer_payment(old(self)@, escrow));
        }
        Ok(remainder)
    }

    /// Cancels a settled escrow while the instrument's round is still open:
    /// the full amount due comes back out of the cash pool and the escrow
    /// reverts to pending. An unknown or consumed escrow is
    /// `InvalidArgument`; one not settled, or already retired, is
    /// `NotReady`; a closed round is `WindowClosed`; a pool that cannot
    /// cover the refund is `InsufficientFunds`.
    pub fn investor_cancel_payment(&mut self, escrow: usize) -> (r: Result<CashBucket, Error>)
        requires
            old(self)@.wf(),
        ensures
            final(self)@.wf(),
            !old(self)@.has_escrow(escrow) ==> r is Err && r->Err_0 == Error::InvalidArgument
                && final(self)@ == old(self)@,
            old(self)@.has_escrow(escrow) && (old(self)@.escrows[escrow as int].status
                != EscrowStatus::Settled || old(self)@.escrows[escrow as int].retired) ==> r is Err
                && r->Err_0 == Error::NotReady && final(self)@ == old(self)@,
            old(self)@.has_escrow(escrow) && old(self)@.escrows[escrow as int].status
                == EscrowStatus::Settled && !old(self)@.escrows[escrow as int].retired && !old(
                self,
            )@.instruments[old(self)@.escrows[escrow as int].instrument as int].subscription_open
                ==> r is Err && r->Err_0 == Error::WindowClosed && final(self)@ == old(self)@,
            old(self)@.has_escrow(escrow) && old(self)@.escrows[escrow as int].status
                == EscrowStatus::Settled && !old(self)@.escrows[escrow as int].retired && old(
                self,
            )@.instruments[old(self)@.escrows[escrow as int].instrument as int].subscription_open
                && old(self)@.cash_pool < old(self)@.escrows[escrow as int].pay_amount ==> r is Err
                && r->Err_0 == Error::InsufficientFunds && final(self)@ == old(self)@,
            old(self)@.has_escrow(escrow) && old(self)@.escrows[escrow as int].status
                == EscrowStatus::Settled && !old(self)@.escrows[escrow as int].retired && old(
                self,
            )@.instruments[old(self)@.escrows[escrow as int].instrument as int].subscription_open
                && old(self)@.cash_pool >= old(self)@.escrows[escrow as int].pay_amount ==> (
            r matches Ok(refund) && refund.spec_resource() == old(self)@.cash_resource
                && refund.spec_amount() == old(self)@.escrows[escrow as int].pay_amount) && (final(self)@ == spec_cancel_payment(old(self)@, escrow)),
    {
        if escrow >= self.escrows.len() {
            return Err(Error::InvalidArgument);
        }
        let e = self.escrows[escrow];
        if e.consumed {
            return Err(Error::InvalidArgument);
        }
        if e.status != EscrowStatus::Settled || e.retired {
            return Err(Error::NotReady);
        }
        proof {
            assert(old(self)@.escrows[escrow as int].wf(old(self)@.instruments.len() as int));
        }
        if !self.instruments[e.instrument].subscription_open {
            return Err(Error::WindowClosed);
        }
        if self.cash_pool < e.pay_amount {
            return Err(Error::InsufficientFunds);
        }
        self.cash_pool = self.cash_pool - e.pay_amount;
        self.escrows[escrow].status = EscrowStatus::Pending;
        let refund = CashBucket::new(self.cash_resource, e.pay_amount);
        proof {
            assert(self@ =~~= spec_cancel_payment(old(self)@, escrow));
        }
        Ok(refund)
    }

    /// Tops the cash pool up, so that coupons can be paid out after the
    /// issuer has withdrawn the issuance proceeds. A bucket of a resource
    /// other than the pool's comes back as `ResourceMismatch`.
    pub fn issuer_deposit_funds(&mut self, cash_token: CashBucket) -> (r: Result<
        (),
        (Error, CashBucket),
    >)
        requires
            old(self)@.wf(),
            cash_token.spec_resource() == old(self)@.cash_resource ==> old(self)@.cash_pool
                + cash_token.spec_amount() <= u128::MAX,
        ensures
            final(self)@.wf(),
            cash_token.spec_resource() != old(self)@.cash_resource ==> (r matches Err(p) && p.0
                == Error::ResourceMismatch && p.1 == cash_token) && final(self)@ == old(self)@,
            cash_token.spec_resource() == old(self)@.cash_resource ==> r is Ok && final(self)@ == (
            ManagerView {
                cash_pool: (old(self)@.cash_pool + cash_token.spec_amount()) as Amount,
                ..old(self)@
            }),
    {
        if cash_token.resource() != self.cash_resource {
            return Err((Error::ResourceMismatch, cash_token));
        }
        self.cash_pool = self.cash_pool + cash_token.amount();
        proof {
            assert(self@ =~~= (ManagerView {
                cash_pool: (old(self)@.cash_pool + cash_token.spec_amount()) as Amount,
                ..old(self)@
            }));
        }
        Ok(())
    }

    /// Hands a settled escrow's securities out: the subscribed quantity
    /// leaves the custody of the instrument's first vintage and the escrow
    /// record retires into the closed-escrow pool for the issuer's sweep.
    /// An unknown or consumed escrow is `InvalidArgument`; one not settled,
    /// or already retired, is `NotReady`; a first vintage not yet issued or
    /// short of custody is `SupplyUnavailable`.
    pub fn investor_claim_security(&mut self, escrow: usize) -> (r: Result<SecurityBucket, Error>)
        requires
            old(self)@.wf(),
        ensures
            final(self)@.wf(),
            !old(self)@.has_escrow(escrow) ==> r is Err && r->Err_0 == Error::InvalidArgument
                && final(self)@ == old(self)@,
            old(self)@.has_escrow(escrow) && (old(self)@.escrows[escrow as int].status
                != EscrowStatus::Settled || old(self)@.escrows[escrow as int].retired) ==> r is Err
                && r->Err_0 == Error::NotReady && final(self)@ == old(self)@,
            old(self)@.has_escrow(escrow) && old(self)@.escrows[escrow as int].status
                == EscrowStatus::Settled && !old(self)@.escrows[escrow as int].retired
                && !first_vintage_available(
                old(self)@.instruments[old(self)@.escrows[escrow as int].instrument as int],
                old(self)@.escrows[escrow as int].rec_qty,
            ) ==> r is Err && r->Err_0 == Error::SupplyUnavailable && final(self)@ == old(self)@,
            old(self)@.has_escrow(escrow) && old(self)@.escrows[escrow as int].status
                == EscrowStatus::Settled && !old(self)@.escrows[escrow as int].retired
                && first_vintage_available(
                old(self)@.instruments[old(self)@.escrows[escrow as int].instrument as int],
                old(self)@.escrows[escrow as int].rec_qty,
            ) ==> (r matches Ok(b) && b.spec_instrument() == old(self)@.escrows[
                escrow as int
            ].instrument && b.spec_version() == 1 && b.spec_amount() == old(self)@.escrows[
                escrow as int
            ].rec_qty) && final(self)@ == spec_claim_security(old(self)@, escrow),
    {
        if escrow >= self.escrows.len() {
            return Err(Error::InvalidArgument);
        }
        let e = self.escrows[escrow];
        if e.consumed {
            return Err(Error::InvalidArgument);
        }
        if e.status != EscrowStatus::Settled || e.retired {
            return Err(Error::NotReady);
        }
        proof {
            assert(old(self)@.escrows[escrow as int].wf(old(self)@.instruments.len() as int));
            assert(old(self)@.instruments[old(self)@.escrows[escrow as int].instrument as int]
                .wf());
        }
        if self.instruments[e.instrument].events.len() == 0 {
            return Err(Error::SupplyUnavailable);
        }
        let ev0 = self.instruments[e.instrument].events[0];
        let vin = match ev0.vintage {
            Some(v) => v,
            None => {
                return Err(Error::SupplyUnavailable);
            },
        };
        if vin.custody < e.rec_qty {
            return Err(Error::SupplyUnavailable);
        }
        self.instruments[e.instrument].events[0].vintage = Some(
            Vintage { supply: vin.supply, custody: vin.custody - e.rec_qty },
        );
        self.escrows[escrow].retired = true;
        let bucket = SecurityBucket::new(e.instrument, 1, e.rec_qty);
        proof {
            assert(self@.instruments =~~= spec_claim_security(old(self)@, escrow).instruments);
            assert(self@ =~~= spec_claim_security(old(self)@, escrow));
        }
        Ok(bucket)
    }

    /// Sweeps the closed-escrow pool for the issuer: up to `batch` retired
    /// records are examined in store order, those belonging to the
    /// requested instrument are destroyed, and their summed payments leave
    /// the cash pool as one lump. Records beyond the batch wait for a
    /// repeat call: draining is paginated, never complete in one call. A
    /// pool that cannot cover the total is `InsufficientFunds`, with
    /// nothing destroyed.
    pub fn issuer_claim_cash(&mut self, instrument: usize, batch: usize) -> (r: Result<
        CashBucket,
        Error,
    >)
        requires
            old(self)@.wf(),
        ensures
            final(self)@.wf(),
            old(self)@.cash_pool < spec_sweep_state(old(self)@.escrows, instrument, batch).1 ==> r
                is Err && r->Err_0 == Error::InsufficientFunds && final(self)@ == old(self)@,
            old(self)@.cash_pool >= spec_sweep_state(old(self)@.escrows, instrument, batch).1 ==> (
            r matches Ok(b) && b.spec_resource() == old(self)@.cash_resource && b.spec_amount()
                == spec_sweep_state(old(self)@.escrows, instrument, batch).1) && final(self)@
                == spec_claim_cash(old(self)@, instrument, batch),
    {
        let n = self.escrows.len();
        let ghost oldes = old(self)@.escrows;
        let mut total: Amount = 0;
        let mut budget: usize = batch;
        let mut i: usize = 0;
        while i < n
            invariant
                old(self)@.wf(),
                self@ == old(self)@,
                i <= n,
                n == self@.escrows.len(),
                oldes == old(self)@.escrows,
                budget as int == spec_sweep_state(oldes.take(i as int), instrument, batch).0,
                total as int == spec_sweep_state(oldes.take(i as int), instrument, batch).1,
                total as int <= i as int * MAX_ESCROW_PAYMENT,
            decreases n - i,
        {
            let e = self.escrows[i];
            proof {
                assert(oldes.take(i as int + 1).drop_last() =~= oldes.take(i as int));
                assert(oldes.take(i as int + 1).last() == oldes[i as int]);
                assert(oldes[i as int].wf(old(self)@.instruments.len() as int));
                lemma_sweep_step_bound(
                    total as int,
                    oldes[i as int].pay_amount as int,
                    i as int,
                );
            }
            if e.retired && !e.consumed && budget > 0 {
                budget -= 1;
                if e.instrument == instrument {
                    total = total + e.pay_amount;
                }
            }
            i += 1;
        }
        proof {
            assert(oldes.take(n as int) =~= oldes);
        }
        if self.cash_pool < total {
            return Err(Error::InsufficientFunds);
        }
        let ghost n_inst = old(self)@.instruments.len() as int;
        let mut budget: usize = batch;
        let mut i: usize = 0;
        while i < n
            invariant
                i <= n,
                n == self@.escrows.len(),
                n == oldes.len(),
                oldes == old(self)@.escrows,
                forall|j: int| 0 <= j < n ==> (#[trigger] oldes[j]).wf(n_inst),
                self@.instruments == old(self)@.instruments,
                self@.cash_resource == old(self)@.cash_resource,
                self@.cash_pool == old(self)@.cash_pool,
                self@.escrows == spec_sweep_escrows(oldes.take(i as int), instrument, batch)
                    + oldes.skip(i as int),
                budget as int == spec_sweep_state(oldes.take(i as int), instrument, batch).0,
                forall|j: int| 0 <= j < n ==> (#[trigger] self@.escrows[j]).wf(n_inst),
            decreases n - i,
        {
            proof {
                lemma_sweep_escrows_len(oldes.take(i as int), instrument, batch);
                assert(oldes.take(i as int + 1).drop_last() =~= oldes.take(i as int));
                assert(oldes.take(i as int + 1).last() == oldes[i as int]);
                assert(self@.escrows[i as int] == oldes[i as int]);
            }
            let e = self.escrows[i];
            if e.retired && !e.consumed && budget > 0 {
                budget -= 1;
                if e.instrument == instrument {
                    self.escrows[i].consumed = true;
                }
            }
            proof {
                lemma_sweep_escrows_len(oldes.take(i as int + 1), instrument, batch);
                assert(self@.escrows =~= spec_sweep_escrows(
                    oldes.take(i as int + 1),
                    instrument,
                    batch,
                ) + oldes.skip(i as int + 1));
            }
            i += 1;
        }
        self.cash_pool = self.cash_pool - total;
        let lump = CashBucket::new(self.cash_resource, total);
        proof {
            assert(oldes.take(n as int) =~= oldes);
            assert(oldes.skip(n as int) =~= Seq::<Escrow>::empty());
            assert(self@.escrows =~= spec_sweep_escrows(oldes, instrument, batch));
            assert(self@ =~~= spec_claim_cash(old(self)@, instrument, batch));
        }
        Ok(lump)
    }
}

} // verus!
