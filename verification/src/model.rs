//! The data model of the engine: instruments, lifecycle events, security
//! vintages, subscription escrows, badges and buckets, together with the
//! abstract views and the well-formedness predicates the contracts are
//! stated over.
//!
//! The lifecycle chain of an instrument is a dense sequence: the event at
//! position `k` carries sequence number `k + 1`, and the forward link from
//! an event to its successor is the position after it. The chain is
//! append-only, so the link never dangles: it names the next position
//! whether or not an event has been created there yet.

use vstd::prelude::*;
use crate::{Amount, DEFAULT_SUBSCRIPTION_CAP, DEFAULT_SUBSCRIPTION_PRICE, MAX_ESCROW_PAYMENT,
    MAX_EVENT_PERCENT};

verus! {

/// The kind of a corporate action in an instrument's lifecycle chain.
#[derive(Clone, Copy, Debug, PartialEq, Eq, Structural)]
pub enum ActionKind {
    Issuance,
    Coupon,
    Dividend,
}

/// The economic class of an instrument.
#[derive(Clone, Copy, Debug, PartialEq, Eq, Structural)]
pub enum SecurityType {
    Equity,
    Bond,
}

/// The holding form of an instrument.
#[derive(Clone, Copy, Debug, PartialEq, Eq, Structural)]
pub enum SecurityForm {
    Bearer,
    Registered,
}

/// The payment status of a subscription escrow.
#[derive(Clone, Copy, Debug, PartialEq, Eq, Structural)]
pub enum EscrowStatus {
    Pending,
    Settled,
}

/// The fungible security minted for one lifecycle event. `supply` is fixed
/// at mint time; `custody` is the part of it still held by the engine for
/// investors to claim.
#[derive(Clone, Copy, Debug)]
pub struct Vintage {
    pub supply: Amount,
    pub custody: Amount,
}

impl Vintage {
    pub open spec fn wf(self) -> bool {
        &&& self.custody <= self.supply
        &&& self.supply <= DEFAULT_SUBSCRIPTION_CAP
    }
}

/// One corporate action appended to an instrument's lifecycle chain.
/// `seq` is 1-based and equals the event's position in the chain plus one;
/// `vintage` is the security vintage minted for this event, `None` while
/// the event is still pending issuance.
#[derive(Clone, Copy, Debug)]
pub struct LifecycleEvent {
    pub seq: usize,
    pub kind: ActionKind,
    pub percent: Amount,
    pub available: bool,
    pub vintage: Option<Vintage>,
}

impl LifecycleEvent {
    /// Well-formedness of the event standing at position `k` of a chain.
    pub open spec fn wf(self, k: int) -> bool {
        &&& self.seq == k + 1
        &&& self.percent <= MAX_EVENT_PERCENT
        &&& match self.vintage {
            Some(v) => v.wf(),
            None => true,
        }
    }
}

/// One investor subscription: the record tying a requested quantity of an
/// instrument to the payment escrowed for it.
///
/// `retired` marks a record whose securities have been claimed and which
/// now waits in the closed-escrow pool for the issuer's sweep; `consumed`
/// marks a record the sweep has destroyed. Handles stay stable, so a
/// consumed record keeps its slot but no longer exists for any operation.
#[derive(Clone, Copy, Debug)]
pub struct Escrow {
    pub instrument: usize,
    pub rec_qty: Amount,
    pub pay_resource: u64,
    pub pay_amount: Amount,
    pub status: EscrowStatus,
    pub retired: bool,
    pub consumed: bool,
}

impl Escrow {
    pub open spec fn wf(self, n_instruments: int) -> bool {
        &&& self.instrument < n_instruments
        &&& self.rec_qty <= DEFAULT_SUBSCRIPTION_CAP
        &&& self.pay_amount <= MAX_ESCROW_PAYMENT
        &&& (self.retired ==> self.status == EscrowStatus::Settled)
        &&& (self.consumed ==> self.retired)
    }

    /// A record that still exists: it has not been destroyed by a sweep.
    pub open spec fn live(self) -> bool {
        !self.consumed
    }
}

/// A registered security instrument with its issuer linkage, status flags,
/// subscription terms, running subscription counter, lifecycle chain and
/// free-form metadata journal (append-only; the latest entry for a key is
/// its value).
pub struct Instrument {
    pub issuer_id: u64,
    pub name: String,
    pub symbol: String,
    pub security_type: SecurityType,
    pub security_form: SecurityForm,
    pub verified: bool,
    pub subscription_open: bool,
    pub subscription_cap: Amount,
    pub subscription_price: Amount,
    pub issuance_amount: Amount,
    pub subscribed_amount: Amount,
    pub events: Vec<LifecycleEvent>,
    pub metadata: Vec<(String, String)>,
}

/// The abstract value of an [`Instrument`].
#[verifier::ext_equal]
pub struct InstrumentView {
    pub issuer_id: u64,
    pub name: Seq<char>,
    pub symbol: Seq<char>,
    pub security_type: SecurityType,
    pub security_form: SecurityForm,
    pub verified: bool,
    pub subscription_open: bool,
    pub subscription_cap: Amount,
    pub subscription_price: Amount,
    pub issuance_amount: Amount,
    pub subscribed_amount: Amount,
    pub events: Seq<LifecycleEvent>,
    pub metadata: Seq<(Seq<char>, Seq<char>)>,
}

impl View for Instrument {
    type V = InstrumentView;

    open spec fn view(&self) -> InstrumentView {
        InstrumentView {
            issuer_id: self.issuer_id,
            name: self.name@,
            symbol: self.symbol@,
            security_type: self.security_type,
            security_form: self.security_form,
            verified: self.verified,
            subscription_open: self.subscription_open,
            subscription_cap: self.subscription_cap,
            subscription_price: self.subscription_price,
            issuance_amount: self.issuance_amount,
            subscribed_amount: self.subscribed_amount,
            events: self.events@,
            metadata: Seq::new(self.metadata@.len(), |i: int| (self.metadata@[i].0@,
                self.metadata@[i].1@)),
        }
    }
}

impl InstrumentView {
    pub open spec fn wf(self) -> bool {
        &&& self.subscription_cap <= DEFAULT_SUBSCRIPTION_CAP
        &&& self.subscription_price <= DEFAULT_SUBSCRIPTION_PRICE
        &&& self.subscribed_amount <= self.subscription_cap
        &&& self.issuance_amount <= DEFAULT_SUBSCRIPTION_CAP
        &&& forall|k: int| 0 <= k < self.events.len() ==> (#[trigger] self.events[k]).wf(k)
        &&& (self.events.len() > 0 ==> self.events[0].kind == ActionKind::Issuance)
    }
}

/// The latest value journalled for `key`, if any.
pub open spec fn metadata_lookup(m: Seq<(Seq<char>, Seq<char>)>, key: Seq<char>) -> Option<
    Seq<char>,
>
    decreases m.len(),
{
    if m.len() == 0 {
        None
    } else if m.last().0 == key {
        Some(m.last().1)
    } else {
        metadata_lookup(m.drop_last(), key)
    }
}

/// The credential an issuer mints for an agent, linking the agent to the
/// issuer's own badge so the agent can act only on that issuer's
/// instruments.
#[derive(Debug)]
pub struct AgentBadge {
    pub issuer_id: u64,
    pub company_lei: String,
    pub local_id: u64,
}

/// The credential minted for an investor who passed the KYC check.
#[derive(Debug)]
pub struct InvestorBadge {
    pub country: String,
    pub local_id: u64,
}

/// A quantity of cash of one resource, in transit between the engine and a
/// caller.
#[derive(Debug)]
pub struct CashBucket {
    resource: u64,
    amount: Amount,
}

impl CashBucket {
    pub closed spec fn spec_resource(&self) -> u64 {
        self.resource
    }

    pub closed spec fn spec_amount(&self) -> Amount {
        self.amount
    }

    /// Cash enters the model from the host ledger; any caller may present
    /// a bucket of any resource and amount.
    pub fn new(resource: u64, amount: Amount) -> (r: CashBucket)
        ensures
            r.spec_resource() == resource,
            r.spec_amount() == amount,
    {
        CashBucket { resource, amount }
    }

    pub fn resource(&self) -> (r: u64)
        ensures
            r == self.spec_resource(),
    {
        self.resource
    }

    pub fn amount(&self) -> (r: Amount)
        ensures
            r == self.spec_amount(),
    {
        self.amount
    }
}

/// A quantity of one security vintage, in transit between the engine and a
/// caller. `version` is the sequence number of the lifecycle event the
/// vintage belongs to. Only the engine mints these, by withdrawing from a
/// vintage's custody, so the quantity never exceeds a vintage's largest
/// possible supply.
#[derive(Debug)]
pub struct SecurityBucket {
    instrument: usize,
    version: usize,
    amount: Amount,
}

impl SecurityBucket {
    /// Holds of every security bucket: the engine only fills buckets from a
    /// vintage's custody, which never exceeds the default cap.
    #[verifier::type_invariant]
    pub open spec fn type_wf(self) -> bool {
        self.spec_amount() <= DEFAULT_SUBSCRIPTION_CAP
    }

    pub closed spec fn spec_instrument(&self) -> usize {
        self.instrument
    }

    pub closed spec fn spec_version(&self) -> usize {
        self.version
    }

    pub closed spec fn spec_amount(&self) -> Amount {
        self.amount
    }

    pub(crate) fn new(instrument: usize, version: usize, amount: Amount) -> (r: SecurityBucket)
        requires
            amount <= DEFAULT_SUBSCRIPTION_CAP,
        ensures
            r.spec_instrument() == instrument,
            r.spec_version() == version,
            r.spec_amount() == amount,
    {
        SecurityBucket { instrument, version, amount }
    }

    pub fn instrument(&self) -> (r: usize)
        ensures
            r == self.spec_instrument(),
    {
        self.instrument
    }

    pub fn version(&self) -> (r: usize)
        ensures
            r == self.spec_version(),
    {
        self.version
    }

    pub fn amount(&self) -> (r: Amount)
        ensures
            r == self.spec_amount(),
    {
        self.amount
    }
}

/// The whole engine: the instrument registry with each instrument's
/// lifecycle chain and vintage custody, the escrow store, and the shared
/// cash pool of one resource.
pub struct SecuritiesManager {
    pub instruments: Vec<Instrument>,
    pub escrows: Vec<Escrow>,
    pub cash_resource: u64,
    pub cash_pool: Amount,
}

/// The abstract value of a [`SecuritiesManager`].
#[verifier::ext_equal]
pub struct ManagerView {
    pub instruments: Seq<InstrumentView>,
    pub escrows: Seq<Escrow>,
    pub cash_resource: u64,
    pub cash_pool: Amount,
}

impl View for SecuritiesManager {
    type V = ManagerView;

    open spec fn view(&self) -> ManagerView {
        ManagerView {
            instruments: Seq::new(self.instruments@.len(), |i: int| self.instruments@[i]@),
            escrows: self.escrows@,
            cash_resource: self.cash_resource,
            cash_pool: self.cash_pool,
        }
    }
}

impl ManagerView {
    pub open spec fn wf(self) -> bool {
        &&& forall|i: int|
            0 <= i < self.instruments.len() ==> (#[trigger] self.instruments[i]).wf()
        &&& forall|j: int|
            0 <= j < self.escrows.len() ==> (#[trigger] self.escrows[j]).wf(
                self.instruments.len() as int,
            )
    }

    /// Whether `i` addresses a registered instrument.
    pub open spec fn has_instrument(self, i: usize) -> bool {
        i < self.instruments.len()
    }

    /// Whether `id` addresses an escrow record that still exists.
    pub open spec fn has_escrow(self, id: usize) -> bool {
        id < self.escrows.len() && self.escrows[id as int].live()
    }
}

} // verus!
