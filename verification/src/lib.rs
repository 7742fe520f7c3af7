//! An issuance, subscription-escrow and lifecycle engine for tokenized
//! securities.
//!
//! Issuers register instruments; issuer agents append corporate-action
//! events (issuance, coupon, dividend) in strict sequence and mint one
//! fungible security vintage per event; investors subscribe, escrow payment,
//! claim securities, and roll a held vintage into the next one against a
//! proportional cash entitlement.
//!
//! Every quantity of value (security quantities, prices, percentages, cash)
//! is a fixed-point [`Amount`] with two implied decimal places, so that the
//! proportional arithmetic of the engine is exact integer arithmetic.
//! Custody of real assets, badges and proofs belong to the host ledger and
//! stay outside this crate; the engine state holds the balances the ledger
//! would hold in the engine's own vaults.

use vstd::prelude::*;

pub mod text;
pub mod model;
pub mod engine;
pub mod lifecycle;
pub mod escrow;
pub mod settlement;
pub mod laws;

verus! {

/// A fixed-point quantity with two implied decimal places: `100` is one
/// unit of a security, one unit of cash, or one percentage point.
pub type Amount = u128;

/// One whole unit, in `Amount` fixed-point representation.
pub const AMOUNT_ONE: Amount = 100;

/// Default subscription cap of a freshly created instrument:
/// 1,000,000.00 units.
pub const DEFAULT_SUBSCRIPTION_CAP: Amount = 100_000_000;

/// Default subscription price of a freshly created instrument: 100.00 of
/// cash per 100 units subscribed.
pub const DEFAULT_SUBSCRIPTION_PRICE: Amount = 10_000;

/// Largest entitlement rate a lifecycle event may carry: 1,000,000.00
/// percent. The bound keeps every payout computation inside the 128-bit
/// cash representation.
pub const MAX_EVENT_PERCENT: Amount = 100_000_000;

/// Largest payment a single escrow can owe: the default cap subscribed at
/// the default price.
pub const MAX_ESCROW_PAYMENT: Amount = DEFAULT_SUBSCRIPTION_CAP * DEFAULT_SUBSCRIPTION_PRICE
    / 10_000;

/// Every way an engine operation can refuse to run. Each operation aborts
/// with no state change when it returns one of these.
#[derive(Clone, Copy, Debug, PartialEq, Eq, Structural)]
pub enum Error {
    /// Malformed input: an unknown instrument or escrow handle, an unknown
    /// action kind, security type or form.
    InvalidArgument,
    /// The caller's identity does not match the identity the operation
    /// demands.
    Unauthorized,
    /// The caller may not touch the addressed field at all.
    Forbidden,
    /// The lifecycle ordering would be broken.
    SequenceViolation,
    /// The instrument or escrow is not in the status the operation needs.
    NotReady,
    /// The subscription round is not open for this operation.
    WindowClosed,
    /// The subscription would push the running counter past the cap.
    CapacityExceeded,
    /// The presented asset is of a different resource than the one due.
    ResourceMismatch,
    /// The presented payment does not cover the amount due.
    InsufficientPayment,
    /// The cash pool cannot cover the amount to pay out.
    InsufficientFunds,
    /// The vintage's custody cannot cover the quantity to withdraw.
    SupplyUnavailable,
    /// No lifecycle event exists yet at the resolved position.
    NoEventAvailable,
    /// The resolved lifecycle event is of a kind this claim path does not
    /// settle.
    UnsupportedAction,
}

/// The payment due for subscribing `quantity` units at `price` cash per
/// 100 units: `quantity / 100 * price`, in fixed-point representation,
/// with the quotient rounded toward zero.
pub open spec fn payment_due(quantity: Amount, price: Amount) -> int {
    (quantity * price) / 10_000
}

/// The cash entitlement of `amount` held units under an event with rate
/// `percent`: `amount * percent / 100`, in fixed-point representation,
/// with the quotient rounded toward zero.
pub open spec fn coupon_payout(amount: Amount, percent: Amount) -> int {
    (amount * percent) / 10_000
}

} // verus!
