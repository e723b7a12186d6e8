//! Failure conditions.
//!
//! Every failure is an immediate, whole-call abort with no partial effect,
//! reported as a named condition so that callers can tell validation errors,
//! authorization errors, conflicts, missing records and invalid-state
//! transitions apart.
use vstd::prelude::*;

verus! {

/// The named failure conditions of the core, one per distinct abort.
#[derive(Clone, Copy, Debug, PartialEq, Eq, Structural, Hash)]
pub enum Error {
    /// The contract is paused; no request may be created.
    ContractPaused,
    /// A zero or negative amount was supplied.
    InvalidAmount,
    /// The amount lies below the configured minimum.
    AmountBelowMinimum,
    /// The amount lies above the configured maximum.
    AmountAboveMaximum,
    /// The requested expiry timestamp is not in the future.
    ExpiryNotInFuture,
    /// A request with this request id already exists.
    RequestIdExists,
    /// A request with this reference hash already exists.
    ReferenceExists,
    /// No request with this request id exists.
    RequestNotFound,
    /// No request with this reference hash exists.
    ReferenceNotFound,
    /// The request is no longer pending; terminal statuses are final.
    RequestNotPending,
    /// The request's expiry timestamp has not been reached yet.
    NotYetExpired,
    /// The caller is not the admin.
    NotAdmin,
    /// The caller is neither the operator nor the admin.
    NotOperatorOrAdmin,
    /// The caller is neither the request's merchant nor the admin.
    NotAuthorizedToCancel,
    /// A configured minimum amount must be strictly positive.
    MinAmountNotPositive,
    /// A configured maximum amount must be strictly positive.
    MaxAmountNotPositive,
    /// A configured minimum amount must stay strictly below the maximum.
    MinNotBelowMax,
    /// A configured maximum amount must stay strictly above the minimum.
    MaxNotAboveMin,
    /// The caller is neither the wallet's backend nor its owner.
    NotAuthorized,
    /// The wallet's balance cannot cover the requested movement.
    InsufficientBalance,
    /// Only the wallet's backend may perform this action.
    OnlyBackend,
    /// The wallet has no owner set.
    OwnerNotSet,
    /// Only the wallet's owner may perform this action.
    OnlyOwner,
}

} // verus!
