//! Domain events.
//!
//! Mutating operations of the payment request engine append one event per
//! successful call, carrying the literal values of the change, with no
//! coalescing or batching. Events are consumed by off-system observers; the
//! core itself never reads them back.
use vstd::prelude::*;
use crate::addresses::{Address, Bytes32};

verus! {

/// One emitted domain event.
#[derive(Clone, Copy, Debug, PartialEq, Eq, Structural)]
pub enum Event {
    RequestCreated { request_id: Bytes32, merchant: Address, amount: i128, expires_at: u64 },
    RequestPaid { request_id: Bytes32, payment_id: Bytes32, paid_at: u64 },
    RequestCancelled { request_id: Bytes32 },
    RequestExpired { request_id: Bytes32 },
    OperatorUpdated { old_operator: Address, new_operator: Address },
    MinAmountUpdated { old_min: i128, new_min: i128 },
    MaxAmountUpdated { old_max: i128, new_max: i128 },
}

} // verus!
