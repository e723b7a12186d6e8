//! Payment request records and their lifecycle status.
use vstd::prelude::*;
use crate::addresses::{Address, Bytes32};

verus! {

/// The lifecycle status of a payment request. `Pending` is the only initial
/// status; the other three are terminal.
#[derive(Clone, Copy, Debug, PartialEq, Eq, Structural, Hash)]
pub enum PaymentRequestStatus {
    Pending,
    Paid,
    Cancelled,
    Expired,
}

/// One payment request record. Created once with status `Pending`, mutated
/// only along the allowed status transitions, never deleted.
#[derive(Clone, Copy, Debug, PartialEq, Eq)]
pub struct PaymentRequest {
    /// Caller-supplied unique identifier, immutable once created.
    pub request_id: Bytes32,
    /// The principal that created the request.
    pub merchant: Address,
    /// Strictly positive fixed-point value; no scaling at this layer.
    pub amount: i128,
    /// Opaque external reference hash, unique across all requests.
    pub reference: Bytes32,
    pub status: PaymentRequestStatus,
    pub created_at: u64,
    /// Always strictly later than `created_at`.
    pub expires_at: u64,
    /// Set exactly once, on the transition to `Paid`.
    pub paid_at: Option<u64>,
    /// Set exactly once, on the transition to `Paid`.
    pub payment_id: Option<Bytes32>,
}

impl PaymentRequest {
    /// Shape every stored record keeps: a positive amount, an expiry after
    /// creation, and the paid fields present exactly on `Paid` records.
    pub open spec fn wf(self) -> bool {
        &&& self.amount > 0
        &&& self.created_at < self.expires_at
        &&& (self.status is Paid <==> self.paid_at is Some)
        &&& (self.status is Paid <==> self.payment_id is Some)
    }
}

/// How many records of `s` are still `Pending`.
pub open spec fn count_pending(s: Seq<PaymentRequest>) -> int
    decreases s.len(),
{
    if s.len() == 0 {
        0
    } else {
        count_pending(s.drop_last()) + if s.last().status is Pending {
            1int
        } else {
            0int
        }
    }
}

pub proof fn lemma_count_pending_bounds(s: Seq<PaymentRequest>)
    ensures
        0 <= count_pending(s) <= s.len(),
    decreases s.len(),
{
    if s.len() > 0 {
        lemma_count_pending_bounds(s.drop_last());
    }
}

pub proof fn lemma_count_pending_push(s: Seq<PaymentRequest>, r: PaymentRequest)
    ensures
        count_pending(s.push(r)) == count_pending(s) + if r.status is Pending {
            1int
        } else {
            0int
        },
{
    assert(s.push(r).drop_last() =~= s);
}

/// Replacing the record at `i` shifts the pending count by the difference
/// between the old and the new record's contribution.
pub proof fn lemma_count_pending_update(s: Seq<PaymentRequest>, i: int, r: PaymentRequest)
    requires
        0 <= i < s.len(),
    ensures
        count_pending(s.update(i, r)) == count_pending(s) - (if s[i].status is Pending {
            1int
        } else {
            0int
        }) + (if r.status is Pending {
            1int
        } else {
            0int
        }),
    decreases s.len(),
{
    if i == s.len() - 1 {
        assert(s.update(i, r).drop_last() =~= s.drop_last());
    } else {
        assert(s.update(i, r).drop_last() =~= s.drop_last().update(i, r));
        lemma_count_pending_update(s.drop_last(), i, r);
    }
}

/// A sequence holding a `Pending` record has a positive pending count.
pub proof fn lemma_count_pending_pos(s: Seq<PaymentRequest>, i: int)
    requires
        0 <= i < s.len(),
        s[i].status is Pending,
    ensures
        count_pending(s) >= 1,
    decreases s.len(),
{
    if i == s.len() - 1 {
        lemma_count_pending_bounds(s.drop_last());
    } else {
        lemma_count_pending_pos(s.drop_last(), i);
    }
}

} // verus!
