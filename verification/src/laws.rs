//! The engine's global laws, stated and proved over the abstract `State`.
//!
//! Each proof function here records a property that holds of every reachable
//! state or of every call, beyond what the individual operation contracts
//! already pin down.
use vstd::prelude::*;
use crate::addresses::{Address, Bytes32};
use crate::engine::State;
use crate::errors::Error;
use crate::requests::{count_pending, lemma_count_pending_bounds};

verus! {

/// The pending counter never lies: in every well-formed state it equals the
/// number of pending records, and so never falls below zero nor rises above
/// the total.
pub proof fn lemma_counters_in_range(s: State)
    requires
        s.wf(),
    ensures
        s.pending_requests == count_pending(s.requests),
        0 <= s.pending_requests <= s.total_requests,
{
    lemma_count_pending_bounds(s.requests);
}

/// Every creation raises the total by exactly one and the pending count by
/// exactly one; the request id echoed back is the one handed in.
pub proof fn lemma_create_increments(
    s: State,
    caller: Address,
    request_id: Bytes32,
    amount: i128,
    reference: Bytes32,
    expires_at: u64,
    now: u64,
)
    requires
        s.create_result(request_id, amount, reference, expires_at, now) is Ok,
    ensures
        s.create_result(request_id, amount, reference, expires_at, now) == Ok::<
            Bytes32,
            Error,
        >(request_id),
        s.after_create(caller, request_id, amount, reference, expires_at, now).total_requests == s.total_requests
            + 1,
        s.after_create(caller, request_id, amount, reference, expires_at, now).pending_requests == s.pending_requests
            + 1,
{
}

/// A request id or reference used once can never be reused: against a state
/// that already holds the id or the reference, creation fails, whatever the
/// stored request's current status.
pub proof fn lemma_no_reuse(
    s: State,
    request_id: Bytes32,
    amount: i128,
    reference: Bytes32,
    expires_at: u64,
    now: u64,
)
    requires
        s.has_request_id(request_id) || s.has_reference(reference),
    ensures
        s.create_result(request_id, amount, reference, expires_at, now) is Err,
{
}

/// The terminal transitions store their record under the same keys: after a
/// request is paid, cancelled or expired, exactly the ids and references
/// that were present remain present. Together with `lemma_no_reuse`, keys
/// stay unusable for ever.
pub proof fn lemma_transitions_keep_keys(
    s: State,
    request_id: Bytes32,
    payment_id: Bytes32,
    now: u64,
    key: Bytes32,
)
    requires
        s.wf(),
        s.has_request_id(request_id),
    ensures
        s.after_mark_paid(request_id, payment_id, now).has_request_id(key) == s.has_request_id(
            key,
        ),
        s.after_mark_paid(request_id, payment_id, now).has_reference(key) == s.has_reference(key),
        s.after_cancel(request_id).has_request_id(key) == s.has_request_id(key),
        s.after_cancel(request_id).has_reference(key) == s.has_reference(key),
        s.after_mark_expired(request_id).has_request_id(key) == s.has_request_id(key),
        s.after_mark_expired(request_id).has_reference(key) == s.has_reference(key),
{
    let i = s.index_of_id(request_id);
    lemma_update_keeps_keys(s, i, s.after_mark_paid(request_id, payment_id, now), key);
    lemma_update_keeps_keys(s, i, s.after_cancel(request_id), key);
    lemma_update_keeps_keys(s, i, s.after_mark_expired(request_id), key);
}

/// An update that replaces the record at `i` by one carrying the same id
/// and reference leaves every key lookup unchanged.
proof fn lemma_update_keeps_keys(s: State, i: int, t: State, key: Bytes32)
    requires
        0 <= i < s.requests.len(),
        t.requests.len() == s.requests.len(),
        forall|j: int| 0 <= j < s.requests.len() && j != i ==> t.requests[j] == s.requests[j],
        t.requests[i].request_id == s.requests[i].request_id,
        t.requests[i].reference == s.requests[i].reference,
    ensures
        t.has_request_id(key) == s.has_request_id(key),
        t.has_reference(key) == s.has_reference(key),
{
    assert forall|j: int| 0 <= j < s.requests.len() implies #[trigger] t.requests[j].request_id
        == s.requests[j].request_id && t.requests[j].reference == s.requests[j].reference by {
        if j != i {
            assert(t.requests[j] == s.requests[j]);
        }
    }
    if s.has_request_id(key) {
        let j = choose|j: int|
            0 <= j < s.requests.len() && s.requests[j].request_id == key;
        assert(t.requests[j].request_id == key);
    }
    if t.has_request_id(key) {
        let j = choose|j: int|
            0 <= j < t.requests.len() && t.requests[j].request_id == key;
        assert(s.requests[j].request_id == key);
    }
    if s.has_reference(key) {
        let j = choose|j: int| 0 <= j < s.requests.len() && s.requests[j].reference == key;
        assert(t.requests[j].reference == key);
    }
    if t.has_reference(key) {
        let j = choose|j: int| 0 <= j < t.requests.len() && t.requests[j].reference == key;
        assert(s.requests[j].reference == key);
    }
}

/// What a creation wrote is immutable: the terminal transitions replace only
/// the status and, for payment, the settlement fields of the one targeted
/// record; every record's id, merchant, amount, reference and timestamps
/// come through every transition unchanged.
pub proof fn lemma_created_fields_immutable(
    s: State,
    request_id: Bytes32,
    payment_id: Bytes32,
    now: u64,
    j: int,
)
    requires
        s.wf(),
        s.has_request_id(request_id),
        0 <= j < s.requests.len(),
    ensures
        frozen_fields_agree(s.after_mark_paid(request_id, payment_id, now), s, j),
        frozen_fields_agree(s.after_cancel(request_id), s, j),
        frozen_fields_agree(s.after_mark_expired(request_id), s, j),
{
}

/// Whether record `j` of `t` agrees with record `j` of `s` on every field a
/// creation fixes for good.
pub open spec fn frozen_fields_agree(t: State, s: State, j: int) -> bool {
    &&& t.requests[j].request_id == s.requests[j].request_id
    &&& t.requests[j].merchant == s.requests[j].merchant
    &&& t.requests[j].amount == s.requests[j].amount
    &&& t.requests[j].reference == s.requests[j].reference
    &&& t.requests[j].created_at == s.requests[j].created_at
    &&& t.requests[j].expires_at == s.requests[j].expires_at
}

/// Terminal statuses are final: once a stored request is no longer pending,
/// each of the three terminal transitions reports the invalid-state
/// condition (behind its role gate, where it has one).
pub proof fn lemma_terminal_is_final(s: State, caller: Address, request_id: Bytes32, now: u64)
    requires
        s.wf(),
        s.has_request_id(request_id),
        !(s.request_with_id(request_id).status is Pending),
    ensures
        s.is_operator_or_admin(caller) ==> s.mark_paid_result(caller, request_id) == Err::<
            (),
            Error,
        >(Error::RequestNotPending),
        s.cancel_result(caller, request_id) == Err::<(), Error>(Error::RequestNotPending),
        s.is_operator_or_admin(caller) ==> s.mark_expired_result(caller, request_id, now) == Err::<
            (),
            Error,
        >(Error::RequestNotPending),
{
}

/// Expiry is boundary-inclusive: for an authorized caller and a pending
/// request, `mark_expired` succeeds exactly when the clock has reached the
/// request's expiry timestamp.
pub proof fn lemma_expiry_boundary(s: State, caller: Address, request_id: Bytes32, now: u64)
    requires
        s.wf(),
        s.is_operator_or_admin(caller),
        s.has_request_id(request_id),
        s.request_with_id(request_id).status is Pending,
    ensures
        s.mark_expired_result(caller, request_id, now) is Ok <==> now >= s.request_with_id(
            request_id,
        ).expires_at,
{
}

/// Admin bound updates: a new minimum at or above the current maximum is
/// rejected, a new maximum at or below the current minimum is rejected, and
/// any other positive value is accepted, persists, and keeps the
/// configuration well formed.
pub proof fn lemma_bound_updates(s: State, caller: Address, new_min: i128, new_max: i128)
    requires
        s.wf(),
        s.is_admin(caller),
    ensures
        new_min >= s.max_amount ==> s.set_min_amount_result(caller, new_min) is Err,
        new_max <= s.min_amount ==> s.set_max_amount_result(caller, new_max) is Err,
        0 < new_min < s.max_amount ==> s.set_min_amount_result(caller, new_min) is Ok
            && s.after_set_min_amount(new_min).min_amount == new_min && s.after_set_min_amount(
            new_min,
        ).wf(),
        s.min_amount < new_max ==> s.set_max_amount_result(caller, new_max) is Ok
            && s.after_set_max_amount(new_max).max_amount == new_max && s.after_set_max_amount(
            new_max,
        ).wf(),
{
}

} // verus!
