//! The payment request lifecycle engine.
//!
//! `PaymentRequestContract` keeps the singleton configuration (roles, pause
//! flag, amount bounds, counters), the keyed store of payment requests with
//! its secondary reference index, and the log of emitted domain events.
//! `State` is its mathematical model: every operation's contract states the
//! exact result and the exact successor state over `State`.
use vstd::prelude::*;
use crate::addresses::{Address, Bytes32};
use crate::errors::Error;
use crate::events::Event;
use crate::requests::{
    PaymentRequest, PaymentRequestStatus, count_pending, lemma_count_pending_bounds,
    lemma_count_pending_pos, lemma_count_pending_push, lemma_count_pending_update,
};

verus! {

/// The abstract state of the engine: the configuration singleton, the stored
/// requests in creation order, and the event log.
#[verifier::ext_equal]
pub struct State {
    pub admin: Address,
    pub operator: Address,
    pub vault: Address,
    pub paused: bool,
    pub min_amount: i128,
    pub max_amount: i128,
    pub total_requests: int,
    pub pending_requests: int,
    pub requests: Seq<PaymentRequest>,
    pub events: Seq<Event>,
}

impl State {
    /// The invariants every reachable state keeps: positive ordered bounds,
    /// counters that agree with the store, unique request ids, unique
    /// references, and well-formed records.
    pub open spec fn wf(self) -> bool {
        &&& 0 < self.min_amount < self.max_amount
        &&& self.total_requests == self.requests.len()
        &&& self.pending_requests == count_pending(self.requests)
        &&& forall|i: int, j: int|
            0 <= i < j < self.requests.len() ==> #[trigger] self.requests[i].request_id
                != #[trigger] self.requests[j].request_id
        &&& forall|i: int, j: int|
            0 <= i < j < self.requests.len() ==> #[trigger] self.requests[i].reference
                != #[trigger] self.requests[j].reference
        &&& forall|i: int| 0 <= i < self.requests.len() ==> (#[trigger] self.requests[i]).wf()
    }

    pub open spec fn has_request_id(self, request_id: Bytes32) -> bool {
        exists|i: int| 0 <= i < self.requests.len() && self.requests[i].request_id == request_id
    }

    pub open spec fn has_reference(self, reference: Bytes32) -> bool {
        exists|i: int| 0 <= i < self.requests.len() && self.requests[i].reference == reference
    }

    pub open spec fn index_of_id(self, request_id: Bytes32) -> int {
        choose|i: int| 0 <= i < self.requests.len() && self.requests[i].request_id == request_id
    }

    pub open spec fn index_of_reference(self, reference: Bytes32) -> int {
        choose|i: int| 0 <= i < self.requests.len() && self.requests[i].reference == reference
    }

    /// The unique request stored under `request_id`.
    pub open spec fn request_with_id(self, request_id: Bytes32) -> PaymentRequest {
        self.requests[self.index_of_id(request_id)]
    }

    /// The unique request stored under `reference`.
    pub open spec fn request_with_reference(self, reference: Bytes32) -> PaymentRequest {
        self.requests[self.index_of_reference(reference)]
    }

    pub open spec fn is_admin(self, caller: Address) -> bool {
        caller == self.admin
    }

    pub open spec fn is_operator_or_admin(self, caller: Address) -> bool {
        caller == self.admin || caller == self.operator
    }

    /// With unique request ids, any index holding `request_id` is the one
    /// `index_of_id` denotes.
    pub proof fn lemma_id_index(self, i: int, request_id: Bytes32)
        requires
            self.wf(),
            0 <= i < self.requests.len(),
            self.requests[i].request_id == request_id,
        ensures
            self.has_request_id(request_id),
            self.index_of_id(request_id) == i,
            self.request_with_id(request_id) == self.requests[i],
    {
        assert(self.has_request_id(request_id));
        let k = self.index_of_id(request_id);
        if k < i {
            assert(self.requests[k].request_id != self.requests[i].request_id);
        } else if i < k {
            assert(self.requests[i].request_id != self.requests[k].request_id);
        }
    }

    /// With unique references, any index holding `reference` is the one
    /// `index_of_reference` denotes.
    pub proof fn lemma_reference_index(self, i: int, reference: Bytes32)
        requires
            self.wf(),
            0 <= i < self.requests.len(),
            self.requests[i].reference == reference,
        ensures
            self.has_reference(reference),
            self.index_of_reference(reference) == i,
            self.request_with_reference(reference) == self.requests[i],
    {
        assert(self.has_reference(reference));
        let k = self.index_of_reference(reference);
        if k < i {
            assert(self.requests[k].reference != self.requests[i].reference);
        } else if i < k {
            assert(self.requests[i].reference != self.requests[k].reference);
        }
    }

    // --- Creation ---

    /// The record a successful creation stores.
    pub open spec fn created_record(
        self,
        caller: Address,
        request_id: Bytes32,
        amount: i128,
        reference: Bytes32,
        expires_at: u64,
        now: u64,
    ) -> PaymentRequest {
        PaymentRequest {
            request_id,
            merchant: caller,
            amount,
            reference,
            status: PaymentRequestStatus::Pending,
            created_at: now,
            expires_at,
            paid_at: None,
            payment_id: None,
        }
    }

    /// The exact outcome of a creation attempt, with the checks in the order
    /// they are made: pause gate, amount shape, configured bounds, expiry in
    /// the future, then the two duplicate checks.
    pub open spec fn create_result(
        self,
        request_id: Bytes32,
        amount: i128,
        reference: Bytes32,
        expires_at: u64,
        now: u64,
    ) -> Result<Bytes32, Error> {
        if self.paused {
            Err(Error::ContractPaused)
        } else if amount <= 0 {
            Err(Error::InvalidAmount)
        } else if amount < self.min_amount {
            Err(Error::AmountBelowMinimum)
        } else if amount > self.max_amount {
            Err(Error::AmountAboveMaximum)
        } else if expires_at <= now {
            Err(Error::ExpiryNotInFuture)
        } else if self.has_request_id(request_id) {
            Err(Error::RequestIdExists)
        } else if self.has_reference(reference) {
            Err(Error::ReferenceExists)
        } else {
            Ok(request_id)
        }
    }

    /// The state after a successful creation: the record and its reference
    /// index entry stored, both counters up by one, a creation event logged.
    pub open spec fn after_create(
        self,
        caller: Address,
        request_id: Bytes32,
        amount: i128,
        reference: Bytes32,
        expires_at: u64,
        now: u64,
    ) -> State {
        State {
            total_requests: self.total_requests + 1,
            pending_requests: self.pending_requests + 1,
            requests: self.requests.push(
                self.created_record(caller, request_id, amount, reference, expires_at, now),
            ),
            events: self.events.push(
                Event::RequestCreated { request_id, merchant: caller, amount, expires_at },
            ),
            ..self
        }
    }

    // --- Terminal transitions ---

    /// The exact outcome of `mark_paid`: role gate first, then existence,
    /// then the pending-only rule.
    pub open spec fn mark_paid_result(self, caller: Address, request_id: Bytes32) -> Result<
        (),
        Error,
    > {
        if !self.is_operator_or_admin(caller) {
            Err(Error::NotOperatorOrAdmin)
        } else if !self.has_request_id(request_id) {
            Err(Error::RequestNotFound)
        } else if !(self.request_with_id(request_id).status is Pending) {
            Err(Error::RequestNotPending)
        } else {
            Ok(())
        }
    }

    /// The state after a successful `mark_paid`: the stored record moves to
    /// `Paid` with its settlement data, the pending counter drops by one, a
    /// paid event is logged.
    pub open spec fn after_mark_paid(
        self,
        request_id: Bytes32,
        payment_id: Bytes32,
        now: u64,
    ) -> State {
        let i = self.index_of_id(request_id);
        let paid = PaymentRequest {
            status: PaymentRequestStatus::Paid,
            paid_at: Some(now),
            payment_id: Some(payment_id),
            ..self.requests[i]
        };
        State {
            pending_requests: self.pending_requests - 1,
            requests: self.requests.update(i, paid),
            events: self.events.push(
                Event::RequestPaid { request_id, payment_id, paid_at: now },
            ),
            ..self
        }
    }

    /// The exact outcome of `cancel_request`: existence, then the
    /// pending-only rule, then the merchant-or-admin gate.
    pub open spec fn cancel_result(self, caller: Address, request_id: Bytes32) -> Result<
        (),
        Error,
    > {
        if !self.has_request_id(request_id) {
            Err(Error::RequestNotFound)
        } else if !(self.request_with_id(request_id).status is Pending) {
            Err(Error::RequestNotPending)
        } else if caller != self.request_with_id(request_id).merchant && caller != self.admin {
            Err(Error::NotAuthorizedToCancel)
        } else {
            Ok(())
        }
    }

    /// The state after a successful cancellation.
    pub open spec fn after_cancel(self, request_id: Bytes32) -> State {
        let i = self.index_of_id(request_id);
        let cancelled = PaymentRequest {
            status: PaymentRequestStatus::Cancelled,
            ..self.requests[i]
        };
        State {
            pending_requests: self.pending_requests - 1,
            requests: self.requests.update(i, cancelled),
            events: self.events.push(Event::RequestCancelled { request_id }),
            ..self
        }
    }

    /// The exact outcome of `mark_expired`: role gate, existence, the
    /// pending-only rule, then the boundary-inclusive expiry check.
    pub open spec fn mark_expired_result(
        self,
        caller: Address,
        request_id: Bytes32,
        now: u64,
    ) -> Result<(), Error> {
        if !self.is_operator_or_admin(caller) {
            Err(Error::NotOperatorOrAdmin)
        } else if !self.has_request_id(request_id) {
            Err(Error::RequestNotFound)
        } else if !(self.request_with_id(request_id).status is Pending) {
            Err(Error::RequestNotPending)
        } else if now < self.request_with_id(request_id).expires_at {
            Err(Error::NotYetExpired)
        } else {
            Ok(())
        }
    }

    /// The state after a successful expiry.
    pub open spec fn after_mark_expired(self, request_id: Bytes32) -> State {
        let i = self.index_of_id(request_id);
        let expired = PaymentRequest {
            status: PaymentRequestStatus::Expired,
            ..self.requests[i]
        };
        State {
            pending_requests: self.pending_requests - 1,
            requests: self.requests.update(i, expired),
            events: self.events.push(Event::RequestExpired { request_id }),
            ..self
        }
    }

    // --- Admin mutators ---

    pub open spec fn admin_only_result(self, caller: Address) -> Result<(), Error> {
        if !self.is_admin(caller) {
            Err(Error::NotAdmin)
        } else {
            Ok(())
        }
    }

    pub open spec fn after_set_operator(self, new_operator: Address) -> State {
        State {
            operator: new_operator,
            events: self.events.push(
                Event::OperatorUpdated { old_operator: self.operator, new_operator },
            ),
            ..self
        }
    }

    /// The exact outcome of `set_min_amount`: admin gate, positivity, then
    /// the new minimum must stay below the current maximum.
    pub open spec fn set_min_amount_result(self, caller: Address, new_min: i128) -> Result<
        (),
        Error,
    > {
        if !self.is_admin(caller) {
            Err(Error::NotAdmin)
        } else if new_min <= 0 {
            Err(Error::MinAmountNotPositive)
        } else if new_min >= self.max_amount {
            Err(Error::MinNotBelowMax)
        } else {
            Ok(())
        }
    }

    pub open spec fn after_set_min_amount(self, new_min: i128) -> State {
        State {
            min_amount: new_min,
            events: self.events.push(
                Event::MinAmountUpdated { old_min: self.min_amount, new_min },
            ),
            ..self
        }
    }

    /// The exact outcome of `set_max_amount`: admin gate, positivity, then
    /// the new maximum must stay above the current minimum.
    pub open spec fn set_max_amount_result(self, caller: Address, new_max: i128) -> Result<
        (),
        Error,
    > {
        if !self.is_admin(caller) {
            Err(Error::NotAdmin)
        } else if new_max <= 0 {
            Err(Error::MaxAmountNotPositive)
        } else if new_max <= self.min_amount {
            Err(Error::MaxNotAboveMin)
        } else {
            Ok(())
        }
    }

    pub open spec fn after_set_max_amount(self, new_max: i128) -> State {
        State {
            max_amount: new_max,
            events: self.events.push(
                Event::MaxAmountUpdated { old_max: self.max_amount, new_max },
            ),
            ..self
        }
    }

    pub open spec fn with_paused(self, paused: bool) -> State {
        State { paused, ..self }
    }
}

/// The payment request contract: configuration, request store, reference
/// index and event log, mutated in place by the lifecycle operations.
pub struct PaymentRequestContract {
    admin: Address,
    operator: Address,
    vault: Address,
    paused: bool,
    min_amount: i128,
    max_amount: i128,
    total_requests: u64,
    pending_requests: u64,
    requests: Vec<PaymentRequest>,
    /// Secondary index: entry `i` pairs the reference of `requests[i]` with
    /// its request id. Written atomically with the record, never removed.
    ref_index: Vec<(Bytes32, Bytes32)>,
    events: Vec<Event>,
}

impl View for PaymentRequestContract {
    type V = State;

    closed spec fn view(&self) -> State {
        State {
            admin: self.admin,
            operator: self.operator,
            vault: self.vault,
            paused: self.paused,
            min_amount: self.min_amount,
            max_amount: self.max_amount,
            total_requests: self.total_requests as int,
            pending_requests: self.pending_requests as int,
            requests: self.requests@,
            events: self.events@,
        }
    }
}

impl PaymentRequestContract {
    /// The representation invariant: the model is well formed and the
    /// reference index mirrors the store entry for entry.
    pub closed spec fn inv(&self) -> bool {
        &&& self@.wf()
        &&& self.ref_index@.len() == self.requests@.len()
        &&& forall|i: int|
            0 <= i < self.requests@.len() ==> #[trigger] self.ref_index@[i] == (
                self.requests@[i].reference,
                self.requests@[i].request_id,
            )
    }

    /// The representation invariant subsumes the model's well-formedness.
    pub proof fn lemma_inv_implies_wf(&self)
        requires
            self.inv(),
        ensures
            self@.wf(),
    {
    }

    /// Constructs the contract. Fails entirely, touching nothing, unless
    /// `0 < min_amount < max_amount`.
    pub fn new(
        admin: Address,
        operator: Address,
        vault: Address,
        min_amount: i128,
        max_amount: i128,
    ) -> (r: Result<PaymentRequestContract, Error>)
        ensures
            r is Ok <==> 0 < min_amount < max_amount,
            r matches Err(e) ==> e == (if min_amount <= 0 {
                Error::MinAmountNotPositive
            } else if max_amount <= 0 {
                Error::MaxAmountNotPositive
            } else {
                Error::MinNotBelowMax
            }),
            r matches Ok(c) ==> c.inv() && c@ == (State {
                admin,
                operator,
                vault,
                paused: false,
                min_amount,
                max_amount,
                total_requests: 0,
                pending_requests: 0,
                requests: Seq::empty(),
                events: Seq::empty(),
            }),
    {
        if min_amount <= 0 {
            return Err(Error::MinAmountNotPositive);
        }
        if max_amount <= 0 {
            return Err(Error::MaxAmountNotPositive);
        }
        if min_amount >= max_amount {
            return Err(Error::MinNotBelowMax);
        }
        let c = PaymentRequestContract {
            admin,
            operator,
            vault,
            paused: false,
            min_amount,
            max_amount,
            total_requests: 0,
            pending_requests: 0,
            requests: Vec::new(),
            ref_index: Vec::new(),
            events: Vec::new(),
        };
        proof {
            assert(c@ =~= State {
                admin,
                operator,
                vault,
                paused: false,
                min_amount,
                max_amount,
                total_requests: 0,
                pending_requests: 0,
                requests: Seq::empty(),
                events: Seq::empty(),
            });
        }
        Ok(c)
    }

    /// The index of the record stored under `request_id`, if any.
    fn find_request_index(&self, request_id: Bytes32) -> (r: Option<usize>)
        ensures
            match r {
                Some(i) => i < self.requests@.len() && self.requests@[i as int].request_id
                    == request_id,
                None => !self@.has_request_id(request_id),
            },
    {
        let n = self.requests.len();
        let mut i: usize = 0;
        while i < n
            invariant
                n == self.requests@.len(),
                i <= n,
                forall|j: int| 0 <= j < i ==> self.requests@[j].request_id != request_id,
            decreases n - i,
        {
            if self.requests[i].request_id == request_id {
                return Some(i);
            }
            i = i + 1;
        }
        None
    }

    /// The position in the reference index holding `reference`, if any.
    fn find_reference_index(&self, reference: Bytes32) -> (r: Option<usize>)
        ensures
            match r {
                Some(i) => i < self.ref_index@.len() && self.ref_index@[i as int].0 == reference,
                None => forall|j: int|
                    0 <= j < self.ref_index@.len() ==> self.ref_index@[j].0 != reference,
            },
    {
        let n = self.ref_index.len();
        let mut i: usize = 0;
        while i < n
            invariant
                n == self.ref_index@.len(),
                i <= n,
                forall|j: int| 0 <= j < i ==> self.ref_index@[j].0 != reference,
            decreases n - i,
        {
            if self.ref_index[i].0 == reference {
                return Some(i);
            }
            i = i + 1;
        }
        None
    }

    fn require_admin(&self, caller: Address) -> (r: Result<(), Error>)
        ensures
            r == self@.admin_only_result(caller),
    {
        if caller == self.admin {
            Ok(())
        } else {
            Err(Error::NotAdmin)
        }
    }

    fn require_operator_or_admin(&self, caller: Address) -> (r: Result<(), Error>)
        ensures
            r is Ok <==> self@.is_operator_or_admin(caller),
            r is Err ==> r == Err::<(), Error>(Error::NotOperatorOrAdmin),
    {
        if caller == self.admin || caller == self.operator {
            Ok(())
        } else {
            Err(Error::NotOperatorOrAdmin)
        }
    }

    /// Creates a new payment request for `caller`, the merchant. Checked in
    /// order: pause gate, positive amount, configured bounds, expiry in the
    /// future, fresh request id, fresh reference. On success the record is
    /// stored pending with its reference index entry, both counters rise by
    /// one and a creation event is logged; on failure nothing changes.
    pub fn create_request(
        &mut self,
        caller: Address,
        request_id: Bytes32,
        amount: i128,
        reference: Bytes32,
        expires_at: u64,
        now: u64,
    ) -> (r: Result<Bytes32, Error>)
        requires
            old(self).inv(),
            old(self)@.total_requests < u64::MAX,
        ensures
            final(self).inv(),
            r == old(self)@.create_result(request_id, amount, reference, expires_at, now),
            r is Ok ==> final(self)@ == old(self)@.after_create(
                caller,
                request_id,
                amount,
                reference,
                expires_at,
                now,
            ),
            r is Err ==> final(self)@ == old(self)@,
    {
        if self.paused {
            return Err(Error::ContractPaused);
        }
        if amount <= 0 {
            return Err(Error::InvalidAmount);
        }
        if amount < self.min_amount {
            return Err(Error::AmountBelowMinimum);
        }
        if amount > self.max_amount {
            return Err(Error::AmountAboveMaximum);
        }
        if expires_at <= now {
            return Err(Error::ExpiryNotInFuture);
        }
        if self.find_request_index(request_id).is_some() {
            return Err(Error::RequestIdExists);
        }
        match self.find_reference_index(reference) {
            Some(_) => {
                return Err(Error::ReferenceExists);
            },
            None => {
                proof {
                    assert(!self@.has_reference(reference)) by {
                        if self@.has_reference(reference) {
                            let i = choose|i: int|
                                0 <= i < self.requests@.len() && self.requests@[i].reference
                                    == reference;
                            assert(self.ref_index@[i].0 == reference);
                        }
                    }
                }
            },
        }
        let record = PaymentRequest {
            request_id,
            merchant: caller,
            amount,
            reference,
            status: PaymentRequestStatus::Pending,
            created_at: now,
            expires_at,
            paid_at: None,
            payment_id: None,
        };
        proof {
            lemma_count_pending_bounds(self.requests@);
            lemma_count_pending_push(self.requests@, record);
        }
        self.requests.push(record);
        self.ref_index.push((reference, request_id));
        self.total_requests = self.total_requests + 1;
        self.pending_requests = self.pending_requests + 1;
        self.events.push(
            Event::RequestCreated { request_id, merchant: caller, amount, expires_at },
        );
        proof {
            assert(self@ =~= old(self)@.after_create(
                caller,
                request_id,
                amount,
                reference,
                expires_at,
                now,
            ));
        }
        Ok(request_id)
    }

    /// Marks a pending request paid, on behalf of the operator or the admin,
    /// recording the settlement reference and the payment time.
    pub fn mark_paid(
        &mut self,
        caller: Address,
        request_id: Bytes32,
        payment_id: Bytes32,
        now: u64,
    ) -> (r: Result<(), Error>)
        requires
            old(self).inv(),
        ensures
            final(self).inv(),
            r == old(self)@.mark_paid_result(caller, request_id),
            r is Ok ==> final(self)@ == old(self)@.after_mark_paid(request_id, payment_id, now),
            r is Err ==> final(self)@ == old(self)@,
    {
        if let Err(e) = self.require_operator_or_admin(caller) {
            return Err(e);
        }
        let idx = match self.find_request_index(request_id) {
            Some(i) => i,
            None => {
                return Err(Error::RequestNotFound);
            },
        };
        proof {
            self@.lemma_id_index(idx as int, request_id);
        }
        if self.requests[idx].status != PaymentRequestStatus::Pending {
            return Err(Error::RequestNotPending);
        }
        let mut record = self.requests[idx];
        record.status = PaymentRequestStatus::Paid;
        record.paid_at = Some(now);
        record.payment_id = Some(payment_id);
        proof {
            lemma_count_pending_pos(self.requests@, idx as int);
            lemma_count_pending_update(self.requests@, idx as int, record);
        }
        self.requests[idx] = record;
        if self.pending_requests > 0 {
            self.pending_requests = self.pending_requests - 1;
        }
        self.events.push(Event::RequestPaid { request_id, payment_id, paid_at: now });
        proof {
            assert(self@ =~= old(self)@.after_mark_paid(request_id, payment_id, now));
        }
        Ok(())
    }

    /// Cancels a pending request, on behalf of the merchant that created it
    /// or the admin.
    pub fn cancel_request(&mut self, caller: Address, request_id: Bytes32) -> (r: Result<
        (),
        Error,
    >)
        requires
            old(self).inv(),
        ensures
            final(self).inv(),
            r == old(self)@.cancel_result(caller, request_id),
            r is Ok ==> final(self)@ == old(self)@.after_cancel(request_id),
            r is Err ==> final(self)@ == old(self)@,
    {
        let idx = match self.find_request_index(request_id) {
            Some(i) => i,
            None => {
                return Err(Error::RequestNotFound);
            },
        };
        proof {
            self@.lemma_id_index(idx as int, request_id);
        }
        if self.requests[idx].status != PaymentRequestStatus::Pending {
            return Err(Error::RequestNotPending);
        }
        if caller != self.requests[idx].merchant && caller != self.admin {
            return Err(Error::NotAuthorizedToCancel);
        }
        let mut record = self.requests[idx];
        record.status = PaymentRequestStatus::Cancelled;
        proof {
            lemma_count_pending_pos(self.requests@, idx as int);
            lemma_count_pending_update(self.requests@, idx as int, record);
        }
        self.requests[idx] = record;
        if self.pending_requests > 0 {
            self.pending_requests = self.pending_requests - 1;
        }
        self.events.push(Event::RequestCancelled { request_id });
        proof {
            assert(self@ =~= old(self)@.after_cancel(request_id));
        }
        Ok(())
    }

    /// Marks a pending request expired, on behalf of the operator or the
    /// admin. The boundary is inclusive: the exact expiry timestamp already
    /// counts as expired.
    pub fn mark_expired(&mut self, caller: Address, request_id: Bytes32, now: u64) -> (r: Result<
        (),
        Error,
    >)
        requires
            old(self).inv(),
        ensures
            final(self).inv(),
            r == old(self)@.mark_expired_result(caller, request_id, now),
            r is Ok ==> final(self)@ == old(self)@.after_mark_expired(request_id),
            r is Err ==> final(self)@ == old(self)@,
    {
        if let Err(e) = self.require_operator_or_admin(caller) {
            return Err(e);
        }
        let idx = match self.find_request_index(request_id) {
            Some(i) => i,
            None => {
                return Err(Error::RequestNotFound);
            },
        };
        proof {
            self@.lemma_id_index(idx as int, request_id);
        }
        if self.requests[idx].status != PaymentRequestStatus::Pending {
            return Err(Error::RequestNotPending);
        }
        if now < self.requests[idx].expires_at {
            return Err(Error::NotYetExpired);
        }
        let mut record = self.requests[idx];
        record.status = PaymentRequestStatus::Expired;
        proof {
            lemma_count_pending_pos(self.requests@, idx as int);
            lemma_count_pending_update(self.requests@, idx as int, record);
        }
        self.requests[idx] = record;
        if self.pending_requests > 0 {
            self.pending_requests = self.pending_requests - 1;
        }
        self.events.push(Event::RequestExpired { request_id });
        proof {
            assert(self@ =~= old(self)@.after_mark_expired(request_id));
        }
        Ok(())
    }

    // --- Lookups ---

    /// Fetches the request stored under `request_id`.
    pub fn get_request(&self, request_id: Bytes32) -> (r: Result<PaymentRequest, Error>)
        requires
            self.inv(),
        ensures
            r is Ok <==> self@.has_request_id(request_id),
            r matches Ok(req) ==> req == self@.request_with_id(request_id),
            r matches Err(e) ==> e == Error::RequestNotFound,
    {
        match self.find_request_index(request_id) {
            Some(i) => {
                proof {
                    self@.lemma_id_index(i as int, request_id);
                }
                Ok(self.requests[i])
            },
            None => Err(Error::RequestNotFound),
        }
    }

    /// Fetches the request whose reference hash is `reference`, resolved
    /// through the secondary index.
    pub fn get_request_by_reference(&self, reference: Bytes32) -> (r: Result<
        PaymentRequest,
        Error,
    >)
        requires
            self.inv(),
        ensures
            r is Ok <==> self@.has_reference(reference),
            r matches Ok(req) ==> req == self@.request_with_reference(reference),
            r matches Err(e) ==> e == Error::ReferenceNotFound,
    {
        let pos = match self.find_reference_index(reference) {
            Some(i) => i,
            None => {
                proof {
                    assert(!self@.has_reference(reference)) by {
                        if self@.has_reference(reference) {
                            let i = choose|i: int|
                                0 <= i < self.requests@.len() && self.requests@[i].reference
                                    == reference;
                            assert(self.ref_index@[i].0 == reference);
                        }
                    }
                }
                return Err(Error::ReferenceNotFound);
            },
        };
        let request_id = self.ref_index[pos].1;
        proof {
            self@.lemma_reference_index(pos as int, reference);
            self@.lemma_id_index(pos as int, request_id);
        }
        match self.find_request_index(request_id) {
            Some(i) => {
                proof {
                    self@.lemma_id_index(i as int, request_id);
                }
                Ok(self.requests[i])
            },
            None => {
                // Unreachable: the index entry was written with the record.
                Err(Error::ReferenceNotFound)
            },
        }
    }

    // --- Configuration getters ---

    pub fn get_admin(&self) -> (r: Address)
        ensures
            r == self@.admin,
    {
        self.admin
    }

    pub fn get_operator(&self) -> (r: Address)
        ensures
            r == self@.operator,
    {
        self.operator
    }

    pub fn get_vault(&self) -> (r: Address)
        ensures
            r == self@.vault,
    {
        self.vault
    }

    pub fn get_min_amount(&self) -> (r: i128)
        ensures
            r == self@.min_amount,
    {
        self.min_amount
    }

    pub fn get_max_amount(&self) -> (r: i128)
        ensures
            r == self@.max_amount,
    {
        self.max_amount
    }

    pub fn get_total_requests(&self) -> (r: u64)
        ensures
            r == self@.total_requests,
    {
        self.total_requests
    }

    pub fn get_pending_requests(&self) -> (r: u64)
        ensures
            r == self@.pending_requests,
    {
        self.pending_requests
    }

    pub fn is_paused(&self) -> (r: bool)
        ensures
            r == self@.paused,
    {
        self.paused
    }

    /// The domain events emitted so far, oldest first.
    pub fn events(&self) -> (r: &Vec<Event>)
        ensures
            r@ == self@.events,
    {
        &self.events
    }

    // --- Admin mutators ---

    /// Replaces the operator (admin only), logging the old and new values.
    pub fn set_operator(&mut self, caller: Address, new_operator: Address) -> (r: Result<
        (),
        Error,
    >)
        requires
            old(self).inv(),
        ensures
            final(self).inv(),
            r == old(self)@.admin_only_result(caller),
            r is Ok ==> final(self)@ == old(self)@.after_set_operator(new_operator),
            r is Err ==> final(self)@ == old(self)@,
    {
        if let Err(e) = self.require_admin(caller) {
            return Err(e);
        }
        let old_operator = self.operator;
        self.operator = new_operator;
        self.events.push(Event::OperatorUpdated { old_operator, new_operator });
        proof {
            assert(self@ =~= old(self)@.after_set_operator(new_operator));
        }
        Ok(())
    }

    /// Lowers or raises the minimum amount (admin only). The new minimum
    /// must be positive and stay strictly below the current maximum.
    pub fn set_min_amount(&mut self, caller: Address, new_min: i128) -> (r: Result<(), Error>)
        requires
            old(self).inv(),
        ensures
            final(self).inv(),
            r == old(self)@.set_min_amount_result(caller, new_min),
            r is Ok ==> final(self)@ == old(self)@.after_set_min_amount(new_min),
            r is Err ==> final(self)@ == old(self)@,
    {
        if let Err(e) = self.require_admin(caller) {
            return Err(e);
        }
        if new_min <= 0 {
            return Err(Error::MinAmountNotPositive);
        }
        if new_min >= self.max_amount {
            return Err(Error::MinNotBelowMax);
        }
        let old_min = self.min_amount;
        self.min_amount = new_min;
        self.events.push(Event::MinAmountUpdated { old_min, new_min });
        proof {
            assert(self@ =~= old(self)@.after_set_min_amount(new_min));
        }
        Ok(())
    }

    /// Raises or lowers the maximum amount (admin only). The new maximum
    /// must be positive and stay strictly above the current minimum.
    pub fn set_max_amount(&mut self, caller: Address, new_max: i128) -> (r: Result<(), Error>)
        requires
            old(self).inv(),
        ensures
            final(self).inv(),
            r == old(self)@.set_max_amount_result(caller, new_max),
            r is Ok ==> final(self)@ == old(self)@.after_set_max_amount(new_max),
            r is Err ==> final(self)@ == old(self)@,
    {
        if let Err(e) = self.require_admin(caller) {
            return Err(e);
        }
        if new_max <= 0 {
            return Err(Error::MaxAmountNotPositive);
        }
        if new_max <= self.min_amount {
            return Err(Error::MaxNotAboveMin);
        }
        let old_max = self.max_amount;
        self.max_amount = new_max;
        self.events.push(Event::MaxAmountUpdated { old_max, new_max });
        proof {
            assert(self@ =~= old(self)@.after_set_max_amount(new_max));
        }
        Ok(())
    }

    /// Pauses request creation (admin only).
    pub fn pause(&mut self, caller: Address) -> (r: Result<(), Error>)
        requires
            old(self).inv(),
        ensures
            final(self).inv(),
            r == old(self)@.admin_only_result(caller),
            r is Ok ==> final(self)@ == old(self)@.with_paused(true),
            r is Err ==> final(self)@ == old(self)@,
    {
        if let Err(e) = self.require_admin(caller) {
            return Err(e);
        }
        self.paused = true;
        proof {
            assert(self@ =~= old(self)@.with_paused(true));
        }
        Ok(())
    }

    /// Resumes request creation (admin only).
    pub fn unpause(&mut self, caller: Address) -> (r: Result<(), Error>)
        requires
            old(self).inv(),
        ensures
            final(self).inv(),
            r == old(self)@.admin_only_result(caller),
            r is Ok ==> final(self)@ == old(self)@.with_paused(false),
            r is Err ==> final(self)@ == old(self)@,
    {
        if let Err(e) = self.require_admin(caller) {
            return Err(e);
        }
        self.paused = false;
        proof {
            assert(self@ =~= old(self)@.with_paused(false));
        }
        Ok(())
    }
}

} // verus!
