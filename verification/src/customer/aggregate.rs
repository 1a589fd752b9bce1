//! The `Customer` aggregate: the customer lifecycle boundary.
use crate::aggregate::{AggregateVersion, ChangeOutcome};
use crate::customer::error::{CustomerActivationError, CustomerError};
use crate::customer::event::{CustomerActivatedV1, CustomerCreatedV1, CustomerEvent};
use crate::customer::permit::{permit_local_check, ActivationPermit, ActivationPermitView};
use crate::customer::state::CustomerStatus;
use crate::event::{payloads, PendingEvent};
use crate::ids::CustomerId;
use crate::time::Timestamp;
use vstd::prelude::*;

verus! {

/// Customer lifecycle aggregate root.
///
/// Fields are private; state changes only through `create` and `activate`,
/// each of which raises exactly one event and advances the version by one.
#[derive(Debug, Clone)]
pub struct Customer {
    id: CustomerId,
    status: CustomerStatus,
    created_at: Timestamp,
    updated_at: Timestamp,
    version: AggregateVersion,
    pending_events: Vec<PendingEvent<CustomerEvent>>,
}

/// The state of a customer.
pub struct CustomerView {
    pub id: CustomerId,
    pub status: CustomerStatus,
    pub created_at: Timestamp,
    pub updated_at: Timestamp,
    pub version: nat,
    pub pending_events: Seq<PendingEvent<CustomerEvent>>,
}

impl View for Customer {
    type V = CustomerView;

    closed spec fn view(&self) -> CustomerView {
        CustomerView {
            id: self.id,
            status: self.status,
            created_at: self.created_at,
            updated_at: self.updated_at,
            version: self.version@,
            pending_events: self.pending_events@,
        }
    }
}

/// Every event a customer in `status` has raised since creation, in order.
pub open spec fn customer_history(id: CustomerId, status: CustomerStatus) -> Seq<CustomerEvent> {
    let created = seq![CustomerEvent::Created(CustomerCreatedV1 { customer_id: id })];
    match status {
        CustomerStatus::Draft => created,
        CustomerStatus::Active => created.push(
            CustomerEvent::Activated(CustomerActivatedV1 { customer_id: id }),
        ),
    }
}

impl CustomerView {
    /// The version counts every event raised so far, and the buffered events
    /// are the latest of them, in the order they were raised.
    pub open spec fn wf(self) -> bool {
        &&& self.version == customer_history(self.id, self.status).len()
        &&& payloads(self.pending_events).is_suffix_of(customer_history(self.id, self.status))
    }
}

/// A customer just created with `id` at `now`.
pub open spec fn created_customer(id: CustomerId, now: Timestamp) -> CustomerView {
    CustomerView {
        id,
        status: CustomerStatus::Draft,
        created_at: now,
        updated_at: now,
        version: 1,
        pending_events: seq![
            PendingEvent {
                payload: CustomerEvent::Created(CustomerCreatedV1 { customer_id: id }),
                occurred_at: now,
            },
        ],
    }
}

/// The customer and the result after `activate(permit, now)`.
pub open spec fn customer_after_activate(
    c: CustomerView,
    permit: ActivationPermitView,
    now: Timestamp,
) -> (CustomerView, Result<ChangeOutcome, CustomerError>) {
    match permit_local_check(permit, c.id, c.version, now) {
        Err(e) => (c, Err(CustomerError::Activation(e))),
        Ok(()) => match c.status {
            CustomerStatus::Draft => (
                CustomerView {
                    status: CustomerStatus::Active,
                    updated_at: now,
                    version: c.version + 1,
                    pending_events: c.pending_events.push(
                        PendingEvent {
                            payload: CustomerEvent::Activated(
                                CustomerActivatedV1 { customer_id: c.id },
                            ),
                            occurred_at: now,
                        },
                    ),
                    ..c
                },
                Ok(ChangeOutcome::Changed),
            ),
            CustomerStatus::Active => (c, Ok(ChangeOutcome::NoChange)),
        },
    }
}

/// The customer after its buffered events were handed out.
pub open spec fn customer_drained(c: CustomerView) -> CustomerView {
    CustomerView { pending_events: Seq::empty(), ..c }
}

impl Customer {
    /// Creates a new customer in the `Draft` status, raising `Created`.
    pub fn create(id: CustomerId, now: Timestamp) -> (c: Customer)
        ensures
            c@ == created_customer(id, now),
            c@.wf(),
    {
        let mut customer = Customer {
            id,
            status: CustomerStatus::Draft,
            created_at: now,
            updated_at: now,
            version: AggregateVersion::initial(),
            pending_events: Vec::new(),
        };
        customer.raise(CustomerEvent::Created(CustomerCreatedV1 { customer_id: id }), now);
        proof {
            assert(payloads(customer@.pending_events) =~= customer_history(id, CustomerStatus::Draft));
        }
        customer
    }

    /// Moves the customer from `Draft` to `Active`.
    ///
    /// The permit's local conditions are checked first; a refused permit
    /// leaves the customer untouched. An already `Active` customer answers
    /// `NoChange` and stays as it is, so a retried activation is safe.
    pub fn activate(&mut self, permit: ActivationPermit, now: Timestamp) -> (r: Result<
        ChangeOutcome,
        CustomerError,
    >)
        requires
            old(self)@.wf(),
        ensures
            (final(self)@, r) == customer_after_activate(old(self)@, permit@, now),
            final(self)@.wf(),
    {
        match permit.validate_local(self.id, self.version, now) {
            Err(e) => {
                return Err(CustomerError::Activation(e));
            },
            Ok(()) => {},
        }
        match &self.status {
            CustomerStatus::Draft => {
                let ghost before = self@;
                self.status = CustomerStatus::Active;
                self.updated_at = now;
                self.raise(CustomerEvent::Activated(CustomerActivatedV1 { customer_id: self.id }), now);
                proof {
                    let h = customer_history(before.id, CustomerStatus::Active);
                    assert(payloads(self@.pending_events) =~= payloads(before.pending_events).push(h.last()));
                    assert(h.drop_last() =~= customer_history(before.id, CustomerStatus::Draft));
                }
                Ok(ChangeOutcome::Changed)
            },
            CustomerStatus::Active => Ok(ChangeOutcome::NoChange),
        }
    }

    /// Returns the buffered events, oldest first, and empties the buffer.
    pub fn pull_pending_events(&mut self) -> (events: Vec<PendingEvent<CustomerEvent>>)
        requires
            old(self)@.wf(),
        ensures
            events@ == old(self)@.pending_events,
            final(self)@ == customer_drained(old(self)@),
            final(self)@.wf(),
    {
        let mut events = Vec::new();
        std::mem::swap(&mut events, &mut self.pending_events);
        proof {
            assert(payloads(self@.pending_events) =~= Seq::<CustomerEvent>::empty());
        }
        events
    }

    pub fn id(&self) -> (id: CustomerId)
        ensures
            id == self@.id,
    {
        self.id
    }

    pub fn status(&self) -> (s: &CustomerStatus)
        ensures
            *s == self@.status,
    {
        &self.status
    }

    /// Current version, used by repositories for the optimistic-locking check.
    pub fn version(&self) -> (v: AggregateVersion)
        ensures
            v@ == self@.version,
    {
        self.version
    }

    pub fn created_at(&self) -> (t: Timestamp)
        ensures
            t == self@.created_at,
    {
        self.created_at
    }

    pub fn updated_at(&self) -> (t: Timestamp)
        ensures
            t == self@.updated_at,
    {
        self.updated_at
    }

    /// Buffers an event and advances the version: one event, one increment.
    fn raise(&mut self, event: CustomerEvent, occurred_at: Timestamp)
        requires
            old(self)@.version < u64::MAX,
        ensures
            final(self)@ == (CustomerView {
                version: old(self)@.version + 1,
                pending_events: old(self)@.pending_events.push(
                    PendingEvent { payload: event, occurred_at },
                ),
                ..old(self)@
            }),
    {
        self.pending_events.push(PendingEvent::new(event, occurred_at));
        self.version = self.version.next();
    }
}

/// Activation is idempotent: once a customer is `Active`, no activation
/// changes it, whatever the permit; each answer is `NoChange` or a refusal.
pub proof fn lemma_customer_activation_idempotent(
    c: CustomerView,
    permit: ActivationPermitView,
    now: Timestamp,
)
    requires
        c.status == CustomerStatus::Active,
    ensures
        customer_after_activate(c, permit, now).0 == c,
        customer_after_activate(c, permit, now).1 is Err || customer_after_activate(c, permit, now).1
            == Ok::<ChangeOutcome, CustomerError>(ChangeOutcome::NoChange),
{
}

/// A command either raises exactly one event and advances the version by
/// one, or leaves the customer exactly as it was; a refused activation
/// changes nothing.
pub proof fn lemma_customer_activate_one_event_one_version(
    c: CustomerView,
    permit: ActivationPermitView,
    now: Timestamp,
)
    ensures
        ({
            let (after, r) = customer_after_activate(c, permit, now);
            ||| (r == Ok::<ChangeOutcome, CustomerError>(ChangeOutcome::Changed)
                && after.version == c.version + 1 && after.pending_events.drop_last()
                == c.pending_events && after.pending_events.len() == c.pending_events.len() + 1)
            ||| (r != Ok::<ChangeOutcome, CustomerError>(ChangeOutcome::Changed) && after == c)
        }),
{
    let (after, r) = customer_after_activate(c, permit, now);
    if r == Ok::<ChangeOutcome, CustomerError>(ChangeOutcome::Changed) {
        assert(after.pending_events.drop_last() =~= c.pending_events);
    }
}

/// A permit is worth one change: once it has activated the customer, the
/// same permit is refused for a version mismatch (unless it has expired,
/// which is checked first).
pub proof fn lemma_customer_permit_single_use(c: CustomerView, permit: ActivationPermitView, t1: Timestamp, t2: Timestamp)
    requires
        customer_after_activate(c, permit, t1).1 == Ok::<ChangeOutcome, CustomerError>(
            ChangeOutcome::Changed,
        ),
    ensures
        customer_after_activate(customer_after_activate(c, permit, t1).0, permit, t2).1 == Err::<
            ChangeOutcome,
            CustomerError,
        >(
            CustomerError::Activation(
                if permit.expires_at.precedes(t2) {
                    CustomerActivationError::PermitExpired
                } else {
                    CustomerActivationError::PermitVersionMismatch
                },
            ),
        ),
{
}

/// The permit is checked before the status: expiry first (`now` strictly
/// after the permit's expiry), then the customer it names, then the version
/// it was issued for; a refused permit leaves the customer as it is, whatever
/// its status. A permit for this customer at its current version that has
/// not expired, whenever it was issued, activates a `Draft` customer (one
/// event, one version step, `updated_at` set to `now`) and leaves an `Active`
/// one as it is with `NoChange`.
pub proof fn lemma_customer_activation_rules(
    c: CustomerView,
    permit: ActivationPermitView,
    now: Timestamp,
)
    ensures
        permit.expires_at.precedes(now) ==> customer_after_activate(c, permit, now) == (
            c,
            Err::<ChangeOutcome, CustomerError>(
                CustomerError::Activation(CustomerActivationError::PermitExpired),
            ),
        ),
        !permit.expires_at.precedes(now) && permit.customer_id != c.id ==> customer_after_activate(
            c,
            permit,
            now,
        ) == (
            c,
            Err::<ChangeOutcome, CustomerError>(
                CustomerError::Activation(CustomerActivationError::PermitCustomerIdMismatch),
            ),
        ),
        !permit.expires_at.precedes(now) && permit.customer_id == c.id && permit.customer_version
            != c.version ==> customer_after_activate(c, permit, now) == (
            c,
            Err::<ChangeOutcome, CustomerError>(
                CustomerError::Activation(CustomerActivationError::PermitVersionMismatch),
            ),
        ),
        !permit.expires_at.precedes(now) && permit.customer_id == c.id && permit.customer_version
            == c.version && c.status == CustomerStatus::Draft ==> {
            let (after, r) = customer_after_activate(c, permit, now);
            &&& r == Ok::<ChangeOutcome, CustomerError>(ChangeOutcome::Changed)
            &&& after.status == CustomerStatus::Active
            &&& after.id == c.id
            &&& after.created_at == c.created_at
            &&& after.updated_at == now
            &&& after.version == c.version + 1
            &&& after.pending_events == c.pending_events.push(
                PendingEvent {
                    payload: CustomerEvent::Activated(CustomerActivatedV1 { customer_id: c.id }),
                    occurred_at: now,
                },
            )
        },
        !permit.expires_at.precedes(now) && permit.customer_id == c.id && permit.customer_version
            == c.version && c.status == CustomerStatus::Active ==> customer_after_activate(
            c,
            permit,
            now,
        ) == (c, Ok::<ChangeOutcome, CustomerError>(ChangeOutcome::NoChange)),
{
}

/// Draining the events twice yields nothing the second time.
pub proof fn lemma_customer_drain_twice(c: CustomerView)
    ensures
        customer_drained(customer_drained(c)) == customer_drained(c),
        customer_drained(c).pending_events.len() == 0,
{
}

/// A customer created at `t` and activated at `t` with a permit for it,
/// issued at its version 1 and not yet expired, is `Active` at version 2,
/// and its buffer holds `Created` then `Activated`.
pub proof fn lemma_customer_create_then_activate(
    id: CustomerId,
    t: Timestamp,
    permit: ActivationPermitView,
)
    requires
        permit.customer_id == id,
        permit.customer_version == 1,
        !permit.expires_at.precedes(t),
    ensures
        ({
            let (after, r) = customer_after_activate(created_customer(id, t), permit, t);
            &&& r == Ok::<ChangeOutcome, CustomerError>(ChangeOutcome::Changed)
            &&& after.status == CustomerStatus::Active
            &&& after.version == 2
            &&& payloads(after.pending_events) == customer_history(id, CustomerStatus::Active)
        }),
{
    let (after, r) = customer_after_activate(created_customer(id, t), permit, t);
    assert(payloads(after.pending_events) =~= customer_history(id, CustomerStatus::Active));
}

/// A new customer is a `Draft` at version 1, created and updated at `now`,
/// and buffers exactly one `Created` event naming it, raised at `now`.
pub proof fn lemma_customer_create_shape(id: CustomerId, now: Timestamp)
    ensures
        ({
            let c = created_customer(id, now);
            &&& c.id == id
            &&& c.status == CustomerStatus::Draft
            &&& c.version == 1
            &&& c.created_at == now && c.updated_at == now
            &&& c.pending_events.len() == 1
            &&& c.pending_events[0].occurred_at == now
            &&& c.pending_events[0].payload == CustomerEvent::Created(CustomerCreatedV1 { customer_id: id })
            &&& c.wf()
        }),
{
    assert(payloads(created_customer(id, now).pending_events) =~= customer_history(id, CustomerStatus::Draft));
}

} // verus!
