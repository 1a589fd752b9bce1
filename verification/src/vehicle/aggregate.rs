//! The `Vehicle` aggregate: identity and lifecycle of a single vehicle.
use crate::aggregate::{AggregateVersion, ChangeOutcome};
use crate::vehicle::error::{VehicleActivationError, VehicleError};
use crate::vehicle::event::{VehicleActivatedV1, VehicleCreatedV1, VehicleEvent};
use crate::vehicle::permit::{vehicle_permit_local_check, VehicleActivationPermit, VehicleActivationPermitView};
use crate::vehicle::state::VehicleStatus;
use crate::event::{payloads, PendingEvent};
use crate::ids::VehicleId;
use crate::time::Timestamp;
use vstd::prelude::*;

verus! {

/// Vehicle lifecycle aggregate root.
///
/// Fields are private; state changes only through `create` and `activate`,
/// each of which raises exactly one event and advances the version by one.
#[derive(Debug, Clone)]
pub struct Vehicle {
    id: VehicleId,
    status: VehicleStatus,
    created_at: Timestamp,
    updated_at: Timestamp,
    version: AggregateVersion,
    pending_events: Vec<PendingEvent<VehicleEvent>>,
}

/// The state of a vehicle.
pub struct VehicleView {
    pub id: VehicleId,
    pub status: VehicleStatus,
    pub created_at: Timestamp,
    pub updated_at: Timestamp,
    pub version: nat,
    pub pending_events: Seq<PendingEvent<VehicleEvent>>,
}

impl View for Vehicle {
    type V = VehicleView;

    closed spec fn view(&self) -> VehicleView {
        VehicleView {
            id: self.id,
            status: self.status,
            created_at: self.created_at,
            updated_at: self.updated_at,
            version: self.version@,
            pending_events: self.pending_events@,
        }
    }
}

/// Every event a vehicle in `status` has raised since creation, in order.
pub open spec fn vehicle_history(id: VehicleId, status: VehicleStatus) -> Seq<VehicleEvent> {
    let created = seq![VehicleEvent::Created(VehicleCreatedV1 { vehicle_id: id })];
    match status {
        VehicleStatus::Draft => created,
        VehicleStatus::Active => created.push(
            VehicleEvent::Activated(VehicleActivatedV1 { vehicle_id: id }),
        ),
    }
}

impl VehicleView {
    /// The version counts every event raised so far, and the buffered events
    /// are the latest of them, in the order they were raised.
    pub open spec fn wf(self) -> bool {
        &&& self.version == vehicle_history(self.id, self.status).len()
        &&& payloads(self.pending_events).is_suffix_of(vehicle_history(self.id, self.status))
    }
}

/// A vehicle just created with `id` at `now`.
pub open spec fn created_vehicle(id: VehicleId, now: Timestamp) -> VehicleView {
    VehicleView {
        id,
        status: VehicleStatus::Draft,
        created_at: now,
        updated_at: now,
        version: 1,
        pending_events: seq![
            PendingEvent {
                payload: VehicleEvent::Created(VehicleCreatedV1 { vehicle_id: id }),
                occurred_at: now,
            },
        ],
    }
}

/// The vehicle and the result after `activate(permit, now)`.
pub open spec fn vehicle_after_activate(
    c: VehicleView,
    permit: VehicleActivationPermitView,
    now: Timestamp,
) -> (VehicleView, Result<ChangeOutcome, VehicleError>) {
    match vehicle_permit_local_check(permit, c.id, now) {
        Err(e) => (c, Err(VehicleError::Activation(e))),
        Ok(()) => match c.status {
            VehicleStatus::Draft => (
                VehicleView {
                    status: VehicleStatus::Active,
                    updated_at: now,
                    version: c.version + 1,
                    pending_events: c.pending_events.push(
                        PendingEvent {
                            payload: VehicleEvent::Activated(
                                VehicleActivatedV1 { vehicle_id: c.id },
                            ),
                            occurred_at: now,
                        },
                    ),
                    ..c
                },
                Ok(ChangeOutcome::Changed),
            ),
            VehicleStatus::Active => (c, Ok(ChangeOutcome::NoChange)),
        },
    }
}

/// The vehicle after its buffered events were handed out.
pub open spec fn vehicle_drained(c: VehicleView) -> VehicleView {
    VehicleView { pending_events: Seq::empty(), ..c }
}

impl Vehicle {
    /// Creates a new vehicle in the `Draft` status, raising `Created`.
    pub fn create(id: VehicleId, now: Timestamp) -> (c: Vehicle)
        ensures
            c@ == created_vehicle(id, now),
            c@.wf(),
    {
        let mut vehicle = Vehicle {
            id,
            status: VehicleStatus::Draft,
            created_at: now,
            updated_at: now,
            version: AggregateVersion::initial(),
            pending_events: Vec::new(),
        };
        vehicle.raise(VehicleEvent::Created(VehicleCreatedV1 { vehicle_id: id }), now);
        proof {
            assert(payloads(vehicle@.pending_events) =~= vehicle_history(id, VehicleStatus::Draft));
        }
        vehicle
    }

    /// Moves the vehicle from `Draft` to `Active`.
    ///
    /// The permit's local conditions are checked first; a refused permit
    /// leaves the vehicle untouched. An already `Active` vehicle answers
    /// `NoChange` and stays as it is, so a retried activation is safe.
    pub fn activate(&mut self, permit: VehicleActivationPermit, now: Timestamp) -> (r: Result<
        ChangeOutcome,
        VehicleError,
    >)
        requires
            old(self)@.wf(),
        ensures
            (final(self)@, r) == vehicle_after_activate(old(self)@, permit@, now),
            final(self)@.wf(),
    {
        match permit.validate_local(self.id, now) {
            Err(e) => {
                return Err(VehicleError::Activation(e));
            },
            Ok(()) => {},
        }
        match &self.status {
            VehicleStatus::Draft => {
                let ghost before = self@;
                self.status = VehicleStatus::Active;
                self.updated_at = now;
                self.raise(VehicleEvent::Activated(VehicleActivatedV1 { vehicle_id: self.id }), now);
                proof {
                    let h = vehicle_history(before.id, VehicleStatus::Active);
                    assert(payloads(self@.pending_events) =~= payloads(before.pending_events).push(h.last()));
                    assert(h.drop_last() =~= vehicle_history(before.id, VehicleStatus::Draft));
                }
                Ok(ChangeOutcome::Changed)
            },
            VehicleStatus::Active => Ok(ChangeOutcome::NoChange),
        }
    }

    /// Returns the buffered events, oldest first, and empties the buffer.
    pub fn pull_pending_events(&mut self) -> (events: Vec<PendingEvent<VehicleEvent>>)
        requires
            old(self)@.wf(),
        ensures
            events@ == old(self)@.pending_events,
            final(self)@ == vehicle_drained(old(self)@),
            final(self)@.wf(),
    {
        let mut events = Vec::new();
        std::mem::swap(&mut events, &mut self.pending_events);
        proof {
            assert(payloads(self@.pending_events) =~= Seq::<VehicleEvent>::empty());
        }
        events
    }

    pub fn id(&self) -> (id: VehicleId)
        ensures
            id == self@.id,
    {
        self.id
    }

    pub fn status(&self) -> (s: &VehicleStatus)
        ensures
            *s == self@.status,
    {
        &self.status
    }

    /// Current version, used by repositories for the optimistic-locking check.
    pub fn version(&self) -> (v: AggregateVersion)
        ensures
            v@ == self@.version,
    {
        self.version
    }

    pub fn created_at(&self) -> (t: Timestamp)
        ensures
            t == self@.created_at,
    {
        self.created_at
    }

    pub fn updated_at(&self) -> (t: Timestamp)
        ensures
            t == self@.updated_at,
    {
        self.updated_at
    }

    /// Buffers an event and advances the version: one event, one increment.
    fn raise(&mut self, event: VehicleEvent, occurred_at: Timestamp)
        requires
            old(self)@.version < u64::MAX,
        ensures
            final(self)@ == (VehicleView {
                version: old(self)@.version + 1,
                pending_events: old(self)@.pending_events.push(
                    PendingEvent { payload: event, occurred_at },
                ),
                ..old(self)@
            }),
    {
        self.pending_events.push(PendingEvent::new(event, occurred_at));
        self.version = self.version.next();
    }
}

/// Activation is idempotent: once a vehicle is `Active`, no activation
/// changes it, whatever the permit; each answer is `NoChange` or a refusal.
pub proof fn lemma_vehicle_activation_idempotent(
    v: VehicleView,
    permit: VehicleActivationPermitView,
    now: Timestamp,
)
    requires
        v.status == VehicleStatus::Active,
    ensures
        vehicle_after_activate(v, permit, now).0 == v,
        vehicle_after_activate(v, permit, now).1 is Err || vehicle_after_activate(v, permit, now).1
            == Ok::<ChangeOutcome, VehicleError>(ChangeOutcome::NoChange),
{
}

/// A command either raises exactly one event and advances the version by
/// one, or leaves the vehicle exactly as it was; a refused activation
/// changes nothing.
pub proof fn lemma_vehicle_activate_one_event_one_version(
    v: VehicleView,
    permit: VehicleActivationPermitView,
    now: Timestamp,
)
    ensures
        ({
            let (after, r) = vehicle_after_activate(v, permit, now);
            ||| (r == Ok::<ChangeOutcome, VehicleError>(ChangeOutcome::Changed)
                && after.version == v.version + 1 && after.pending_events.drop_last()
                == v.pending_events && after.pending_events.len() == v.pending_events.len() + 1)
            ||| (r != Ok::<ChangeOutcome, VehicleError>(ChangeOutcome::Changed) && after == v)
        }),
{
    let (after, r) = vehicle_after_activate(v, permit, now);
    if r == Ok::<ChangeOutcome, VehicleError>(ChangeOutcome::Changed) {
        assert(after.pending_events.drop_last() =~= v.pending_events);
    }
}

/// The vehicle permit is not bound to a version: whether it is accepted
/// depends on the vehicle's identity, status and the time only.
pub proof fn lemma_vehicle_permit_ignores_version(
    v: VehicleView,
    permit: VehicleActivationPermitView,
    now: Timestamp,
    other_version: nat,
)
    ensures
        vehicle_after_activate(VehicleView { version: other_version, ..v }, permit, now).1
            == vehicle_after_activate(v, permit, now).1,
{
}

/// The permit is checked before the status. A permit naming another vehicle,
/// or one that has expired (`now` strictly after its expiry), is refused and
/// the vehicle stays as it is, whatever its status. A permit for the vehicle
/// that has not expired, whenever it was issued, activates a `Draft` vehicle
/// (one event, one version step, `updated_at` set to `now`) and leaves an
/// `Active` one as it is with `NoChange`.
pub proof fn lemma_vehicle_activation_rules(
    v: VehicleView,
    permit: VehicleActivationPermitView,
    now: Timestamp,
)
    ensures
        permit.vehicle_id != v.id ==> vehicle_after_activate(v, permit, now) == (
            v,
            Err::<ChangeOutcome, VehicleError>(
                VehicleError::Activation(VehicleActivationError::PermitVehicleIdMismatch),
            ),
        ),
        permit.vehicle_id == v.id && permit.expires_at.precedes(now) ==> vehicle_after_activate(
            v,
            permit,
            now,
        ) == (
            v,
            Err::<ChangeOutcome, VehicleError>(
                VehicleError::Activation(VehicleActivationError::PermitExpired),
            ),
        ),
        permit.vehicle_id == v.id && !permit.expires_at.precedes(now) && v.status
            == VehicleStatus::Draft ==> {
            let (after, r) = vehicle_after_activate(v, permit, now);
            &&& r == Ok::<ChangeOutcome, VehicleError>(ChangeOutcome::Changed)
            &&& after.status == VehicleStatus::Active
            &&& after.id == v.id
            &&& after.created_at == v.created_at
            &&& after.updated_at == now
            &&& after.version == v.version + 1
            &&& after.pending_events == v.pending_events.push(
                PendingEvent {
                    payload: VehicleEvent::Activated(VehicleActivatedV1 { vehicle_id: v.id }),
                    occurred_at: now,
                },
            )
        },
        permit.vehicle_id == v.id && !permit.expires_at.precedes(now) && v.status
            == VehicleStatus::Active ==> vehicle_after_activate(v, permit, now) == (
            v,
            Ok::<ChangeOutcome, VehicleError>(ChangeOutcome::NoChange),
        ),
{
}

/// Draining the events twice yields nothing the second time.
pub proof fn lemma_vehicle_drain_twice(v: VehicleView)
    ensures
        vehicle_drained(vehicle_drained(v)) == vehicle_drained(v),
        vehicle_drained(v).pending_events.len() == 0,
{
}

/// A new vehicle is a `Draft` at version 1, created and updated at `now`,
/// and buffers exactly one `Created` event naming it, raised at `now`.
pub proof fn lemma_vehicle_create_shape(id: VehicleId, now: Timestamp)
    ensures
        ({
            let c = created_vehicle(id, now);
            &&& c.id == id
            &&& c.status == VehicleStatus::Draft
            &&& c.version == 1
            &&& c.created_at == now && c.updated_at == now
            &&& c.pending_events.len() == 1
            &&& c.pending_events[0].occurred_at == now
            &&& c.pending_events[0].payload == VehicleEvent::Created(VehicleCreatedV1 { vehicle_id: id })
            &&& c.wf()
        }),
{
    assert(payloads(created_vehicle(id, now).pending_events) =~= vehicle_history(id, VehicleStatus::Draft));
}

} // verus!
