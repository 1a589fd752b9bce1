//! The `VehicleOwnership` aggregate: operational ownership of a vehicle.
//!
//! `start ─→ PendingVerification ─(verify)─→ Active ─(end)─→ Ended`
use crate::aggregate::{AggregateVersion, ChangeOutcome};
use crate::event::{payloads, PendingEvent};
use crate::ids::{CustomerId, VehicleId, VehicleOwnershipId};
use crate::time::Timestamp;
use crate::vehicle_ownership::error::OwnershipError;
use crate::vehicle_ownership::event::{
    VehicleOwnershipEndedV1, VehicleOwnershipEvent, VehicleOwnershipStartedV1,
    VehicleOwnershipVerifiedV1,
};
use crate::vehicle_ownership::snapshot::{
    OwnershipEligibilitySnapshot, OwnershipEligibilitySnapshotView,
};
use crate::vehicle_ownership::state::{
    ownership_status_kind, OwnershipStatusKind, OwnershipPeriod, OwnershipStatus, OwnershipType,
};
use vstd::prelude::*;

verus! {

/// Aggregate root of an ownership record for one vehicle. The customer and
/// the vehicle are referenced by id only.
///
/// Fields are private; state changes only through `start`, `verify` and
/// `end`. The period's end is never earlier than its start, and the version
/// increases by exactly one per raised event.
#[derive(Debug, Clone)]
pub struct VehicleOwnership {
    id: VehicleOwnershipId,
    vehicle_id: VehicleId,
    owner_customer_id: CustomerId,
    ownership_type: OwnershipType,
    status: OwnershipStatus,
    period: OwnershipPeriod,
    version: AggregateVersion,
    created_at: Timestamp,
    updated_at: Timestamp,
    pending_events: Vec<PendingEvent<VehicleOwnershipEvent>>,
}

/// The state of an ownership record.
pub struct VehicleOwnershipView {
    pub id: VehicleOwnershipId,
    pub vehicle_id: VehicleId,
    pub owner_customer_id: CustomerId,
    pub ownership_type: OwnershipType,
    pub status: OwnershipStatus,
    pub period: OwnershipPeriod,
    pub version: nat,
    pub created_at: Timestamp,
    pub updated_at: Timestamp,
    pub pending_events: Seq<PendingEvent<VehicleOwnershipEvent>>,
}

impl View for VehicleOwnership {
    type V = VehicleOwnershipView;

    closed spec fn view(&self) -> VehicleOwnershipView {
        VehicleOwnershipView {
            id: self.id,
            vehicle_id: self.vehicle_id,
            owner_customer_id: self.owner_customer_id,
            ownership_type: self.ownership_type,
            status: self.status,
            period: self.period,
            version: self.version@,
            created_at: self.created_at,
            updated_at: self.updated_at,
            pending_events: self.pending_events@,
        }
    }
}

/// The event that starts an ownership record.
pub open spec fn started_event(o: VehicleOwnershipView) -> VehicleOwnershipEvent {
    VehicleOwnershipEvent::Started(
        VehicleOwnershipStartedV1 {
            ownership_id: o.id,
            vehicle_id: o.vehicle_id,
            owner_customer_id: o.owner_customer_id,
            ownership_type: o.ownership_type,
        },
    )
}

/// Every event a record in `o.status` has raised since it started, in order.
pub open spec fn ownership_history(o: VehicleOwnershipView) -> Seq<VehicleOwnershipEvent> {
    let started = seq![started_event(o)];
    let verified = started.push(
        VehicleOwnershipEvent::Verified(VehicleOwnershipVerifiedV1 { ownership_id: o.id }),
    );
    match o.status {
        OwnershipStatus::PendingVerification => started,
        OwnershipStatus::Active => verified,
        OwnershipStatus::Ended => verified.push(
            VehicleOwnershipEvent::Ended(VehicleOwnershipEndedV1 { ownership_id: o.id }),
        ),
    }
}

impl VehicleOwnershipView {
    /// The version counts every event raised so far and the buffered events
    /// are the latest of them in order; the period starts when the record was
    /// created, is closed exactly when the record is `Ended`, and never ends
    /// before it starts.
    pub open spec fn wf(self) -> bool {
        &&& self.version == ownership_history(self).len()
        &&& payloads(self.pending_events).is_suffix_of(ownership_history(self))
        &&& self.period.started_at == self.created_at
        &&& (self.status == OwnershipStatus::Ended <==> self.period.ended_at is Some)
        &&& self.period.wf()
    }
}

/// A record just started at `now`.
pub open spec fn started_ownership(
    id: VehicleOwnershipId,
    vehicle_id: VehicleId,
    owner_customer_id: CustomerId,
    ownership_type: OwnershipType,
    now: Timestamp,
) -> VehicleOwnershipView {
    VehicleOwnershipView {
        id,
        vehicle_id,
        owner_customer_id,
        ownership_type,
        status: OwnershipStatus::PendingVerification,
        period: OwnershipPeriod { started_at: now, ended_at: None },
        version: 1,
        created_at: now,
        updated_at: now,
        pending_events: seq![
            PendingEvent {
                payload: VehicleOwnershipEvent::Started(
                    VehicleOwnershipStartedV1 {
                        ownership_id: id,
                        vehicle_id,
                        owner_customer_id,
                        ownership_type,
                    },
                ),
                occurred_at: now,
            },
        ],
    }
}

/// The record after raising `event` at `now`, with `status` and `period`.
pub open spec fn ownership_transition(
    o: VehicleOwnershipView,
    status: OwnershipStatus,
    period: OwnershipPeriod,
    event: VehicleOwnershipEvent,
    now: Timestamp,
) -> VehicleOwnershipView {
    VehicleOwnershipView {
        status,
        period,
        updated_at: now,
        version: o.version + 1,
        pending_events: o.pending_events.push(PendingEvent { payload: event, occurred_at: now }),
        ..o
    }
}

/// The record and the result after `verify(now)`.
pub open spec fn ownership_after_verify(o: VehicleOwnershipView, now: Timestamp) -> (
    VehicleOwnershipView,
    Result<ChangeOutcome, OwnershipError>,
) {
    match o.status {
        OwnershipStatus::PendingVerification => (
            ownership_transition(
                o,
                OwnershipStatus::Active,
                o.period,
                VehicleOwnershipEvent::Verified(VehicleOwnershipVerifiedV1 { ownership_id: o.id }),
                now,
            ),
            Ok(ChangeOutcome::Changed),
        ),
        OwnershipStatus::Active => (o, Ok(ChangeOutcome::NoChange)),
        OwnershipStatus::Ended => (
            o,
            Err(OwnershipError::StatusDoesNotAllow(ownership_status_kind(o.status))),
        ),
    }
}

/// The record and the result after `end(now)`.
pub open spec fn ownership_after_end(o: VehicleOwnershipView, now: Timestamp) -> (
    VehicleOwnershipView,
    Result<ChangeOutcome, OwnershipError>,
) {
    match o.status {
        OwnershipStatus::Active => if now.precedes(o.period.started_at) {
            (o, Err(OwnershipError::PeriodEndBeforeStart))
        } else {
            (
                ownership_transition(
                    o,
                    OwnershipStatus::Ended,
                    OwnershipPeriod { ended_at: Some(now), ..o.period },
                    VehicleOwnershipEvent::Ended(VehicleOwnershipEndedV1 { ownership_id: o.id }),
                    now,
                ),
                Ok(ChangeOutcome::Changed),
            )
        },
        OwnershipStatus::Ended => (o, Ok(ChangeOutcome::NoChange)),
        OwnershipStatus::PendingVerification => (
            o,
            Err(OwnershipError::StatusDoesNotAllow(ownership_status_kind(o.status))),
        ),
    }
}

/// The record after its buffered events were handed out.
pub open spec fn ownership_drained(o: VehicleOwnershipView) -> VehicleOwnershipView {
    VehicleOwnershipView { pending_events: Seq::empty(), ..o }
}

impl VehicleOwnership {
    /// Creates a new ownership record in the `PendingVerification` status,
    /// unless `snapshot` reports an open ownership, in which case the start
    /// is refused with `ActiveOwnershipAlreadyExists`.
    pub fn start(
        id: VehicleOwnershipId,
        vehicle_id: VehicleId,
        owner_customer_id: CustomerId,
        ownership_type: OwnershipType,
        snapshot: OwnershipEligibilitySnapshot,
        now: Timestamp,
    ) -> (r: Result<VehicleOwnership, OwnershipError>)
        ensures
            match r {
                Ok(o) => {
                    &&& !snapshot@.has_open_ownership
                    &&& o@ == started_ownership(
                        id,
                        vehicle_id,
                        owner_customer_id,
                        ownership_type,
                        now,
                    )
                    &&& o@.wf()
                },
                Err(e) => snapshot@.has_open_ownership && e
                    == OwnershipError::ActiveOwnershipAlreadyExists,
            },
    {
        if !snapshot.no_open_ownership_exists() {
            return Err(OwnershipError::ActiveOwnershipAlreadyExists);
        }
        let mut ownership = VehicleOwnership {
            id,
            vehicle_id,
            owner_customer_id,
            ownership_type,
            status: OwnershipStatus::PendingVerification,
            period: OwnershipPeriod::new(now),
            version: AggregateVersion::initial(),
            created_at: now,
            updated_at: now,
            pending_events: Vec::new(),
        };
        ownership.raise(
            VehicleOwnershipEvent::Started(
                VehicleOwnershipStartedV1 {
                    ownership_id: id,
                    vehicle_id,
                    owner_customer_id,
                    ownership_type,
                },
            ),
            now,
        );
        proof {
            assert(payloads(ownership@.pending_events) =~= ownership_history(ownership@));
        }
        Ok(ownership)
    }

    /// Confirms the ownership: `PendingVerification → Active`. Idempotent on
    /// `Active`; an `Ended` record can never be revived.
    pub fn verify(&mut self, now: Timestamp) -> (r: Result<ChangeOutcome, OwnershipError>)
        requires
            old(self)@.wf(),
        ensures
            (final(self)@, r) == ownership_after_verify(old(self)@, now),
            final(self)@.wf(),
    {
        match &self.status {
            OwnershipStatus::PendingVerification => {
                let ghost before = self@;
                self.status = OwnershipStatus::Active;
                self.updated_at = now;
                self.raise(
                    VehicleOwnershipEvent::Verified(VehicleOwnershipVerifiedV1 { ownership_id: self.id }),
                    now,
                );
                proof {
                    let h = ownership_history(self@);
                    assert(payloads(self@.pending_events) =~= payloads(before.pending_events).push(h.last()));
                    assert(h.drop_last() =~= ownership_history(before));
                }
                Ok(ChangeOutcome::Changed)
            },
            OwnershipStatus::Active => Ok(ChangeOutcome::NoChange),
            other => Err(OwnershipError::StatusDoesNotAllow(other.kind())),
        }
    }

    /// Ends the ownership: `Active → Ended` (terminal). The period is closed
    /// before anything else changes, so an end dated before the start fails
    /// with `PeriodEndBeforeStart` and leaves the record untouched.
    /// Idempotent on `Ended`; a pending record cannot be ended.
    pub fn end(&mut self, now: Timestamp) -> (r: Result<ChangeOutcome, OwnershipError>)
        requires
            old(self)@.wf(),
        ensures
            (final(self)@, r) == ownership_after_end(old(self)@, now),
            final(self)@.wf(),
    {
        match &self.status {
            OwnershipStatus::Active => {
                let ghost before = self@;
                let closed = match self.period.close(now) {
                    Some(p) => p,
                    None => {
                        return Err(OwnershipError::PeriodEndBeforeStart);
                    },
                };
                self.period = closed;
                self.status = OwnershipStatus::Ended;
                self.updated_at = now;
                self.raise(
                    VehicleOwnershipEvent::Ended(VehicleOwnershipEndedV1 { ownership_id: self.id }),
                    now,
                );
                proof {
                    let h = ownership_history(self@);
                    assert(payloads(self@.pending_events) =~= payloads(before.pending_events).push(h.last()));
                    assert(h.drop_last() =~= ownership_history(before));
                }
                Ok(ChangeOutcome::Changed)
            },
            OwnershipStatus::Ended => Ok(ChangeOutcome::NoChange),
            other => Err(OwnershipError::StatusDoesNotAllow(other.kind())),
        }
    }

    /// Returns the buffered events, oldest first, and empties the buffer.
    pub fn pull_pending_events(&mut self) -> (events: Vec<PendingEvent<VehicleOwnershipEvent>>)
        requires
            old(self)@.wf(),
        ensures
            events@ == old(self)@.pending_events,
            final(self)@ == ownership_drained(old(self)@),
            final(self)@.wf(),
    {
        let mut events = Vec::new();
        std::mem::swap(&mut events, &mut self.pending_events);
        proof {
            assert(payloads(self@.pending_events) =~= Seq::<VehicleOwnershipEvent>::empty());
        }
        events
    }

    pub fn id(&self) -> (id: VehicleOwnershipId)
        ensures
            id == self@.id,
    {
        self.id
    }

    /// Vehicle this record refers to.
    pub fn vehicle_id(&self) -> (id: VehicleId)
        ensures
            id == self@.vehicle_id,
    {
        self.vehicle_id
    }

    pub fn owner_customer_id(&self) -> (id: CustomerId)
        ensures
            id == self@.owner_customer_id,
    {
        self.owner_customer_id
    }

    pub fn ownership_type(&self) -> (t: &OwnershipType)
        ensures
            *t == self@.ownership_type,
    {
        &self.ownership_type
    }

    pub fn status(&self) -> (s: &OwnershipStatus)
        ensures
            *s == self@.status,
    {
        &self.status
    }

    pub fn period(&self) -> (p: &OwnershipPeriod)
        ensures
            *p == self@.period,
    {
        &self.period
    }

    /// Current version, used by repositories for the optimistic-locking check.
    pub fn version(&self) -> (v: AggregateVersion)
        ensures
            v@ == self@.version,
    {
        self.version
    }

    pub fn created_at(&self) -> (t: Timestamp)
        ensures
            t == self@.created_at,
    {
        self.created_at
    }

    pub fn updated_at(&self) -> (t: Timestamp)
        ensures
            t == self@.updated_at,
    {
        self.updated_at
    }

    /// Buffers an event and advances the version: one event, one increment.
    fn raise(&mut self, event: VehicleOwnershipEvent, occurred_at: Timestamp)
        requires
            old(self)@.version < u64::MAX,
        ensures
            final(self)@ == (VehicleOwnershipView {
                version: old(self)@.version + 1,
                pending_events: old(self)@.pending_events.push(
                    PendingEvent { payload: event, occurred_at },
                ),
                ..old(self)@
            }),
    {
        self.pending_events.push(PendingEvent::new(event, occurred_at));
        self.version = self.version.next();
    }
}

/// `Ended` is terminal: neither `verify` nor `end` changes an ended record,
/// whatever the time; `verify` is refused and `end` answers `NoChange`.
pub proof fn lemma_ownership_ended_is_terminal(o: VehicleOwnershipView, now: Timestamp)
    requires
        o.status == OwnershipStatus::Ended,
    ensures
        ownership_after_verify(o, now).0 == o,
        ownership_after_verify(o, now).1 is Err,
        ownership_after_end(o, now).0 == o,
        ownership_after_end(o, now).1 == Ok::<ChangeOutcome, OwnershipError>(ChangeOutcome::NoChange),
{
}

/// The transitions follow `PendingVerification → Active → Ended` and no
/// other path: `verify` only ever moves a pending record to `Active`, and
/// `end` only ever moves an active record to `Ended`.
pub proof fn lemma_ownership_transitions(o: VehicleOwnershipView, now: Timestamp)
    ensures
        ownership_after_verify(o, now).0.status != o.status ==> o.status
            == OwnershipStatus::PendingVerification && ownership_after_verify(o, now).0.status
            == OwnershipStatus::Active,
        ownership_after_end(o, now).0.status != o.status ==> o.status == OwnershipStatus::Active
            && ownership_after_end(o, now).0.status == OwnershipStatus::Ended,
{
}

/// A command either raises exactly one event and advances the version by
/// one, or leaves the record exactly as it was: a refused command never
/// leaves it half-modified.
pub proof fn lemma_ownership_one_event_one_version(o: VehicleOwnershipView, now: Timestamp)
    ensures
        ({
            let (after, r) = ownership_after_verify(o, now);
            ||| (r == Ok::<ChangeOutcome, OwnershipError>(ChangeOutcome::Changed)
                && after.version == o.version + 1 && after.pending_events.drop_last()
                == o.pending_events && after.pending_events.len() == o.pending_events.len() + 1)
            ||| (r != Ok::<ChangeOutcome, OwnershipError>(ChangeOutcome::Changed) && after == o)
        }),
        ({
            let (after, r) = ownership_after_end(o, now);
            ||| (r == Ok::<ChangeOutcome, OwnershipError>(ChangeOutcome::Changed)
                && after.version == o.version + 1 && after.pending_events.drop_last()
                == o.pending_events && after.pending_events.len() == o.pending_events.len() + 1)
            ||| (r != Ok::<ChangeOutcome, OwnershipError>(ChangeOutcome::Changed) && after == o)
        }),
{
    let (after, r) = ownership_after_verify(o, now);
    if r == Ok::<ChangeOutcome, OwnershipError>(ChangeOutcome::Changed) {
        assert(after.pending_events.drop_last() =~= o.pending_events);
    }
    let (after, r) = ownership_after_end(o, now);
    if r == Ok::<ChangeOutcome, OwnershipError>(ChangeOutcome::Changed) {
        assert(after.pending_events.drop_last() =~= o.pending_events);
    }
}

/// A record started at `t0`, verified at `t1` and ended at `t2` (not before
/// `t0`) is `Ended` at version 3, its period runs from `t0` to `t2`, and its
/// buffer holds `Started`, `Verified` and `Ended`, in that order.
pub proof fn lemma_ownership_full_lifecycle(
    id: VehicleOwnershipId,
    vehicle_id: VehicleId,
    owner_customer_id: CustomerId,
    ownership_type: OwnershipType,
    t0: Timestamp,
    t1: Timestamp,
    t2: Timestamp,
)
    requires
        !t2.precedes(t0),
    ensures
        ({
            let started = started_ownership(id, vehicle_id, owner_customer_id, ownership_type, t0);
            let (verified, r1) = ownership_after_verify(started, t1);
            let (ended, r2) = ownership_after_end(verified, t2);
            &&& r1 == Ok::<ChangeOutcome, OwnershipError>(ChangeOutcome::Changed)
            &&& r2 == Ok::<ChangeOutcome, OwnershipError>(ChangeOutcome::Changed)
            &&& ended.status == OwnershipStatus::Ended
            &&& ended.version == 3
            &&& ended.period == (OwnershipPeriod { started_at: t0, ended_at: Some(t2) })
            &&& payloads(ended.pending_events) == ownership_history(ended)
            &&& ended.wf()
        }),
{
    let started = started_ownership(id, vehicle_id, owner_customer_id, ownership_type, t0);
    let (verified, r1) = ownership_after_verify(started, t1);
    let (ended, r2) = ownership_after_end(verified, t2);
    assert(payloads(ended.pending_events) =~= ownership_history(ended));
}

/// A record is open (it occupies its vehicle) exactly while its period has
/// no end.
pub proof fn lemma_open_exactly_while_period_open(o: VehicleOwnershipView)
    requires
        o.wf(),
    ensures
        crate::vehicle_ownership::state::ownership_status_is_open(o.status) <==> o.period.ended_at
            is None,
{
}

/// Draining the events twice yields nothing the second time.
pub proof fn lemma_ownership_drain_twice(o: VehicleOwnershipView)
    ensures
        ownership_drained(ownership_drained(o)) == ownership_drained(o),
        ownership_drained(o).pending_events.len() == 0,
{
}

/// A new record is pending, at version 1, with an open period starting at
/// `now`, created and updated at `now`, holding exactly the given
/// relationship, and its buffer holds one `Started` event carrying that
/// relationship, raised at `now`.
pub proof fn lemma_ownership_start_shape(
    id: VehicleOwnershipId,
    vehicle_id: VehicleId,
    owner_customer_id: CustomerId,
    ownership_type: OwnershipType,
    now: Timestamp,
)
    ensures
        ({
            let o = started_ownership(id, vehicle_id, owner_customer_id, ownership_type, now);
            &&& o.status == OwnershipStatus::PendingVerification
            &&& o.version == 1
            &&& o.id == id && o.vehicle_id == vehicle_id
            &&& o.owner_customer_id == owner_customer_id && o.ownership_type == ownership_type
            &&& o.period.started_at == now && o.period.ended_at is None
            &&& o.created_at == now && o.updated_at == now
            &&& o.pending_events.len() == 1
            &&& o.pending_events[0].occurred_at == now
            &&& o.pending_events[0].payload == VehicleOwnershipEvent::Started(
                VehicleOwnershipStartedV1 {
                    ownership_id: id,
                    vehicle_id,
                    owner_customer_id,
                    ownership_type,
                },
            )
            &&& o.wf()
        }),
{
    let o = started_ownership(id, vehicle_id, owner_customer_id, ownership_type, now);
    assert(payloads(o.pending_events) =~= ownership_history(o));
}

/// `verify` confirms a pending record (status `Active`, one `Verified` event
/// raised at `now`, version one step up, `updated_at` set to `now`, nothing
/// else touched), answers `NoChange` on an active one and is refused on an
/// ended one, which stays as it is.
pub proof fn lemma_ownership_verify_rules(o: VehicleOwnershipView, now: Timestamp)
    ensures
        o.status == OwnershipStatus::PendingVerification ==> {
            let (after, r) = ownership_after_verify(o, now);
            &&& r == Ok::<ChangeOutcome, OwnershipError>(ChangeOutcome::Changed)
            &&& after.status == OwnershipStatus::Active
            &&& after.version == o.version + 1
            &&& after.updated_at == now
            &&& after.period == o.period
            &&& after.id == o.id && after.vehicle_id == o.vehicle_id
            &&& after.owner_customer_id == o.owner_customer_id
            &&& after.ownership_type == o.ownership_type && after.created_at == o.created_at
            &&& after.pending_events == o.pending_events.push(
                PendingEvent {
                    payload: VehicleOwnershipEvent::Verified(
                        VehicleOwnershipVerifiedV1 { ownership_id: o.id },
                    ),
                    occurred_at: now,
                },
            )
        },
        o.status == OwnershipStatus::Active ==> ownership_after_verify(o, now) == (
            o,
            Ok::<ChangeOutcome, OwnershipError>(ChangeOutcome::NoChange),
        ),
        o.status == OwnershipStatus::Ended ==> ownership_after_verify(o, now) == (
            o,
            Err::<ChangeOutcome, OwnershipError>(
                OwnershipError::StatusDoesNotAllow(OwnershipStatusKind::Ended),
            ),
        ),
{
}

/// `end` closes an active record at `now` when `now` is not before the start
/// (status `Ended`, period ending at `now`, one `Ended` event raised at
/// `now`, version one step up, `updated_at` set to `now`); an end dated
/// before the start is refused with `PeriodEndBeforeStart`; a pending record
/// is refused; an ended one answers `NoChange`. Refusals change nothing.
pub proof fn lemma_ownership_end_rules(o: VehicleOwnershipView, now: Timestamp)
    ensures
        o.status == OwnershipStatus::Active && !now.precedes(o.period.started_at) ==> {
            let (after, r) = ownership_after_end(o, now);
            &&& r == Ok::<ChangeOutcome, OwnershipError>(ChangeOutcome::Changed)
            &&& after.status == OwnershipStatus::Ended
            &&& after.period == (OwnershipPeriod {
                started_at: o.period.started_at,
                ended_at: Some(now),
            })
            &&& after.version == o.version + 1
            &&& after.updated_at == now
            &&& after.id == o.id && after.vehicle_id == o.vehicle_id
            &&& after.owner_customer_id == o.owner_customer_id
            &&& after.ownership_type == o.ownership_type && after.created_at == o.created_at
            &&& after.pending_events == o.pending_events.push(
                PendingEvent {
                    payload: VehicleOwnershipEvent::Ended(
                        VehicleOwnershipEndedV1 { ownership_id: o.id },
                    ),
                    occurred_at: now,
                },
            )
        },
        o.status == OwnershipStatus::Active && now.precedes(o.period.started_at)
            ==> ownership_after_end(o, now) == (
            o,
            Err::<ChangeOutcome, OwnershipError>(OwnershipError::PeriodEndBeforeStart),
        ),
        o.status == OwnershipStatus::PendingVerification ==> ownership_after_end(o, now) == (
            o,
            Err::<ChangeOutcome, OwnershipError>(
                OwnershipError::StatusDoesNotAllow(OwnershipStatusKind::PendingVerification),
            ),
        ),
        o.status == OwnershipStatus::Ended ==> ownership_after_end(o, now) == (
            o,
            Ok::<ChangeOutcome, OwnershipError>(ChangeOutcome::NoChange),
        ),
{
}

} // verus!
