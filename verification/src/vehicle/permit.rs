//! `VehicleActivationPermit`: the capability object that lets a vehicle
//! activate. Unlike the customer permit it is not bound to an aggregate
//! version: a vehicle's identifying facts do not change in ways that would
//! invalidate the eligibility decision.
use crate::ids::VehicleId;
use crate::time::Timestamp;
use crate::vehicle::error::VehicleActivationError;
use vstd::prelude::*;

verus! {

/// Permission to activate one vehicle until it expires.
#[derive(Debug, Clone)]
pub struct VehicleActivationPermit {
    vehicle_id: VehicleId,
    issued_at: Timestamp,
    expires_at: Timestamp,
}

/// What a permit says.
pub struct VehicleActivationPermitView {
    pub vehicle_id: VehicleId,
    pub issued_at: Timestamp,
    pub expires_at: Timestamp,
}

impl View for VehicleActivationPermit {
    type V = VehicleActivationPermitView;

    closed spec fn view(&self) -> VehicleActivationPermitView {
        VehicleActivationPermitView {
            vehicle_id: self.vehicle_id,
            issued_at: self.issued_at,
            expires_at: self.expires_at,
        }
    }
}

/// The local checks of a permit presented by vehicle `vehicle_id` at `now`,
/// in the order they are made: the vehicle first, then expiry.
pub open spec fn vehicle_permit_local_check(
    permit: VehicleActivationPermitView,
    vehicle_id: VehicleId,
    now: Timestamp,
) -> Result<(), VehicleActivationError> {
    if permit.vehicle_id != vehicle_id {
        Err(VehicleActivationError::PermitVehicleIdMismatch)
    } else if permit.expires_at.precedes(now) {
        Err(VehicleActivationError::PermitExpired)
    } else {
        Ok(())
    }
}

impl VehicleActivationPermit {
    /// Issues a permit for `vehicle_id`.
    pub fn new(vehicle_id: VehicleId, issued_at: Timestamp, expires_at: Timestamp) -> (p:
        VehicleActivationPermit)
        ensures
            p@ == (VehicleActivationPermitView { vehicle_id, issued_at, expires_at }),
    {
        VehicleActivationPermit { vehicle_id, issued_at, expires_at }
    }

    pub fn vehicle_id(&self) -> (id: VehicleId)
        ensures
            id == self@.vehicle_id,
    {
        self.vehicle_id
    }

    pub fn issued_at(&self) -> (t: Timestamp)
        ensures
            t == self@.issued_at,
    {
        self.issued_at
    }

    pub fn expires_at(&self) -> (t: Timestamp)
        ensures
            t == self@.expires_at,
    {
        self.expires_at
    }

    /// Local checks performed by the aggregate before it changes state.
    pub fn validate_local(&self, vehicle_id: VehicleId, now: Timestamp) -> (r: Result<
        (),
        VehicleActivationError,
    >)
        ensures
            r == vehicle_permit_local_check(self@, vehicle_id, now),
    {
        if self.vehicle_id != vehicle_id {
            return Err(VehicleActivationError::PermitVehicleIdMismatch);
        }
        if now.is_after(&self.expires_at) {
            return Err(VehicleActivationError::PermitExpired);
        }
        Ok(())
    }
}

/// A permit is accepted exactly when it names the vehicle and `now` is not
/// strictly after its expiry; when it was issued plays no part. A permit
/// naming another vehicle is refused for that, whatever the time; a permit
/// for the vehicle is refused as expired exactly when `now` is after its
/// expiry.
pub proof fn lemma_vehicle_permit_acceptance(
    permit: VehicleActivationPermitView,
    vehicle_id: VehicleId,
    now: Timestamp,
    other_issued_at: Timestamp,
)
    ensures
        vehicle_permit_local_check(permit, vehicle_id, now) is Ok <==> (permit.vehicle_id
            == vehicle_id && !permit.expires_at.precedes(now)),
        permit.vehicle_id != vehicle_id ==> vehicle_permit_local_check(permit, vehicle_id, now)
            == Err::<(), VehicleActivationError>(VehicleActivationError::PermitVehicleIdMismatch),
        permit.vehicle_id == vehicle_id && permit.expires_at.precedes(now)
            ==> vehicle_permit_local_check(permit, vehicle_id, now) == Err::<
            (),
            VehicleActivationError,
        >(VehicleActivationError::PermitExpired),
        vehicle_permit_local_check(
            VehicleActivationPermitView { issued_at: other_issued_at, ..permit },
            vehicle_id,
            now,
        ) == vehicle_permit_local_check(permit, vehicle_id, now),
{
}

} // verus!
