//! The eligibility snapshot handed to the aggregate when an ownership starts.
use crate::ids::VehicleId;
use vstd::prelude::*;

verus! {

/// Snapshot of the ownership situation of one vehicle, read by the
/// application service just before `VehicleOwnership::start`. The aggregate
/// trusts it; the database's partial unique index remains the final arbiter
/// under concurrency.
#[derive(Debug, Clone)]
pub struct OwnershipEligibilitySnapshot {
    vehicle_id: VehicleId,
    has_open_ownership: bool,
}

/// What a snapshot says.
pub struct OwnershipEligibilitySnapshotView {
    pub vehicle_id: VehicleId,
    pub has_open_ownership: bool,
}

impl View for OwnershipEligibilitySnapshot {
    type V = OwnershipEligibilitySnapshotView;

    closed spec fn view(&self) -> OwnershipEligibilitySnapshotView {
        OwnershipEligibilitySnapshotView {
            vehicle_id: self.vehicle_id,
            has_open_ownership: self.has_open_ownership,
        }
    }
}

impl OwnershipEligibilitySnapshot {
    /// Captures the eligibility facts for a vehicle. `has_open_ownership`
    /// must reflect open records, pending ones included.
    pub fn new(vehicle_id: VehicleId, has_open_ownership: bool) -> (s: OwnershipEligibilitySnapshot)
        ensures
            s@ == (OwnershipEligibilitySnapshotView { vehicle_id, has_open_ownership }),
    {
        OwnershipEligibilitySnapshot { vehicle_id, has_open_ownership }
    }

    /// Vehicle this snapshot describes.
    pub fn vehicle_id(&self) -> (id: VehicleId)
        ensures
            id == self@.vehicle_id,
    {
        self.vehicle_id
    }

    /// Returns `true` if the vehicle currently has no open ownership.
    pub fn no_open_ownership_exists(&self) -> (b: bool)
        ensures
            b == !self@.has_open_ownership,
    {
        !self.has_open_ownership
    }
}

} // verus!
