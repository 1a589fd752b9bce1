//! Typed domain events of the `Vehicle` aggregate.
use crate::ids::VehicleId;
use vstd::prelude::*;

verus! {

/// A vehicle was created and is in the `Draft` status.
#[derive(Debug, Clone, PartialEq, Eq, Structural)]
pub struct VehicleCreatedV1 {
    /// Identifier of the created vehicle.
    pub vehicle_id: VehicleId,
}

/// A vehicle was moved into the `Active` status.
#[derive(Debug, Clone, PartialEq, Eq, Structural)]
pub struct VehicleActivatedV1 {
    /// Identifier of the activated vehicle.
    pub vehicle_id: VehicleId,
}

/// All domain events of the `Vehicle` aggregate.
#[derive(Debug, Clone, PartialEq, Eq, Structural)]
pub enum VehicleEvent {
    /// See [`VehicleCreatedV1`].
    Created(VehicleCreatedV1),
    /// See [`VehicleActivatedV1`].
    Activated(VehicleActivatedV1),
}

} // verus!
