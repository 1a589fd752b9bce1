//! Commands of the vehicle context.
use crate::ids::VehicleId;
use vstd::prelude::*;

verus! {

/// Request to create a new vehicle. The caller supplies the identifier, so
/// a retried request reuses it and the repository refuses the duplicate.
#[derive(Debug, Clone, Copy)]
pub struct CreateVehicleCommand {
    /// Identifier to assign to the new vehicle.
    pub vehicle_id: VehicleId,
}

} // verus!
