//! Commands of the vehicle-ownership context.
use crate::ids::{CustomerId, VehicleId, VehicleOwnershipId};
use crate::vehicle_ownership::state::OwnershipType;
use vstd::prelude::*;

verus! {

/// Request to start a vehicle ownership. The caller supplies the identifier,
/// so a retried request reuses it and the repository refuses the duplicate.
#[derive(Debug, Clone)]
pub struct StartVehicleOwnershipCommand {
    /// Identifier to assign to the new ownership record.
    pub ownership_id: VehicleOwnershipId,
    /// Vehicle the ownership is being started for.
    pub vehicle_id: VehicleId,
    /// Customer to be recorded as the owner.
    pub owner_customer_id: CustomerId,
    /// Kind of ownership relationship.
    pub ownership_type: OwnershipType,
}

} // verus!
