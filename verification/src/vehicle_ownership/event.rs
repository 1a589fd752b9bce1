//! Typed domain events of the `VehicleOwnership` aggregate.
use crate::ids::{CustomerId, VehicleId, VehicleOwnershipId};
use crate::vehicle_ownership::state::OwnershipType;
use vstd::prelude::*;

verus! {

/// An ownership record was created; status `PendingVerification`. Carries
/// the whole relationship, since later events only reference the record.
#[derive(Debug, Clone, PartialEq, Eq, Structural)]
pub struct VehicleOwnershipStartedV1 {
    /// Identifier of the created ownership record.
    pub ownership_id: VehicleOwnershipId,
    /// Vehicle the ownership refers to.
    pub vehicle_id: VehicleId,
    /// Customer recorded as the owner.
    pub owner_customer_id: CustomerId,
    /// Kind of ownership relationship.
    pub ownership_type: OwnershipType,
}

/// An ownership record was confirmed; status `Active`.
#[derive(Debug, Clone, PartialEq, Eq, Structural)]
pub struct VehicleOwnershipVerifiedV1 {
    /// Identifier of the confirmed ownership record.
    pub ownership_id: VehicleOwnershipId,
}

/// An ownership record was terminated; status `Ended`.
#[derive(Debug, Clone, PartialEq, Eq, Structural)]
pub struct VehicleOwnershipEndedV1 {
    /// Identifier of the terminated ownership record.
    pub ownership_id: VehicleOwnershipId,
}

/// All domain events of the `VehicleOwnership` aggregate.
#[derive(Debug, Clone, PartialEq, Eq, Structural)]
pub enum VehicleOwnershipEvent {
    /// See [`VehicleOwnershipStartedV1`].
    Started(VehicleOwnershipStartedV1),
    /// See [`VehicleOwnershipVerifiedV1`].
    Verified(VehicleOwnershipVerifiedV1),
    /// See [`VehicleOwnershipEndedV1`].
    Ended(VehicleOwnershipEndedV1),
}

} // verus!
