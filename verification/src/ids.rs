//! Type-safe identifiers of domain entities.
//!
//! Each aggregate root has its own identifier type, so that references between
//! aggregates (an ownership holds a customer id and a vehicle id) cannot be
//! mixed up. An identifier holds the 128-bit value of a UUID, most
//! significant byte first.
use vstd::prelude::*;

verus! {

/// Mask of the version nibble and the two variant bits of a UUID.
pub open spec fn uuid_version_variant_mask() -> u128 {
    0xF000_C000_0000_0000_0000u128
}

/// Version nibble 4 (random) and variant bits `10` (RFC 4122), under the mask.
pub open spec fn uuid_v4_marker() -> u128 {
    0x4000_8000_0000_0000_0000u128
}

/// A fresh random UUID from `uuid::Uuid::new_v4`, as its 128-bit value.
///
/// Trusted: uuid 1.29 masks random bits so that the version nibble is 4 and
/// the variant bits are `10`; the remaining bits come from the random number
/// generator and are not stated.
#[verifier::external_body]
fn random_uuid_value() -> (v: u128)
    ensures
        v & uuid_version_variant_mask() == uuid_v4_marker(),
{
    uuid::Uuid::new_v4().as_u128()
}

/// Identifier of a customer.
#[derive(Debug, Clone, Copy, PartialEq, Eq, Hash, Structural)]
pub struct CustomerId {
    value: u128,
}

/// Identifier of a vehicle.
#[derive(Debug, Clone, Copy, PartialEq, Eq, Hash, Structural)]
pub struct VehicleId {
    value: u128,
}

/// Identifier of a vehicle ownership record.
#[derive(Debug, Clone, Copy, PartialEq, Eq, Hash, Structural)]
pub struct VehicleOwnershipId {
    value: u128,
}

impl View for CustomerId {
    type V = u128;

    closed spec fn view(&self) -> u128 {
        self.value
    }
}

impl View for VehicleId {
    type V = u128;

    closed spec fn view(&self) -> u128 {
        self.value
    }
}

impl View for VehicleOwnershipId {
    type V = u128;

    closed spec fn view(&self) -> u128 {
        self.value
    }
}

impl CustomerId {
    /// A new identifier holding a random version-4 UUID.
    pub fn new() -> (id: CustomerId)
        ensures
            id@ & uuid_version_variant_mask() == uuid_v4_marker(),
    {
        CustomerId { value: random_uuid_value() }
    }

    /// The identifier holding the UUID value `value`.
    pub fn from_u128(value: u128) -> (id: CustomerId)
        ensures
            id@ == value,
    {
        CustomerId { value }
    }

    /// The UUID value of this identifier.
    pub fn as_u128(&self) -> (value: u128)
        ensures
            value == self@,
    {
        self.value
    }

    /// Identifiers are equal exactly when their UUID values are.
    pub proof fn lemma_view_determines(a: CustomerId, b: CustomerId)
        ensures
            a@ == b@ <==> a == b,
    {
    }
}

impl VehicleId {
    /// A new identifier holding a random version-4 UUID.
    pub fn new() -> (id: VehicleId)
        ensures
            id@ & uuid_version_variant_mask() == uuid_v4_marker(),
    {
        VehicleId { value: random_uuid_value() }
    }

    /// The identifier holding the UUID value `value`.
    pub fn from_u128(value: u128) -> (id: VehicleId)
        ensures
            id@ == value,
    {
        VehicleId { value }
    }

    /// The UUID value of this identifier.
    pub fn as_u128(&self) -> (value: u128)
        ensures
            value == self@,
    {
        self.value
    }

    /// Identifiers are equal exactly when their UUID values are.
    pub proof fn lemma_view_determines(a: VehicleId, b: VehicleId)
        ensures
            a@ == b@ <==> a == b,
    {
    }
}

impl VehicleOwnershipId {
    /// A new identifier holding a random version-4 UUID.
    pub fn new() -> (id: VehicleOwnershipId)
        ensures
            id@ & uuid_version_variant_mask() == uuid_v4_marker(),
    {
        VehicleOwnershipId { value: random_uuid_value() }
    }

    /// The identifier holding the UUID value `value`.
    pub fn from_u128(value: u128) -> (id: VehicleOwnershipId)
        ensures
            id@ == value,
    {
        VehicleOwnershipId { value }
    }

    /// The UUID value of this identifier.
    pub fn as_u128(&self) -> (value: u128)
        ensures
            value == self@,
    {
        self.value
    }

    /// Identifiers are equal exactly when their UUID values are.
    pub proof fn lemma_view_determines(a: VehicleOwnershipId, b: VehicleOwnershipId)
        ensures
            a@ == b@ <==> a == b,
    {
    }
}

} // verus!
