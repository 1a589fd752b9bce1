//! Wire representation of ownership values.
use crate::backend::error::{ApiError, ApiErrorView, status_not_found};
use crate::ids::VehicleId;
use crate::vehicle_ownership::aggregate::VehicleOwnership;
use crate::vehicle_ownership::state::{OwnershipStatus, OwnershipType};
use vstd::prelude::*;

verus! {

/// Wire representation of [`OwnershipType`], spelled in `snake_case` on the
/// wire. Kept apart from the domain enum so that renaming a domain variant
/// cannot silently break API clients.
#[derive(Debug, Clone, Copy, PartialEq, Eq, Structural)]
pub enum OwnershipTypeDto {
    /// Maps to [`OwnershipType::Private`].
    Private,
    /// Maps to [`OwnershipType::Company`].
    Company,
    /// Maps to [`OwnershipType::Leasing`].
    Leasing,
    /// Maps to [`OwnershipType::Fleet`].
    Fleet,
    /// Maps to [`OwnershipType::Unknown`].
    Unknown,
}

/// The domain counterpart of a wire value: the variant of the same name.
pub open spec fn ownership_type_of_dto(dto: OwnershipTypeDto) -> OwnershipType {
    match dto {
        OwnershipTypeDto::Private => OwnershipType::Private,
        OwnershipTypeDto::Company => OwnershipType::Company,
        OwnershipTypeDto::Leasing => OwnershipType::Leasing,
        OwnershipTypeDto::Fleet => OwnershipType::Fleet,
        OwnershipTypeDto::Unknown => OwnershipType::Unknown,
    }
}

impl OwnershipTypeDto {
    /// Converts the wire value into its domain counterpart.
    pub fn into_domain(self) -> (t: OwnershipType)
        ensures
            t == ownership_type_of_dto(self),
    {
        match self {
            OwnershipTypeDto::Private => OwnershipType::Private,
            OwnershipTypeDto::Company => OwnershipType::Company,
            OwnershipTypeDto::Leasing => OwnershipType::Leasing,
            OwnershipTypeDto::Fleet => OwnershipType::Fleet,
            OwnershipTypeDto::Unknown => OwnershipType::Unknown,
        }
    }
}

/// Distinct wire values name distinct ownership types, and every ownership
/// type has a wire value.
pub proof fn lemma_ownership_type_dto_bijective(
    a: OwnershipTypeDto,
    b: OwnershipTypeDto,
    t: OwnershipType,
)
    ensures
        ownership_type_of_dto(a) == ownership_type_of_dto(b) ==> a == b,
        exists|d: OwnershipTypeDto| ownership_type_of_dto(d) == t,
{
    let d = match t {
        OwnershipType::Private => OwnershipTypeDto::Private,
        OwnershipType::Company => OwnershipTypeDto::Company,
        OwnershipType::Leasing => OwnershipTypeDto::Leasing,
        OwnershipType::Fleet => OwnershipTypeDto::Fleet,
        OwnershipType::Unknown => OwnershipTypeDto::Unknown,
    };
    assert(ownership_type_of_dto(d) == t);
}

/// How an ownership status is spelled on the wire (`snake_case`).
pub open spec fn ownership_status_wire(status: OwnershipStatus) -> Seq<char> {
    match status {
        OwnershipStatus::PendingVerification => "pending_verification"@,
        OwnershipStatus::Active => "active"@,
        OwnershipStatus::Ended => "ended"@,
    }
}

/// The wire spelling of an ownership status.
pub fn ownership_status_wire_name(status: &OwnershipStatus) -> (s: &'static str)
    ensures
        s@ == ownership_status_wire(*status),
{
    match status {
        OwnershipStatus::PendingVerification => "pending_verification",
        OwnershipStatus::Active => "active",
        OwnershipStatus::Ended => "ended",
    }
}

/// An ownership is addressed under its vehicle's URL: a record found for a
/// different vehicle, like a missing one, is `404` / `ownership_not_found`.
pub fn ownership_under_vehicle(found: Option<VehicleOwnership>, vehicle_id: VehicleId) -> (r: Result<
    VehicleOwnership,
    ApiError,
>)
    ensures
        match found {
            Some(o) => if o@.vehicle_id == vehicle_id {
                r matches Ok(p) && p@ == o@
            } else {
                r matches Err(e) && e@ == (ApiErrorView {
                    status: status_not_found(),
                    error: "ownership_not_found"@,
                    message: "Ownership not found."@,
                })
            },
            None => r matches Err(e) && e@ == (ApiErrorView {
                status: status_not_found(),
                error: "ownership_not_found"@,
                message: "Ownership not found."@,
            }),
        },
{
    match found {
        Some(o) => {
            if o.vehicle_id() == vehicle_id {
                Ok(o)
            } else {
                Err(ApiError::ownership_not_found())
            }
        },
        None => Err(ApiError::ownership_not_found()),
    }
}

/// Each wire value names the ownership type of the same name.
pub proof fn lemma_ownership_type_dto_same_names()
    ensures
        ownership_type_of_dto(OwnershipTypeDto::Private) == OwnershipType::Private,
        ownership_type_of_dto(OwnershipTypeDto::Company) == OwnershipType::Company,
        ownership_type_of_dto(OwnershipTypeDto::Leasing) == OwnershipType::Leasing,
        ownership_type_of_dto(OwnershipTypeDto::Fleet) == OwnershipType::Fleet,
        ownership_type_of_dto(OwnershipTypeDto::Unknown) == OwnershipType::Unknown,
{
}

/// Distinct statuses have distinct wire names, and a pending record is shown
/// as `pending_verification`.
pub proof fn lemma_wire_status_names_distinct(a: OwnershipStatus, b: OwnershipStatus)
    ensures
        a != b ==> ownership_status_wire(a) != ownership_status_wire(b),
        ownership_status_wire(OwnershipStatus::PendingVerification) == "pending_verification"@,
{
    reveal_strlit("pending_verification");
    reveal_strlit("active");
    reveal_strlit("ended");
    if a != b {
        assert(ownership_status_wire(a).len() != ownership_status_wire(b).len()
            || ownership_status_wire(a)[0] != ownership_status_wire(b)[0]);
    }
}

} // verus!
