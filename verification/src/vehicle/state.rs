//! Lifecycle status of the `Vehicle` aggregate.
use vstd::prelude::*;
use vstd::string::StringExecFns;

verus! {

/// Current state of the `Vehicle` aggregate.
#[derive(Debug, Clone, PartialEq, Eq, Structural)]
pub enum VehicleStatus {
    /// Registered but not yet activated; the initial status.
    Draft,
    /// Carries a trustworthy identifier and may be used in operations.
    Active,
}

/// Copyable discriminator of [`VehicleStatus`] for use in error messages.
#[derive(Debug, Clone, Copy, PartialEq, Eq, Structural)]
pub enum VehicleStatusKind {
    /// Discriminator of [`VehicleStatus::Draft`].
    Draft,
    /// Discriminator of [`VehicleStatus::Active`].
    Active,
}

/// The discriminator of a status.
pub open spec fn vehicle_status_kind(status: VehicleStatus) -> VehicleStatusKind {
    match status {
        VehicleStatus::Draft => VehicleStatusKind::Draft,
        VehicleStatus::Active => VehicleStatusKind::Active,
    }
}

/// The name under which a status is shown to people.
pub open spec fn vehicle_status_kind_name(kind: VehicleStatusKind) -> Seq<char> {
    match kind {
        VehicleStatusKind::Draft => "Draft"@,
        VehicleStatusKind::Active => "Active"@,
    }
}

impl VehicleStatus {
    /// Returns the copyable discriminator of this status.
    pub fn kind(&self) -> (k: VehicleStatusKind)
        ensures
            k == vehicle_status_kind(*self),
    {
        match self {
            VehicleStatus::Draft => VehicleStatusKind::Draft,
            VehicleStatus::Active => VehicleStatusKind::Active,
        }
    }
}

impl VehicleStatusKind {
    /// The status name: `Draft` or `Active`.
    pub fn to_string(&self) -> (s: String)
        ensures
            s@ == vehicle_status_kind_name(*self),
    {
        match self {
            VehicleStatusKind::Draft => String::from_str("Draft"),
            VehicleStatusKind::Active => String::from_str("Active"),
        }
    }
}

} // verus!
