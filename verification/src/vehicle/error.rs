//! Domain errors of the `Vehicle` aggregate.
use crate::vehicle::state::VehicleStatusKind;
use crate::vehicle::state::vehicle_status_kind_name;
use vstd::string::StringExecFns;
use vstd::prelude::*;

verus! {

/// Reasons an activation attempt is refused; never an infrastructure failure.
#[derive(Debug, Clone, PartialEq, Eq, Structural)]
pub enum VehicleActivationError {
    /// The permit was issued for a different vehicle.
    PermitVehicleIdMismatch,
    /// The permit's validity window has passed.
    PermitExpired,
    /// The current lifecycle status does not permit activation.
    StatusDoesNotAllow(VehicleStatusKind),
}

/// Root domain error type of the `Vehicle` aggregate.
#[derive(Debug, Clone, PartialEq, Eq, Structural)]
pub enum VehicleError {
    /// An activation rule was violated.
    Activation(VehicleActivationError),
}

/// The text shown for an activation refusal.
pub open spec fn vehicle_activation_error_message(e: VehicleActivationError) -> Seq<char> {
    match e {
        VehicleActivationError::PermitVehicleIdMismatch =>
            "VehicleActivationPermit выдан для другого vehicle_id"@,
        VehicleActivationError::PermitExpired => "срок действия VehicleActivationPermit истёк"@,
        VehicleActivationError::StatusDoesNotAllow(kind) => "статус "@ + vehicle_status_kind_name(
            kind,
        ) + " не допускает активацию"@,
    }
}

impl VehicleActivationError {
    /// The text of the refusal.
    pub fn to_string(&self) -> (s: String)
        ensures
            s@ == vehicle_activation_error_message(*self),
    {
        match self {
            VehicleActivationError::PermitVehicleIdMismatch => String::from_str(
                "VehicleActivationPermit выдан для другого vehicle_id",
            ),
            VehicleActivationError::PermitExpired => String::from_str(
                "срок действия VehicleActivationPermit истёк",
            ),
            VehicleActivationError::StatusDoesNotAllow(kind) => {
                let name = kind.to_string();
                let mut s = String::from_str("статус ");
                s.append(name.as_str());
                s.append(" не допускает активацию");
                s
            },
        }
    }
}

impl VehicleError {
    /// The text of the underlying refusal.
    pub fn to_string(&self) -> (s: String)
        ensures
            s@ == match *self {
                VehicleError::Activation(e) => vehicle_activation_error_message(e),
            },
    {
        match self {
            VehicleError::Activation(e) => e.to_string(),
        }
    }
}

} // verus!
