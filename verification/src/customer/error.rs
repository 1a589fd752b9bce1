//! Domain errors of the `Customer` aggregate.
use crate::customer::state::CustomerStatusKind;
use crate::customer::state::customer_status_kind_name;
use vstd::string::StringExecFns;
use vstd::prelude::*;

verus! {

/// Reasons an activation attempt is refused. None of them is an
/// infrastructure failure: the caller should report a refusal, not retry.
#[derive(Debug, Clone, PartialEq, Eq, Structural)]
pub enum CustomerActivationError {
    /// The permit's validity window has passed.
    PermitExpired,
    /// The permit was issued for a different customer.
    PermitCustomerIdMismatch,
    /// The customer changed after the permit was issued.
    PermitVersionMismatch,
    /// The current lifecycle status does not permit activation.
    StatusDoesNotAllow(CustomerStatusKind),
}

/// Root domain error type of the `Customer` aggregate.
#[derive(Debug, Clone, PartialEq, Eq, Structural)]
pub enum CustomerError {
    /// An activation rule was violated.
    Activation(CustomerActivationError),
}

/// The text shown for an activation refusal.
pub open spec fn customer_activation_error_message(e: CustomerActivationError) -> Seq<char> {
    match e {
        CustomerActivationError::PermitExpired => "срок действия ActivationPermit истёк"@,
        CustomerActivationError::PermitCustomerIdMismatch =>
            "customer_id в ActivationPermit не совпадает с id агрегата"@,
        CustomerActivationError::PermitVersionMismatch =>
            "версия агрегата в ActivationPermit не совпадает с текущей версией"@,
        CustomerActivationError::StatusDoesNotAllow(kind) => "статус "@ + customer_status_kind_name(
            kind,
        ) + " не допускает активацию"@,
    }
}

impl CustomerActivationError {
    /// The text of the refusal.
    pub fn to_string(&self) -> (s: String)
        ensures
            s@ == customer_activation_error_message(*self),
    {
        match self {
            CustomerActivationError::PermitExpired => String::from_str(
                "срок действия ActivationPermit истёк",
            ),
            CustomerActivationError::PermitCustomerIdMismatch => String::from_str(
                "customer_id в ActivationPermit не совпадает с id агрегата",
            ),
            CustomerActivationError::PermitVersionMismatch => String::from_str(
                "версия агрегата в ActivationPermit не совпадает с текущей версией",
            ),
            CustomerActivationError::StatusDoesNotAllow(kind) => {
                let name = kind.to_string();
                let mut s = String::from_str("статус ");
                s.append(name.as_str());
                s.append(" не допускает активацию");
                s
            },
        }
    }
}

impl CustomerError {
    /// The text of the underlying refusal.
    pub fn to_string(&self) -> (s: String)
        ensures
            s@ == match *self {
                CustomerError::Activation(e) => customer_activation_error_message(e),
            },
    {
        match self {
            CustomerError::Activation(e) => e.to_string(),
        }
    }
}

} // verus!
