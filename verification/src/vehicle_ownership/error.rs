//! Domain errors of the `VehicleOwnership` aggregate.
use crate::vehicle_ownership::state::OwnershipStatusKind;
use crate::vehicle_ownership::state::ownership_status_kind_name;
use vstd::string::StringExecFns;
use vstd::prelude::*;

verus! {

/// Business-rule violations of the `VehicleOwnership` aggregate. Every
/// variant is a refusal, not a failure.
#[derive(Debug, Clone, PartialEq, Eq, Structural)]
pub enum OwnershipError {
    /// An ownership was started while an open one already exists for the
    /// vehicle ("open" includes `PendingVerification`).
    ActiveOwnershipAlreadyExists,
    /// The command is not permitted in the current status.
    StatusDoesNotAllow(OwnershipStatusKind),
    /// The period's end would precede its start.
    PeriodEndBeforeStart,
}

/// The text shown for a refusal.
pub open spec fn ownership_error_message(e: OwnershipError) -> Seq<char> {
    match e {
        OwnershipError::ActiveOwnershipAlreadyExists =>
            "для этого автомобиля уже существует активная запись о владении"@,
        OwnershipError::StatusDoesNotAllow(kind) => "статус "@ + ownership_status_kind_name(kind)
            + " не допускает данную операцию"@,
        OwnershipError::PeriodEndBeforeStart =>
            "дата завершения периода владения не может быть раньше даты начала"@,
    }
}

impl OwnershipError {
    /// The text of the refusal.
    pub fn to_string(&self) -> (s: String)
        ensures
            s@ == ownership_error_message(*self),
    {
        match self {
            OwnershipError::ActiveOwnershipAlreadyExists => String::from_str(
                "для этого автомобиля уже существует активная запись о владении",
            ),
            OwnershipError::StatusDoesNotAllow(kind) => {
                let name = kind.to_string();
                let mut s = String::from_str("статус ");
                s.append(name.as_str());
                s.append(" не допускает данную операцию");
                s
            },
            OwnershipError::PeriodEndBeforeStart => String::from_str(
                "дата завершения периода владения не может быть раньше даты начала",
            ),
        }
    }
}

} // verus!
