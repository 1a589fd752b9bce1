//! Customer lifecycle status.
use vstd::prelude::*;
use vstd::string::StringExecFns;

verus! {

/// Current state of the `Customer` aggregate.
#[derive(Debug, Clone, PartialEq, Eq, Structural)]
pub enum CustomerStatus {
    /// Created but not yet activated; the initial status.
    Draft,
    /// Activated and able to participate in business operations.
    Active,
}

/// Copyable discriminator of [`CustomerStatus`] for use in error messages.
#[derive(Debug, Clone, Copy, PartialEq, Eq, Structural)]
pub enum CustomerStatusKind {
    /// Discriminator of [`CustomerStatus::Draft`].
    Draft,
    /// Discriminator of [`CustomerStatus::Active`].
    Active,
}

/// The discriminator of a status.
pub open spec fn customer_status_kind(status: CustomerStatus) -> CustomerStatusKind {
    match status {
        CustomerStatus::Draft => CustomerStatusKind::Draft,
        CustomerStatus::Active => CustomerStatusKind::Active,
    }
}

/// The name under which a status is shown to people.
pub open spec fn customer_status_kind_name(kind: CustomerStatusKind) -> Seq<char> {
    match kind {
        CustomerStatusKind::Draft => "Draft"@,
        CustomerStatusKind::Active => "Active"@,
    }
}

impl CustomerStatus {
    /// Returns the copyable discriminator of this status.
    pub fn kind(&self) -> (k: CustomerStatusKind)
        ensures
            k == customer_status_kind(*self),
    {
        match self {
            CustomerStatus::Draft => CustomerStatusKind::Draft,
            CustomerStatus::Active => CustomerStatusKind::Active,
        }
    }
}

impl CustomerStatusKind {
    /// The status name: `Draft` or `Active`.
    pub fn to_string(&self) -> (s: String)
        ensures
            s@ == customer_status_kind_name(*self),
    {
        match self {
            CustomerStatusKind::Draft => String::from_str("Draft"),
            CustomerStatusKind::Active => String::from_str("Active"),
        }
    }
}

} // verus!
