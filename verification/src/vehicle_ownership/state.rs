//! Status and supporting types of the `VehicleOwnership` aggregate.
use crate::time::Timestamp;
use vstd::prelude::*;
use vstd::string::StringExecFns;

verus! {

/// Current state of an ownership record:
/// `PendingVerification ─(verify)→ Active ─(end)→ Ended`; `Ended` is terminal.
#[derive(Debug, Clone, PartialEq, Eq, Structural)]
pub enum OwnershipStatus {
    /// Claimed but not yet confirmed. Already occupies the vehicle.
    PendingVerification,
    /// Confirmed and in effect.
    Active,
    /// Terminated; terminal state. Does not occupy the vehicle.
    Ended,
}

/// Copyable discriminator of [`OwnershipStatus`] for use in error messages.
#[derive(Debug, Clone, Copy, PartialEq, Eq, Structural)]
pub enum OwnershipStatusKind {
    /// Discriminator of [`OwnershipStatus::PendingVerification`].
    PendingVerification,
    /// Discriminator of [`OwnershipStatus::Active`].
    Active,
    /// Discriminator of [`OwnershipStatus::Ended`].
    Ended,
}

/// An open record occupies the vehicle: it is not yet terminated.
pub open spec fn ownership_status_is_open(status: OwnershipStatus) -> bool {
    status != OwnershipStatus::Ended
}

/// The discriminator of a status.
pub open spec fn ownership_status_kind(status: OwnershipStatus) -> OwnershipStatusKind {
    match status {
        OwnershipStatus::PendingVerification => OwnershipStatusKind::PendingVerification,
        OwnershipStatus::Active => OwnershipStatusKind::Active,
        OwnershipStatus::Ended => OwnershipStatusKind::Ended,
    }
}

/// The name under which a status is shown to people.
pub open spec fn ownership_status_kind_name(kind: OwnershipStatusKind) -> Seq<char> {
    match kind {
        OwnershipStatusKind::PendingVerification => "PendingVerification"@,
        OwnershipStatusKind::Active => "Active"@,
        OwnershipStatusKind::Ended => "Ended"@,
    }
}

impl OwnershipStatus {
    /// Returns `true` if the status is open, i.e. not yet terminated. A
    /// pending claim counts as open: it already reserves the vehicle.
    pub fn is_open(&self) -> (b: bool)
        ensures
            b == ownership_status_is_open(*self),
    {
        match self {
            OwnershipStatus::PendingVerification | OwnershipStatus::Active => true,
            OwnershipStatus::Ended => false,
        }
    }

    /// Returns the copyable discriminator of this status.
    pub fn kind(&self) -> (k: OwnershipStatusKind)
        ensures
            k == ownership_status_kind(*self),
    {
        match self {
            OwnershipStatus::PendingVerification => OwnershipStatusKind::PendingVerification,
            OwnershipStatus::Active => OwnershipStatusKind::Active,
            OwnershipStatus::Ended => OwnershipStatusKind::Ended,
        }
    }
}

impl OwnershipStatusKind {
    /// The status name: `PendingVerification`, `Active` or `Ended`.
    pub fn to_string(&self) -> (s: String)
        ensures
            s@ == ownership_status_kind_name(*self),
    {
        match self {
            OwnershipStatusKind::PendingVerification => String::from_str("PendingVerification"),
            OwnershipStatusKind::Active => String::from_str("Active"),
            OwnershipStatusKind::Ended => String::from_str("Ended"),
        }
    }
}

/// Kind of vehicle ownership. `Unknown` is a legitimate value for imported
/// records whose kind was not supplied.
#[derive(Debug, Clone, Copy, PartialEq, Eq, Structural)]
pub enum OwnershipType {
    /// Private individual owner.
    Private,
    /// Owned by a company.
    Company,
    /// Held under a leasing agreement.
    Leasing,
    /// Part of a managed vehicle fleet.
    Fleet,
    /// Kind not supplied, typically for imported records.
    Unknown,
}

/// Ownership period: a start and, once closed, an end no earlier than it.
#[derive(Debug, Clone, Copy, PartialEq, Eq, Structural)]
pub struct OwnershipPeriod {
    /// Moment the ownership started.
    pub started_at: Timestamp,
    /// Moment the ownership ended; `None` while the period is still open.
    pub ended_at: Option<Timestamp>,
}

impl OwnershipPeriod {
    /// The end, if any, is not earlier than the start.
    pub open spec fn wf(self) -> bool {
        match self.ended_at {
            Some(end) => !end.precedes(self.started_at),
            None => true,
        }
    }

    /// Opens a new period starting at `started_at`.
    pub fn new(started_at: Timestamp) -> (p: OwnershipPeriod)
        ensures
            p == (OwnershipPeriod { started_at, ended_at: None }),
            p.wf(),
    {
        OwnershipPeriod { started_at, ended_at: None }
    }

    /// Returns `true` if the period is still open.
    pub fn is_open(&self) -> (b: bool)
        ensures
            b == self.ended_at.is_none(),
    {
        self.ended_at.is_none()
    }

    /// Closes the period at `now`. Returns `None` if `now` is earlier than
    /// the start, so an invalid closing yields no period at all.
    pub fn close(self, now: Timestamp) -> (p: Option<OwnershipPeriod>)
        ensures
            p == (if now.precedes(self.started_at) {
                None
            } else {
                Some(OwnershipPeriod { ended_at: Some(now), ..self })
            }),
            p matches Some(closed) ==> closed.wf(),
    {
        if now.is_before(&self.started_at) {
            return None;
        }
        Some(OwnershipPeriod { ended_at: Some(now), ..self })
    }
}

} // verus!
