//! The rules a repository adapter applies when it stores aggregates:
//! optimistic locking on the aggregate version, and the question whether a
//! vehicle is occupied by an open ownership record.
use crate::aggregate::AggregateVersion;
use crate::application::error::RepositoryError;
use crate::ids::VehicleId;
use crate::vehicle_ownership::aggregate::VehicleOwnership;
use crate::vehicle_ownership::state::ownership_status_is_open;
use vstd::prelude::*;

verus! {

/// Whether an aggregate at version `incoming` may be stored over what the
/// store holds (`stored`, none for a new aggregate). The write is safe only
/// if the stored version is the one preceding `incoming` (none counts as
/// version 0). A second create of a stored aggregate is `AlreadyExists`;
/// any other mismatch is a `VersionConflict` naming the version required.
pub open spec fn save_verdict(stored: Option<nat>, incoming: nat) -> Result<(), RepositoryError> {
    let preceding: nat = match stored {
        Some(v) => v,
        None => 0,
    };
    if incoming == preceding + 1 {
        Ok(())
    } else if stored is Some && incoming == 1 {
        Err(RepositoryError::AlreadyExists)
    } else {
        Err(RepositoryError::VersionConflict { expected: (preceding + 1) as u64, actual: incoming as u64 })
    }
}

/// The stored version as a number, if any.
pub open spec fn stored_version_number(stored: Option<AggregateVersion>) -> Option<nat> {
    match stored {
        Some(v) => Some(v@),
        None => None,
    }
}

/// A save goes ahead exactly when the incoming version directly follows the
/// stored one (0 when nothing is stored). A refusal is `AlreadyExists`
/// exactly when something is stored and the incoming aggregate is a fresh
/// one at version 1; every other refusal is a `VersionConflict` naming the
/// version the store requires and the version presented.
pub proof fn lemma_save_allowed_only_after_preceding_version(stored: Option<nat>, incoming: nat)
    requires
        incoming <= u64::MAX,
        stored matches Some(v) ==> v < u64::MAX,
    ensures
        save_verdict(stored, incoming) is Ok <==> incoming == (match stored {
            Some(v) => v,
            None => 0,
        }) + 1,
        save_verdict(stored, incoming) == Err::<(), RepositoryError>(RepositoryError::AlreadyExists)
            <==> (stored is Some && incoming == 1 && incoming != stored->0 + 1),
        save_verdict(stored, incoming) matches Err(RepositoryError::VersionConflict {
            expected,
            actual,
        }) ==> expected == (match stored {
            Some(v) => v,
            None => 0,
        }) + 1 && actual == incoming && incoming != expected,
        !(save_verdict(stored, incoming) matches Err(RepositoryError::StorageFailure(_))),
{
}

/// Decides whether a save of an aggregate at `incoming` over `stored` may go
/// ahead.
pub fn check_save(stored: Option<AggregateVersion>, incoming: AggregateVersion) -> (r: Result<
    (),
    RepositoryError,
>)
    requires
        stored matches Some(v) ==> v@ < u64::MAX,
    ensures
        r == save_verdict(stored_version_number(stored), incoming@),
        r is Ok <==> incoming@ == (match stored {
            Some(v) => v@,
            None => 0,
        }) + 1,
{
    let preceding: u64 = match stored {
        Some(v) => v.value(),
        None => 0,
    };
    let actual = incoming.value();
    if actual == preceding + 1 {
        Ok(())
    } else if stored.is_some() && actual == 1 {
        Err(RepositoryError::AlreadyExists)
    } else {
        Err(RepositoryError::VersionConflict { expected: preceding + 1, actual })
    }
}

/// Whether some record in `records` refers to `vehicle_id` and is open
/// (pending or active), i.e. occupies the vehicle.
pub fn has_open_ownership_among(records: &Vec<VehicleOwnership>, vehicle_id: VehicleId) -> (b:
    bool)
    ensures
        b == exists|i: int|
            0 <= i < records@.len() && (#[trigger] records@[i])@.vehicle_id == vehicle_id
                && ownership_status_is_open(records@[i]@.status),
{
    let mut i: usize = 0;
    while i < records.len()
        invariant
            0 <= i <= records@.len(),
            forall|j: int|
                0 <= j < i ==> !((#[trigger] records@[j])@.vehicle_id == vehicle_id
                    && ownership_status_is_open(records@[j]@.status)),
        decreases records@.len() - i,
    {
        let record = &records[i];
        if record.vehicle_id() == vehicle_id && record.status().is_open() {
            return true;
        }
        i = i + 1;
    }
    false
}

} // verus!
