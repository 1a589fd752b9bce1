//! Repository port of the vehicle-ownership context.
use crate::application::error::RepositoryError;
use crate::ids::{VehicleId, VehicleOwnershipId};
use crate::vehicle_ownership::aggregate::{VehicleOwnership, VehicleOwnershipView};
use vstd::prelude::*;

verus! {

/// Persistence port for [`VehicleOwnership`] aggregates, implemented by
/// adapters.
///
/// Which answer an adapter gives is its own business. Each method's answer
/// is one that the adapter's answer relation admits; an adapter that does not
/// define the relation admits every answer, so nothing is promised about the
/// answers themselves. What the relation lets a caller state is which request
/// an answer was given to.
pub trait VehicleOwnershipRepository: Send + Sync {
    /// `answer` is an answer this adapter may give to asking whether
    /// `vehicle_id` has an open ownership (any answer, unless the adapter says
    /// otherwise).
    closed spec fn has_open_answer(&self, vehicle_id: VehicleId, answer: Result<bool, RepositoryError>) -> bool {
        true
    }

    /// `answer` is an answer this adapter may give to saving `ownership`
    /// (any answer, unless the adapter says otherwise).
    closed spec fn save_answer(
        &self,
        ownership: VehicleOwnershipView,
        answer: Result<(), RepositoryError>,
    ) -> bool {
        true
    }

    /// `answer` is an answer this adapter may give to looking up
    /// `ownership_id` (any answer, unless the adapter says otherwise).
    closed spec fn find_answer(
        &self,
        ownership_id: VehicleOwnershipId,
        answer: Result<Option<VehicleOwnership>, RepositoryError>,
    ) -> bool {
        true
    }

    /// Whether the vehicle has an open ownership record, pending or active:
    /// the meaning of "open" must match `OwnershipStatus::is_open`.
    fn has_open_ownership(&self, vehicle_id: VehicleId) -> (answer: Result<bool, RepositoryError>)
        ensures
            self.has_open_answer(vehicle_id, answer),
    ;

    /// Persists a well-formed ownership record, with optimistic locking.
    fn save(&self, ownership: &VehicleOwnership) -> (answer: Result<(), RepositoryError>)
        requires
            ownership@.wf(),
        ensures
            self.save_answer(ownership@, answer),
    ;

    /// Looks up an ownership record by identifier; absence is `Ok(None)`.
    fn find_by_id(&self, ownership_id: VehicleOwnershipId) -> (answer: Result<
        Option<VehicleOwnership>,
        RepositoryError,
    >)
        ensures
            self.find_answer(ownership_id, answer),
    ;
}

} // verus!
