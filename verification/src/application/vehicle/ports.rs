//! Repository port of the vehicle context.
use crate::application::error::RepositoryError;
use crate::vehicle::aggregate::{Vehicle, VehicleView};
use crate::ids::VehicleId;
use vstd::prelude::*;

verus! {

/// Persistence port for [`Vehicle`] aggregates, implemented by adapters.
///
/// `save` must enforce optimistic locking; a missing vehicle is `Ok(None)`.
/// Which answer an adapter gives is its own business. Each method's answer
/// is one that the adapter's answer relation admits; an adapter that does not
/// define the relation admits every answer, so nothing is promised about the
/// answers themselves. What the relation lets a caller state is which request
/// an answer was given to.
pub trait VehicleRepository: Send + Sync {
    /// `answer` is an answer this adapter may give to saving `vehicle`
    /// (any answer, unless the adapter says otherwise).
    closed spec fn save_answer(&self, vehicle: VehicleView, answer: Result<(), RepositoryError>) -> bool {
        true
    }

    /// `answer` is an answer this adapter may give to looking up
    /// `vehicle_id` (any answer, unless the adapter says otherwise).
    closed spec fn find_answer(
        &self,
        vehicle_id: VehicleId,
        answer: Result<Option<Vehicle>, RepositoryError>,
    ) -> bool {
        true
    }

    /// Persists a well-formed vehicle.
    fn save(&self, vehicle: &Vehicle) -> (answer: Result<(), RepositoryError>)
        requires
            vehicle@.wf(),
        ensures
            self.save_answer(vehicle@, answer),
    ;

    /// Looks up a vehicle by identifier.
    fn find_by_id(&self, vehicle_id: VehicleId) -> (answer: Result<
        Option<Vehicle>,
        RepositoryError,
    >)
        ensures
            self.find_answer(vehicle_id, answer),
    ;
}

} // verus!
