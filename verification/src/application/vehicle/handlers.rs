//! Use-case handlers of the vehicle context.
use crate::application::vehicle::commands::CreateVehicleCommand;
use crate::application::vehicle::ports::VehicleRepository;
use crate::application::error::{passed_on, ApplicationError, RepositoryError};
use crate::vehicle::aggregate::{created_vehicle, Vehicle};
use crate::ids::VehicleId;
use crate::time::{current_time, Timestamp};
use std::sync::Arc;
use vstd::prelude::*;

verus! {

/// The outcome of creating a vehicle with `cmd` through `repository`: a
/// `Draft` vehicle with the command's identifier, created at some instant
/// `now` read from the clock, is handed to `save`, and the repository's
/// answer is passed on.
pub open spec fn create_vehicle_outcome<R: VehicleRepository + ?Sized>(
    repository: &R,
    cmd: CreateVehicleCommand,
    now: Timestamp,
    answer: Result<(), RepositoryError>,
    r: Result<(), ApplicationError>,
) -> bool {
    &&& now.seconds >= 0
    &&& now.nanos < 1_000_000_000
    &&& repository.save_answer(created_vehicle(cmd.vehicle_id, now), answer)
    &&& r == passed_on(answer)
}

/// Handler of the "create a vehicle" use case.
pub struct CreateVehicleHandler<R: VehicleRepository + ?Sized> {
    repository: Arc<R>,
}

impl<R: VehicleRepository + ?Sized> CreateVehicleHandler<R> {
    /// The repository adapter the handler works with.
    pub closed spec fn repository(&self) -> Arc<R> {
        self.repository
    }

    /// Builds the handler around a repository adapter.
    pub fn new(repository: Arc<R>) -> (h: Self)
        ensures
            h.repository() == repository,
    {
        CreateVehicleHandler { repository }
    }

    /// Creates a `Draft` vehicle with the command's identifier, stamped with
    /// the current time, and saves it. A duplicate is refused by the
    /// repository, whose answer is passed on unchanged.
    pub fn handle(&self, cmd: CreateVehicleCommand) -> (r: Result<(), ApplicationError>)
        ensures
            exists|now: Timestamp, answer: Result<(), RepositoryError>|
                create_vehicle_outcome(&*self.repository(), cmd, now, answer, r),
    {
        let now = current_time();
        let vehicle = Vehicle::create(cmd.vehicle_id, now);
        let answer = self.repository.save(&vehicle);
        let r = match answer {
            Ok(()) => Ok(()),
            Err(e) => Err(ApplicationError::Repository(e)),
        };
        assert(create_vehicle_outcome(&*self.repository(), cmd, now, answer, r));
        r
    }
}

/// Handler of the "fetch a vehicle by id" use case.
pub struct GetVehicleHandler<R: VehicleRepository + ?Sized> {
    repository: Arc<R>,
}

impl<R: VehicleRepository + ?Sized> GetVehicleHandler<R> {
    /// The repository adapter the handler works with.
    pub closed spec fn repository(&self) -> Arc<R> {
        self.repository
    }

    /// Builds the handler around a repository adapter.
    pub fn new(repository: Arc<R>) -> (h: Self)
        ensures
            h.repository() == repository,
    {
        GetVehicleHandler { repository }
    }

    /// Returns what the repository found for `vehicle_id` (`None` if there is
    /// none: absence is not an application error), or its failure.
    pub fn handle(&self, vehicle_id: VehicleId) -> (r: Result<Option<Vehicle>, ApplicationError>)
        ensures
            exists|answer: Result<Option<Vehicle>, RepositoryError>|
                self.repository().find_answer(vehicle_id, answer) && r == passed_on(answer),
    {
        let answer = self.repository.find_by_id(vehicle_id);
        let ghost seen = answer;
        let r = match answer {
            Ok(found) => Ok(found),
            Err(e) => Err(ApplicationError::Repository(e)),
        };
        assert(self.repository().find_answer(vehicle_id, seen) && r == passed_on(seen));
        r
    }
}

} // verus!
