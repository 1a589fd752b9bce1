//! Use-case handlers of the vehicle-ownership context.
use crate::application::error::{passed_on, ApplicationError, RepositoryError};
use crate::application::ownership::commands::StartVehicleOwnershipCommand;
use crate::application::ownership::ports::VehicleOwnershipRepository;
use crate::time::{current_time, Timestamp};
use crate::vehicle_ownership::aggregate::{started_ownership, VehicleOwnership};
use crate::vehicle_ownership::error::OwnershipError;
use crate::vehicle_ownership::snapshot::OwnershipEligibilitySnapshot;
use std::sync::Arc;
use vstd::prelude::*;

verus! {

/// The outcome of starting an ownership with `cmd` through `repository` at an
/// instant `now` read from the clock: the repository is asked whether the
/// vehicle has an open ownership; its failure is passed on; an open
/// ownership makes the domain refuse the start and nothing is saved;
/// otherwise the record started at `now` is handed to `save` and the
/// repository's answer is passed on.
pub open spec fn start_ownership_outcome<R: VehicleOwnershipRepository + ?Sized>(
    repository: &R,
    cmd: StartVehicleOwnershipCommand,
    now: Timestamp,
    open_answer: Result<bool, RepositoryError>,
    save_answer: Result<(), RepositoryError>,
    r: Result<(), ApplicationError>,
) -> bool {
    &&& now.seconds >= 0
    &&& now.nanos < 1_000_000_000
    &&& repository.has_open_answer(cmd.vehicle_id, open_answer)
    &&& match open_answer {
        Err(e) => r == Err::<(), ApplicationError>(ApplicationError::Repository(e)),
        Ok(true) => r == Err::<(), ApplicationError>(
            ApplicationError::Ownership(OwnershipError::ActiveOwnershipAlreadyExists),
        ),
        Ok(false) => {
            &&& repository.save_answer(
                started_ownership(
                    cmd.ownership_id,
                    cmd.vehicle_id,
                    cmd.owner_customer_id,
                    cmd.ownership_type,
                    now,
                ),
                save_answer,
            )
            &&& r == passed_on(save_answer)
        },
    }
}

/// Handler of the "start a vehicle ownership" use case.
pub struct StartVehicleOwnershipHandler<R: VehicleOwnershipRepository + ?Sized> {
    repository: Arc<R>,
}

impl<R: VehicleOwnershipRepository + ?Sized> StartVehicleOwnershipHandler<R> {
    /// The repository adapter the handler works with.
    pub closed spec fn repository(&self) -> Arc<R> {
        self.repository
    }

    /// Builds the handler around a repository adapter.
    pub fn new(repository: Arc<R>) -> (h: Self)
        ensures
            h.repository() == repository,
    {
        StartVehicleOwnershipHandler { repository }
    }

    /// The record a start command produces at `now`, given what the
    /// repository answered about open ownerships of the vehicle: its failure
    /// is passed on, an open ownership makes the domain refuse the start,
    /// and otherwise the record is started in `PendingVerification`.
    pub fn decide(
        cmd: StartVehicleOwnershipCommand,
        has_open_ownership: Result<bool, RepositoryError>,
        now: Timestamp,
    ) -> (r: Result<VehicleOwnership, ApplicationError>)
        ensures
            match has_open_ownership {
                Err(e) => r matches Err(ApplicationError::Repository(f)) && f == e,
                Ok(true) => r matches Err(ApplicationError::Ownership(e)) && e
                    == OwnershipError::ActiveOwnershipAlreadyExists,
                Ok(false) => r matches Ok(o) && o@ == started_ownership(
                    cmd.ownership_id,
                    cmd.vehicle_id,
                    cmd.owner_customer_id,
                    cmd.ownership_type,
                    now,
                ) && o@.wf(),
            },
    {
        let has_open = match has_open_ownership {
            Ok(b) => b,
            Err(e) => {
                return Err(ApplicationError::Repository(e));
            },
        };
        let snapshot = OwnershipEligibilitySnapshot::new(cmd.vehicle_id, has_open);
        match VehicleOwnership::start(
            cmd.ownership_id,
            cmd.vehicle_id,
            cmd.owner_customer_id,
            cmd.ownership_type,
            snapshot,
            now,
        ) {
            Ok(o) => Ok(o),
            Err(e) => Err(ApplicationError::Ownership(e)),
        }
    }

    /// Asks the repository whether the vehicle is occupied, lets the domain
    /// judge, and saves the started record. Nothing is saved when the
    /// question fails or the vehicle is occupied.
    pub fn handle(&self, cmd: StartVehicleOwnershipCommand) -> (r: Result<(), ApplicationError>)
        ensures
            exists|
                now: Timestamp,
                open_answer: Result<bool, RepositoryError>,
                save_answer: Result<(), RepositoryError>,
            | start_ownership_outcome(&*self.repository(), cmd, now, open_answer, save_answer, r),
    {
        let now = current_time();
        let open_answer = self.repository.has_open_ownership(cmd.vehicle_id);
        let ghost seen_open = open_answer;
        let ghost command = cmd;
        let ownership = match Self::decide(cmd, open_answer, now) {
            Ok(o) => o,
            Err(e) => {
                let r = Err(e);
                assert(start_ownership_outcome(
                    &*self.repository(),
                    command,
                    now,
                    seen_open,
                    Ok(()),
                    r,
                ));
                return r;
            },
        };
        let save_answer = self.repository.save(&ownership);
        let r = match save_answer {
            Ok(()) => Ok(()),
            Err(e) => Err(ApplicationError::Repository(e)),
        };
        assert(start_ownership_outcome(&*self.repository(), command, now, seen_open, save_answer, r));
        r
    }
}

} // verus!
