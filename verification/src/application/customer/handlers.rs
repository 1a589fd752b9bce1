//! Use-case handlers of the customer context.
use crate::application::customer::commands::CreateCustomerCommand;
use crate::application::customer::ports::CustomerRepository;
use crate::application::error::{passed_on, ApplicationError, RepositoryError};
use crate::customer::aggregate::{created_customer, Customer};
use crate::ids::CustomerId;
use crate::time::{current_time, Timestamp};
use std::sync::Arc;
use vstd::prelude::*;

verus! {

/// The outcome of creating a customer with `cmd` through `repository`: a
/// `Draft` customer with the command's identifier, created at some instant
/// `now` read from the clock, is handed to `save`, and the repository's
/// answer is passed on.
pub open spec fn create_customer_outcome<R: CustomerRepository + ?Sized>(
    repository: &R,
    cmd: CreateCustomerCommand,
    now: Timestamp,
    answer: Result<(), RepositoryError>,
    r: Result<(), ApplicationError>,
) -> bool {
    &&& now.seconds >= 0
    &&& now.nanos < 1_000_000_000
    &&& repository.save_answer(created_customer(cmd.customer_id, now), answer)
    &&& r == passed_on(answer)
}

/// Handler of the "create a customer" use case.
pub struct CreateCustomerHandler<R: CustomerRepository + ?Sized> {
    repository: Arc<R>,
}

impl<R: CustomerRepository + ?Sized> CreateCustomerHandler<R> {
    /// The repository adapter the handler works with.
    pub closed spec fn repository(&self) -> Arc<R> {
        self.repository
    }

    /// Builds the handler around a repository adapter.
    pub fn new(repository: Arc<R>) -> (h: Self)
        ensures
            h.repository() == repository,
    {
        CreateCustomerHandler { repository }
    }

    /// Creates a `Draft` customer with the command's identifier, stamped with
    /// the current time, and saves it. A duplicate is refused by the
    /// repository, whose answer is passed on unchanged.
    pub fn handle(&self, cmd: CreateCustomerCommand) -> (r: Result<(), ApplicationError>)
        ensures
            exists|now: Timestamp, answer: Result<(), RepositoryError>|
                create_customer_outcome(&*self.repository(), cmd, now, answer, r),
    {
        let now = current_time();
        let customer = Customer::create(cmd.customer_id, now);
        let answer = self.repository.save(&customer);
        let r = match answer {
            Ok(()) => Ok(()),
            Err(e) => Err(ApplicationError::Repository(e)),
        };
        assert(create_customer_outcome(&*self.repository(), cmd, now, answer, r));
        r
    }
}

/// Handler of the "fetch a customer by id" use case.
pub struct GetCustomerHandler<R: CustomerRepository + ?Sized> {
    repository: Arc<R>,
}

impl<R: CustomerRepository + ?Sized> GetCustomerHandler<R> {
    /// The repository adapter the handler works with.
    pub closed spec fn repository(&self) -> Arc<R> {
        self.repository
    }

    /// Builds the handler around a repository adapter.
    pub fn new(repository: Arc<R>) -> (h: Self)
        ensures
            h.repository() == repository,
    {
        GetCustomerHandler { repository }
    }

    /// Returns what the repository found for `customer_id` (`None` if there is
    /// none: absence is not an application error), or its failure.
    pub fn handle(&self, customer_id: CustomerId) -> (r: Result<Option<Customer>, ApplicationError>)
        ensures
            exists|answer: Result<Option<Customer>, RepositoryError>|
                self.repository().find_answer(customer_id, answer) && r == passed_on(answer),
    {
        let answer = self.repository.find_by_id(customer_id);
        let ghost seen = answer;
        let r = match answer {
            Ok(found) => Ok(found),
            Err(e) => Err(ApplicationError::Repository(e)),
        };
        assert(self.repository().find_answer(customer_id, seen) && r == passed_on(seen));
        r
    }
}

} // verus!
