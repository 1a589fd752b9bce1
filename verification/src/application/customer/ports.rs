//! Repository port of the customer context.
use crate::application::error::RepositoryError;
use crate::customer::aggregate::{Customer, CustomerView};
use crate::ids::CustomerId;
use vstd::prelude::*;

verus! {

/// Persistence port for [`Customer`] aggregates, implemented by adapters.
///
/// `save` must enforce optimistic locking; a missing customer is `Ok(None)`.
/// Which answer an adapter gives is its own business. Each method's answer
/// is one that the adapter's answer relation admits; an adapter that does not
/// define the relation admits every answer, so nothing is promised about the
/// answers themselves. What the relation lets a caller state is which request
/// an answer was given to.
pub trait CustomerRepository: Send + Sync {
    /// `answer` is an answer this adapter may give to saving `customer`
    /// (any answer, unless the adapter says otherwise).
    closed spec fn save_answer(&self, customer: CustomerView, answer: Result<(), RepositoryError>) -> bool {
        true
    }

    /// `answer` is an answer this adapter may give to looking up
    /// `customer_id` (any answer, unless the adapter says otherwise).
    closed spec fn find_answer(
        &self,
        customer_id: CustomerId,
        answer: Result<Option<Customer>, RepositoryError>,
    ) -> bool {
        true
    }

    /// Persists a well-formed customer.
    fn save(&self, customer: &Customer) -> (answer: Result<(), RepositoryError>)
        requires
            customer@.wf(),
        ensures
            self.save_answer(customer@, answer),
    ;

    /// Looks up a customer by identifier.
    fn find_by_id(&self, customer_id: CustomerId) -> (answer: Result<
        Option<Customer>,
        RepositoryError,
    >)
        ensures
            self.find_answer(customer_id, answer),
    ;
}

} // verus!
