//! Commands of the customer context.
use crate::ids::CustomerId;
use vstd::prelude::*;

verus! {

/// Request to create a new customer. The caller supplies the identifier, so
/// a retried request reuses it and the repository refuses the duplicate.
#[derive(Debug, Clone, Copy)]
pub struct CreateCustomerCommand {
    /// Identifier to assign to the new customer.
    pub customer_id: CustomerId,
}

} // verus!
