//! Typed domain events of the `Customer` aggregate.
use crate::ids::CustomerId;
use vstd::prelude::*;

verus! {

/// A customer was created and is in the `Draft` status.
#[derive(Debug, Clone, PartialEq, Eq, Structural)]
pub struct CustomerCreatedV1 {
    /// Identifier of the created customer.
    pub customer_id: CustomerId,
}

/// A customer was moved into the `Active` status.
#[derive(Debug, Clone, PartialEq, Eq, Structural)]
pub struct CustomerActivatedV1 {
    /// Identifier of the activated customer.
    pub customer_id: CustomerId,
}

/// All domain events of the `Customer` aggregate.
#[derive(Debug, Clone, PartialEq, Eq, Structural)]
pub enum CustomerEvent {
    /// See [`CustomerCreatedV1`].
    Created(CustomerCreatedV1),
    /// See [`CustomerActivatedV1`].
    Activated(CustomerActivatedV1),
}

} // verus!
