//! Typed domain events of the contact book.
use crate::customer_contact_book::value_objects::phone_number::PhoneNumber;
use crate::ids::CustomerId;
use vstd::prelude::*;

verus! {

/// A contact book was created, empty.
#[derive(Debug, Clone, PartialEq, Eq, Structural)]
pub struct CustomerContactBookCreatedV1 {
    pub customer_id: CustomerId,
}

/// All domain events of the contact book.
#[derive(Debug, Clone, PartialEq, Eq)]
pub enum CustomerContactBookEvent {
    Created(CustomerContactBookCreatedV1),
    PhoneAdded(PhoneAddedV1),
}

/// A phone number was added to the contact book.
#[derive(Debug, Clone, PartialEq, Eq)]
pub struct PhoneAddedV1 {
    pub customer_id: CustomerId,
    pub phone_number: PhoneNumber,
}

/// An event with its phone number taken as the number's characters.
pub enum ContactBookEventView {
    Created { customer_id: CustomerId },
    PhoneAdded { customer_id: CustomerId, phone_number: Seq<char> },
}

/// What an event says.
pub open spec fn contact_book_event_view(e: CustomerContactBookEvent) -> ContactBookEventView {
    match e {
        CustomerContactBookEvent::Created(c) => ContactBookEventView::Created {
            customer_id: c.customer_id,
        },
        CustomerContactBookEvent::PhoneAdded(p) => ContactBookEventView::PhoneAdded {
            customer_id: p.customer_id,
            phone_number: p.phone_number@,
        },
    }
}

} // verus!
