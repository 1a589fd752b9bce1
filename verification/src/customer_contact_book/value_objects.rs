//! Value objects of the contact book.
pub mod phone_contact;
pub mod phone_number;
