//! Vehicle-service platform domain and application rules, verified.
//!
//! Aggregates (customers, vehicles, vehicle ownerships, customer contact
//! books) change state only through named commands, each of which raises
//! exactly one event and advances the aggregate version by one, or leaves the
//! aggregate untouched.
pub mod aggregate;
pub mod event;
pub mod ids;
pub mod time;
pub mod customer;
pub mod vehicle;
pub mod vehicle_ownership;
pub mod customer_contact_book;
pub mod application;
pub mod backend;
pub mod persistence;
pub mod text;
