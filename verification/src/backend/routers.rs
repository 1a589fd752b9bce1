//! Wire vocabulary of the routes.
pub mod vehicle_ownership;
