//! Use cases: a handler loads what the domain cannot fetch itself, lets the
//! domain decide, and persists the verdict through a repository port.
pub mod customer;
pub mod error;
pub mod ownership;
pub mod vehicle;
