//! Vehicle-ownership use cases.
pub mod commands;
pub mod handlers;
pub mod ports;
