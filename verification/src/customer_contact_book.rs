//! Customer contact book bounded context: customer-local contact state,
//! starting without contacts; contacts are added through named operations.
pub mod aggregate;
pub mod error;
pub mod event;
pub mod value_objects;
