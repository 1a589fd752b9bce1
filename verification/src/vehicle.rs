//! Vehicle bounded context: a vehicle is created as a `Draft` and becomes
//! `Active` once it carries a trustworthy identifier. A vehicle knows nothing
//! about who owns it; ownership is a separate aggregate.
pub mod aggregate;
pub mod error;
pub mod event;
pub mod permit;
pub mod state;

pub use aggregate::Vehicle;
pub use error::VehicleError;
pub use event::VehicleEvent;
pub use permit::VehicleActivationPermit;
pub use state::VehicleStatus;
