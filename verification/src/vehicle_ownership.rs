//! Vehicle ownership bounded context: which customer the platform treats as
//! responsible for a vehicle. A vehicle may have at most one open ownership
//! record at a time; the aggregate refuses an obviously invalid start on the
//! evidence of an [`OwnershipEligibilitySnapshot`].
pub mod aggregate;
pub mod error;
pub mod event;
pub mod snapshot;
pub mod state;

pub use aggregate::VehicleOwnership;
pub use error::OwnershipError;
pub use event::VehicleOwnershipEvent;
pub use snapshot::OwnershipEligibilitySnapshot;
pub use state::{OwnershipStatus, OwnershipType};
