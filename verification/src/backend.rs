//! The HTTP boundary's decisions: which status, code and message an error
//! is shown as, and how wire values become domain values.
pub mod error;
pub mod routers;
