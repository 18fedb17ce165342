//! Helpers of the interface that other screens share.
pub use crate::spinner::{spinner_frame, Spinner};
