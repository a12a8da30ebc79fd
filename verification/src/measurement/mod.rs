//! Evidence of a controlled real-time measurement.

pub mod input;
pub mod recorder;
pub mod summary;
pub mod trace;
