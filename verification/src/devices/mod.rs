//! Audio endpoints: what identifies one, and how a selection finds one.

pub mod configuration;
pub mod discovery;
pub mod windows;
