//! Coordinating devices, streams and the state of a recording.

pub mod begin;
pub mod rebind;
pub mod reconnect;
pub mod replace;
pub mod resume;
pub mod session;
