//! What the user can ask of the recorder.

pub mod control;
pub mod events;
pub mod meeting;
pub mod replay;
pub mod report;
pub mod routes;
pub mod start;
pub mod stop;
