//! Transcribing the stored audio of a meeting again.

pub mod flow;
pub mod overlap;
pub mod run;
pub mod source;
pub mod speech;
pub mod status;
