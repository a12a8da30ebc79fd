//! Saving a recording: its text, its metadata and its audio.

pub mod finish;
pub mod metadata;
pub mod saver;
pub mod stop;
pub mod transcript;
