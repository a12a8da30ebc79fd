//! Turning recorded speech into text.

pub mod chunk_queue;
pub mod notice;
pub mod parakeet_provider;
pub mod provider;
pub mod sensevoice_live_worker;
pub mod sensevoice_provider;
pub mod task;
pub mod worker;
