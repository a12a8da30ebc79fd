//! Verified core of a meeting recorder's audio subsystem.

pub mod audio_chunk;
pub mod devices;
pub mod gap_audio;
pub mod incremental_saver;
pub mod measurement;
pub mod outside;
pub mod recording_commands;
pub mod recording_manager;
pub mod recording_preferences;
pub mod recording_saver;
pub mod recording_state;
pub mod retranscription;
pub mod segmentation;
pub mod stream;
pub mod text;
pub mod transcription;
pub mod transcripts;
