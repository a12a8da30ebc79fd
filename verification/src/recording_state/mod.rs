//! The state of a recording and of its two audio routes.

pub mod error;
pub mod evidence;
pub mod laws;
pub mod model;
pub mod state;

pub use crate::recording_state::error::AudioError;
pub use crate::recording_state::evidence::{
    AudioCutoverEvidence, AudioDeviceEpochEvidence, AudioRouteEvidenceSnapshot,
    AudioRouteIncidentEvidence, SystemAudioFormat,
};
pub use crate::recording_state::model::{DeviceType, RecordingStats};
pub use crate::recording_state::state::{InFlightAudioCallback, RecordingState};
