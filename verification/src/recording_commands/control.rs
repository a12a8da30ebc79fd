//! Pausing and resuming a recording, and what else can be asked of one.

use vstd::prelude::*;
use vstd::string::*;

use crate::recording_commands::start::RecordingFlags;
use crate::recording_manager::reconnect::ResumeFailure;
use crate::recording_state::error::AudioError;
use crate::recording_state::model::State;
use crate::recording_state::state::{PauseError, RecordingState};
use crate::transcription::chunk_queue::ChunkQueue;
use crate::transcription::worker::{current_transcription_queue_status, TranscriptionActivity};

verus! {

/// How far the transcription has come.
#[derive(Debug, Clone, Copy, PartialEq, Eq, Structural)]
pub struct TranscriptionStatus {
    pub chunks_in_queue: usize,
    pub is_processing: bool,
    pub last_activity_ms: u64,
}

/// How far the transcription has come.
pub fn get_transcription_status<T: Copy>(queue: &ChunkQueue<T>, activity: &TranscriptionActivity) -> (r:
    TranscriptionStatus)
    ensures
        r.chunks_in_queue == (if queue.completed < queue.queued {
            queue.queued - queue.completed
        } else {
            0
        }) as usize,
        r.is_processing == activity.active,
        r.last_activity_ms == 0,
{
    let (chunks_in_queue, is_processing) = current_transcription_queue_status(queue, activity);
    TranscriptionStatus { chunks_in_queue, is_processing, last_activity_ms: 0 }
}

/// Why a recording cannot be paused.
#[derive(Debug, Clone, Copy, PartialEq, Eq, Structural)]
pub enum CommandError {
    NotRecording,
    NoManager,
    Pause(PauseError),
}

impl CommandError {
    /// The text that describes the failure.
    pub open spec fn text(self) -> Seq<char> {
        match self {
            CommandError::NotRecording => "No recording is currently active"@,
            CommandError::NoManager => "No recording manager found"@,
            CommandError::Pause(error) => ResumeFailure::Pause(error).text(),
        }
    }

    pub fn message(&self) -> (r: String)
        ensures
            r@ == self.text(),
    {
        match self {
            CommandError::NotRecording => "No recording is currently active".to_owned(),
            CommandError::NoManager => "No recording manager found".to_owned(),
            CommandError::Pause(error) => error.message().to_owned(),
        }
    }
}

/// What the state of a recording that may be missing stands for.
pub open spec fn state_of(current: Option<RecordingState>) -> Option<State> {
    match current {
        Some(state) => Some(state@),
        None => None,
    }
}

/// What becomes of a recording that the user wants to pause.
pub open spec fn pause_commanded(recording: bool, state: Option<State>, now_ns: u64) -> (
    Result<(), CommandError>,
    Option<State>,
) {
    match state {
        _ if !recording => (Err(CommandError::NotRecording), state),
        None => (Err(CommandError::NoManager), state),
        Some(s) if !s.recording => (
            Err(CommandError::Pause(PauseError::PauseWhenNotRecording)),
            state,
        ),
        Some(s) if s.paused => (Err(CommandError::Pause(PauseError::AlreadyPaused)), state),
        Some(s) => (Ok(()), Some(s.paused_at(now_ns))),
    }
}

/// Law: the user can pause a recording exactly when one runs and is not paused; then it takes no
/// audio in, and else nothing changes.
pub proof fn pausing_stops_the_audio(recording: bool, state: Option<State>, now_ns: u64)
    ensures
        ({
            let r = pause_commanded(recording, state, now_ns);
            &&& r.0 is Ok <==> recording && (state matches Some(s) && s.recording && !s.paused)
            &&& r.0 is Err ==> r.1 == state
            &&& r.0 is Ok ==> (r.1 matches Some(after) && after.paused && after.recording
                && !after.timeline_open() && !after.active() && after.pause_start_ns == Some(now_ns))
        }),
{
}

/// Pauses the recording, if there is one and it is not paused.
pub fn pause_recording(
    flags: &RecordingFlags,
    current: &mut Option<RecordingState>,
    now_ns: u64,
) -> (r: Result<(), CommandError>)
    ensures
        (r, state_of(*final(current))) == pause_commanded(
            flags.recording, state_of(*old(current)), now_ns),
        match state_of(*old(current)) {
            _ if !flags.recording => r == Err::<(), CommandError>(CommandError::NotRecording),
            None => r == Err::<(), CommandError>(CommandError::NoManager),
            Some(state) if !state.recording => r == Err::<(), CommandError>(
                CommandError::Pause(PauseError::PauseWhenNotRecording)),
            Some(state) if state.paused => r == Err::<(), CommandError>(
                CommandError::Pause(PauseError::AlreadyPaused)),
            Some(_) => r is Ok,
        },
        state_of(*final(current)) == match state_of(*old(current)) {
            Some(state) if r is Ok => Some(state.paused_at(now_ns)),
            state => state,
        },
{
    if !flags.recording {
        return Err(CommandError::NotRecording);
    }
    match current {
        Some(state) => match state.pause_recording(now_ns) {
            Ok(()) => Ok(()),
            Err(error) => Err(CommandError::Pause(error)),
        },
        None => Err(CommandError::NoManager),
    }
}

/// A recording could not be resumed: its listener is told that a stream failed. Returns the error
/// that a listener is to be told.
pub fn resume_failed(current: &mut Option<RecordingState>) -> (notice: Option<AudioError>)
    ensures
        match state_of(*old(current)) {
            Some(state) => {
                &&& state_of(*final(current)) == Some(
                    state.error_reported(AudioError::StreamFailed))
                &&& notice == state.notice(AudioError::StreamFailed)
            },
            None => state_of(*final(current)) is None && notice is None,
        },
{
    match current {
        Some(state) => state.report_error(AudioError::StreamFailed),
        None => None,
    }
}

/// Whether there is a recording and it is paused.
pub fn is_recording_paused(current: &Option<RecordingState>) -> (r: bool)
    ensures
        r == (state_of(*current) matches Some(state) && state.paused),
{
    match current {
        Some(state) => state.is_paused(),
        None => false,
    }
}

} // verus!
