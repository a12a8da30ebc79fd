//! Ending a recording, step by step.
//!
//! Audio is stopped first, then the transcription works off all that was captured, and only then
//! the recording is saved. What could not be transcribed in time does not keep the rest from being
//! saved; what could not be saved is reported.

use vstd::prelude::*;
use vstd::string::*;

use crate::devices::configuration::text_of;
use crate::recording_commands::start::RecordingFlags;
use crate::recording_manager::session::save_recording_only;
use crate::recording_saver::finish::{
    first_save_failure, is_save, persisting_failure, save_outcome, saved_length, SaveEnds,
};
use crate::recording_saver::saver::RecordingSaver;
use crate::recording_saver::stop::{
    ended, failed_note, failure_message, failure_of, note, plain, stage_texts, Stage, StageNote,
};
use crate::text;

verus! {

/// How long a replay of controlled input is waited for, in seconds.
pub const REPLAY_STOP_SECONDS: u64 = 2;

/// How long the transcription is waited for, in seconds.
pub const TRANSCRIPTION_DRAIN_SECONDS: u64 = 600;

/// How long the saving is waited for, in seconds.
pub const SAVE_SECONDS: u64 = 300;

/// How far the ending of a recording has come, for the user.
#[derive(Debug, Clone, Copy)]
pub struct ShutdownProgress {
    pub stage: &'static str,
    pub message: &'static str,
    pub progress: u32,
}

/// What a `ShutdownProgress` stands for.
#[verifier::ext_equal]
pub struct Progress {
    pub stage: Seq<char>,
    pub message: Seq<char>,
    pub progress: u32,
}

/// What a progress that may be missing stands for.
pub open spec fn progress_of(progress: Option<ShutdownProgress>) -> Option<Progress> {
    match progress {
        Some(p) => Some(
            Progress { stage: p.stage@, message: p.message@, progress: p.progress },
        ),
        None => None,
    }
}

/// How a task that was waited for ended.
#[derive(Debug)]
pub enum TaskEnd {
    Finished,
    Failed(String),
    TimedOut,
}

/// Why the capture could not be stopped, in short and with its causes.
#[derive(Debug)]
pub struct CaptureError {
    pub brief: String,
    pub full: String,
}

/// How the saving ended. Without anything to save it ended well.
#[derive(Debug)]
pub enum SaveEnd {
    Saved,
    Failed(String),
    TimedOut,
}

impl SaveEnd {
    /// The failure, if it is one.
    pub open spec fn failure(self) -> Option<Seq<char>> {
        match self {
            SaveEnd::Saved => None,
            SaveEnd::Failed(error) => Some("Failed to save recording data: "@ + error@),
            SaveEnd::TimedOut => Some("Timed out while saving recording data"@),
        }
    }

    fn message(self) -> (r: Option<String>)
        ensures
            text_of(r) == self.failure(),
    {
        match self {
            SaveEnd::Saved => None,
            SaveEnd::Failed(error) => Some(
                text::joined("Failed to save recording data: ", error.as_str()),
            ),
            SaveEnd::TimedOut => Some("Timed out while saving recording data".to_owned()),
        }
    }
}

/// Where the ending of a recording stands.
#[derive(Debug, Clone, Copy, PartialEq, Eq, Structural)]
pub enum StopPhase {
    /// The replay of controlled input ends.
    EndingReplay,
    /// Audio is stopped, and what was captured is handed on.
    StoppingCapture,
    /// The transcription works off what was captured.
    Draining,
    /// The meeting is counted.
    Reporting,
    Saving,
    /// The end of the recording is announced.
    Announcing,
    /// The measurement is closed.
    ClosingMeasurement,
    Finished,
}

/// What is to be done next.
#[derive(Debug)]
pub enum StopAction {
    AwaitReplay,
    StopCapture,
    AwaitTranscription,
    ReportMeeting,
    Save,
    Announce,
    CloseMeasurement,
    Finish(Result<(), String>),
}

/// What is to be done next, what is shown, and what is put on record in a measurement.
pub struct StopStep {
    pub progress: Option<ShutdownProgress>,
    pub stages: Vec<StageNote>,
    pub error: Option<String>,
    /// What the writer of text is told.
    pub writer_error: Option<String>,
    /// The failure that the user is told of by an event.
    pub error_event: Option<String>,
    pub action: StopAction,
}

/// The ending of a recording.
pub struct StopRun {
    pub phase: StopPhase,
    /// The recording is measured.
    pub measured: bool,
    /// What went wrong with the capture or with saving.
    pub failure: Option<String>,
    /// What went wrong with the announcement.
    pub announce_error: Option<String>,
}

fn step(action: StopAction) -> (r: StopStep)
    ensures
        r.progress is None,
        r.stages@.len() == 0,
        r.error is None,
        r.writer_error is None,
        r.error_event is None,
        r.action == action,
{
    StopStep {
        progress: None,
        stages: Vec::new(),
        error: None,
        writer_error: None,
        error_event: None,
        action,
    }
}

/// What is reported of a failure after which the measurement could not be closed either.
pub open spec fn failure_with_evidence(failure: Seq<char>, closing: Option<Seq<char>>) -> Seq<char> {
    match closing {
        Some(error) => failure + "; D-11 evidence finalization also failed: "@ + error,
        None => failure,
    }
}

/// What a step says of the transcription's end.
pub open spec fn drained(end: Option<TaskEnd>) -> Stage {
    match end {
        Some(TaskEnd::Finished) => plain("queue_drained"@, "completed"@),
        Some(TaskEnd::Failed(error)) => ended("queue_drained"@, Some(error@)),
        Some(TaskEnd::TimedOut) => Stage {
            stage: "queue_drained"@,
            result: "timeout"@,
            error: Some("transcription queue drain exceeded 600 seconds"@),
        },
        None => Stage {
            stage: "queue_drained"@,
            result: "not_started"@,
            error: Some("transcription task was unavailable"@),
        },
    }
}

/// What the writer of text is told of the transcription's end.
pub open spec fn drain_failure(end: Option<TaskEnd>) -> Option<Seq<char>> {
    match end {
        Some(TaskEnd::Failed(error)) => Some(error@),
        Some(TaskEnd::TimedOut) => Some("Transcription queue drain timed out"@),
        _ => None,
    }
}

impl StopRun {
    /// Begins to end a recording, if there is one.
    pub fn start(flags: &mut RecordingFlags, measured: bool) -> (r: (StopRun, StopStep))
        ensures
            r.0.measured == measured,
            r.0.failure is None,
            r.0.announce_error is None,
            r.1.error is None,
            r.1.writer_error is None,
            r.1.error_event is None,
            if old(flags).recording {
                &&& *final(flags) == (RecordingFlags { replay_cancelled: true, ..*old(flags) })
                &&& r.0.phase == StopPhase::EndingReplay
                &&& r.1.action is AwaitReplay
                &&& progress_of(r.1.progress) == Some(
                    Progress {
                        stage: "stopping_audio"@,
                        message: "Stopping audio capture..."@,
                        progress: 20,
                    },
                )
                &&& stage_texts(r.1.stages@) == seq![plain("stop_requested"@, "started"@)]
            } else {
                &&& *final(flags) == *old(flags)
                &&& r.0.phase == StopPhase::Finished
                &&& r.1.action == StopAction::Finish(Ok(()))
                &&& r.1.progress is None
                &&& r.1.stages@.len() == 0
            },
    {
        if !flags.recording {
            return (
                StopRun {
                    phase: StopPhase::Finished,
                    measured,
                    failure: None,
                    announce_error: None,
                },
                step(StopAction::Finish(Ok(()))),
            );
        }
        flags.replay_cancelled = true;
        let mut next = step(StopAction::AwaitReplay);
        next.progress = Some(
            ShutdownProgress {
                stage: "stopping_audio",
                message: "Stopping audio capture...",
                progress: 20,
            },
        );
        next.stages.push(note("stop_requested", "started"));
        assert(stage_texts(next.stages@) =~= seq![plain("stop_requested"@, "started"@)]);
        (
            StopRun {
                phase: StopPhase::EndingReplay,
                measured,
                failure: None,
                announce_error: None,
            },
            next,
        )
    }

    /// The replay of controlled input ended, where there was one.
    pub fn replay_ended(&mut self, end: Option<TaskEnd>) -> (r: StopStep)
        requires
            old(self).phase == StopPhase::EndingReplay,
        ensures
            *final(self) == (StopRun { phase: StopPhase::StoppingCapture, ..*old(self) }),
            r.action is StopCapture,
            r.progress is None,
            r.stages@.len() == 0,
            r.writer_error is None,
            r.error_event is None,
            text_of(r.error) == match end {
                Some(TaskEnd::Failed(error)) => Some("controlled input task failed: "@ + error@),
                Some(TaskEnd::TimedOut) => Some("controlled input task stop timed out"@),
                _ => None,
            },
    {
        self.phase = StopPhase::StoppingCapture;
        let mut next = step(StopAction::StopCapture);
        match end {
            Some(TaskEnd::Failed(error)) => {
                next.error = Some(text::joined("controlled input task failed: ", error.as_str()));
            },
            Some(TaskEnd::TimedOut) => {
                next.error = Some("controlled input task stop timed out".to_owned());
            },
            _ => {},
        }
        next
    }

    /// Audio was stopped, or not; then the recording cannot be ended. `transcribing` says whether
    /// there is a transcription to wait for.
    pub fn capture_stopped(&mut self, outcome: Result<(), CaptureError>, transcribing: bool) -> (r:
        StopStep)
        requires
            old(self).phase == StopPhase::StoppingCapture,
        ensures
            r.writer_error is None,
            r.error_event is None,
            final(self).measured == old(self).measured,
            final(self).announce_error == old(self).announce_error,
            match outcome {
                Ok(_) => {
                    &&& *final(self) == (StopRun { phase: StopPhase::Draining, ..*old(self) })
                    &&& r.action is AwaitTranscription
                    &&& r.error is None
                    &&& progress_of(r.progress) == Some(
                        Progress {
                            stage: "processing_transcripts"@,
                            message: "Processing remaining transcript chunks..."@,
                            progress: 40,
                        },
                    )
                    &&& stage_texts(r.stages@) == if transcribing {
                        seq![
                            plain("capture_stopped"@, "completed"@),
                            plain("queue_drain_started"@, "started"@),
                        ]
                    } else {
                        seq![plain("capture_stopped"@, "completed"@)]
                    }
                },
                Err(error) => {
                    &&& text_of(final(self).failure) == Some(
                        "Failed to stop audio streams: "@ + error.brief@)
                    &&& r.progress is None
                    &&& text_of(r.error) == Some("audio capture stop failed: "@ + error.full@)
                    &&& stage_texts(r.stages@) == seq![
                        ended("capture_stopped"@, Some(error.brief@)),
                    ]
                    &&& if old(self).measured {
                        &&& final(self).phase == StopPhase::ClosingMeasurement
                        &&& r.action is CloseMeasurement
                    } else {
                        &&& final(self).phase == StopPhase::Finished
                        &&& (r.action matches StopAction::Finish(Err(message)) && message@
                            == "Failed to stop audio streams: "@ + error.brief@)
                    }
                },
            },
    {
        match outcome {
            Ok(_) => {
                self.phase = StopPhase::Draining;
                let mut next = step(StopAction::AwaitTranscription);
                next.progress = Some(
                    ShutdownProgress {
                        stage: "processing_transcripts",
                        message: "Processing remaining transcript chunks...",
                        progress: 40,
                    },
                );
                next.stages.push(note("capture_stopped", "completed"));
                if transcribing {
                    next.stages.push(note("queue_drain_started", "started"));
                    assert(stage_texts(next.stages@) =~= seq![
                        plain("capture_stopped"@, "completed"@),
                        plain("queue_drain_started"@, "started"@),
                    ]);
                } else {
                    assert(stage_texts(next.stages@) =~= seq![
                        plain("capture_stopped"@, "completed"@),
                    ]);
                }
                next
            },
            Err(error) => {
                let message = text::joined("Failed to stop audio streams: ", error.brief.as_str());
                let mut next = self.give_up(message);
                next.stages.push(failed_note("capture_stopped", error.brief.as_str()));
                next.error = Some(text::joined("audio capture stop failed: ", error.full.as_str()));
                assert(stage_texts(next.stages@) =~= seq![
                    ended("capture_stopped"@, Some(error.brief@)),
                ]);
                next
            },
        }
    }

    /// The recording cannot be ended as it should. A measurement of it is closed first.
    fn give_up(&mut self, message: String) -> (r: StopStep)
        ensures
            final(self).measured == old(self).measured,
            final(self).announce_error == old(self).announce_error,
            text_of(final(self).failure) == Some(message@),
            r.progress is None,
            r.stages@.len() == 0,
            r.error is None,
            r.writer_error is None,
            r.error_event is None,
            if old(self).measured {
                &&& final(self).phase == StopPhase::ClosingMeasurement
                &&& r.action is CloseMeasurement
            } else {
                &&& final(self).phase == StopPhase::Finished
                &&& (r.action matches StopAction::Finish(Err(m)) && m@ == message@)
            },
    {
        self.failure = Some(message.clone());
        if self.measured {
            self.phase = StopPhase::ClosingMeasurement;
            step(StopAction::CloseMeasurement)
        } else {
            self.phase = StopPhase::Finished;
            step(StopAction::Finish(Err(message)))
        }
    }

    /// The transcription ended, or took too long, or there was none. The recording goes on being
    /// ended in any case; a transcription that failed is put on record.
    pub fn transcription_ended(&mut self, end: Option<TaskEnd>) -> (r: StopStep)
        requires
            old(self).phase == StopPhase::Draining,
        ensures
            *final(self) == (StopRun { phase: StopPhase::Reporting, ..*old(self) }),
            r.action is ReportMeeting,
            r.error is None,
            text_of(r.writer_error) == drain_failure(end),
            r.error_event is None,
            stage_texts(r.stages@) == seq![drained(end)],
            progress_of(r.progress) == Some(
                Progress {
                    stage: "model_ready"@,
                    message: "Speech recognition model kept ready for the next recording."@,
                    progress: 70,
                },
            ),
    {
        self.phase = StopPhase::Reporting;
        let mut next = step(StopAction::ReportMeeting);
        next.progress = Some(
            ShutdownProgress {
                stage: "model_ready",
                message: "Speech recognition model kept ready for the next recording.",
                progress: 70,
            },
        );
        match &end {
            Some(TaskEnd::Finished) => {
                next.stages.push(note("queue_drained", "completed"));
            },
            Some(TaskEnd::Failed(error)) => {
                next.stages.push(failed_note("queue_drained", error.as_str()));
                next.writer_error = Some(error.clone());
            },
            Some(TaskEnd::TimedOut) => {
                next.stages.push(
                    StageNote {
                        stage: "queue_drained",
                        result: "timeout",
                        error: Some("transcription queue drain exceeded 600 seconds".to_owned()),
                    },
                );
                next.writer_error = Some("Transcription queue drain timed out".to_owned());
            },
            None => {
                next.stages.push(
                    StageNote {
                        stage: "queue_drained",
                        result: "not_started",
                        error: Some("transcription task was unavailable".to_owned()),
                    },
                );
            },
        }
        assert(stage_texts(next.stages@) =~= seq![drained(end)]);
        next
    }

    /// The meeting was counted.
    pub fn meeting_reported(&mut self) -> (r: StopStep)
        requires
            old(self).phase == StopPhase::Reporting,
        ensures
            *final(self) == (StopRun { phase: StopPhase::Saving, ..*old(self) }),
            r.action is Save,
            r.stages@.len() == 0,
            r.error is None,
            r.writer_error is None,
            r.error_event is None,
            progress_of(r.progress) == Some(
                Progress {
                    stage: "finalizing"@,
                    message: "Finalizing recording and cleaning up resources..."@,
                    progress: 90,
                },
            ),
    {
        self.phase = StopPhase::Saving;
        let mut next = step(StopAction::Save);
        next.progress = Some(
            ShutdownProgress {
                stage: "finalizing",
                message: "Finalizing recording and cleaning up resources...",
                progress: 90,
            },
        );
        next
    }

    /// The recording was saved, or not. It is over either way.
    pub fn saved(&mut self, flags: &mut RecordingFlags, end: SaveEnd) -> (r: StopStep)
        requires
            old(self).phase == StopPhase::Saving,
        ensures
            *final(flags) == (RecordingFlags { recording: false, ..*old(flags) }),
            final(self).measured == old(self).measured,
            final(self).announce_error == old(self).announce_error,
            r.writer_error is None,
            text_of(r.error_event) == end.failure(),
            match end.failure() {
                None => {
                    &&& *final(self) == (StopRun { phase: StopPhase::Announcing, ..*old(self) })
                    &&& r.action is Announce
                    &&& r.error is None
                    &&& r.stages@.len() == 0
                    &&& progress_of(r.progress) == Some(
                        Progress {
                            stage: "complete"@,
                            message: "Recording stopped successfully"@,
                            progress: 100,
                        },
                    )
                },
                Some(failure) => {
                    &&& text_of(final(self).failure) == Some(failure)
                    &&& r.progress is None
                    &&& text_of(r.error) == Some(failure)
                    &&& stage_texts(r.stages@) == seq![ended("final_save_aborted"@, Some(failure))]
                    &&& if old(self).measured {
                        &&& final(self).phase == StopPhase::ClosingMeasurement
                        &&& r.action is CloseMeasurement
                    } else {
                        &&& final(self).phase == StopPhase::Finished
                        &&& (r.action matches StopAction::Finish(Err(message)) && message@
                            == failure)
                    }
                },
            },
    {
        flags.recording = false;
        match end.message() {
            None => {
                self.phase = StopPhase::Announcing;
                let mut next = step(StopAction::Announce);
                next.progress = Some(
                    ShutdownProgress {
                        stage: "complete",
                        message: "Recording stopped successfully",
                        progress: 100,
                    },
                );
                next
            },
            Some(failure) => {
                let mut next = self.give_up(failure.clone());
                next.stages.push(failed_note("final_save_aborted", failure.as_str()));
                assert(stage_texts(next.stages@) =~= seq![
                    ended("final_save_aborted"@, Some(failure@)),
                ]);
                next.error = Some(failure.clone());
                next.error_event = Some(failure);
                next
            },
        }
    }

    /// The end of the recording was announced, or not.
    pub fn announced(&mut self, outcome: Result<(), String>) -> (r: StopStep)
        requires
            old(self).phase == StopPhase::Announcing,
        ensures
            final(self).measured == old(self).measured,
            final(self).failure == old(self).failure,
            text_of(final(self).announce_error) == failure_of(outcome),
            r.progress is None,
            r.error is None,
            r.writer_error is None,
            r.error_event is None,
            stage_texts(r.stages@) == seq![
                ended("recording_stopped_event_emitted"@, failure_of(outcome)),
            ],
            if old(self).measured {
                &&& final(self).phase == StopPhase::ClosingMeasurement
                &&& r.action is CloseMeasurement
            } else {
                &&& final(self).phase == StopPhase::Finished
                &&& r.action == StopAction::Finish(outcome)
            },
    {
        let first = match &outcome {
            Ok(_) => note("recording_stopped_event_emitted", "completed"),
            Err(error) => failed_note("recording_stopped_event_emitted", error.as_str()),
        };
        self.announce_error = match &outcome {
            Ok(_) => None,
            Err(error) => Some(error.clone()),
        };
        let mut next = if self.measured {
            self.phase = StopPhase::ClosingMeasurement;
            step(StopAction::CloseMeasurement)
        } else {
            self.phase = StopPhase::Finished;
            step(StopAction::Finish(outcome))
        };
        next.stages.push(first);
        assert(stage_texts(next.stages@) =~= seq![
            ended("recording_stopped_event_emitted"@, failure_of(outcome)),
        ]);
        next
    }

    /// The measurement was closed, or not.
    pub fn measurement_closed(&mut self, outcome: Result<(), String>) -> (r: StopStep)
        requires
            old(self).phase == StopPhase::ClosingMeasurement,
        ensures
            *final(self) == (StopRun { phase: StopPhase::Finished, ..*old(self) }),
            r.progress is None,
            r.stages@.len() == 0,
            r.error is None,
            r.writer_error is None,
            r.error_event is None,
            r.action matches StopAction::Finish(result) && failure_of(result) == closing_failure(
                text_of(old(self).failure), text_of(old(self).announce_error), failure_of(outcome)),
    {
        self.phase = StopPhase::Finished;
        let result: Result<(), String> = match &self.failure {
            Some(failure) => match &outcome {
                Ok(_) => Err(failure.clone()),
                Err(error) => {
                    let mut message = failure.clone();
                    message.append("; D-11 evidence finalization also failed: ");
                    message.append(error.as_str());
                    Err(message)
                },
            },
            None => match &outcome {
                Ok(_) => match &self.announce_error {
                    Some(error) => Err(error.clone()),
                    None => Ok(()),
                },
                Err(error) => Err(
                    text::joined("failed to finalize D-11 measurement evidence: ", error.as_str()),
                ),
            },
        };
        step(StopAction::Finish(result))
    }
}

/// What is reported once a measurement was closed, or not.
pub open spec fn closing_failure(
    failure: Option<Seq<char>>,
    announcing: Option<Seq<char>>,
    closing: Option<Seq<char>>,
) -> Option<Seq<char>> {
    match failure {
        Some(failure) => Some(failure_with_evidence(failure, closing)),
        None => match closing {
            Some(error) => Some("failed to finalize D-11 measurement evidence: "@ + error),
            None => announcing,
        },
    }
}

/// How the saving of a recording goes.
#[derive(Debug)]
pub enum Saving {
    Ended(SaveEnds),
    TimedOut,
}

/// How each thing that is done to end a recording ends. How the saving ends follows from it.
#[derive(Debug)]
pub struct StopOutcomes {
    pub replay: Option<TaskEnd>,
    pub capture: Result<(), CaptureError>,
    pub transcription: Option<TaskEnd>,
    /// The length of the recording, as it was before it was ended.
    pub duration_ns: Option<u64>,
    pub saving: Saving,
    /// Why the last evidence of the routes could not be saved.
    pub evidence_error: Option<String>,
    pub announce: Result<(), String>,
    pub closing: Result<(), String>,
}

/// An event that the user is told of.
#[derive(Debug)]
pub enum StopEvent {
    /// The recording could not be saved.
    Error(String),
    /// The recording was ended.
    Stopped,
}

/// What a `StopEvent` stands for.
pub enum Told {
    Error(Seq<char>),
    Stopped,
}

impl View for StopEvent {
    type V = Told;

    open spec fn view(&self) -> Told {
        match *self {
            StopEvent::Error(error) => Told::Error(error@),
            StopEvent::Stopped => Told::Stopped,
        }
    }
}

/// What a list of events stands for.
pub open spec fn told(events: Seq<StopEvent>) -> Seq<Told> {
    Seq::new(events.len(), |i: int| events[i]@)
}

/// What went wrong with the rows of a recording before it is saved: what did before, or else what
/// the end of the transcription did.
pub open spec fn rows_failure(saver: RecordingSaver, end: Option<TaskEnd>) -> Option<Seq<char>> {
    noted(saver.row_error(), drain_failure(end))
}

/// What is on record once a failure of the transcription was noted.
pub open spec fn noted(earlier: Option<Seq<char>>, failure: Option<Seq<char>>) -> Option<Seq<char>> {
    match (earlier, failure) {
        (Some(error), _) => Some(error),
        (None, Some(error)) => Some("Transcription failed: "@ + error),
        (None, None) => None,
    }
}

/// What is reported of a save that was not in vain, but without its last evidence.
pub open spec fn evidence_failure(error: Seq<char>) -> Seq<char> {
    "recording was saved, but the final audio route evidence snapshot was not persisted: "@ + error
}

impl StopOutcomes {
    /// Why the recording is not saved, if it is not. Without a saver there is nothing to save.
    pub open spec fn save_failure(self, saver: Option<RecordingSaver>) -> Option<Seq<char>> {
        match (saver, self.saving) {
            (None, _) => None,
            (Some(_), Saving::TimedOut) => Some("Timed out while saving recording data"@),
            (Some(saver), Saving::Ended(ends)) => match first_save_failure(
                saver@, rows_failure(saver, self.transcription), ends) {
                Some(failure) => Some(
                    "Failed to save recording data: "@ + failure_message(
                        failure, persisting_failure(saver@, ends)),
                ),
                None => match self.evidence_error {
                    Some(error) => Some(
                        "Failed to save recording data: "@ + evidence_failure(error@),
                    ),
                    None => None,
                },
            },
        }
    }

    /// What keeps the recording from being ended as it should, if anything does.
    pub open spec fn failure(self, saver: Option<RecordingSaver>) -> Option<Seq<char>> {
        match self.capture {
            Err(error) => Some("Failed to stop audio streams: "@ + error.brief@),
            Ok(_) => self.save_failure(saver),
        }
    }

    /// What is reported, if anything went wrong.
    pub open spec fn report(self, saver: Option<RecordingSaver>, measured: bool) -> Option<
        Seq<char>,
    > {
        closing_failure(
            self.failure(saver),
            failure_of(self.announce),
            if measured {
                failure_of(self.closing)
            } else {
                None
            },
        )
    }

    /// What the user is told by events: that the recording could not be saved, or that it was
    /// ended. A recording whose audio could not be stopped goes on.
    pub open spec fn events(self, saver: Option<RecordingSaver>) -> Seq<Told> {
        if self.capture is Err {
            Seq::empty()
        } else {
            match self.save_failure(saver) {
                Some(failure) => seq![Told::Error(failure)],
                None => seq![Told::Stopped],
            }
        }
    }
}

/// The saver has room for what is left of its audio.
pub open spec fn can_be_saved(saver: Option<RecordingSaver>) -> bool {
    saver matches Some(saver) ==> (saver@.audio matches Some(audio) ==> audio.has_room())
}

/// `after` is the saver once the recording was ended: the rows stay, what the transcription failed
/// to do is noted, and the rest is as saving leaves it.
pub open spec fn saver_after(
    saver: Option<RecordingSaver>,
    outcomes: StopOutcomes,
    after: Option<RecordingSaver>,
) -> bool {
    match (saver, after) {
        (None, after) => after is None,
        (Some(_), None) => false,
        (Some(saver), Some(after)) => {
            let rows = rows_failure(saver, outcomes.transcription);
            &&& after.writer.segments == saver.writer.segments
            &&& after.row_error() == rows
            &&& match outcomes.saving {
                Saving::TimedOut => after@ == saver@,
                Saving::Ended(ends) => is_save(
                    saver@,
                    rows,
                    saved_length(outcomes.duration_ns, saver.writer.segments@),
                    ends,
                    save_outcome(saver@, rows, ends),
                    after@,
                ),
            }
        },
    }
}

/// Ends a recording, given how each thing that is done for it ends. Nothing is done without a
/// recording. A recording whose audio could not be stopped is still under way. What the
/// transcription failed to do is noted by the saver before it saves, so such a recording is not
/// reported as saved. The saver of the recording, if there is one, is taken out of `saver` however
/// this ends, and so it is lost where the audio could not be stopped; else it goes to `saved`, as
/// saving left it.
pub fn stop_recording(
    flags: &mut RecordingFlags,
    measured: bool,
    saver: &mut Option<RecordingSaver>,
    outcomes: StopOutcomes,
    saved: &mut Option<RecordingSaver>,
    events: &mut Vec<StopEvent>,
) -> (r: Result<(), String>)
    requires
        can_be_saved(*old(saver)),
    ensures
        *final(flags) == flags_after_stop(*old(flags), outcomes),
        if old(flags).recording {
            &&& failure_of(r) == outcomes.report(*old(saver), measured)
            &&& *final(flags) == (RecordingFlags {
                recording: outcomes.capture is Err,
                replay_cancelled: true,
            })
            &&& told(final(events)@) == told(old(events)@) + outcomes.events(*old(saver))
            &&& *old(saver) is Some && outcomes.capture is Ok && drain_failure(
                outcomes.transcription) is Some ==> r is Err && !final(flags).recording
        } else {
            &&& r is Ok
            &&& *final(flags) == *old(flags)
            &&& *final(saver) == *old(saver)
            &&& *final(saved) == *old(saved)
            &&& final(events)@ == old(events)@
        },
        r is Ok ==> !final(flags).recording,
        old(flags).recording ==> *final(saver) is None,
        old(flags).recording && outcomes.capture is Err ==> *final(saved) is None,
        old(flags).recording && outcomes.capture is Ok ==> saver_after(
            *old(saver), outcomes, *final(saved)),
{
    let ghost given = *saver;
    let (mut run, begun) = StopRun::start(flags, measured);
    if let StopAction::Finish(result) = begun.action {
        return result;
    }
    let mut taken: Option<RecordingSaver> = saver.take();
    *saved = None;
    let _replay = run.replay_ended(outcomes.replay);
    let mut last = run.capture_stopped(outcomes.capture, outcomes.transcription.is_some());
    if let StopAction::AwaitTranscription = last.action {
        let drained = run.transcription_ended(outcomes.transcription);
        let _counted = run.meeting_reported();
        let end = save(
            &mut taken,
            drained.writer_error,
            outcomes.duration_ns,
            outcomes.saving,
            outcomes.evidence_error,
        );
        assert(end.failure() == outcomes.save_failure(given));
        *saved = taken;
        last = run.saved(flags, end);
        if let StopAction::Announce = last.action {
            events.push(StopEvent::Stopped);
            assert(told(events@) =~= told(old(events)@) + seq![Told::Stopped]);
            last = run.announced(outcomes.announce);
        } else {
            let ghost text = text_of(last.error_event)->0;
            if let Some(failure) = &last.error_event {
                events.push(StopEvent::Error(failure.clone()));
            }
            assert(told(events@) =~= told(old(events)@) + seq![Told::Error(text)]);
        }
    } else {
        assert(told(events@) =~= told(old(events)@) + Seq::<Told>::empty());
    }
    if let StopAction::CloseMeasurement = last.action {
        last = run.measurement_closed(outcomes.closing);
    }
    match last.action {
        StopAction::Finish(result) => result,
        _ => Ok(()),
    }
}

/// Saves a recording once its transcription ended. What the writer of text is told of that counts
/// when it is saved.
fn save(
    saver: &mut Option<RecordingSaver>,
    writer_error: Option<String>,
    duration_ns: Option<u64>,
    saving: Saving,
    evidence_error: Option<String>,
) -> (end: SaveEnd)
    requires
        can_be_saved(*old(saver)),
    ensures
        end.failure() == match (*old(saver), saving) {
            (None, _) => None,
            (Some(_), Saving::TimedOut) => Some("Timed out while saving recording data"@),
            (Some(s), Saving::Ended(ends)) => match first_save_failure(
                s@, noted(s.row_error(), text_of(writer_error)), ends) {
                Some(failure) => Some(
                    "Failed to save recording data: "@ + failure_message(
                        failure, persisting_failure(s@, ends)),
                ),
                None => match evidence_error {
                    Some(error) => Some(
                        "Failed to save recording data: "@ + evidence_failure(error@),
                    ),
                    None => None,
                },
            },
        },
        match (*old(saver), *final(saver)) {
            (None, after) => after is None,
            (Some(_), None) => false,
            (Some(s), Some(after)) => {
                let rows = noted(s.row_error(), text_of(writer_error));
                &&& after.writer.segments == s.writer.segments
                &&& after.row_error() == rows
                &&& match saving {
                    Saving::TimedOut => after@ == s@,
                    Saving::Ended(ends) => is_save(
                        s@,
                        rows,
                        saved_length(duration_ns, s.writer.segments@),
                        ends,
                        save_outcome(s@, rows, ends),
                        after@,
                    ),
                }
            },
        },
{
    match saver {
        None => SaveEnd::Saved,
        Some(saver) => {
            if let Some(error) = &writer_error {
                saver.writer.report_transcription_error(error.as_str());
            }
            match saving {
                Saving::TimedOut => SaveEnd::TimedOut,
                Saving::Ended(ends) => {
                    let saved = saver.stop_and_save(ends, duration_ns);
                    match save_recording_only(saved, evidence_error) {
                        Ok(_) => SaveEnd::Saved,
                        Err(error) => SaveEnd::Failed(error),
                    }
                },
            }
        },
    }
}

/// Law: a recording is reported as ended exactly when its audio was stopped, it was saved, its end
/// was announced, and its measurement, if there is one, was closed.
pub proof fn stopping_hides_no_failure(
    outcomes: StopOutcomes,
    saver: Option<RecordingSaver>,
    measured: bool,
)
    ensures
        outcomes.report(saver, measured) is None <==> outcomes.capture is Ok
            && outcomes.save_failure(saver) is None && outcomes.announce is Ok && (measured
            ==> outcomes.closing is Ok),
{
}

/// Law: no audio is silently left without text. A recording whose transcription failed or took
/// too long is not reported as ended: the user is told of the failure, and not that it was
/// stopped.
pub proof fn lost_transcription_fails_the_stop(
    outcomes: StopOutcomes,
    saver: Option<RecordingSaver>,
    measured: bool,
)
    requires
        saver is Some,
        outcomes.capture is Ok,
        drain_failure(outcomes.transcription) is Some,
    ensures
        outcomes.report(saver, measured) is Some,
        outcomes.events(saver).len() == 1,
        outcomes.events(saver)[0] is Error,
{
}

/// Law: a transcription that failed or took longer than ten minutes is a failure of the rows; one
/// that finished or never was is none.
pub proof fn unfinished_transcriptions_are_failures(end: Option<TaskEnd>)
    ensures
        drain_failure(end) is Some <==> end matches Some(TaskEnd::Failed(_)) || end matches Some(
            TaskEnd::TimedOut),
        end matches Some(TaskEnd::Failed(error)) ==> drain_failure(end) == Some(error@)
            && drained(end).error == Some(error@),
        drained(end).stage == "queue_drained"@,
        drained(end).error is None <==> end matches Some(TaskEnd::Finished),
        end matches Some(TaskEnd::Finished) ==> drained(end).result == "completed"@,
        noted(None, drain_failure(end)) is Some <==> drain_failure(end) is Some,
{
}

/// Law: what went wrong with the rows before stays what is told of them.
pub proof fn earlier_row_errors_stay(earlier: Seq<char>, failure: Option<Seq<char>>)
    ensures
        noted(Some(earlier), failure) == Some(earlier),
        noted(None, None) is None,
        failure matches Some(error) ==> noted(None, failure) == Some(
            "Transcription failed: "@ + error),
{
}

/// Law: the user is told that a recording ended exactly when it was saved, and that it could not be
/// saved where it was not; where its audio could not be stopped, neither.
pub proof fn the_user_is_told_how_it_ended(
    outcomes: StopOutcomes,
    saver: Option<RecordingSaver>,
    measured: bool,
)
    ensures
        outcomes.capture is Err ==> outcomes.events(saver).len() == 0 && outcomes.report(
            saver, measured) is Some,
        outcomes.capture is Ok ==> outcomes.events(saver).len() == 1,
        outcomes.capture is Ok && outcomes.save_failure(saver) is None ==> outcomes.events(saver)[0]
            == Told::Stopped,
        outcomes.capture is Ok ==> (outcomes.save_failure(saver) matches Some(failure)
            ==> outcomes.events(saver)[0] == Told::Error(failure) && outcomes.report(
            saver, measured) is Some),
        saver is None ==> outcomes.save_failure(saver) is None,
        saver is Some && outcomes.saving is TimedOut ==> outcomes.save_failure(saver) == Some(
            "Timed out while saving recording data"@),
        saver is Some && outcomes.evidence_error is Some ==> outcomes.save_failure(saver) is Some,
{
}

/// Law: a failure to close the evidence of a measurement is told, and never hides another failure.
pub proof fn closing_failures_are_told(
    failure: Option<Seq<char>>,
    announcing: Option<Seq<char>>,
    closing: Option<Seq<char>>,
)
    ensures
        closing_failure(failure, announcing, closing) is None <==> failure is None && announcing
            is None && closing is None,
        closing_failure(failure, announcing, None) == if failure is Some {
            failure
        } else {
            announcing
        },
        failure matches Some(first) ==> (closing_failure(failure, announcing, closing)
            matches Some(text) && text.len() >= first.len() && text.take(first.len() as int)
            == first),
        failure is None && closing is Some ==> (closing_failure(failure, announcing, closing)
            matches Some(text) && text.skip(text.len() - closing->0.len()) == closing->0),
{
    if let Some(first) = failure {
        let text = failure_with_evidence(first, closing);
        assert(text.take(first.len() as int) =~= first);
    } else if let Some(error) = closing {
        let text = "failed to finalize D-11 measurement evidence: "@ + error;
        assert(text.skip(text.len() - error.len()) =~= error);
    }
}

/// The flags once a recording was to be stopped.
pub open spec fn flags_after_stop(flags: RecordingFlags, outcomes: StopOutcomes) -> RecordingFlags {
    if flags.recording {
        RecordingFlags { recording: outcomes.capture is Err, replay_cancelled: true }
    } else {
        flags
    }
}

/// Law: a recording is over once its audio was stopped, however saving it ends; it goes on only
/// where its audio could not be stopped, and stopping none changes nothing.
pub proof fn a_stopped_recording_is_over(flags: RecordingFlags, outcomes: StopOutcomes)
    ensures
        outcomes.capture is Ok ==> !flags_after_stop(flags, outcomes).recording,
        flags.recording && outcomes.capture is Err ==> flags_after_stop(flags, outcomes).recording,
        flags.recording ==> flags_after_stop(flags, outcomes).replay_cancelled,
        !flags.recording ==> flags_after_stop(flags, outcomes) == flags,
{
}

/// Law: what saving left of a recording is all of its rows, with the failure of its transcription
/// on record; where saving took too long, nothing else changed.
pub proof fn rows_survive_the_stop(
    saver: RecordingSaver,
    outcomes: StopOutcomes,
    after: Option<RecordingSaver>,
)
    requires
        saver_after(Some(saver), outcomes, after),
    ensures
        after matches Some(left) && {
            &&& left.writer.segments == saver.writer.segments
            &&& drain_failure(outcomes.transcription) is Some || saver.row_error() is Some
                ==> left.row_error() is Some
            &&& outcomes.saving is TimedOut ==> left@ == saver@
            &&& outcomes.saving is Ended && (left.row_error() is Some || saver@.save_error is Some)
                ==> left@.save_error is Some
        },
{
}

} // verus!
