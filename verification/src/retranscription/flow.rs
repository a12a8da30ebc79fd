//! Transcribing the stored audio of a meeting again, step by step.
//!
//! Nothing of the meeting is replaced before all of its audio is transcribed, so a failure or a
//! cancellation leaves its text as it was.

use vstd::prelude::*;
use vstd::string::*;

use crate::outside::{is_rfc3339, utc_now_rfc3339};
use crate::recording_saver::stop::failure_of;
use crate::retranscription::overlap::{
    alphanumeric, dedupe_leading_overlap, is_deduped, letters, significant,
    the_longest_repetition_is_removed, what_is_left_is_unique,
};
use crate::text;
use crate::transcription::parakeet_provider::{parakeet_accepts, validate_parakeet_language};
use crate::transcription::provider::{
    stated_language, str_view, Failure, TranscriptionError,
};
use crate::transcription::sensevoice_provider::{sensevoice_accepts, validate_sensevoice_language};

verus! {

/// Pauses in speech up to this long do not end a segment.
pub const VAD_REDEMPTION_TIME_MS: u32 = 2_000;

/// Longer segments are split: 25 s.
pub const MAX_SEGMENT_SAMPLES: usize = 400_000;

/// A part after the first begins with this much audio of the one before: 0.8 s.
pub const LEAD_IN_SAMPLES: usize = 12_800;

/// Shorter segments are skipped: 100 ms.
pub const MIN_SEGMENT_SAMPLES: usize = 1_600;

/// The engine that transcribes.
#[derive(Debug, Clone, Copy, PartialEq, Eq, Structural)]
pub enum BatchEngine {
    Whisper,
    Parakeet,
    SenseVoice,
}

/// The engine that a request names; Whisper unless it names another.
pub open spec fn engine_for(provider: Option<Seq<char>>) -> BatchEngine {
    if provider == Some("parakeet"@) {
        BatchEngine::Parakeet
    } else if provider == Some("sensevoice"@) {
        BatchEngine::SenseVoice
    } else {
        BatchEngine::Whisper
    }
}

impl BatchEngine {
    /// The name of the engine.
    pub open spec fn name(self) -> Seq<char> {
        match self {
            BatchEngine::Whisper => "Whisper"@,
            BatchEngine::Parakeet => "Parakeet"@,
            BatchEngine::SenseVoice => "SenseVoice"@,
        }
    }
}

/// The engine that a request names.
pub fn requested_engine(provider: Option<&str>) -> (r: BatchEngine)
    ensures
        r == engine_for(str_view(provider)),
{
    match provider {
        Some(name) => if text::same(name, "parakeet") {
            BatchEngine::Parakeet
        } else if text::same(name, "sensevoice") {
            BatchEngine::SenseVoice
        } else {
            BatchEngine::Whisper
        },
        None => BatchEngine::Whisper,
    }
}

/// Which engine is unloaded after the batch; SenseVoice is shared with live recordings and stays.
pub open spec fn unloads(engine: BatchEngine, recording: bool) -> Option<BatchEngine> {
    if engine == BatchEngine::SenseVoice || recording {
        None
    } else {
        Some(engine)
    }
}

/// Which engine is unloaded after the batch. While a recording runs none is, since it uses the
/// same engines.
pub fn unload_engine_after_batch(engine: BatchEngine, recording: bool) -> (r: Option<BatchEngine>)
    ensures
        r == unloads(engine, recording),
{
    match engine {
        BatchEngine::SenseVoice => None,
        BatchEngine::Whisper | BatchEngine::Parakeet => if recording {
            None
        } else {
            Some(engine)
        },
    }
}

/// An engine takes a language preference.
pub open spec fn engine_accepts(engine: BatchEngine, language: Option<Seq<char>>) -> bool {
    match engine {
        BatchEngine::Whisper => true,
        BatchEngine::Parakeet => parakeet_accepts(language),
        BatchEngine::SenseVoice => sensevoice_accepts(language),
    }
}

/// Checks that an engine takes a language preference.
pub fn validate_language(engine: BatchEngine, language: Option<&str>) -> (r: Result<
    (),
    TranscriptionError,
>)
    ensures
        r is Ok == engine_accepts(engine, str_view(language)),
        r matches Err(error) ==> stated_language(str_view(language)) matches Some(value) && error@
            == Failure::UnsupportedLanguage(value),
{
    match engine {
        BatchEngine::Whisper => Ok(()),
        BatchEngine::Parakeet => validate_parakeet_language(language),
        BatchEngine::SenseVoice => validate_sensevoice_language(language),
    }
}

/// The language that a request states; modes of automatic detection state none.
pub open spec fn normalized_language(language: Option<Seq<char>>) -> Option<Seq<char>> {
    match language {
        Some(value) => if value == ""@ || value == "auto"@ || value == "auto-translate"@ {
            None
        } else {
            Some(value)
        },
        None => None,
    }
}

/// The language that a request states; modes of automatic detection state none.
pub fn normalize_requested_language(language: Option<String>) -> (r: Option<String>)
    ensures
        crate::devices::configuration::text_of(r) == normalized_language(
            crate::devices::configuration::text_of(language)),
{
    match language {
        Some(value) => if text::same(value.as_str(), "") || text::same(value.as_str(), "auto")
            || text::same(value.as_str(), "auto-translate") {
            None
        } else {
            Some(value)
        },
        None => None,
    }
}

/// What becomes of the meeting's terms as a prompt.
pub open spec fn prompt_status(engine: BatchEngine, has_context: bool) -> Seq<char> {
    if !has_context {
        "not_configured"@
    } else if engine == BatchEngine::Whisper {
        "disabled_pending_safety_gate"@
    } else {
        "prompt_not_supported"@
    }
}

/// What becomes of the meeting's terms as a prompt.
pub fn recognition_prompt_status(engine: BatchEngine, has_context: bool) -> (r: &'static str)
    ensures
        r@ == prompt_status(engine, has_context),
{
    if !has_context {
        "not_configured"
    } else {
        match engine {
            BatchEngine::Whisper => "disabled_pending_safety_gate",
            BatchEngine::Parakeet | BatchEngine::SenseVoice => "prompt_not_supported",
        }
    }
}

/// A piece of text and the span of audio it comes from, in nanoseconds.
#[derive(Debug)]
pub struct TimedText {
    pub text: String,
    pub start_ns: u64,
    pub end_ns: u64,
}

/// Why a meeting is not transcribed again.
#[derive(Debug, Clone, Copy, PartialEq, Eq, Structural)]
pub enum RunFailure {
    Cancelled,
    NoSpeech,
}

impl RunFailure {
    /// The text that describes the failure.
    pub open spec fn text(self) -> Seq<char> {
        match self {
            RunFailure::Cancelled => "Retranscription cancelled"@,
            RunFailure::NoSpeech => "No speech detected in audio file"@,
        }
    }

    pub fn message(&self) -> (r: &'static str)
        ensures
            r@ == self.text(),
    {
        match *self {
            RunFailure::Cancelled => "Retranscription cancelled",
            RunFailure::NoSpeech => "No speech detected in audio file",
        }
    }
}

/// How far the transcription of a meeting is, as the user is told.
#[derive(Debug)]
pub struct RetranscriptionProgress {
    pub meeting_id: String,
    pub stage: String,
    pub progress_percentage: u32,
    pub message: String,
}

/// A step of the transcription that the user is told of.
#[derive(Debug, Clone, Copy, PartialEq, Eq, Structural)]
pub enum ProgressNote {
    Decoding,
    Converting,
    DetectingSpeech,
    LoadingEngine,
    Saving,
    Complete,
}

impl ProgressNote {
    /// The stage, the percentage and the message.
    pub open spec fn content(self) -> (Seq<char>, u32, Seq<char>) {
        match self {
            ProgressNote::Decoding => ("decoding"@, 5, "Decoding audio file..."@),
            ProgressNote::Converting => ("decoding"@, 15, "Converting audio format..."@),
            ProgressNote::DetectingSpeech => ("vad"@, 20, "Detecting speech segments..."@),
            ProgressNote::LoadingEngine =>
                ("transcribing"@, 25, "Loading transcription engine..."@),
            ProgressNote::Saving => ("saving"@, 80, "Saving transcripts..."@),
            ProgressNote::Complete => ("complete"@, 100, "Retranscription complete"@),
        }
    }

    /// The report for a meeting.
    pub fn report(&self, meeting_id: &str) -> (r: RetranscriptionProgress)
        ensures
            r.meeting_id@ == meeting_id@,
            (r.stage@, r.progress_percentage, r.message@) == self.content(),
    {
        let (stage, progress_percentage, message): (&'static str, u32, &'static str) = match *self {
            ProgressNote::Decoding => ("decoding", 5, "Decoding audio file..."),
            ProgressNote::Converting => ("decoding", 15, "Converting audio format..."),
            ProgressNote::DetectingSpeech => ("vad", 20, "Detecting speech segments..."),
            ProgressNote::LoadingEngine => ("transcribing", 25, "Loading transcription engine..."),
            ProgressNote::Saving => ("saving", 80, "Saving transcripts..."),
            ProgressNote::Complete => ("complete", 100, "Retranscription complete"),
        };
        RetranscriptionProgress {
            meeting_id: meeting_id.to_owned(),
            stage: stage.to_owned(),
            progress_percentage,
            message: message.to_owned(),
        }
    }
}

/// The report while speech is detected: five percent of the whole.
pub fn vad_progress(meeting_id: &str, vad_percentage: u32, segments_found: usize) -> (r:
    RetranscriptionProgress)
    requires
        vad_percentage <= 100,
    ensures
        r.meeting_id@ == meeting_id@,
        r.stage@ == "vad"@,
        r.progress_percentage == 20 + vad_percentage / 20,
        r.message@ == "Detecting speech segments... "@ + text::decimal_digits(
            vad_percentage as nat) + "% ("@ + text::decimal_digits(segments_found as nat)
            + " found)"@,
{
    let mut message = text::joined(
        "Detecting speech segments... ", text::decimal(vad_percentage as u64).as_str());
    message.append("% (");
    message.append(text::decimal(segments_found as u64).as_str());
    message.append(" found)");
    RetranscriptionProgress {
        meeting_id: meeting_id.to_owned(),
        stage: "vad".to_owned(),
        progress_percentage: 20 + vad_percentage / 20,
        message,
    }
}

/// Where the transcription of a meeting stands.
#[derive(Debug, Clone, Copy, PartialEq, Eq, Structural)]
pub enum RunPhase {
    Decoding,
    Converting,
    DetectingSpeech,
    LoadingEngine,
    /// The segment at this position is next.
    Transcribing(usize),
    /// The texts that are to be replaced are put aside.
    BackingUp,
    Saving,
    Done,
    /// It was given up.
    Stopped,
}

/// What is to be done next.
#[derive(Debug, Clone, Copy, PartialEq, Eq, Structural)]
pub enum RunAction {
    Decode,
    Convert,
    DetectSpeech,
    LoadEngine,
    Transcribe(usize),
    /// The present texts of the meeting are put aside.
    BackUp,
    /// The texts replace those of the meeting.
    Save,
    Finish,
    Stop(RunFailure),
}

/// The transcription of a meeting.
pub struct RetranscriptionRun {
    pub engine: BatchEngine,
    pub phase: RunPhase,
    pub segment_count: usize,
    pub texts: Vec<TimedText>,
}

/// A step of the transcription: what the user is told, and what is to be done.
#[derive(Debug, Clone, Copy, PartialEq, Eq, Structural)]
pub struct RunStep {
    pub note: Option<ProgressNote>,
    pub action: RunAction,
}

impl RetranscriptionRun {
    /// The step to a phase, unless the user cancelled. The user is told of the phase either way.
    pub open spec fn step_to(
        note: ProgressNote,
        phase: RunPhase,
        action: RunAction,
        cancelled: bool,
    ) -> (RunPhase, RunStep) {
        if cancelled {
            (
                RunPhase::Stopped,
                RunStep { note: Some(note), action: RunAction::Stop(RunFailure::Cancelled) },
            )
        } else {
            (phase, RunStep { note: Some(note), action })
        }
    }

    /// The step to a segment, or to putting the old texts aside once all were transcribed.
    pub open spec fn next_segment(index: int, count: int, cancelled: bool) -> (RunPhase, RunStep) {
        if cancelled {
            (
                RunPhase::Stopped,
                RunStep { note: None, action: RunAction::Stop(RunFailure::Cancelled) },
            )
        } else if index < count {
            (
                RunPhase::Transcribing(index as usize),
                RunStep { note: None, action: RunAction::Transcribe(index as usize) },
            )
        } else {
            (
                RunPhase::BackingUp,
                RunStep { note: Some(ProgressNote::Saving), action: RunAction::BackUp },
            )
        }
    }

    fn go(
        &mut self,
        note: ProgressNote,
        phase: RunPhase,
        action: RunAction,
        cancelled: bool,
    ) -> (r: RunStep)
        ensures
            (final(self).phase, r) == RetranscriptionRun::step_to(note, phase, action, cancelled),
            final(self).texts == old(self).texts,
            final(self).segment_count == old(self).segment_count,
            final(self).engine == old(self).engine,
    {
        if cancelled {
            self.phase = RunPhase::Stopped;
            RunStep { note: Some(note), action: RunAction::Stop(RunFailure::Cancelled) }
        } else {
            self.phase = phase;
            RunStep { note: Some(note), action }
        }
    }

    fn go_to_segment(&mut self, index: usize, cancelled: bool) -> (r: RunStep)
        ensures
            (final(self).phase, r) == RetranscriptionRun::next_segment(
                index as int, old(self).segment_count as int, cancelled),
            final(self).texts == old(self).texts,
            final(self).segment_count == old(self).segment_count,
            final(self).engine == old(self).engine,
    {
        if cancelled {
            self.phase = RunPhase::Stopped;
            RunStep { note: None, action: RunAction::Stop(RunFailure::Cancelled) }
        } else if index < self.segment_count {
            self.phase = RunPhase::Transcribing(index);
            RunStep { note: None, action: RunAction::Transcribe(index) }
        } else {
            self.phase = RunPhase::BackingUp;
            RunStep { note: Some(ProgressNote::Saving), action: RunAction::BackUp }
        }
    }

    /// Something that was to be done failed: the run is given up.
    fn give_up(&mut self, error: String) -> (r: Result<RunStep, String>)
        ensures
            r == Err::<RunStep, String>(error),
            *final(self) == (RetranscriptionRun { phase: RunPhase::Stopped, ..*old(self) }),
    {
        self.phase = RunPhase::Stopped;
        Err(error)
    }

    /// `r` is the next step, and `after` the run then; or the run is given up with `failure`.
    pub open spec fn advances(
        before: RetranscriptionRun,
        failure: Option<Seq<char>>,
        next: (RunPhase, RunStep),
        r: Result<RunStep, String>,
        after: RetranscriptionRun,
    ) -> bool {
        match failure {
            Some(failure) => {
                &&& (r matches Err(error) && error@ == failure)
                &&& after == (RetranscriptionRun { phase: RunPhase::Stopped, ..before })
            },
            None => {
                &&& r == Ok::<RunStep, String>(next.1)
                &&& after == (RetranscriptionRun { phase: next.0, ..before })
            },
        }
    }

    /// Begins with the file to decode.
    pub fn start(engine: BatchEngine, cancelled: bool) -> (r: (RetranscriptionRun, RunStep))
        ensures
            (r.0.phase, r.1) == RetranscriptionRun::step_to(
                ProgressNote::Decoding, RunPhase::Decoding, RunAction::Decode, cancelled),
            r.0.engine == engine,
            r.0.texts@.len() == 0,
            r.0.segment_count == 0,
    {
        let mut run = RetranscriptionRun {
            engine,
            phase: RunPhase::Decoding,
            segment_count: 0,
            texts: Vec::new(),
        };
        let step = run.go(
            ProgressNote::Decoding, RunPhase::Decoding, RunAction::Decode, cancelled);
        (run, step)
    }

    /// The file was decoded, or not.
    pub fn decoded(&mut self, outcome: Result<(), String>, cancelled: bool) -> (r: Result<
        RunStep,
        String,
    >)
        requires
            old(self).phase == RunPhase::Decoding,
        ensures
            RetranscriptionRun::advances(
                *old(self),
                failure_of(outcome),
                RetranscriptionRun::step_to(
                    ProgressNote::Converting, RunPhase::Converting, RunAction::Convert, cancelled),
                r,
                *final(self),
            ),
    {
        match outcome {
            Err(error) => self.give_up(error),
            Ok(_) => Ok(
                self.go(
                    ProgressNote::Converting, RunPhase::Converting, RunAction::Convert, cancelled),
            ),
        }
    }

    /// The audio was converted for the engines, or not.
    pub fn converted(&mut self, outcome: Result<(), String>, cancelled: bool) -> (r: Result<
        RunStep,
        String,
    >)
        requires
            old(self).phase == RunPhase::Converting,
        ensures
            RetranscriptionRun::advances(
                *old(self),
                failure_of(outcome),
                RetranscriptionRun::step_to(
                    ProgressNote::DetectingSpeech,
                    RunPhase::DetectingSpeech,
                    RunAction::DetectSpeech,
                    cancelled,
                ),
                r,
                *final(self),
            ),
    {
        match outcome {
            Err(error) => self.give_up(error),
            Ok(_) => Ok(
                self.go(
                    ProgressNote::DetectingSpeech,
                    RunPhase::DetectingSpeech,
                    RunAction::DetectSpeech,
                    cancelled,
                ),
            ),
        }
    }

    /// Speech was looked for. Without any there is nothing to transcribe.
    pub fn speech_detected(&mut self, segments: Result<usize, String>) -> (r: Result<
        RunStep,
        String,
    >)
        requires
            old(self).phase == RunPhase::DetectingSpeech,
        ensures
            RetranscriptionRun::advances(
                *old(self),
                match segments {
                    Err(error) => Some("VAD processing failed: "@ + error@),
                    Ok(_) => None,
                },
                if segments == Ok::<usize, String>(0) {
                    (
                        RunPhase::Stopped,
                        RunStep { note: None, action: RunAction::Stop(RunFailure::NoSpeech) },
                    )
                } else {
                    (
                        RunPhase::LoadingEngine,
                        RunStep {
                            note: Some(ProgressNote::LoadingEngine),
                            action: RunAction::LoadEngine,
                        },
                    )
                },
                r,
                *final(self),
            ),
    {
        match segments {
            Err(error) => self.give_up(text::joined("VAD processing failed: ", error.as_str())),
            Ok(segments) => if segments == 0 {
                self.phase = RunPhase::Stopped;
                Ok(RunStep { note: None, action: RunAction::Stop(RunFailure::NoSpeech) })
            } else {
                self.phase = RunPhase::LoadingEngine;
                Ok(
                    RunStep {
                        note: Some(ProgressNote::LoadingEngine),
                        action: RunAction::LoadEngine,
                    },
                )
            },
        }
    }

    /// The engine is ready, or not, and the segments are split into this many.
    pub fn engine_loaded(
        &mut self,
        outcome: Result<(), String>,
        segment_count: usize,
        cancelled: bool,
    ) -> (r: Result<RunStep, String>)
        requires
            old(self).phase == RunPhase::LoadingEngine,
        ensures
            RetranscriptionRun::advances(
                RetranscriptionRun { segment_count, ..*old(self) },
                failure_of(outcome),
                RetranscriptionRun::next_segment(0, segment_count as int, cancelled),
                r,
                *final(self),
            ),
    {
        self.segment_count = segment_count;
        match outcome {
            Err(error) => self.give_up(error),
            Ok(_) => Ok(self.go_to_segment(0, cancelled)),
        }
    }

    /// The segment that is next was skipped, because it is too short.
    pub fn segment_skipped(&mut self, cancelled: bool) -> (r: RunStep)
        requires
            old(self).phase matches RunPhase::Transcribing(i) && i < old(self).segment_count,
        ensures
            old(self).phase matches RunPhase::Transcribing(i) && (final(self).phase, r)
                == RetranscriptionRun::next_segment(
                i + 1, old(self).segment_count as int, cancelled),
            *final(self) == (RetranscriptionRun { phase: final(self).phase, ..*old(self) }),
    {
        let index: usize = match self.phase {
            RunPhase::Transcribing(i) => i,
            _ => 0,
        };
        self.go_to_segment(index + 1, cancelled)
    }

    /// The segment that is next was transcribed, with the terms of the meeting put right, or not.
    /// What it repeats of the text before is removed, and a text that says nothing is dropped.
    pub fn segment_transcribed(
        &mut self,
        said: Result<String, String>,
        start_ns: u64,
        end_ns: u64,
        cancelled: bool,
    ) -> (r: Result<RunStep, String>)
        requires
            old(self).phase matches RunPhase::Transcribing(i) && i < old(self).segment_count,
        ensures
            final(self).segment_count == old(self).segment_count,
            final(self).engine == old(self).engine,
            old(self).phase matches RunPhase::Transcribing(i) && match said {
                Err(error) => {
                    &&& (r matches Err(message) && message@ == segment_failure(
                        old(self).engine, i as nat, error@))
                    &&& final(self).phase == RunPhase::Stopped
                    &&& final(self).texts == old(self).texts
                },
                Ok(text) => {
                    &&& r == Ok::<RunStep, String>(
                        RetranscriptionRun::next_segment(
                            i + 1, old(self).segment_count as int, cancelled).1)
                    &&& final(self).phase == RetranscriptionRun::next_segment(
                        i + 1, old(self).segment_count as int, cancelled).0
                    &&& texts_after(old(self).texts@, text@, start_ns, end_ns, final(self).texts@)
                },
            },
    {
        let index: usize = match self.phase {
            RunPhase::Transcribing(i) => i,
            _ => 0,
        };
        let text = match said {
            Ok(text) => text,
            Err(error) => {
                return self.give_up(describe_segment_failure(self.engine, index, error.as_str()));
            },
        };
        let n: usize = self.texts.len();
        let ghost said_view = text@;
        let kept = if n > 0 && !text::is_blank(text.as_str()) {
            dedupe_leading_overlap(self.texts[n - 1].text.as_str(), text.as_str())
        } else {
            text
        };
        let ghost kept_view = kept@;
        assert(is_kept(old(self).texts@, said_view, kept_view));
        if !text::is_blank(kept.as_str()) {
            self.texts.push(TimedText { text: kept, start_ns, end_ns });
            assert(self.texts@.drop_last() =~= old(self).texts@);
        }
        assert(texts_after(old(self).texts@, said_view, start_ns, end_ns, self.texts@));
        Ok(self.go_to_segment(index + 1, cancelled))
    }

    /// The present texts of the meeting were put aside, or not; then they are not replaced.
    pub fn backed_up(&mut self, outcome: Result<(), String>) -> (r: Result<RunStep, String>)
        requires
            old(self).phase == RunPhase::BackingUp,
        ensures
            RetranscriptionRun::advances(
                *old(self),
                failure_of(outcome),
                (RunPhase::Saving, RunStep { note: None, action: RunAction::Save }),
                r,
                *final(self),
            ),
    {
        match outcome {
            Err(error) => self.give_up(error),
            Ok(_) => {
                self.phase = RunPhase::Saving;
                Ok(RunStep { note: None, action: RunAction::Save })
            },
        }
    }

    /// The texts replaced those of the meeting, or not.
    pub fn saved(&mut self, outcome: Result<(), String>) -> (r: Result<RunStep, String>)
        requires
            old(self).phase == RunPhase::Saving,
        ensures
            RetranscriptionRun::advances(
                *old(self),
                failure_of(outcome),
                (
                    RunPhase::Done,
                    RunStep { note: Some(ProgressNote::Complete), action: RunAction::Finish },
                ),
                r,
                *final(self),
            ),
    {
        match outcome {
            Err(error) => self.give_up(error),
            Ok(_) => {
                self.phase = RunPhase::Done;
                Ok(RunStep { note: Some(ProgressNote::Complete), action: RunAction::Finish })
            },
        }
    }
}

/// `kept` is what a segment's text says beyond the text before it.
pub open spec fn is_kept(texts: Seq<TimedText>, said: Seq<char>, kept: Seq<char>) -> bool {
    if texts.len() > 0 && !text::blank(said) {
        is_deduped(
            texts.last().text@,
            significant(texts.last().text@),
            said,
            significant(said),
            kept,
        )
    } else {
        kept == said
    }
}

/// The texts after a segment said something.
pub open spec fn texts_after(
    before: Seq<TimedText>,
    said: Seq<char>,
    start_ns: u64,
    end_ns: u64,
    after: Seq<TimedText>,
) -> bool {
    exists|kept: Seq<char>| #[trigger]
        is_kept(before, said, kept) && if text::blank(kept) {
            after == before
        } else {
            after.len() == before.len() + 1 && after.drop_last() == before && after.last().text@
                == kept && after.last().start_ns == start_ns && after.last().end_ns == end_ns
        }
}

/// What is reported of a segment that an engine could not transcribe.
pub open spec fn segment_failure(engine: BatchEngine, index: nat, error: Seq<char>) -> Seq<char> {
    engine.name() + " transcription failed on segment "@ + text::decimal_digits(index) + ": "@
        + error
}

/// What is reported of a segment that an engine could not transcribe.
pub fn describe_segment_failure(engine: BatchEngine, index: usize, error: &str) -> (r: String)
    ensures
        r@ == segment_failure(engine, index as nat, error@),
{
    let name = match engine {
        BatchEngine::Whisper => "Whisper",
        BatchEngine::Parakeet => "Parakeet",
        BatchEngine::SenseVoice => "SenseVoice",
    };
    let mut r = text::joined(name, " transcription failed on segment ");
    r.append(text::decimal(index as u64).as_str());
    r.append(": ");
    r.append(error);
    r
}

/// Whether a segment is long enough to be transcribed.
pub fn worth_transcribing(samples: usize) -> (r: bool)
    ensures
        r == (samples >= MIN_SEGMENT_SAMPLES),
{
    samples >= MIN_SEGMENT_SAMPLES
}

/// Law: a cancelled transcription is given up at its next step: nothing is decoded, detected,
/// transcribed or saved any more.
pub proof fn cancellation_stops_every_step(
    note: ProgressNote,
    phase: RunPhase,
    action: RunAction,
    index: int,
    count: int,
)
    ensures
        RetranscriptionRun::step_to(note, phase, action, true).0 == RunPhase::Stopped,
        RetranscriptionRun::step_to(note, phase, action, true).1.action == RunAction::Stop(
            RunFailure::Cancelled),
        RetranscriptionRun::next_segment(index, count, true).0 == RunPhase::Stopped,
        RetranscriptionRun::next_segment(index, count, true).1.action == RunAction::Stop(
            RunFailure::Cancelled),
{
}

/// Law: a segment never leads to the texts of a meeting being replaced at once: after the last
/// one, and only then, the old texts are put aside first.
pub proof fn old_texts_are_put_aside(index: int, count: int, cancelled: bool)
    requires
        0 <= index,
        0 <= count <= usize::MAX,
    ensures
        RetranscriptionRun::next_segment(index, count, cancelled).1.action != RunAction::Save,
        RetranscriptionRun::next_segment(index, count, cancelled).1.action == RunAction::BackUp
            <==> index >= count && !cancelled,
        !cancelled && index < count ==> RetranscriptionRun::next_segment(
            index, count, cancelled).1.action == RunAction::Transcribe(index as usize),
{
}

/// Law: texts are only added, in the order of the segments.
pub proof fn texts_are_only_added(
    before: Seq<TimedText>,
    said: Seq<char>,
    start_ns: u64,
    end_ns: u64,
    after: Seq<TimedText>,
)
    requires
        texts_after(before, said, start_ns, end_ns, after),
    ensures
        after.len() == before.len() || after.len() == before.len() + 1,
        after.take(before.len() as int) == before,
{
    assert(after.take(before.len() as int) =~= before) by {
        if after.len() == before.len() + 1 {
            assert(after.drop_last() =~= after.take(before.len() as int));
        }
    }
}

/// Law: what a segment adds depends on the texts before it only through the last of them, however
/// many there are.
pub proof fn only_the_last_text_counts(
    earlier: Seq<TimedText>,
    last: TimedText,
    said: Seq<char>,
    start_ns: u64,
    end_ns: u64,
    after: Seq<TimedText>,
    alone: Seq<TimedText>,
)
    requires
        texts_after(earlier.push(last), said, start_ns, end_ns, after),
        texts_after(seq![last], said, start_ns, end_ns, alone),
    ensures
        after.len() - (earlier.len() + 1) == alone.len() - 1,
        alone.len() > 1 ==> after.last().text@ == alone.last().text@,
{
    let texts = earlier.push(last);
    let a = choose|kept: Seq<char>| #[trigger]
        is_kept(texts, said, kept) && if text::blank(kept) {
            after == texts
        } else {
            after.len() == texts.len() + 1 && after.drop_last() == texts && after.last().text@
                == kept && after.last().start_ns == start_ns && after.last().end_ns == end_ns
        };
    let b = choose|kept: Seq<char>| #[trigger]
        is_kept(seq![last], said, kept) && if text::blank(kept) {
            alone == seq![last]
        } else {
            alone.len() == 2 && alone.drop_last() == seq![last] && alone.last().text@ == kept
                && alone.last().start_ns == start_ns && alone.last().end_ns == end_ns
        };
    if !text::blank(said) {
        what_is_left_is_unique(last.text@, said, a, b);
    }
}

/// Law: a text that repeats the end of the text just before it is kept without the longest such
/// repetition of four to sixteen letters and digits; what stands before the end of that goes too,
/// and all that follows it stays. A text of which nothing is left is not kept.
pub proof fn the_last_text_is_not_repeated(
    earlier: Seq<TimedText>,
    last: TimedText,
    said: Seq<char>,
    start_ns: u64,
    end_ns: u64,
    after: Seq<TimedText>,
) -> (kept: Seq<char>)
    requires
        texts_after(earlier.push(last), said, start_ns, end_ns, after),
        !text::blank(said),
    ensures
        ({
            let removed = said.take(said.len() - kept.len());
            let before = letters(last.text@);
            let repeated = letters(removed);
            &&& kept.len() <= said.len()
            &&& said == removed + kept
            &&& removed.len() > 0 ==> {
                &&& 4 <= repeated.len() <= 16
                &&& repeated.len() <= before.len()
                &&& repeated == before.skip(before.len() - repeated.len())
                &&& alphanumeric(removed.last())
            }
            &&& forall|k: int|
                4 <= k <= 16 && repeated.len() < k <= before.len() && k <= letters(said).len()
                    ==> before.skip(before.len() - k) != #[trigger] letters(said).take(k)
        }),
        text::blank(kept) ==> after == earlier.push(last),
        !text::blank(kept) ==> {
            &&& after.len() == earlier.len() + 2
            &&& after.drop_last() == earlier.push(last)
            &&& after.last().text@ == kept
            &&& after.last().start_ns == start_ns
            &&& after.last().end_ns == end_ns
        },
{
    let texts = earlier.push(last);
    let kept = choose|kept: Seq<char>| #[trigger]
        is_kept(texts, said, kept) && if text::blank(kept) {
            after == texts
        } else {
            after.len() == texts.len() + 1 && after.drop_last() == texts && after.last().text@
                == kept && after.last().start_ns == start_ns && after.last().end_ns == end_ns
        };
    assert(texts.last() == last);
    the_longest_repetition_is_removed(last.text@, said, kept);
    kept
}

/// Law: the first text of a meeting is kept as it was said, in its time, unless it is blank.
pub proof fn the_first_text_is_kept_whole(
    said: Seq<char>,
    start_ns: u64,
    end_ns: u64,
    after: Seq<TimedText>,
)
    requires
        texts_after(Seq::empty(), said, start_ns, end_ns, after),
    ensures
        text::blank(said) ==> after.len() == 0,
        !text::blank(said) ==> after.len() == 1 && after[0].text@ == said && after[0].start_ns
            == start_ns && after[0].end_ns == end_ns,
{
}

/// Law: blank text is never kept.
pub proof fn blank_text_is_dropped(
    before: Seq<TimedText>,
    said: Seq<char>,
    start_ns: u64,
    end_ns: u64,
    after: Seq<TimedText>,
)
    requires
        texts_after(before, said, start_ns, end_ns, after),
        text::blank(said),
    ensures
        after == before,
{
}

/// Law: a request that names no engine, or one that is not known, goes to Whisper. Whisper takes
/// every language; the engine is unloaded after the work unless it is shared with recordings or
/// one runs.
pub proof fn whisper_serves_every_request(
    provider: Option<Seq<char>>,
    language: Option<Seq<char>>,
    engine: BatchEngine,
    recording: bool,
)
    ensures
        engine_for(None) == BatchEngine::Whisper,
        engine_for(Some("parakeet"@)) == BatchEngine::Parakeet,
        engine_for(Some("sensevoice"@)) == BatchEngine::SenseVoice,
        engine_for(provider) != BatchEngine::Whisper ==> provider == Some("parakeet"@) || provider
            == Some("sensevoice"@),
        engine_accepts(BatchEngine::Whisper, language),
        engine_accepts(BatchEngine::Parakeet, language) ==> engine_accepts(
            BatchEngine::SenseVoice, language),
        engine_accepts(engine, None),
        unloads(engine, true) is None,
        unloads(BatchEngine::SenseVoice, recording) is None,
        unloads(BatchEngine::Whisper, false) == Some(BatchEngine::Whisper),
        unloads(BatchEngine::Parakeet, false) == Some(BatchEngine::Parakeet),
{
    reveal_strlit("parakeet");
    reveal_strlit("sensevoice");
    assert("parakeet"@[0] != "sensevoice"@[0]);
    if let Some(value) = language {
        crate::transcription::sensevoice_provider::engines_take_the_languages_they_know(value);
    }
}

/// Law: the words for automatic detection state no language, every other word states itself, and
/// what is stated once is stated the same way again.
pub proof fn automatic_detection_states_no_language(language: Seq<char>)
    ensures
        normalized_language(None) is None,
        normalized_language(Some(""@)) is None,
        normalized_language(Some("auto"@)) is None,
        normalized_language(Some("auto-translate"@)) is None,
        language != ""@ && language != "auto"@ && language != "auto-translate"@
            ==> normalized_language(Some(language)) == Some(language),
        normalized_language(normalized_language(Some(language))) == normalized_language(
            Some(language)),
{
}

/// Law: the progress that is shown never goes back from one step to the next, and ends at all.
pub proof fn progress_only_grows()
    ensures
        ProgressNote::Decoding.content().1 < ProgressNote::Converting.content().1,
        ProgressNote::Converting.content().1 < ProgressNote::DetectingSpeech.content().1,
        ProgressNote::DetectingSpeech.content().1 < ProgressNote::LoadingEngine.content().1,
        ProgressNote::LoadingEngine.content().1 < ProgressNote::Saving.content().1,
        ProgressNote::Saving.content().1 < ProgressNote::Complete.content().1,
        ProgressNote::Complete.content().1 == 100,
        ProgressNote::DetectingSpeech.content().1 + 5
            == ProgressNote::LoadingEngine.content().1,
{
}

/// Law: the terms of a meeting are a prompt for no engine: where there are none they are not set
/// up, Whisper waits for a check, and the others cannot take any.
pub proof fn no_engine_gets_a_prompt(engine: BatchEngine)
    ensures
        prompt_status(engine, false) == "not_configured"@,
        prompt_status(BatchEngine::Whisper, true) == "disabled_pending_safety_gate"@,
        prompt_status(BatchEngine::Parakeet, true) == "prompt_not_supported"@,
        prompt_status(BatchEngine::SenseVoice, true) == "prompt_not_supported"@,
{
}

/// A change to the metadata of a meeting.
#[derive(Debug)]
pub enum MetadataEdit {
    Text { key: &'static str, value: String },
    /// The length of the audio.
    Duration { key: &'static str, duration_ns: u64 },
    Remove { key: &'static str },
}

/// What a `MetadataEdit` stands for.
#[verifier::ext_equal]
pub enum Edit {
    Text { key: Seq<char>, value: Seq<char> },
    Duration { key: Seq<char>, duration_ns: u64 },
    Remove { key: Seq<char> },
}

impl View for MetadataEdit {
    type V = Edit;

    open spec fn view(&self) -> Edit {
        match *self {
            MetadataEdit::Text { key, value } => Edit::Text { key: key@, value: value@ },
            MetadataEdit::Duration { key, duration_ns } => Edit::Duration { key: key@, duration_ns },
            MetadataEdit::Remove { key } => Edit::Remove { key: key@ },
        }
    }
}

/// What a list of changes stands for.
pub open spec fn edit_views(edits: Seq<MetadataEdit>) -> Seq<Edit> {
    Seq::new(edits.len(), |i: int| edits[i]@)
}

/// The changes to metadata that exists: what it says of the transcription is replaced.
pub open spec fn update_edits(
    duration_ns: u64,
    audio_file: Seq<char>,
    provider: Option<Seq<char>>,
    model: Option<Seq<char>>,
    now: Seq<char>,
) -> Seq<Edit> {
    seq![
        Edit::Text { key: "retranscribed_at"@, value: now },
        Edit::Text { key: "status"@, value: "completed"@ },
        Edit::Duration { key: "duration_seconds"@, duration_ns },
        Edit::Text { key: "audio_file"@, value: audio_file },
        Edit::Text { key: "transcript_file"@, value: "transcripts.json"@ },
    ] + match provider {
        Some(provider) => seq![
            Edit::Text { key: "transcription_provider"@, value: provider },
        ],
        None => Seq::empty(),
    } + match model {
        Some(model) => seq![Edit::Text { key: "transcription_model"@, value: model }],
        None => Seq::empty(),
    } + seq![Edit::Remove { key: "detected_summary_language"@ }]
}

/// The entries of metadata that does not exist yet.
pub open spec fn creation_edits(
    meeting_id: Seq<char>,
    duration_ns: u64,
    audio_file: Seq<char>,
    now: Seq<char>,
) -> Seq<Edit> {
    seq![
        Edit::Text { key: "version"@, value: "1.0"@ },
        Edit::Text { key: "meeting_id"@, value: meeting_id },
        Edit::Text { key: "created_at"@, value: now },
        Edit::Text { key: "completed_at"@, value: now },
        Edit::Text { key: "retranscribed_at"@, value: now },
        Edit::Duration { key: "duration_seconds"@, duration_ns },
        Edit::Text { key: "audio_file"@, value: audio_file },
        Edit::Text { key: "transcript_file"@, value: "transcripts.json"@ },
        Edit::Text { key: "status"@, value: "completed"@ },
        Edit::Text { key: "source"@, value: "retranscription"@ },
    ]
}

/// The changes to the metadata of a meeting that was transcribed again.
pub open spec fn metadata_edits(
    present: bool,
    meeting_id: Seq<char>,
    duration_ns: u64,
    audio_file: Seq<char>,
    provider: Option<Seq<char>>,
    model: Option<Seq<char>>,
    now: Seq<char>,
) -> Seq<Edit> {
    if present {
        update_edits(duration_ns, audio_file, provider, model, now)
    } else {
        creation_edits(meeting_id, duration_ns, audio_file, now)
    }
}

fn text_edit(key: &'static str, value: &str) -> (r: MetadataEdit)
    ensures
        r@ == (Edit::Text { key: key@, value: value@ }),
{
    MetadataEdit::Text { key, value: value.to_owned() }
}

/// The changes to the metadata of a meeting that was transcribed again at a given time.
pub fn retranscription_edits(
    present: bool,
    meeting_id: &str,
    duration_ns: u64,
    audio_file: &str,
    provider: Option<&str>,
    model: Option<&str>,
    now: &str,
) -> (r: Vec<MetadataEdit>)
    ensures
        edit_views(r@) == metadata_edits(
            present,
            meeting_id@,
            duration_ns,
            audio_file@,
            str_view(provider),
            str_view(model),
            now@,
        ),
{
    let mut r: Vec<MetadataEdit> = Vec::new();
    if present {
        r.push(text_edit("retranscribed_at", now));
        r.push(text_edit("status", "completed"));
        r.push(MetadataEdit::Duration { key: "duration_seconds", duration_ns });
        r.push(text_edit("audio_file", audio_file));
        r.push(text_edit("transcript_file", "transcripts.json"));
        if let Some(provider) = provider {
            r.push(text_edit("transcription_provider", provider));
        }
        if let Some(model) = model {
            r.push(text_edit("transcription_model", model));
        }
        r.push(MetadataEdit::Remove { key: "detected_summary_language" });
        assert(edit_views(r@) =~= update_edits(
            duration_ns, audio_file@, str_view(provider), str_view(model), now@));
    } else {
        r.push(text_edit("version", "1.0"));
        r.push(text_edit("meeting_id", meeting_id));
        r.push(text_edit("created_at", now));
        r.push(text_edit("completed_at", now));
        r.push(text_edit("retranscribed_at", now));
        r.push(MetadataEdit::Duration { key: "duration_seconds", duration_ns });
        r.push(text_edit("audio_file", audio_file));
        r.push(text_edit("transcript_file", "transcripts.json"));
        r.push(text_edit("status", "completed"));
        r.push(text_edit("source", "retranscription"));
        assert(edit_views(r@) =~= creation_edits(meeting_id@, duration_ns, audio_file@, now@));
    }
    r
}

/// The changes to the metadata of a meeting that was transcribed again just now.
pub fn write_retranscription_metadata(
    present: bool,
    meeting_id: &str,
    duration_ns: u64,
    audio_file: &str,
    provider: Option<&str>,
    model: Option<&str>,
) -> (r: Vec<MetadataEdit>)
    ensures
        exists|now: Seq<char>|
            is_rfc3339(now) && edit_views(r@) == #[trigger] metadata_edits(
                present,
                meeting_id@,
                duration_ns,
                audio_file@,
                str_view(provider),
                str_view(model),
                now,
            ),
{
    let now = utc_now_rfc3339();
    retranscription_edits(
        present, meeting_id, duration_ns, audio_file, provider, model, now.as_str())
}

/// Law: the metadata of a meeting that was transcribed again says so: that it is complete, when it
/// was transcribed, how long it is and which files hold it, whether there was metadata before or
/// not; and by which engine, where that is known.
pub proof fn metadata_tells_of_the_transcription(
    present: bool,
    meeting_id: Seq<char>,
    duration_ns: u64,
    audio_file: Seq<char>,
    provider: Seq<char>,
    model: Seq<char>,
    now: Seq<char>,
)
    ensures
        ({
            let edits = metadata_edits(
                present, meeting_id, duration_ns, audio_file, Some(provider), Some(model), now);
            &&& edits.contains(Edit::Text { key: "status"@, value: "completed"@ })
            &&& edits.contains(Edit::Text { key: "retranscribed_at"@, value: now })
            &&& edits.contains(Edit::Duration { key: "duration_seconds"@, duration_ns })
            &&& edits.contains(Edit::Text { key: "audio_file"@, value: audio_file })
            &&& edits.contains(
                Edit::Text { key: "transcript_file"@, value: "transcripts.json"@ })
            &&& present ==> edits.contains(
                Edit::Text { key: "transcription_provider"@, value: provider })
                && edits.contains(Edit::Text { key: "transcription_model"@, value: model })
                && edits.contains(Edit::Remove { key: "detected_summary_language"@ })
            &&& !present ==> edits.contains(Edit::Text { key: "meeting_id"@, value: meeting_id })
                && edits.contains(Edit::Text { key: "created_at"@, value: now })
                && edits.contains(Edit::Text { key: "source"@, value: "retranscription"@ })
        }),
{
    let edits = metadata_edits(
        present, meeting_id, duration_ns, audio_file, Some(provider), Some(model), now);
    if present {
        assert(edits[0] == (Edit::Text { key: "retranscribed_at"@, value: now }));
        assert(edits[1] == (Edit::Text { key: "status"@, value: "completed"@ }));
        assert(edits[2] == (Edit::Duration { key: "duration_seconds"@, duration_ns }));
        assert(edits[3] == (Edit::Text { key: "audio_file"@, value: audio_file }));
        assert(edits[4] == (Edit::Text {
            key: "transcript_file"@,
            value: "transcripts.json"@,
        }));
        assert(edits[5] == (Edit::Text { key: "transcription_provider"@, value: provider }));
        assert(edits[6] == (Edit::Text { key: "transcription_model"@, value: model }));
        assert(edits[7] == (Edit::Remove { key: "detected_summary_language"@ }));
    } else {
        assert(edits[1] == (Edit::Text { key: "meeting_id"@, value: meeting_id }));
        assert(edits[2] == (Edit::Text { key: "created_at"@, value: now }));
        assert(edits[4] == (Edit::Text { key: "retranscribed_at"@, value: now }));
        assert(edits[5] == (Edit::Duration { key: "duration_seconds"@, duration_ns }));
        assert(edits[6] == (Edit::Text { key: "audio_file"@, value: audio_file }));
        assert(edits[7] == (Edit::Text {
            key: "transcript_file"@,
            value: "transcripts.json"@,
        }));
        assert(edits[8] == (Edit::Text { key: "status"@, value: "completed"@ }));
        assert(edits[9] == (Edit::Text { key: "source"@, value: "retranscription"@ }));
    }
}

/// Law: an engine's failure is told with the number of the segment and the error, last.
pub proof fn segment_failures_name_their_segment(
    engine: BatchEngine,
    index: nat,
    error: Seq<char>,
)
    ensures
        ({
            let text = segment_failure(engine, index, error);
            &&& text.take(engine.name().len() as int) == engine.name()
            &&& text.skip(text.len() - error.len()) == error
            &&& text::contains(text, text::decimal_digits(index))
        }),
        BatchEngine::Whisper.name() == "Whisper"@,
        BatchEngine::Parakeet.name() == "Parakeet"@,
        BatchEngine::SenseVoice.name() == "SenseVoice"@,
{
    let text = segment_failure(engine, index, error);
    let before = engine.name() + " transcription failed on segment "@;
    let after = ": "@ + error;
    text::contained_text_stands_inside(before, text::decimal_digits(index), after);
    assert(text =~= before + text::decimal_digits(index) + after);
    assert(text.take(engine.name().len() as int) =~= engine.name());
    assert(text.skip(text.len() - error.len()) =~= error);
}

} // verus!
