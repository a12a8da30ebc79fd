//! The transcription of a meeting's audio as a whole, and what becomes of its stored rows.

use vstd::prelude::*;
use vstd::string::*;

use crate::devices::configuration::text_of;
use crate::outside::is_uuid;
use crate::retranscription::flow::{
    engine_accepts, engine_for, is_kept, prompt_status, recognition_prompt_status,
    requested_engine, segment_failure, texts_after, validate_language, worth_transcribing,
    BatchEngine, RetranscriptionRun, RunAction, RunFailure, RunPhase, TimedText,
    MIN_SEGMENT_SAMPLES,
};
use crate::retranscription::speech::{
    all_parts, all_rejoined, all_speech, is_division, part_views, parts_join_to_all_speech, processable_segments,
    DetectedSpeech, Part, SpeechPart,
};
use crate::retranscription::status::RetranscriptionResult;
use crate::segmentation::SegmentPart;
use crate::text;
use crate::transcription::provider::{stated_language, Failure, TranscriptionError};
use crate::transcripts::{
    create_transcript_segments, is_row, is_row_of, StoredTranscriptSegment,
};

verus! {

/// What is asked for.
#[derive(Debug)]
pub struct RunRequest {
    pub meeting_id: String,
    pub language: Option<String>,
    pub provider: Option<String>,
}

/// The context of a meeting that its texts are put right with.
#[derive(Debug)]
pub struct RecognitionContextId {
    pub context_id: String,
    pub context_sha256: String,
}

/// What comes of a part of the speech.
#[derive(Debug)]
pub struct PartOutcome {
    /// The user cancelled before it.
    pub cancelled: bool,
    /// What was said in it, with the terms of the meeting put right.
    pub said: Result<String, String>,
}

/// A part of the speech and what comes of it.
#[derive(Debug)]
pub struct SegmentOutcome {
    /// The user cancelled before it.
    pub cancelled: bool,
    pub samples: usize,
    pub start_ns: u64,
    pub end_ns: u64,
    /// What was said in it, with the terms of the meeting put right.
    pub said: Result<String, String>,
}

/// How each thing ends that is done before the rows of a meeting are replaced. What comes after a
/// failure is not looked at.
pub struct WorkOutcomes<T, F> {
    pub cancelled_before_decoding: bool,
    /// The length of the audio, in nanoseconds.
    pub decoded: Result<u64, String>,
    pub cancelled_before_converting: bool,
    pub converted: Result<(), String>,
    pub cancelled_before_detecting: bool,
    /// The segments with speech.
    pub speech: Result<Vec<DetectedSpeech<T, F>>, String>,
    pub engine: Result<(), String>,
    /// What comes of each part of the speech. A part that nothing comes of is one before which the
    /// user cancelled.
    pub parts: Vec<PartOutcome>,
    pub cancelled_before_saving: bool,
    /// The file that the present rows are put aside in, where there are any.
    pub backup: Result<String, String>,
}

/// How each thing that is done to transcribe a meeting again ends.
pub struct RunOutcomes<T, F> {
    /// The audio of the meeting was found.
    pub audio: Result<(), String>,
    pub context: Result<Option<RecognitionContextId>, String>,
    pub work: WorkOutcomes<T, F>,
    /// The rows were replaced in one transaction, or not at all.
    pub replaced: Result<(), String>,
    /// Files of the meeting still have to follow its rows.
    pub file_sync_pending: bool,
}

/// Why a meeting is not transcribed again.
#[derive(Debug)]
pub enum RunError {
    /// The engine does not take the language.
    Language(TranscriptionError),
    Failed(String),
}

/// What a `RunError` stands for.
pub enum RunProblem {
    Language(Failure),
    Failed(Seq<char>),
}

impl View for RunError {
    type V = RunProblem;

    open spec fn view(&self) -> RunProblem {
        match *self {
            RunError::Language(error) => RunProblem::Language(error@),
            RunError::Failed(error) => RunProblem::Failed(error@),
        }
    }
}

/// `segment` is a part of the speech with what comes of the part at its place.
pub open spec fn is_outcome_of<T>(
    segment: SegmentOutcome,
    part: Part<T>,
    outcomes: Seq<PartOutcome>,
    i: int,
) -> bool {
    &&& segment.samples == part.samples.len()
    &&& segment.start_ns == part.start_ns
    &&& segment.end_ns == part.end_ns
    &&& if i < outcomes.len() {
        segment.cancelled == outcomes[i].cancelled && segment.said == outcomes[i].said
    } else {
        segment.cancelled
    }
}

/// `segments` are all parts of the speech, which is cut like this, with what comes of them.
pub open spec fn are_outcomes<T, F: Fn(usize) -> u32>(
    speech: Seq<DetectedSpeech<T, F>>,
    cuts: Seq<Seq<SegmentPart<T>>>,
    outcomes: Seq<PartOutcome>,
    segments: Seq<SegmentOutcome>,
) -> bool {
    &&& is_division(speech, cuts, all_parts(speech, cuts))
    &&& segments.len() == all_parts(speech, cuts).len()
    &&& forall|i: int|
        0 <= i < segments.len() ==> is_outcome_of(
            #[trigger] segments[i], all_parts(speech, cuts)[i], outcomes, i)
}

/// What goes wrong with the segments from `from` on, if anything does.
pub open spec fn segments_problem(
    engine: BatchEngine,
    segments: Seq<SegmentOutcome>,
    from: int,
) -> Option<Seq<char>>
    decreases segments.len() - from,
{
    if from >= segments.len() {
        None
    } else if segments[from].cancelled {
        Some(RunFailure::Cancelled.text())
    } else if segments[from].samples < MIN_SEGMENT_SAMPLES {
        segments_problem(engine, segments, from + 1)
    } else {
        match segments[from].said {
            Err(error) => Some(segment_failure(engine, from as nat, error@)),
            Ok(_) => segments_problem(engine, segments, from + 1),
        }
    }
}

/// The failure of an outcome, if it is one.
pub open spec fn error_of<V>(outcome: Result<V, String>) -> Option<Seq<char>> {
    match outcome {
        Ok(_) => None,
        Err(error) => Some(error@),
    }
}

impl<T, F: Fn(usize) -> u32> WorkOutcomes<T, F> {
    /// The speech that was found can be cut at its pauses.
    pub open spec fn can_be_cut(self) -> bool {
        self.speech matches Ok(speech) ==> forall|i: int|
            0 <= i < speech@.len() ==> (#[trigger] speech@[i]).can_be_cut()
    }

    /// `segments` are all parts of the speech that was found, with what comes of them.
    pub open spec fn has_segments(self, segments: Seq<SegmentOutcome>) -> bool {
        self.speech matches Ok(speech) ==> exists|cuts: Seq<Seq<SegmentPart<T>>>| #[trigger]
            are_outcomes(speech@, cuts, self.parts@, segments)
    }

    /// What goes wrong before the rows of a meeting are touched, if anything does. `has_rows` says
    /// whether there are rows to put aside, and `segments` are the parts of the speech.
    pub open spec fn problem(
        self,
        engine: BatchEngine,
        has_rows: bool,
        segments: Seq<SegmentOutcome>,
    ) -> Option<Seq<char>> {
        if self.cancelled_before_decoding {
            Some(RunFailure::Cancelled.text())
        } else if self.decoded is Err {
            error_of(self.decoded)
        } else if self.cancelled_before_converting {
            Some(RunFailure::Cancelled.text())
        } else if self.converted is Err {
            error_of(self.converted)
        } else if self.cancelled_before_detecting {
            Some(RunFailure::Cancelled.text())
        } else if self.speech is Err {
            Some("VAD processing failed: "@ + error_of(self.speech)->0)
        } else if self.speech->Ok_0@.len() == 0 {
            Some(RunFailure::NoSpeech.text())
        } else if self.engine is Err {
            error_of(self.engine)
        } else if segments_problem(engine, segments, 0) is Some {
            segments_problem(engine, segments, 0)
        } else if self.cancelled_before_saving {
            Some(RunFailure::Cancelled.text())
        } else if has_rows && self.backup is Err {
            error_of(self.backup)
        } else {
            None
        }
    }
}

impl<T, F: Fn(usize) -> u32> RunOutcomes<T, F> {
    /// Why the meeting is not transcribed again: the first thing that goes wrong. `segments` are
    /// the parts of the speech with what comes of them.
    pub open spec fn problem(
        self,
        request: RunRequest,
        has_rows: bool,
        segments: Seq<SegmentOutcome>,
    ) -> Option<RunProblem> {
        let engine = engine_for(text_of(request.provider));
        let language = text_of(request.language);
        if self.audio is Err {
            Some(RunProblem::Failed(error_of(self.audio)->0))
        } else if self.context is Err {
            Some(RunProblem::Failed(error_of(self.context)->0))
        } else if !engine_accepts(engine, language) {
            Some(RunProblem::Language(Failure::UnsupportedLanguage(stated_language(language)->0)))
        } else {
            match self.work.problem(engine, has_rows, segments) {
                Some(error) => Some(RunProblem::Failed(error)),
                None => match self.replaced {
                    Err(error) => Some(RunProblem::Failed(error@)),
                    Ok(_) => None,
                },
            }
        }
    }
}

/// The texts after a segment: one that is too short says nothing.
pub open spec fn text_step(
    segment: SegmentOutcome,
    before: Seq<TimedText>,
    after: Seq<TimedText>,
) -> bool {
    if segment.samples < MIN_SEGMENT_SAMPLES {
        after == before
    } else {
        segment.said matches Ok(said) && texts_after(
            before, said@, segment.start_ns, segment.end_ns, after)
    }
}

/// The texts of a meeting, segment by segment.
pub open spec fn is_history(segments: Seq<SegmentOutcome>, history: Seq<Seq<TimedText>>) -> bool {
    &&& history.len() == segments.len() + 1
    &&& history[0].len() == 0
    &&& forall|i: int|
        0 <= i < segments.len() ==> text_step(
            #[trigger] segments[i], history[i], history[i + 1])
}

/// The rows of texts, each under an identifier of its own, and none of them blank.
pub open spec fn are_rows(rows: Seq<StoredTranscriptSegment>, texts: Seq<TimedText>) -> bool {
    &&& rows.len() == texts.len()
    &&& forall|i: int|
        0 <= i < rows.len() ==> is_row_of(#[trigger] rows[i], texts[i]) && !text::blank(
            rows[i].text@)
}

/// The rows are those of what the segments say.
pub open spec fn rows_follow(
    rows: Seq<StoredTranscriptSegment>,
    segments: Seq<SegmentOutcome>,
) -> bool {
    exists|history: Seq<Seq<TimedText>>| #[trigger]
        is_history(segments, history) && are_rows(rows, history.last())
}

/// `result` is what is reported of a meeting that was transcribed again into `count` rows.
pub open spec fn is_result<T, F>(
    result: RetranscriptionResult,
    request: RunRequest,
    outcomes: RunOutcomes<T, F>,
    had_rows: bool,
    count: nat,
) -> bool {
    let context = outcomes.context->Ok_0;
    &&& result.meeting_id == request.meeting_id
    &&& result.segments_count == count
    &&& result.duration_ns == outcomes.work.decoded->Ok_0
    &&& result.language == request.language
    &&& text_of(result.recognition_context_id) == match context {
        Some(context) => Some(context.context_id@),
        None => None,
    }
    &&& text_of(result.recognition_context_sha256) == match context {
        Some(context) => Some(context.context_sha256@),
        None => None,
    }
    &&& result.recognition_prompt_status@ == prompt_status(
        engine_for(text_of(request.provider)), context is Some)
    &&& text_of(result.backup_file) == if had_rows {
        Some(outcomes.work.backup->Ok_0@)
    } else {
        None
    }
    &&& result.file_sync_pending == outcomes.file_sync_pending
}

/// The texts are those of what the segments say.
pub open spec fn texts_follow(texts: Seq<TimedText>, segments: Seq<SegmentOutcome>) -> bool {
    exists|history: Seq<Seq<TimedText>>| #[trigger]
        is_history(segments, history) && history.last() == texts
}

fn clone_said(said: &Result<String, String>) -> (r: Result<String, String>)
    ensures
        r == *said,
{
    match said {
        Ok(text) => Ok(text.clone()),
        Err(error) => Err(error.clone()),
    }
}

/// Puts what comes of the parts of the speech to the parts.
fn with_outcomes<T>(parts: &Vec<SpeechPart<T>>, outcomes: &Vec<PartOutcome>) -> (r: Vec<
    SegmentOutcome,
>)
    ensures
        r@.len() == parts@.len(),
        forall|i: int|
            0 <= i < r@.len() ==> is_outcome_of(
                #[trigger] r@[i], part_views(parts@)[i], outcomes@, i),
{
    let mut r: Vec<SegmentOutcome> = Vec::new();
    let mut i: usize = 0;
    while i < parts.len()
        invariant
            i <= parts@.len(),
            r@.len() == i,
            forall|k: int|
                0 <= k < i ==> is_outcome_of(
                    #[trigger] r@[k], part_views(parts@)[k], outcomes@, k),
        decreases parts@.len() - i,
    {
        let part = &parts[i];
        let (cancelled, said) = if i < outcomes.len() {
            (outcomes[i].cancelled, clone_said(&outcomes[i].said))
        } else {
            (true, Ok(String::new()))
        };
        r.push(
            SegmentOutcome {
                cancelled,
                samples: part.samples.len(),
                start_ns: part.start_ns,
                end_ns: part.end_ns,
                said,
            },
        );
        i = i + 1;
    }
    r
}

/// All parts of the speech that was found, with what comes of them.
fn segments_of<T: Copy, F: Fn(usize) -> u32>(work: &WorkOutcomes<T, F>) -> (r: Vec<SegmentOutcome>)
    requires
        work.can_be_cut(),
    ensures
        work.has_segments(r@),
{
    match &work.speech {
        Err(_) => Vec::new(),
        Ok(speech) => {
            let parts = processable_segments(speech);
            let segments = with_outcomes(&parts, &work.parts);
            proof {
                let cuts = choose|cuts: Seq<Seq<SegmentPart<T>>>| #[trigger]
                    is_division(speech@, cuts, part_views(parts@));
                outcomes_follow(speech@, cuts, part_views(parts@), work.parts@, segments@);
            }
            segments
        },
    }
}

proof fn outcomes_follow<T, F: Fn(usize) -> u32>(
    speech: Seq<DetectedSpeech<T, F>>,
    cuts: Seq<Seq<SegmentPart<T>>>,
    parts: Seq<Part<T>>,
    outcomes: Seq<PartOutcome>,
    segments: Seq<SegmentOutcome>,
)
    requires
        is_division(speech, cuts, parts),
        segments.len() == parts.len(),
        forall|i: int|
            0 <= i < segments.len() ==> is_outcome_of(
                #[trigger] segments[i], parts[i], outcomes, i),
    ensures
        are_outcomes(speech, cuts, outcomes, segments),
{
}

/// Does all that comes before the rows are replaced; `segments` are the parts of the speech.
/// Returns the run, which is about to save, the length of the audio, and the file that the old
/// rows are in.
fn transcribe<T, F: Fn(usize) -> u32>(
    engine: BatchEngine,
    has_rows: bool,
    work: WorkOutcomes<T, F>,
    segments: Vec<SegmentOutcome>,
) -> (r: Result<(RetranscriptionRun, u64, Option<String>), String>)
    ensures
        match r {
            Err(error) => work.problem(engine, has_rows, segments@) == Some(error@),
            Ok((run, duration_ns, backup_file)) => {
                &&& work.problem(engine, has_rows, segments@) is None
                &&& run.phase == RunPhase::Saving
                &&& texts_follow(run.texts@, segments@)
                &&& work.decoded == Ok::<u64, String>(duration_ns)
                &&& text_of(backup_file) == if has_rows {
                    Some(work.backup->Ok_0@)
                } else {
                    None
                }
            },
        },
{
    let speech: Result<usize, String> = match work.speech {
        Ok(speech) => Ok(speech.len()),
        Err(error) => Err(error),
    };
    let (mut run, first) = RetranscriptionRun::start(engine, work.cancelled_before_decoding);
    if let RunAction::Stop(failure) = first.action {
        return Err(failure.message().to_owned());
    }
    let (decoded, duration_ns) = match work.decoded {
        Ok(duration_ns) => (Ok(()), duration_ns),
        Err(error) => (Err(error), 0),
    };
    match run.decoded(decoded, work.cancelled_before_converting) {
        Err(error) => {
            return Err(error);
        },
        Ok(step) => if let RunAction::Stop(failure) = step.action {
            return Err(failure.message().to_owned());
        },
    }
    match run.converted(work.converted, work.cancelled_before_detecting) {
        Err(error) => {
            return Err(error);
        },
        Ok(step) => if let RunAction::Stop(failure) = step.action {
            return Err(failure.message().to_owned());
        },
    }
    match run.speech_detected(speech) {
        Err(error) => {
            return Err(error);
        },
        Ok(step) => if let RunAction::Stop(failure) = step.action {
            return Err(failure.message().to_owned());
        },
    }
    if let Err(error) = transcribe_segments(
        &mut run,
        work.engine,
        segments,
        work.cancelled_before_saving,
    ) {
        return Err(error);
    }
    let (outcome, backup_file) = if has_rows {
        match work.backup {
            Ok(file) => (Ok(()), Some(file)),
            Err(error) => (Err(error), None),
        }
    } else {
        (Ok(()), None)
    };
    match run.backed_up(outcome) {
        Err(error) => Err(error),
        Ok(_) => Ok((run, duration_ns, backup_file)),
    }
}

/// Transcribes one segment after the other, once the engine is ready.
#[verifier::loop_isolation(false)]
fn transcribe_segments(
    run: &mut RetranscriptionRun,
    engine: Result<(), String>,
    segments: Vec<SegmentOutcome>,
    cancelled_before_saving: bool,
) -> (r: Result<(), String>)
    requires
        old(run).phase == RunPhase::LoadingEngine,
        old(run).texts@.len() == 0,
    ensures
        match r {
            Err(message) => if engine is Err {
                error_of(engine) == Some(message@)
            } else if segments_problem(old(run).engine, segments@, 0) is Some {
                segments_problem(old(run).engine, segments@, 0) == Some(message@)
            } else {
                cancelled_before_saving && message@ == RunFailure::Cancelled.text()
            },
            Ok(_) => {
                &&& engine is Ok
                &&& segments_problem(old(run).engine, segments@, 0) is None
                &&& !cancelled_before_saving
                &&& final(run).phase == RunPhase::BackingUp
                &&& texts_follow(final(run).texts@, segments@)
            },
        },
{
    let ghost all = segments@;
    let ghost kind = run.engine;
    let total: usize = segments.len();
    let first: bool = if total > 0 { segments[0].cancelled } else { cancelled_before_saving };
    match run.engine_loaded(engine, total, first) {
        Err(error) => {
            return Err(error);
        },
        Ok(step) => if let RunAction::Stop(failure) = step.action {
            return Err(failure.message().to_owned());
        },
    }
    let mut remaining = segments;
    let ghost mut history: Seq<Seq<TimedText>> = seq![run.texts@];
    let mut i: usize = 0;
    while i < total
        invariant
            i <= total == all.len(),
            remaining@ == all.skip(i as int),
            run.engine == kind,
            run.segment_count == total,
            run.phase == if i < total { RunPhase::Transcribing(i) } else { RunPhase::BackingUp },
            i < total ==> !all[i as int].cancelled,
            i == total ==> !cancelled_before_saving,
            segments_problem(kind, all, 0) == segments_problem(kind, all, i as int),
            history.len() == i + 1,
            history[0].len() == 0,
            history.last() == run.texts@,
            forall|j: int|
                0 <= j < i ==> text_step(#[trigger] all[j], history[j], history[j + 1]),
        decreases total - i,
    {
        let segment = remaining.remove(0);
        assert(segment == all[i as int]);
        assert(remaining@ =~= all.skip(i + 1));
        let ghost before = run.texts@;
        let next: bool = if i + 1 < total {
            remaining[0].cancelled
        } else {
            cancelled_before_saving
        };
        let step = if worth_transcribing(segment.samples) {
            match run.segment_transcribed(segment.said, segment.start_ns, segment.end_ns, next) {
                Ok(step) => step,
                Err(error) => {
                    return Err(error);
                },
            }
        } else {
            run.segment_skipped(next)
        };
        proof {
            assert(text_step(all[i as int], before, run.texts@));
            history = history.push(run.texts@);
        }
        i = i + 1;
        if let RunAction::Stop(failure) = step.action {
            assert(next);
            return Err(failure.message().to_owned());
        }
    }
    assert(is_history(all, history));
    Ok(())
}

proof fn texts_say_something(segments: Seq<SegmentOutcome>, history: Seq<Seq<TimedText>>, n: int)
    requires
        is_history(segments, history),
        0 <= n < history.len(),
    ensures
        forall|i: int| 0 <= i < history[n].len() ==> !text::blank((#[trigger] history[n][i]).text@),
    decreases n,
{
    if n > 0 {
        texts_say_something(segments, history, n - 1);
        let segment = segments[n - 1];
        let before = history[n - 1];
        let after = history[n];
        assert(text_step(segment, before, after));
        if segment.samples >= MIN_SEGMENT_SAMPLES {
            let said = segment.said->Ok_0@;
            let kept = choose|kept: Seq<char>| #[trigger]
                is_kept(before, said, kept) && if text::blank(kept) {
                    after == before
                } else {
                    after.len() == before.len() + 1 && after.drop_last() == before
                        && after.last().text@ == kept && after.last().start_ns
                        == segment.start_ns && after.last().end_ns == segment.end_ns
                };
            assert forall|i: int| 0 <= i < after.len() implies !text::blank(
                (#[trigger] after[i]).text@) by {
                if !text::blank(kept) && i < before.len() {
                    assert(after.drop_last()[i] == before[i]);
                }
            }
        }
    }
}

proof fn rows_are_not_blank(
    segments: Seq<SegmentOutcome>,
    history: Seq<Seq<TimedText>>,
    rows: Seq<StoredTranscriptSegment>,
)
    requires
        is_history(segments, history),
        rows.len() == history.last().len(),
        forall|i: int| 0 <= i < rows.len() ==> is_row_of(#[trigger] rows[i], history.last()[i]),
    ensures
        rows_follow(rows, segments),
{
    let texts = history.last();
    texts_say_something(segments, history, history.len() - 1);
    assert forall|i: int| 0 <= i < rows.len() implies !text::blank((#[trigger] rows[i]).text@) by {
        assert(is_row_of(rows[i], texts[i]));
        let uuid = choose|uuid: Seq<char>| is_uuid(uuid) && #[trigger]
            is_row(rows[i], texts[i], uuid);
        text::trimmed_is_not_blank(texts[i].text@);
    }
    assert(are_rows(rows, history.last()));
}

/// `r` is the outcome of transcribing a meeting again, `segments` being the parts of its speech.
/// Its rows are replaced by those of what the segments say where nothing goes wrong, and stay as
/// they were where anything does.
pub open spec fn is_run<T, F: Fn(usize) -> u32>(
    stored: Seq<StoredTranscriptSegment>,
    request: RunRequest,
    outcomes: RunOutcomes<T, F>,
    segments: Seq<SegmentOutcome>,
    r: Result<RetranscriptionResult, RunError>,
    after: Seq<StoredTranscriptSegment>,
) -> bool {
    match r {
        Ok(result) => {
            &&& outcomes.problem(request, stored.len() > 0, segments) is None
            &&& rows_follow(after, segments)
            &&& is_result(result, request, outcomes, stored.len() > 0, after.len())
        },
        Err(error) => {
            &&& outcomes.problem(request, stored.len() > 0, segments) == Some(error@)
            &&& after == stored
        },
    }
}

/// Transcribes a meeting again, given how each thing that is done for it ends. `stored` are its
/// rows. They are replaced only once all audio was transcribed and the old ones are put aside; on
/// every failure and on a cancellation they stay as they are.
pub fn run_retranscription<T: Copy, F: Fn(usize) -> u32>(
    stored: &mut Vec<StoredTranscriptSegment>,
    request: RunRequest,
    outcomes: RunOutcomes<T, F>,
) -> (r: Result<RetranscriptionResult, RunError>)
    requires
        outcomes.work.can_be_cut(),
    ensures
        exists|segments: Seq<SegmentOutcome>| #[trigger]
            outcomes.work.has_segments(segments) && is_run(
                old(stored)@, request, outcomes, segments, r, final(stored)@),
{
    let segments = segments_of(&outcomes.work);
    let ghost parts = segments@;
    assert(outcomes.work.has_segments(parts));
    if let Err(error) = outcomes.audio {
        return Err(RunError::Failed(error));
    }
    let context = match outcomes.context {
        Ok(context) => context,
        Err(error) => {
            return Err(RunError::Failed(error));
        },
    };
    let engine = match &request.provider {
        Some(provider) => requested_engine(Some(provider.as_str())),
        None => requested_engine(None),
    };
    let language_check = match &request.language {
        Some(language) => validate_language(engine, Some(language.as_str())),
        None => validate_language(engine, None),
    };
    if let Err(error) = language_check {
        return Err(RunError::Language(error));
    }
    let has_rows: bool = stored.len() > 0;
    let transcribed = transcribe(engine, has_rows, outcomes.work, segments);
    let (mut run, duration_ns, backup_file) = match transcribed {
        Ok(transcribed) => transcribed,
        Err(error) => {
            return Err(RunError::Failed(error));
        },
    };
    let rows = create_transcript_segments(&run.texts);
    if let Err(error) = run.saved(outcomes.replaced) {
        return Err(RunError::Failed(error));
    }
    proof {
        let history = choose|history: Seq<Seq<TimedText>>| #[trigger]
            is_history(parts, history) && history.last() == run.texts@;
        rows_are_not_blank(parts, history, rows@);
    }
    let segments_count: usize = rows.len();
    *stored = rows;
    let (context_id, context_sha256, has_context) = match context {
        Some(context) => (Some(context.context_id), Some(context.context_sha256), true),
        None => (None, None, false),
    };
    Ok(
        RetranscriptionResult {
            file_sync_pending: outcomes.file_sync_pending,
            meeting_id: request.meeting_id,
            segments_count,
            duration_ns,
            language: request.language,
            recognition_context_id: context_id,
            recognition_context_sha256: context_sha256,
            recognition_prompt_status: recognition_prompt_status(engine, has_context).to_owned(),
            backup_file,
        },
    )
}

/// Law: the stored rows of a meeting are only replaced if everything before went well: it was not
/// cancelled, speech was found, all of it was cut into parts, each part was transcribed if it is
/// long enough, and the old rows, if there were any, are put aside.
pub proof fn rows_are_replaced_safely<T, F: Fn(usize) -> u32>(
    request: RunRequest,
    outcomes: RunOutcomes<T, F>,
    has_rows: bool,
    segments: Seq<SegmentOutcome>,
)
    requires
        outcomes.work.has_segments(segments),
        outcomes.problem(request, has_rows, segments) is None,
    ensures
        outcomes.audio is Ok,
        outcomes.context is Ok,
        outcomes.work.decoded is Ok,
        outcomes.work.converted is Ok,
        outcomes.work.speech matches Ok(speech) && 0 < speech@.len() <= segments.len()
            && exists|cuts: Seq<Seq<SegmentPart<T>>>| #[trigger]
            are_outcomes(speech@, cuts, outcomes.work.parts@, segments) && all_rejoined(cuts)
                == all_speech(speech@),
        outcomes.work.engine is Ok,
        !outcomes.work.cancelled_before_decoding,
        !outcomes.work.cancelled_before_converting,
        !outcomes.work.cancelled_before_detecting,
        !outcomes.work.cancelled_before_saving,
        segments.len() <= outcomes.work.parts@.len(),
        forall|i: int|
            0 <= i < segments.len() ==> {
                let segment = #[trigger] segments[i];
                !segment.cancelled && (segment.samples >= MIN_SEGMENT_SAMPLES ==> segment.said
                    is Ok)
            },
        has_rows ==> outcomes.work.backup is Ok,
        outcomes.replaced is Ok,
{
    let speech = outcomes.work.speech->Ok_0@;
    let cuts = choose|cuts: Seq<Seq<SegmentPart<T>>>| #[trigger]
        are_outcomes(speech, cuts, outcomes.work.parts@, segments);
    parts_join_to_all_speech(speech, cuts, all_parts(speech, cuts));
    segments_all_went_well(engine_for(text_of(request.provider)), segments, 0);
    if segments.len() > outcomes.work.parts@.len() {
        let i = outcomes.work.parts@.len() as int;
        assert(is_outcome_of(segments[i], all_parts(speech, cuts)[i], outcomes.work.parts@, i));
    }
}

proof fn segments_all_went_well(engine: BatchEngine, segments: Seq<SegmentOutcome>, from: int)
    requires
        0 <= from,
        segments_problem(engine, segments, from) is None,
    ensures
        forall|i: int|
            from <= i < segments.len() ==> {
                let segment = #[trigger] segments[i];
                !segment.cancelled && (segment.samples >= MIN_SEGMENT_SAMPLES ==> segment.said
                    is Ok)
            },
    decreases segments.len() - from,
{
    if from < segments.len() {
        segments_all_went_well(engine, segments, from + 1);
    }
}

/// Law: the first thing that goes wrong is what is reported, whatever would come after it; and
/// a meeting in which no one speaks is not transcribed into nothing.
pub proof fn the_first_problem_is_reported<T, F: Fn(usize) -> u32>(
    request: RunRequest,
    outcomes: RunOutcomes<T, F>,
    has_rows: bool,
    segments: Seq<SegmentOutcome>,
)
    ensures
        ({
            let problem = outcomes.problem(request, has_rows, segments);
            let engine = engine_for(text_of(request.provider));
            let admitted = outcomes.audio is Ok && outcomes.context is Ok && engine_accepts(
                engine, text_of(request.language));
            let decoded = admitted && !outcomes.work.cancelled_before_decoding;
            let converted = decoded && outcomes.work.decoded is Ok
                && !outcomes.work.cancelled_before_converting;
            let heard = converted && outcomes.work.converted is Ok
                && !outcomes.work.cancelled_before_detecting;
            &&& outcomes.audio matches Err(error) ==> problem == Some(RunProblem::Failed(error@))
            &&& outcomes.audio is Ok && outcomes.context is Err ==> problem == Some(
                RunProblem::Failed(outcomes.context->Err_0@))
            &&& outcomes.audio is Ok && outcomes.context is Ok && !engine_accepts(
                engine, text_of(request.language)) ==> (problem matches Some(RunProblem::Language(_)))
            &&& decoded && outcomes.work.decoded is Err ==> problem == Some(
                RunProblem::Failed(outcomes.work.decoded->Err_0@))
            &&& converted && outcomes.work.converted is Err ==> problem == Some(
                RunProblem::Failed(outcomes.work.converted->Err_0@))
            &&& heard && outcomes.work.speech is Err ==> problem == Some(
                RunProblem::Failed("VAD processing failed: "@ + outcomes.work.speech->Err_0@))
            &&& heard && (outcomes.work.speech matches Ok(speech) && speech@.len() == 0)
                ==> problem == Some(RunProblem::Failed("No speech detected in audio file"@))
            &&& admitted && outcomes.work.cancelled_before_decoding ==> problem == Some(
                RunProblem::Failed("Retranscription cancelled"@))
        }),
{
}

/// Law: every segment that is long enough and says something leaves its text, in the order of the
/// segments: the texts never get fewer, and one that is too short leaves none.
pub proof fn segments_speak_in_order(
    segments: Seq<SegmentOutcome>,
    history: Seq<Seq<TimedText>>,
    i: int,
)
    requires
        is_history(segments, history),
        0 <= i < segments.len(),
    ensures
        segments[i].samples < 1_600 ==> history[i + 1] == history[i],
        history[i].len() <= history[i + 1].len() <= history[i].len() + 1,
        history[i + 1].take(history[i].len() as int) == history[i],
        history[i + 1].len() > history[i].len() ==> {
            &&& history[i + 1].last().start_ns == segments[i].start_ns
            &&& history[i + 1].last().end_ns == segments[i].end_ns
            &&& segments[i].samples >= 1_600
        },
        segments[i].samples >= 1_600 && history[i].len() == 0 && !text::blank(
            segments[i].said->Ok_0@) ==> history[i + 1].len() == 1 && history[i + 1][0].text@
            == segments[i].said->Ok_0@,
{
    assert(text_step(segments[i], history[i], history[i + 1]));
    if segments[i].samples < MIN_SEGMENT_SAMPLES {
        assert(history[i + 1].take(history[i].len() as int) =~= history[i]);
    } else {
        let said = segments[i].said->Ok_0@;
        crate::retranscription::flow::texts_are_only_added(
            history[i], said, segments[i].start_ns, segments[i].end_ns, history[i + 1]);
        if history[i].len() == 0 {
            assert(history[i] =~= Seq::empty());
            crate::retranscription::flow::the_first_text_is_kept_whole(
                said, segments[i].start_ns, segments[i].end_ns, history[i + 1]);
        }
    }
}

/// Law: what is reported of a meeting that was transcribed again is what was asked for and done.
pub proof fn results_tell_what_was_done<T, F>(
    result: RetranscriptionResult,
    request: RunRequest,
    outcomes: RunOutcomes<T, F>,
    had_rows: bool,
    count: nat,
)
    requires
        is_result(result, request, outcomes, had_rows, count),
        outcomes.work.decoded is Ok,
        outcomes.work.backup is Ok,
        outcomes.context is Ok,
    ensures
        result.meeting_id == request.meeting_id,
        result.segments_count == count,
        outcomes.work.decoded == Ok::<u64, String>(result.duration_ns),
        result.language == request.language,
        result.backup_file is Some <==> had_rows,
        result.backup_file matches Some(file) ==> file@ == outcomes.work.backup->Ok_0@,
        result.recognition_context_id is Some <==> outcomes.context->Ok_0 is Some,
        result.recognition_context_sha256 is Some <==> outcomes.context->Ok_0 is Some,
        outcomes.context->Ok_0 matches Some(context) ==> text_of(result.recognition_context_id)
            == Some(context.context_id@) && text_of(result.recognition_context_sha256) == Some(
            context.context_sha256@),
        result.file_sync_pending == outcomes.file_sync_pending,
{
}

/// Law: where the rows of a meeting are replaced, an engine was asked about every part of its
/// speech that is long enough, and gave a text for it; and no part was cancelled.
pub proof fn every_part_was_transcribed<T, F: Fn(usize) -> u32>(
    engine: BatchEngine,
    speech: Seq<DetectedSpeech<T, F>>,
    cuts: Seq<Seq<SegmentPart<T>>>,
    outcomes: Seq<PartOutcome>,
    segments: Seq<SegmentOutcome>,
    i: int,
)
    requires
        are_outcomes(speech, cuts, outcomes, segments),
        segments_problem(engine, segments, 0) is None,
        0 <= i < all_parts(speech, cuts).len(),
    ensures
        i < outcomes.len(),
        !outcomes[i].cancelled,
        all_parts(speech, cuts)[i].samples.len() >= 1_600 ==> outcomes[i].said is Ok
            && segments[i].said == outcomes[i].said,
        segments[i].start_ns == all_parts(speech, cuts)[i].start_ns,
        segments[i].end_ns == all_parts(speech, cuts)[i].end_ns,
        segments[i].samples == all_parts(speech, cuts)[i].samples.len(),
{
    segments_all_went_well(engine, segments, 0);
    assert(is_outcome_of(segments[i], all_parts(speech, cuts)[i], outcomes, i));
}

/// Law: the first segment that was cancelled or failed ends the work, with that as its problem.
pub proof fn the_first_failed_segment_ends_the_work(
    engine: BatchEngine,
    segments: Seq<SegmentOutcome>,
    from: int,
    i: int,
)
    requires
        0 <= from <= i < segments.len(),
        forall|j: int|
            from <= j < i ==> !(#[trigger] segments[j]).cancelled && (segments[j].samples < 1_600
                || segments[j].said is Ok),
    ensures
        segments[i].cancelled ==> segments_problem(engine, segments, from) == Some(
            "Retranscription cancelled"@),
        !segments[i].cancelled && segments[i].samples >= 1_600 && segments[i].said is Err
            ==> segments_problem(engine, segments, from) == Some(
            segment_failure(engine, i as nat, segments[i].said->Err_0@)),
    decreases i - from,
{
    if from < i {
        assert(!segments[from].cancelled);
        the_first_failed_segment_ends_the_work(engine, segments, from + 1, i);
    }
}

/// Law: the rows of a meeting say what its texts say, one row for each and in the same order, where
/// and as long as it was said.
pub proof fn rows_are_the_texts_in_order(
    rows: Seq<StoredTranscriptSegment>,
    texts: Seq<TimedText>,
    i: int,
)
    requires
        are_rows(rows, texts),
        0 <= i < texts.len(),
    ensures
        rows.len() == texts.len(),
        rows[i].text@ == text::trimmed(texts[i].text@),
        !text::blank(rows[i].text@),
        rows[i].audio_start_ns == texts[i].start_ns,
        rows[i].audio_end_ns == texts[i].end_ns,
        rows[i].duration_ns == texts[i].end_ns - texts[i].start_ns,
{
    assert(is_row_of(rows[i], texts[i]));
}

/// Law: the rows that a meeting gets are those of its last texts, and those come from its segments
/// alone: without a segment that is long enough there are none.
pub proof fn rows_come_from_segments(
    rows: Seq<StoredTranscriptSegment>,
    segments: Seq<SegmentOutcome>,
)
    requires
        rows_follow(rows, segments),
    ensures
        rows.len() <= segments.len(),
        (forall|i: int| 0 <= i < segments.len() ==> (#[trigger] segments[i]).samples < 1_600)
            ==> rows.len() == 0,
{
    let history = choose|history: Seq<Seq<TimedText>>| #[trigger]
        is_history(segments, history) && are_rows(rows, history.last());
    texts_are_no_more_than_segments(segments, history, segments.len() as int);
}

proof fn texts_are_no_more_than_segments(
    segments: Seq<SegmentOutcome>,
    history: Seq<Seq<TimedText>>,
    n: int,
)
    requires
        is_history(segments, history),
        0 <= n <= segments.len(),
    ensures
        history[n].len() <= n,
        (forall|i: int| 0 <= i < n ==> (#[trigger] segments[i]).samples < 1_600)
            ==> history[n].len() == 0,
    decreases n,
{
    if n > 0 {
        texts_are_no_more_than_segments(segments, history, n - 1);
        segments_speak_in_order(segments, history, n - 1);
    }
}

/// Law: a run that fails leaves the stored rows exactly as they were, with the problem that it met;
/// one that does not replaces them all by those of its segments, and reports how many they are.
pub proof fn failed_runs_keep_the_rows<T, F: Fn(usize) -> u32>(
    stored: Seq<StoredTranscriptSegment>,
    request: RunRequest,
    outcomes: RunOutcomes<T, F>,
    segments: Seq<SegmentOutcome>,
    r: Result<RetranscriptionResult, RunError>,
    after: Seq<StoredTranscriptSegment>,
)
    requires
        is_run(stored, request, outcomes, segments, r, after),
    ensures
        r is Err ==> after == stored,
        r is Err <==> outcomes.problem(request, stored.len() > 0, segments) is Some,
        outcomes.replaced is Err || outcomes.audio is Err ==> after == stored,
        stored.len() > 0 && outcomes.work.backup is Err ==> after == stored,
        outcomes.work.cancelled_before_saving ==> after == stored,
        r matches Ok(result) ==> {
            &&& result.segments_count == after.len()
            &&& rows_follow(after, segments)
            &&& result.meeting_id == request.meeting_id
            &&& stored.len() > 0 ==> result.backup_file is Some
        },
{
}

} // verus!
