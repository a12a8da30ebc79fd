//! What a transcription worker decides for each batch of speech.

use vstd::prelude::*;
use vstd::string::*;

use crate::audio_chunk::{duration_ns, duration_of};
use crate::outside::{since_epoch, system_now, whole_seconds};
use crate::recording_saver::transcript::{Row, TranscriptSegment};
use crate::text;
use crate::transcription::chunk_queue::{pending_chunk_count, ChunkQueue};
use crate::transcription::notice::{notice_view, TaskNotice, Trouble};
use crate::transcription::parakeet_provider::{parakeet_accepts, validate_parakeet_language};
use crate::transcription::provider::{
    stated_language, str_view, Failure, TranscriptionError,
};

verus! {

/// Samples per second that every engine expects.
pub const ENGINE_SAMPLE_RATE: u32 = 16_000;

/// The least number of samples that is worth transcribing: 100 ms.
pub const MINIMUM_SAMPLES: usize = 1_600;

/// Bit pattern of the confidence that stands in for one that an engine does not give: 0.85.
pub const DEFAULT_CONFIDENCE_BITS: u32 = 0x3F59_999A;

/// Bit pattern of the least confidence that is accepted of an engine that gives one: 0.3.
pub const CONFIDENCE_THRESHOLD_BITS: u32 = 0x3E99_999A;

/// Bit pattern of infinity, the largest 32-bit float that is a number.
pub const INFINITY_BITS: u32 = 0x7F80_0000;

/// Bit pattern of the negative zero.
pub const NEGATIVE_ZERO_BITS: u32 = 0x8000_0000;

/// The kinds of transcription engines.
#[derive(Debug, Clone, Copy, PartialEq, Eq, Structural)]
pub enum EngineKind {
    SenseVoice,
    Whisper,
    Parakeet,
    Provider,
}

impl EngineKind {
    /// Chunks that wait are joined for the engine.
    pub open spec fn joins_chunks(self) -> bool {
        self == EngineKind::Whisper
    }

    /// Whether batches are made for the engine when it has fallen behind.
    pub fn coalesces_backlog(&self) -> (r: bool)
        ensures
            r == self.joins_chunks(),
            r == (*self == EngineKind::Whisper),
    {
        matches!(*self, EngineKind::Whisper)
    }
}

/// The 32-bit float with this pattern is a number and not below zero.
pub open spec fn is_nonnegative(bits: u32) -> bool {
    bits <= INFINITY_BITS || bits == NEGATIVE_ZERO_BITS
}

/// The 32-bit float with this pattern is a number and at least 0.3.
pub open spec fn reaches_threshold(bits: u32) -> bool {
    CONFIDENCE_THRESHOLD_BITS <= bits <= INFINITY_BITS
}

/// A confidence is accepted: there is none, or it reaches what is asked of the engine.
pub open spec fn confidence_accepted(kind: EngineKind, confidence_bits: Option<u32>) -> bool {
    match confidence_bits {
        None => true,
        Some(bits) => match kind {
            EngineKind::Whisper | EngineKind::Provider => reaches_threshold(bits),
            EngineKind::SenseVoice | EngineKind::Parakeet => is_nonnegative(bits),
        },
    }
}

/// What becomes of a transcript.
#[derive(Debug, Clone, Copy, PartialEq, Eq, Structural)]
pub enum Verdict {
    /// It is saved and shown.
    Publish,
    /// The engine is not sure enough of it.
    BelowThreshold,
    /// It says nothing.
    Empty,
}

impl Verdict {
    /// Why a chunk ends without a text to save.
    pub fn terminal_reason(&self) -> (r: Option<&'static str>)
        ensures
            str_view(r) == match *self {
                Verdict::Publish => None,
                Verdict::BelowThreshold => Some("below_confidence_threshold"@),
                Verdict::Empty => Some("empty_transcript"@),
            },
    {
        match *self {
            Verdict::Publish => None,
            Verdict::BelowThreshold => Some("below_confidence_threshold"),
            Verdict::Empty => Some("empty_transcript"),
        }
    }
}

/// What becomes of a transcript, by its text and its confidence.
pub open spec fn verdict(
    kind: EngineKind,
    transcript: Seq<char>,
    confidence_bits: Option<u32>,
) -> Verdict {
    if text::blank(transcript) {
        Verdict::Empty
    } else if confidence_accepted(kind, confidence_bits) {
        Verdict::Publish
    } else {
        Verdict::BelowThreshold
    }
}

/// Judges a transcript by its text and its confidence.
pub fn judge_transcript(kind: EngineKind, transcript: &str, confidence_bits: Option<u32>) -> (r:
    Verdict)
    ensures
        r == if text::blank(transcript@) {
            Verdict::Empty
        } else if confidence_accepted(kind, confidence_bits) {
            Verdict::Publish
        } else {
            Verdict::BelowThreshold
        },
        r == verdict(kind, transcript@, confidence_bits),
{
    if text::is_blank(transcript) {
        return Verdict::Empty;
    }
    let accepted: bool = match confidence_bits {
        None => true,
        Some(bits) => match kind {
            EngineKind::Whisper | EngineKind::Provider => CONFIDENCE_THRESHOLD_BITS <= bits && bits
                <= INFINITY_BITS,
            EngineKind::SenseVoice | EngineKind::Parakeet => bits <= INFINITY_BITS || bits
                == NEGATIVE_ZERO_BITS,
        },
    };
    if accepted {
        Verdict::Publish
    } else {
        Verdict::BelowThreshold
    }
}

/// What the transcription of a recording has to keep between its batches.
#[derive(Debug, Clone, Copy, PartialEq, Eq, Structural)]
pub struct TranscriptionActivity {
    pub active: bool,
    pub speech_detected: bool,
    pub next_sequence: u64,
}

impl TranscriptionActivity {
    /// A task begins to transcribe.
    pub fn begin(&mut self)
        ensures
            *final(self) == (TranscriptionActivity { active: true, ..*old(self) }),
    {
        self.active = true;
    }

    /// The task is over.
    pub fn end(&mut self)
        ensures
            *final(self) == (TranscriptionActivity { active: false, ..*old(self) }),
    {
        self.active = false;
    }

    /// A number that no row has had.
    pub fn next_sequence_id(&mut self) -> (r: u64)
        ensures
            r == old(self).next_sequence,
            *final(self) == (TranscriptionActivity {
                next_sequence: old(self).next_sequence.wrapping_add(1),
                ..*old(self)
            }),
    {
        let id: u64 = self.next_sequence;
        self.next_sequence = id.wrapping_add(1);
        id
    }

    /// Speech was heard. Returns whether this is the first time in the recording.
    pub fn note_speech(&mut self) -> (first: bool)
        ensures
            first == !old(self).speech_detected,
            *final(self) == (TranscriptionActivity { speech_detected: true, ..*old(self) }),
    {
        let first: bool = !self.speech_detected;
        self.speech_detected = true;
        first
    }
}

/// A new recording starts without speech.
pub fn reset_speech_detected_flag(activity: &mut TranscriptionActivity)
    ensures
        *final(activity) == (TranscriptionActivity { speech_detected: false, ..*old(activity) }),
{
    activity.speech_detected = false;
}

/// How many chunks are pending, and whether a task is at work.
pub fn current_transcription_queue_status<T: Copy>(
    queue: &ChunkQueue<T>,
    activity: &TranscriptionActivity,
) -> (r: (usize, bool))
    ensures
        r.0 == (if queue.completed < queue.queued { queue.queued - queue.completed } else { 0 })
            as usize,
        r.1 == activity.active,
{
    (pending_chunk_count(queue.queued, queue.completed), activity.active)
}

/// The progress of a live session in whole percent.
pub open spec fn live_percentage(completed: u64, queued: u64) -> int {
    completed * 100 / if queued == 0 { 1 } else { queued as int }
}

/// The progress of a live session in whole percent. Without one the progress is shown as a quotient
/// of floating-point numbers.
pub fn live_progress_percentage(completed: u64, queued: u64) -> (r: u128)
    ensures
        r == live_percentage(completed, queued),
{
    completed as u128 * 100 / if queued == 0 { 1 } else { queued as u128 }
}

/// A row of text as it is shown while a recording runs. Times count nanoseconds from the start of
/// the recording, and the confidence is the bit pattern of a 32-bit float.
#[derive(Debug)]
pub struct TranscriptUpdate {
    pub chunk_id: u64,
    pub source_chunk_ids: Vec<u64>,
    pub text: String,
    pub timestamp: String,
    pub source: String,
    pub sequence_id: u64,
    pub chunk_start_ns: u64,
    pub is_partial: bool,
    pub revision: u64,
    pub confidence_bits: u32,
    pub audio_start_ns: u64,
    pub audio_end_ns: u64,
    pub duration_ns: i128,
}

/// What a `TranscriptUpdate` stands for.
#[verifier::ext_equal]
pub struct Update {
    pub chunk_id: u64,
    pub source_chunk_ids: Seq<u64>,
    pub text: Seq<char>,
    pub timestamp: Seq<char>,
    pub source: Seq<char>,
    pub sequence_id: u64,
    pub chunk_start_ns: u64,
    pub is_partial: bool,
    pub revision: u64,
    pub confidence_bits: u32,
    pub audio_start_ns: u64,
    pub audio_end_ns: u64,
    pub duration_ns: int,
}

impl View for TranscriptUpdate {
    type V = Update;

    open spec fn view(&self) -> Update {
        Update {
            chunk_id: self.chunk_id,
            source_chunk_ids: self.source_chunk_ids@,
            text: self.text@,
            timestamp: self.timestamp@,
            source: self.source@,
            sequence_id: self.sequence_id,
            chunk_start_ns: self.chunk_start_ns,
            is_partial: self.is_partial,
            revision: self.revision,
            confidence_bits: self.confidence_bits,
            audio_start_ns: self.audio_start_ns,
            audio_end_ns: self.audio_end_ns,
            duration_ns: self.duration_ns as int,
        }
    }
}

impl Update {
    /// The row that is saved for an update.
    pub open spec fn row(self) -> Row {
        Row {
            id: "seg_"@ + text::decimal_digits(self.sequence_id as nat),
            text: self.text,
            audio_start_ns: self.audio_start_ns,
            audio_end_ns: self.audio_end_ns,
            duration_ns: self.duration_ns,
            display_time: self.timestamp,
            confidence_bits: self.confidence_bits,
            sequence_id: self.sequence_id,
            revision: self.revision,
            is_partial: self.is_partial,
        }
    }
}

impl TranscriptUpdate {
    /// The row that is saved for an update.
    pub fn segment(&self) -> (r: TranscriptSegment)
        ensures
            r@ == self@.row(),
    {
        TranscriptSegment {
            id: text::joined("seg_", text::decimal(self.sequence_id).as_str()),
            text: self.text.clone(),
            audio_start_ns: self.audio_start_ns,
            audio_end_ns: self.audio_end_ns,
            duration_ns: self.duration_ns,
            display_time: self.timestamp.clone(),
            confidence_bits: self.confidence_bits,
            sequence_id: self.sequence_id,
            revision: self.revision,
            is_partial: self.is_partial,
        }
    }
}

/// The update for a batch of speech that begins at `start_ns` and has `samples` samples.
pub open spec fn batch_update(
    source_chunk_ids: Seq<u64>,
    start_ns: u64,
    samples: nat,
    sample_rate: nat,
    transcript: Seq<char>,
    timestamp: Seq<char>,
    confidence_bits: Option<u32>,
    is_partial: bool,
    sequence_id: u64,
) -> Update {
    Update {
        chunk_id: source_chunk_ids[0],
        source_chunk_ids,
        text: transcript,
        timestamp,
        source: "Audio"@,
        sequence_id,
        chunk_start_ns: start_ns,
        is_partial,
        revision: 0,
        confidence_bits: match confidence_bits {
            Some(bits) => bits,
            None => DEFAULT_CONFIDENCE_BITS,
        },
        audio_start_ns: start_ns,
        audio_end_ns: (start_ns + duration_ns(samples, sample_rate)) as u64,
        duration_ns: duration_ns(samples, sample_rate) as int,
    }
}

/// Makes the update for a batch of speech.
pub fn compose_update(
    source_chunk_ids: Vec<u64>,
    start_ns: u64,
    samples: usize,
    sample_rate: u32,
    transcript: String,
    timestamp: String,
    confidence_bits: Option<u32>,
    is_partial: bool,
    sequence_id: u64,
) -> (r: TranscriptUpdate)
    requires
        source_chunk_ids@.len() > 0,
        sample_rate > 0,
        start_ns + duration_ns(samples as nat, sample_rate as nat) <= u64::MAX,
    ensures
        r@ == batch_update(
            source_chunk_ids@,
            start_ns,
            samples as nat,
            sample_rate as nat,
            transcript@,
            timestamp@,
            confidence_bits,
            is_partial,
            sequence_id,
        ),
{
    let duration: u128 = duration_of(samples, sample_rate);
    let end: u64 = (start_ns as u128 + duration) as u64;
    TranscriptUpdate {
        chunk_id: source_chunk_ids[0],
        source_chunk_ids,
        text: transcript,
        timestamp,
        source: "Audio".to_owned(),
        sequence_id,
        chunk_start_ns: start_ns,
        is_partial,
        revision: 0,
        confidence_bits: match confidence_bits {
            Some(bits) => bits,
            None => DEFAULT_CONFIDENCE_BITS,
        },
        audio_start_ns: start_ns,
        audio_end_ns: end,
        duration_ns: duration as i128,
    }
}

/// Whether audio has to be resampled for an engine.
pub fn needs_resampling(sample_rate: u32) -> (r: bool)
    ensures
        r == (sample_rate != ENGINE_SAMPLE_RATE),
{
    sample_rate != ENGINE_SAMPLE_RATE
}

/// What an engine is told of the language.
#[derive(Debug)]
pub struct InferenceLanguage {
    pub language: Option<String>,
    pub applied_to_provider: bool,
}

/// What an engine is told of the language.
pub open spec fn told_language(kind: EngineKind, preference: Option<Seq<char>>) -> Option<
    Seq<char>,
> {
    if kind == EngineKind::Parakeet {
        None
    } else {
        preference
    }
}

/// What an engine is told of the language, if there is any audio for it. Parakeet takes none.
pub fn plan_inference(
    kind: EngineKind,
    sample_count: usize,
    preference: Option<&str>,
) -> (r: Result<InferenceLanguage, TranscriptionError>)
    ensures
        r matches Ok(plan) ==> crate::devices::configuration::text_of(plan.language)
            == told_language(kind, str_view(preference)),
        match r {
            Ok(plan) => {
                &&& sample_count > 0
                &&& crate::devices::configuration::text_of(plan.language) == if kind
                    == EngineKind::Parakeet {
                    None
                } else {
                    str_view(preference)
                }
                &&& plan.applied_to_provider == (kind != EngineKind::Parakeet)
            },
            Err(error) => sample_count == 0 && error@ == (Failure::AudioTooShort {
                samples: 0,
                minimum: MINIMUM_SAMPLES as nat,
            }),
        },
{
    if sample_count == 0 {
        return Err(TranscriptionError::AudioTooShort { samples: 0, minimum: MINIMUM_SAMPLES });
    }
    match kind {
        EngineKind::Parakeet => Ok(
            InferenceLanguage { language: None, applied_to_provider: false },
        ),
        EngineKind::Whisper | EngineKind::Provider | EngineKind::SenseVoice => {
            let language = match preference {
                Some(preference) => Some(preference.to_owned()),
                None => None,
            };
            Ok(InferenceLanguage { language, applied_to_provider: true })
        },
    }
}

/// Why an engine is not asked at all.
pub open spec fn refusal(kind: EngineKind, preference: Option<Seq<char>>) -> Option<Failure> {
    match kind {
        EngineKind::SenseVoice => Some(
            Failure::EngineFailed("SenseVoice live session is unavailable"@),
        ),
        EngineKind::Parakeet => if parakeet_accepts(preference) {
            None
        } else {
            Some(Failure::UnsupportedLanguage(stated_language(preference)->0))
        },
        EngineKind::Whisper | EngineKind::Provider => None,
    }
}

/// Checks whether an engine can be asked: SenseVoice is only used through its live session, and
/// Parakeet only with automatic detection.
pub fn admit_inference(kind: EngineKind, preference: Option<&str>) -> (r: Result<
    (),
    TranscriptionError,
>)
    ensures
        match r {
            Ok(()) => refusal(kind, str_view(preference)) is None,
            Err(error) => refusal(kind, str_view(preference)) == Some(error@),
        },
{
    match kind {
        EngineKind::SenseVoice => Err(
            TranscriptionError::EngineFailed("SenseVoice live session is unavailable".to_owned()),
        ),
        EngineKind::Parakeet => validate_parakeet_language(preference),
        EngineKind::Whisper | EngineKind::Provider => Ok(()),
    }
}

/// What an engine replied. The text of a provider has its terms corrected already.
#[derive(Debug)]
#[allow(inconsistent_fields)]
pub enum EngineReply {
    Whisper {
        text_before_dedup: String,
        text_after_dedup: String,
        confidence_bits: u32,
        is_partial: bool,
    },
    Parakeet { text: String },
    Provider { text: String, confidence_bits: Option<u32>, is_partial: bool },
    /// Whisper or Parakeet failed with this message.
    EngineFailed(String),
    ProviderFailed(TranscriptionError),
}

/// What a batch of speech says, with the texts on both sides of the removal of repetitions.
#[derive(Debug)]
pub struct Transcription {
    pub text: String,
    pub confidence_bits: Option<u32>,
    pub is_partial: bool,
    pub text_before_dedup: String,
    pub text_after_dedup: String,
    pub dedup_trace_status: &'static str,
}

/// What a `Transcription` stands for.
#[verifier::ext_equal]
pub struct Said {
    pub text: Seq<char>,
    pub confidence_bits: Option<u32>,
    pub is_partial: bool,
    pub text_before_dedup: Seq<char>,
    pub text_after_dedup: Seq<char>,
    pub dedup_trace_status: Seq<char>,
}

impl View for Transcription {
    type V = Said;

    open spec fn view(&self) -> Said {
        Said {
            text: self.text@,
            confidence_bits: self.confidence_bits,
            is_partial: self.is_partial,
            text_before_dedup: self.text_before_dedup@,
            text_after_dedup: self.text_after_dedup@,
            dedup_trace_status: self.dedup_trace_status@,
        }
    }
}

/// What a reply amounts to.
pub open spec fn concluded(reply: EngineReply) -> Result<Said, Failure> {
    match reply {
        EngineReply::Whisper { text_before_dedup, text_after_dedup, confidence_bits, is_partial }
        => Ok(
            Said {
                text: text::trimmed(text_after_dedup@),
                confidence_bits: Some(confidence_bits),
                is_partial,
                text_before_dedup: text_before_dedup@,
                text_after_dedup: text::trimmed(text_after_dedup@),
                dedup_trace_status: "captured_whisper_engine"@,
            },
        ),
        EngineReply::Parakeet { text } => Ok(
            Said {
                text: text::trimmed(text@),
                confidence_bits: None,
                is_partial: false,
                text_before_dedup: text::trimmed(text@),
                text_after_dedup: text::trimmed(text@),
                dedup_trace_status: "not_applicable_parakeet"@,
            },
        ),
        EngineReply::Provider { text, confidence_bits, is_partial } => Ok(
            Said {
                text: text::trimmed(text@),
                confidence_bits,
                is_partial,
                text_before_dedup: text::trimmed(text@),
                text_after_dedup: text::trimmed(text@),
                dedup_trace_status: "provider_does_not_expose_dedup_boundary"@,
            },
        ),
        EngineReply::EngineFailed(message) => Err(Failure::EngineFailed(message@)),
        EngineReply::ProviderFailed(error) => Err(error@),
    }
}

/// Takes an engine's reply in.
pub fn conclude_reply(reply: EngineReply) -> (r: Result<
    Transcription,
    TranscriptionError,
>)
    ensures
        match r {
            Ok(transcription) => concluded(reply) == Ok::<Said, Failure>(transcription@),
            Err(error) => concluded(reply) == Err::<Said, Failure>(error@),
        },
{
    match reply {
        EngineReply::Whisper { text_before_dedup, text_after_dedup, confidence_bits, is_partial }
        => {
            let cleaned = text::trim(text_after_dedup.as_str());
            Ok(
                Transcription {
                    text: cleaned.clone(),
                    confidence_bits: Some(confidence_bits),
                    is_partial,
                    text_before_dedup,
                    text_after_dedup: cleaned,
                    dedup_trace_status: "captured_whisper_engine",
                },
            )
        },
        EngineReply::Parakeet { text } => {
            let cleaned = text::trim(text.as_str());
            Ok(
                Transcription {
                    text: cleaned.clone(),
                    confidence_bits: None,
                    is_partial: false,
                    text_before_dedup: cleaned.clone(),
                    text_after_dedup: cleaned,
                    dedup_trace_status: "not_applicable_parakeet",
                },
            )
        },
        EngineReply::Provider { text, confidence_bits, is_partial } => {
            let cleaned = text::trim(text.as_str());
            Ok(
                Transcription {
                    text: cleaned.clone(),
                    confidence_bits,
                    is_partial,
                    text_before_dedup: cleaned.clone(),
                    text_after_dedup: cleaned,
                    dedup_trace_status: "provider_does_not_expose_dedup_boundary",
                },
            )
        },
        EngineReply::EngineFailed(message) => Err(TranscriptionError::EngineFailed(message)),
        EngineReply::ProviderFailed(error) => Err(error),
    }
}

/// What comes of a batch for an engine.
#[derive(Debug)]
pub struct Inference {
    /// What the engine is told of the language. It is put on record before the engine is asked, and
    /// also where it then is not; without any audio there is nothing to put on record.
    pub begun: Option<InferenceLanguage>,
    /// The engine was asked.
    pub asked: bool,
    pub result: Result<Transcription, TranscriptionError>,
}

/// What comes of a batch with so many samples, where the engine would give this reply: a batch
/// without audio is too short, an engine that is not to be asked fails for that reason, and else
/// the reply decides.
pub open spec fn inferred(
    kind: EngineKind,
    sample_count: nat,
    preference: Option<Seq<char>>,
    reply: EngineReply,
) -> Result<Said, Failure> {
    if sample_count == 0 {
        Err(Failure::AudioTooShort { samples: 0, minimum: MINIMUM_SAMPLES as nat })
    } else {
        match refusal(kind, preference) {
            Some(failure) => Err(failure),
            None => concluded(reply),
        }
    }
}

/// Transcribes a batch, given the reply that its engine gives when it is asked.
pub fn transcribe_chunk_with_provider(
    kind: EngineKind,
    sample_count: usize,
    preference: Option<&str>,
    reply: EngineReply,
) -> (r: Inference)
    ensures
        match r.result {
            Ok(transcription) => inferred(kind, sample_count as nat, str_view(preference), reply)
                == Ok::<Said, Failure>(transcription@),
            Err(error) => inferred(kind, sample_count as nat, str_view(preference), reply)
                == Err::<Said, Failure>(error@),
        },
        r.asked == (sample_count > 0 && refusal(kind, str_view(preference)) is None),
        match r.begun {
            Some(plan) => {
                &&& sample_count > 0
                &&& crate::devices::configuration::text_of(plan.language) == if kind
                    == EngineKind::Parakeet {
                    None
                } else {
                    str_view(preference)
                }
                &&& plan.applied_to_provider == (kind != EngineKind::Parakeet)
            },
            None => sample_count == 0,
        },
{
    let plan = match plan_inference(kind, sample_count, preference) {
        Ok(plan) => plan,
        Err(error) => {
            return Inference { begun: None, asked: false, result: Err(error) };
        },
    };
    if let Err(error) = admit_inference(kind, preference) {
        return Inference { begun: Some(plan), asked: false, result: Err(error) };
    }
    Inference { begun: Some(plan), asked: true, result: conclude_reply(reply) }
}

/// What the user is told of a failure.
#[derive(Debug)]
pub struct FailureNotice {
    pub user_message: String,
    pub actionable: bool,
}

/// What the user is told of a failure, and whether something can be done about it.
pub open spec fn told_failure(
    kind: EngineKind,
    asked: bool,
    failure: Failure,
    description: Seq<char>,
) -> Option<(Seq<char>, bool)> {
    match (kind, failure) {
        (EngineKind::SenseVoice, _) => None,
        (_, Failure::AudioTooShort { .. }) if !asked => None,
        (EngineKind::Parakeet, Failure::UnsupportedLanguage(_)) => Some(
            (
                "Transcription failed: "@ + description
                    + ". Select automatic detection or use Whisper for Chinese/manual language selection."@,
                true,
            ),
        ),
        _ => Some(("Transcription failed: "@ + description, false)),
    }
}

/// The notice for a failure of a batch, for which the engine was `asked`, or was not.
/// `description` is the failure in words. Where Parakeet refused the language, the user can do
/// something about it; a missing SenseVoice session, and audio for which no engine was asked, are
/// not shown.
pub fn failure_notice(
    kind: EngineKind,
    asked: bool,
    error: &TranscriptionError,
    description: &str,
) -> (r: Option<FailureNotice>)
    ensures
        match r {
            Some(notice) => told_failure(kind, asked, error@, description@) == Some(
                (notice.user_message@, notice.actionable)),
            None => told_failure(kind, asked, error@, description@) is None,
        },
        match (kind, error@) {
            (EngineKind::SenseVoice, _) => r is None,
            (_, Failure::AudioTooShort { .. }) if !asked => r is None,
            (EngineKind::Parakeet, Failure::UnsupportedLanguage(_)) => r matches Some(notice)
                && notice.actionable && notice.user_message@ == "Transcription failed: "@
                + description@
                + ". Select automatic detection or use Whisper for Chinese/manual language selection."@,
            _ => r matches Some(notice) && !notice.actionable && notice.user_message@
                == "Transcription failed: "@ + description@,
        },
{
    let plain = text::joined("Transcription failed: ", description);
    match (kind, error) {
        (EngineKind::SenseVoice, _) => None,
        (_, TranscriptionError::AudioTooShort { .. }) if !asked => None,
        (EngineKind::Parakeet, TranscriptionError::UnsupportedLanguage(_)) => Some(
            FailureNotice {
                user_message: text::joined(
                    plain.as_str(),
                    ". Select automatic detection or use Whisper for Chinese/manual language selection.",
                ),
                actionable: true,
            },
        ),
        _ => Some(FailureNotice { user_message: plain, actionable: false }),
    }
}

/// Whether a failed batch is worth a warning and a report of progress. Audio that is too short and
/// a model that was unloaded are only counted.
pub fn failure_is_reported(error: &TranscriptionError) -> (r: bool)
    ensures
        r == !(error@ is AudioTooShort || error@ is ModelNotLoaded),
{
    !matches!(error, TranscriptionError::AudioTooShort { .. } | TranscriptionError::ModelNotLoaded)
}

/// How the transcription of a batch ended.
#[derive(Debug)]
pub enum BatchResult {
    /// The model was unloaded before the batch was looked at.
    ModelUnloaded,
    /// The engine gave this text, with the terms of the meeting put right.
    Transcribed { transcript: String, confidence_bits: Option<u32>, is_partial: bool },
    Failed(TranscriptionError),
    /// A live session took the batch in, or failed to; it has shown text, or not.
    TakenLive { taken: Result<(), String>, has_text: bool },
}

/// What is to be done about a batch.
#[derive(Debug)]
pub struct BatchReport {
    /// The row to save and show.
    pub update: Option<TranscriptUpdate>,
    /// Speech was heard for the first time in the recording.
    pub announce_speech: bool,
    /// Why the chunks end without a row.
    pub terminal_reason: Option<&'static str>,
    /// What the writer of text is told.
    pub writer_error: Option<&'static str>,
    /// What went wrong with the live session.
    pub notice: Option<TaskNotice>,
    /// The user is warned of the failure.
    pub warn: bool,
    /// The progress is reported.
    pub report_progress: bool,
}

/// The transcript of a batch is saved and shown.
pub open spec fn publishes(kind: EngineKind, result: BatchResult) -> bool {
    result matches BatchResult::Transcribed { transcript, confidence_bits, .. } && !text::blank(
        transcript@) && confidence_accepted(kind, confidence_bits)
}

/// Speech was heard in a batch.
pub open spec fn heard_speech(kind: EngineKind, result: BatchResult) -> bool {
    publishes(kind, result) || (result matches BatchResult::TakenLive { has_text, .. }
        && has_text)
}

/// Why the chunks of a batch end without a row.
pub open spec fn terminal_reason(kind: EngineKind, result: BatchResult) -> Option<Seq<char>> {
    match result {
        BatchResult::ModelUnloaded => Some("model_unloaded"@),
        BatchResult::Failed(_) => Some("transcription_failed"@),
        BatchResult::TakenLive { .. } => None,
        BatchResult::Transcribed { transcript, confidence_bits, .. } => if text::blank(
            transcript@) {
            Some("empty_transcript"@)
        } else if confidence_accepted(kind, confidence_bits) {
            None
        } else {
            Some("below_confidence_threshold"@)
        },
    }
}

/// What went wrong with the live session when it was given a batch.
pub open spec fn live_trouble(result: BatchResult) -> Option<(Trouble, Seq<char>)> {
    match result {
        BatchResult::TakenLive { taken: Err(error), .. } => Some(
            (Trouble::ChunkNotTaken, error@),
        ),
        _ => None,
    }
}

/// The progress is reported after a batch.
pub open spec fn progress_due(result: BatchResult) -> bool {
    match result {
        BatchResult::ModelUnloaded => false,
        BatchResult::Failed(error) => !(error@ is AudioTooShort || error@ is ModelNotLoaded),
        _ => true,
    }
}

/// Settles a batch: its chunks count as dealt with, however the transcription ended.
pub fn settle_batch<T: Copy>(
    queue: &mut ChunkQueue<T>,
    activity: &mut TranscriptionActivity,
    kind: EngineKind,
    source_chunk_ids: Vec<u64>,
    start_ns: u64,
    samples: usize,
    sample_rate: u32,
    result: BatchResult,
    timestamp: String,
) -> (r: BatchReport)
    requires
        old(queue).wf(),
        0 < source_chunk_ids@.len() <= old(queue).outstanding(),
        publishes(kind, result) ==> sample_rate > 0 && start_ns + duration_ns(
            samples as nat, sample_rate as nat) <= u64::MAX,
    ensures
        final(queue).wf(),
        *final(queue) == (ChunkQueue {
            completed: (old(queue).completed + source_chunk_ids@.len()) as u64,
            ..*old(queue)
        }),
        match r.update {
            Some(update) => publishes(kind, result) && (
            result matches BatchResult::Transcribed { transcript, confidence_bits, is_partial }
                && update@ == batch_update(
                source_chunk_ids@,
                start_ns,
                samples as nat,
                sample_rate as nat,
                transcript@,
                timestamp@,
                confidence_bits,
                is_partial,
                old(activity).next_sequence,
            )),
            None => !publishes(kind, result),
        },
        r.announce_speech == (heard_speech(kind, result) && !old(activity).speech_detected),
        str_view(r.terminal_reason) == terminal_reason(kind, result),
        str_view(r.writer_error) == writer_told(result),
        r.warn == warns(result),
        r.announce_speech == announces(kind, result, *old(activity)),
        *final(activity) == activity_after(kind, result, *old(activity)),
        str_view(r.writer_error) == if result is ModelUnloaded {
            Some("The transcription model was unloaded before queued audio was processed"@)
        } else {
            None
        },
        notice_view(r.notice) == live_trouble(result),
        r.warn == (result is Failed && progress_due(result)),
        r.report_progress == progress_due(result),
        *final(activity) == (TranscriptionActivity {
            speech_detected: old(activity).speech_detected || heard_speech(kind, result),
            next_sequence: if publishes(kind, result) {
                old(activity).next_sequence.wrapping_add(1)
            } else {
                old(activity).next_sequence
            },
            ..*old(activity)
        }),
{
    queue.mark_chunks_completed(source_chunk_ids.len() as u64);
    match result {
        BatchResult::ModelUnloaded => BatchReport {
            update: None,
            announce_speech: false,
            terminal_reason: Some("model_unloaded"),
            writer_error: Some(
                "The transcription model was unloaded before queued audio was processed",
            ),
            notice: None,
            warn: false,
            report_progress: false,
        },
        BatchResult::Failed(error) => {
            let reported: bool = failure_is_reported(&error);
            BatchReport {
                update: None,
                announce_speech: false,
                terminal_reason: Some("transcription_failed"),
                writer_error: None,
                notice: None,
                warn: reported,
                report_progress: reported,
            }
        },
        BatchResult::TakenLive { taken, has_text } => {
            let notice = match taken {
                Ok(_) => None,
                Err(error) => Some(TaskNotice { trouble: Trouble::ChunkNotTaken, error }),
            };
            let announce_speech: bool = if has_text { activity.note_speech() } else { false };
            BatchReport {
                update: None,
                announce_speech,
                terminal_reason: None,
                writer_error: None,
                notice,
                warn: false,
                report_progress: true,
            }
        },
        BatchResult::Transcribed { transcript, confidence_bits, is_partial } => {
            let verdict = judge_transcript(kind, transcript.as_str(), confidence_bits);
            if !matches!(verdict, Verdict::Publish) {
                return BatchReport {
                    update: None,
                    announce_speech: false,
                    terminal_reason: verdict.terminal_reason(),
                    writer_error: None,
                    notice: None,
                    warn: false,
                    report_progress: true,
                };
            }
            let announce_speech: bool = activity.note_speech();
            let sequence_id: u64 = activity.next_sequence_id();
            let update = compose_update(
                source_chunk_ids,
                start_ns,
                samples,
                sample_rate,
                transcript,
                timestamp,
                confidence_bits,
                is_partial,
                sequence_id,
            );
            BatchReport {
                update: Some(update),
                announce_speech,
                terminal_reason: None,
                writer_error: None,
                notice: None,
                warn: false,
                report_progress: true,
            }
        },
    }
}

/// Hours, minutes and seconds of a day, two digits each.
pub open spec fn clock_text(unix_seconds: nat) -> Seq<char> {
    two_digits(unix_seconds / 3600 % 24) + ":"@ + two_digits(unix_seconds / 60 % 60) + ":"@
        + two_digits(unix_seconds % 60)
}

/// A number with at least two digits.
pub open spec fn two_digits(n: nat) -> Seq<char> {
    text::zero_padded(text::decimal_digits(n), 2)
}

/// The time of day in coordinated universal time, from the seconds since 1970.
pub fn format_timestamp(unix_seconds: u64) -> (r: String)
    ensures
        r@ == clock_text(unix_seconds as nat),
{
    let mut r = text::padded_decimal(unix_seconds / 3600 % 24, 2);
    r.append(":");
    r.append(text::padded_decimal(unix_seconds / 60 % 60, 2).as_str());
    r.append(":");
    r.append(text::padded_decimal(unix_seconds % 60, 2).as_str());
    r
}

/// The present time of day.
pub fn format_current_timestamp() -> (r: String)
    ensures
        exists|seconds: u64| r@ == #[trigger] clock_text(seconds as nat),
{
    let seconds: u64 = match since_epoch(&system_now()) {
        Some(passed) => whole_seconds(&passed),
        None => 0,
    };
    format_timestamp(seconds)
}

/// A position in a recording as minutes and seconds in square brackets.
pub fn format_recording_time(total_seconds: u64) -> (r: String)
    ensures
        r@ == "["@ + two_digits(total_seconds as nat / 60) + ":"@ + two_digits(
            total_seconds as nat % 60) + "]"@,
{
    let mut r = text::joined("[", text::padded_decimal(total_seconds / 60, 2).as_str());
    r.append(":");
    r.append(text::padded_decimal(total_seconds % 60, 2).as_str());
    r.append("]");
    r
}

/// Law: a transcript is never held back where the engine gives no confidence, nor with the
/// confidence that is shown in that case.
pub proof fn missing_confidence_is_accepted(kind: EngineKind)
    ensures
        confidence_accepted(kind, None),
        confidence_accepted(kind, Some(DEFAULT_CONFIDENCE_BITS)),
{
}

/// Law: what Whisper's reply says is its text after the removal of repetitions, without the white
/// space around it, and with its own confidence. The text from before that removal is only put on
/// record: whatever it is, it changes nothing else.
pub proof fn repetitions_are_not_published(
    before: String,
    other: String,
    after: String,
    confidence_bits: u32,
    is_partial: bool,
) -> (space: (Seq<char>, Seq<char>))
    ensures
        ({
            let reply = EngineReply::Whisper {
                text_before_dedup: before,
                text_after_dedup: after,
                confidence_bits,
                is_partial,
            };
            let repeated = EngineReply::Whisper {
                text_before_dedup: other,
                text_after_dedup: after,
                confidence_bits,
                is_partial,
            };
            &&& concluded(reply) matches Ok(said) && {
                &&& said.text == said.text_after_dedup
                &&& after@ == space.0 + said.text + space.1
                &&& text::blank(space.0) && text::blank(space.1)
                &&& said.text.len() > 0 ==> !text::white_space(said.text[0])
                    && !text::white_space(said.text.last())
                &&& said.text_before_dedup == before@
                &&& said.confidence_bits == Some(confidence_bits)
                &&& said.is_partial == is_partial
                &&& said.dedup_trace_status == "captured_whisper_engine"@
                &&& concluded(repeated) matches Ok(same) && said == (Said {
                    text_before_dedup: before@,
                    ..same
                })
            }
        }),
{
    text::trimming_takes_only_white_space(after@)
}

/// Law: what Parakeet or a provider says is the text of its reply without the white space around
/// it. Parakeet gives no confidence and only final texts; a provider's are its own.
pub proof fn other_engines_are_taken_at_their_word(
    text: String,
    confidence_bits: Option<u32>,
    is_partial: bool,
) -> (space: (Seq<char>, Seq<char>))
    ensures
        text::blank(space.0) && text::blank(space.1),
        concluded(EngineReply::Parakeet { text }) matches Ok(said) && {
            &&& text@ == space.0 + said.text + space.1
            &&& said.text.len() > 0 ==> !text::white_space(said.text[0]) && !text::white_space(
                said.text.last())
            &&& said.text_before_dedup == said.text && said.text_after_dedup == said.text
            &&& said.confidence_bits is None && !said.is_partial
        },
        concluded(EngineReply::Provider { text, confidence_bits, is_partial }) matches Ok(said) && {
            &&& text@ == space.0 + said.text + space.1
            &&& said.text.len() > 0 ==> !text::white_space(said.text[0]) && !text::white_space(
                said.text.last())
            &&& said.text_before_dedup == said.text && said.text_after_dedup == said.text
            &&& said.confidence_bits == confidence_bits && said.is_partial == is_partial
        },
{
    text::trimming_takes_only_white_space(text@)
}

/// Law: an engine's own failure is passed on as it is, and never becomes a text.
pub proof fn failures_are_passed_on(message: String, error: TranscriptionError)
    ensures
        concluded(EngineReply::EngineFailed(message)) == Err::<Said, Failure>(
            Failure::EngineFailed(message@)),
        concluded(EngineReply::ProviderFailed(error)) == Err::<Said, Failure>(error@),
{
}

/// Law: without audio no reply counts, SenseVoice is never asked for a batch, and Parakeet only
/// without a language of its own; Whisper and a provider are asked in every language, and then
/// their reply alone decides.
pub proof fn the_reply_counts_where_the_engine_is_asked(
    kind: EngineKind,
    samples: nat,
    preference: Option<Seq<char>>,
    other: Option<Seq<char>>,
    reply: EngineReply,
)
    ensures
        inferred(kind, 0, preference, reply) == Err::<Said, Failure>(
            Failure::AudioTooShort { samples: 0, minimum: 1_600 }),
        samples > 0 && (kind == EngineKind::Whisper || kind == EngineKind::Provider) ==> inferred(
            kind, samples, preference, reply) == concluded(reply) && inferred(
            kind, samples, other, reply) == concluded(reply),
        inferred(EngineKind::SenseVoice, samples, preference, reply) is Err,
        samples > 0 ==> inferred(EngineKind::Parakeet, samples, None, reply) == concluded(reply),
        samples > 0 && inferred(EngineKind::Parakeet, samples, preference, reply) != concluded(
            reply) ==> inferred(EngineKind::Parakeet, samples, preference, reply) matches Err(
            Failure::UnsupportedLanguage(_)),
{
}

/// Law: a transcript is published exactly when it says something and its engine is sure of it:
/// Whisper and a provider of at least 0.3, SenseVoice and Parakeet of any number from zero on, and
/// all of them where there is no confidence. A float's bit pattern grows with it, from zero to
/// infinity.
pub proof fn only_sure_texts_are_published(
    transcript: String,
    confidence_bits: u32,
    is_partial: bool,
)
    ensures
        ({
            let sure = BatchResult::Transcribed { transcript, confidence_bits: None, is_partial };
            let unsure = BatchResult::Transcribed {
                transcript,
                confidence_bits: Some(confidence_bits),
                is_partial,
            };
            let says = exists|i: int|
                0 <= i < transcript@.len() && !text::white_space(#[trigger] transcript@[i]);
            &&& forall|kind: EngineKind| #[trigger] publishes(kind, sure) <==> says
            &&& publishes(EngineKind::Whisper, unsure) <==> says && 0x3E99_999A <= confidence_bits
                <= 0x7F80_0000
            &&& publishes(EngineKind::Provider, unsure) <==> says && 0x3E99_999A
                <= confidence_bits <= 0x7F80_0000
            &&& publishes(EngineKind::Parakeet, unsure) <==> says && (confidence_bits
                <= 0x7F80_0000 || confidence_bits == 0x8000_0000)
            &&& publishes(EngineKind::SenseVoice, unsure) <==> says && (confidence_bits
                <= 0x7F80_0000 || confidence_bits == 0x8000_0000)
            &&& forall|kind: EngineKind| #[trigger] verdict(kind, transcript@, Some(confidence_bits))
                == Verdict::Publish <==> publishes(kind, unsure)
            &&& forall|kind: EngineKind| #[trigger] verdict(kind, transcript@, None)
                == Verdict::Empty <==> !says
        }),
{
}

/// Law: every batch ends in exactly one way: with a row, with a reason why there is none, or in the
/// hands of a live session. A batch that failed or was never looked at has no row.
pub proof fn every_batch_ends_in_one_way(kind: EngineKind, result: BatchResult)
    ensures
        publishes(kind, result) ==> result is Transcribed,
        publishes(kind, result) <==> terminal_reason(kind, result) is None && !(
        result is TakenLive),
        result is Failed ==> terminal_reason(kind, result) == Some("transcription_failed"@),
        result is ModelUnloaded ==> terminal_reason(kind, result) == Some("model_unloaded"@),
        result is TakenLive ==> terminal_reason(kind, result) is None,
        result matches BatchResult::Transcribed { transcript, confidence_bits, .. } ==> {
            &&& (terminal_reason(kind, result) == Some("empty_transcript"@) || !text::blank(
                transcript@))
            &&& (terminal_reason(kind, result) is Some && !text::blank(transcript@)
                ==> terminal_reason(kind, result) == Some("below_confidence_threshold"@)
                && confidence_bits is Some)
        },
        publishes(kind, result) ==> heard_speech(kind, result),
        result is Failed || result is ModelUnloaded ==> !heard_speech(kind, result),
        result matches BatchResult::TakenLive { taken, has_text } ==> heard_speech(kind, result)
            == has_text && live_trouble(result) is Some == taken is Err,
        !(result is TakenLive) ==> live_trouble(result) is None,
{
    reveal_strlit("empty_transcript");
    reveal_strlit("below_confidence_threshold");
    assert("empty_transcript"@[0] != "below_confidence_threshold"@[0]);
}

/// Law: progress is shown after every batch, but not where the audio was too short or the model was
/// gone.
pub proof fn progress_is_shown_after_real_work(kind: EngineKind, result: BatchResult)
    ensures
        result is Transcribed || result is TakenLive ==> progress_due(result),
        result is ModelUnloaded ==> !progress_due(result),
        result matches BatchResult::Failed(error) ==> (progress_due(result) <==> !(error@
            is AudioTooShort) && !(error@ is ModelNotLoaded)),
{
}

/// Law: a row of a batch says what was said, where it was said, for as long as its audio lasts, and
/// names the chunks that it comes from. It is final if the engine says so, and its confidence is
/// the engine's, or 0.85 where the engine gives none. What is saved of it is the same.
pub proof fn rows_tell_what_was_said_and_when(
    source_chunk_ids: Seq<u64>,
    start_ns: u64,
    samples: nat,
    sample_rate: nat,
    transcript: Seq<char>,
    timestamp: Seq<char>,
    confidence_bits: Option<u32>,
    is_partial: bool,
    sequence_id: u64,
)
    requires
        source_chunk_ids.len() > 0,
        sample_rate > 0,
        start_ns + duration_ns(samples, sample_rate) <= u64::MAX,
    ensures
        ({
            let update = batch_update(
                source_chunk_ids, start_ns, samples, sample_rate, transcript, timestamp,
                confidence_bits, is_partial, sequence_id);
            let row = update.row();
            let length = (update.audio_end_ns - start_ns) as int;
            &&& update.text == transcript && update.timestamp == timestamp
            &&& update.source_chunk_ids == source_chunk_ids
            &&& update.source_chunk_ids.first() == update.chunk_id
            &&& update.audio_start_ns == start_ns && update.chunk_start_ns == start_ns
            &&& update.duration_ns == length
            &&& 0 <= length && length * sample_rate <= samples * 1_000_000_000 < (length + 1)
                * sample_rate
            &&& update.is_partial == is_partial && update.revision == 0
            &&& update.sequence_id == sequence_id
            &&& confidence_bits matches Some(bits) ==> update.confidence_bits == bits
            &&& confidence_bits is None ==> update.confidence_bits == 0x3F59_999A
            &&& row.text == update.text && row.display_time == update.timestamp
            &&& row.audio_start_ns == update.audio_start_ns && row.audio_end_ns
                == update.audio_end_ns && row.duration_ns == update.duration_ns
            &&& row.sequence_id == update.sequence_id && row.revision == update.revision
                && row.is_partial == update.is_partial
            &&& row.confidence_bits == update.confidence_bits
        }),
{
    crate::audio_chunk::samples_last_as_long_as_their_rate_says(samples, sample_rate);
}

/// Law: the progress of a live session is the share of its chunks that are dealt with, in whole
/// percent and never rounded up.
pub proof fn live_progress_is_a_share(completed: u64, queued: u64)
    ensures
        queued > 0 ==> live_percentage(completed, queued) * queued <= completed * 100
            && completed * 100 < (live_percentage(completed, queued) + 1) * queued,
        queued > 0 ==> live_percentage(queued, queued) == 100,
        live_percentage(0, queued) == 0,
{
    if queued > 0 {
        let total = (completed * 100) as int;
        let d = total / queued as int;
        vstd::arithmetic::div_mod::lemma_fundamental_div_mod(total, queued as int);
        vstd::arithmetic::div_mod::lemma_mod_bound(total, queued as int);
        assert(queued * d == d * queued && (d + 1) * queued == d * queued + queued)
            by (nonlinear_arith);
        vstd::arithmetic::div_mod::lemma_div_multiples_vanish(100, queued as int);
        assert(0int / (queued as int) == 0) by {
            vstd::arithmetic::div_mod::lemma_div_basics(queued as int);
        }
    }
}

/// Law: the user's language goes to every engine but Parakeet, which is told none.
pub proof fn the_language_goes_to_the_engine(kind: EngineKind, preference: Option<Seq<char>>)
    ensures
        told_language(EngineKind::Parakeet, preference) is None,
        kind != EngineKind::Parakeet ==> told_language(kind, preference) == preference,
        told_language(kind, None) is None,
{
}

/// Law: every failure of an engine that was asked is told, in words and with its description, but
/// for SenseVoice; only a language that Parakeet does not take is one that the user can change.
pub proof fn failures_are_told(
    kind: EngineKind,
    asked: bool,
    failure: Failure,
    description: Seq<char>,
)
    ensures
        kind == EngineKind::SenseVoice ==> told_failure(kind, asked, failure, description) is None,
        asked && kind != EngineKind::SenseVoice ==> told_failure(
            kind, asked, failure, description) is Some,
        told_failure(kind, asked, failure, description) is None && kind != EngineKind::SenseVoice
            ==> failure is AudioTooShort && !asked,
        told_failure(kind, asked, failure, description) matches Some(told) ==> {
            let start = "Transcription failed: "@ + description;
            &&& told.0.len() >= start.len() && told.0.take(start.len() as int) == start
            &&& told.1 <==> kind == EngineKind::Parakeet && failure is UnsupportedLanguage
            &&& !told.1 ==> told.0 == start
        },
{
    let start = "Transcription failed: "@ + description;
    if let Some(told) = told_failure(kind, asked, failure, description) {
        assert(told.0.take(start.len() as int) =~= start);
    }
}

/// Law: chunks that wait are joined for Whisper, and for no other engine.
pub proof fn only_whisper_gets_joined_chunks(kind: EngineKind)
    ensures
        EngineKind::Whisper.joins_chunks(),
        kind.joins_chunks() ==> kind != EngineKind::SenseVoice && kind != EngineKind::Parakeet && kind
            != EngineKind::Provider,
{
}

/// Law: a time of day is written as two digits each of its hour, minute and second, which stand for
/// the seconds since midnight.
pub proof fn clock_texts_tell_the_time(unix_seconds: nat)
    ensures
        ({
            let clock = clock_text(unix_seconds);
            &&& clock.len() == 8 && clock[2] == ':' && clock[5] == ':'
            &&& text::value_of(clock.subrange(0, 2)) * 3600 + text::value_of(clock.subrange(3, 5))
                * 60 + text::value_of(clock.subrange(6, 8)) == unix_seconds % 86400
        }),
{
    let h = unix_seconds / 3600 % 24;
    let m = unix_seconds / 60 % 60;
    let s = unix_seconds % 60;
    text::two_digits_stand_for_their_number(h);
    text::two_digits_stand_for_their_number(m);
    text::two_digits_stand_for_their_number(s);
    reveal_strlit(":");
    let clock = clock_text(unix_seconds);
    assert(clock.subrange(0, 2) =~= two_digits(h));
    assert(clock.subrange(3, 5) =~= two_digits(m));
    assert(clock.subrange(6, 8) =~= two_digits(s));
    seconds_of_the_day(unix_seconds);
}

proof fn seconds_of_the_day(n: nat)
    ensures
        (n / 3600 % 24) * 3600 + (n / 60 % 60) * 60 + n % 60 == n % 86400,
{
    let minutes = n / 60;
    let hours = minutes / 60;
    let days = hours / 24;
    assert(n / 3600 == hours);
    assert(n == 86400 * days + 3600 * (hours % 24) + 60 * (minutes % 60) + n % 60);
    assert(n % 86400 == 3600 * (hours % 24) + 60 * (minutes % 60) + n % 60);
}

/// What the writer of text is told of a batch.
pub open spec fn writer_told(result: BatchResult) -> Option<Seq<char>> {
    if result is ModelUnloaded {
        Some("The transcription model was unloaded before queued audio was processed"@)
    } else {
        None
    }
}

/// The user is warned of a batch.
pub open spec fn warns(result: BatchResult) -> bool {
    result is Failed && progress_due(result)
}

/// Law: audio that no model was there for is told to the writer of text, so that the recording is
/// not taken for complete; the user is warned of a batch exactly when an engine failed on it.
pub proof fn unprocessed_audio_is_told_to_the_writer(result: BatchResult)
    ensures
        writer_told(result) is Some <==> result is ModelUnloaded,
        warns(result) ==> result is Failed,
        result matches BatchResult::Failed(error) ==> (warns(result) <==> !(error@ is AudioTooShort)
            && !(error@ is ModelNotLoaded)),
{
}

/// The user is told that speech was heard.
pub open spec fn announces(
    kind: EngineKind,
    result: BatchResult,
    activity: TranscriptionActivity,
) -> bool {
    heard_speech(kind, result) && !activity.speech_detected
}

/// What is kept between two batches.
pub open spec fn activity_after(
    kind: EngineKind,
    result: BatchResult,
    activity: TranscriptionActivity,
) -> TranscriptionActivity {
    TranscriptionActivity {
        speech_detected: activity.speech_detected || heard_speech(kind, result),
        next_sequence: if publishes(kind, result) {
            activity.next_sequence.wrapping_add(1)
        } else {
            activity.next_sequence
        },
        ..activity
    }
}

/// Law: every row gets a number of its own: a batch with a row takes up one, any other none. That
/// speech was heard is told once in a recording.
pub proof fn rows_of_batches_have_their_own_numbers(
    kind: EngineKind,
    result: BatchResult,
    later: BatchResult,
    activity: TranscriptionActivity,
)
    requires
        activity.next_sequence < u64::MAX,
    ensures
        ({
            let after = activity_after(kind, result, activity);
            &&& publishes(kind, result) ==> after.next_sequence == activity.next_sequence + 1
            &&& !publishes(kind, result) ==> after.next_sequence == activity.next_sequence
            &&& after.active == activity.active
            &&& announces(kind, result, activity) ==> after.speech_detected && !announces(
                kind, later, after)
            &&& activity.speech_detected ==> !announces(kind, result, activity)
                && after.speech_detected
            &&& publishes(kind, result) && !activity.speech_detected ==> announces(
                kind, result, activity)
        }),
{
}

} // verus!
