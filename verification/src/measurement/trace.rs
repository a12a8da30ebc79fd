//! What happens to each chunk of a measured recording.

use vstd::prelude::*;

use crate::devices::configuration::{clone_text, text_of};

verus! {

/// What happened to one chunk. Instants count nanoseconds from the start of the measurement.
#[derive(Debug)]
pub struct ChunkMeasurementTrace {
    pub chunk_id: u64,
    pub source_chunk_ids: Vec<u64>,
    pub source_sample_start: Option<u64>,
    pub source_sample_end: Option<u64>,
    pub sample_rate_hz: Option<u32>,
    pub overlap_samples: u64,
    pub vad_decision: Option<String>,
    pub vad_exclusion_reason: Option<String>,
    pub enqueued_at_monotonic_ns: Option<u64>,
    pub dequeued_at_monotonic_ns: Option<u64>,
    pub inference_started_at_monotonic_ns: Option<u64>,
    pub inference_finished_at_monotonic_ns: Option<u64>,
    pub inference_batch_chunk_id: Option<u64>,
    pub inference_sample_start: Option<u64>,
    pub inference_sample_end: Option<u64>,
    pub inference_sample_count: Option<u64>,
    pub inference_pcm_sha256: Option<String>,
    pub transcription_provider: Option<String>,
    pub transcription_model: Option<String>,
    pub final_writeback_at_monotonic_ns: Option<u64>,
    pub text_before_dedup: Option<String>,
    pub text_after_dedup: Option<String>,
    pub text_after_context_normalization: Option<String>,
    pub dedup_trace_status: Option<String>,
    pub actual_language: Option<String>,
    pub language_applied_to_provider: Option<bool>,
    pub context_version_id: Option<String>,
    pub context_sha256: Option<String>,
    pub coalesced_into_chunk_id: Option<u64>,
    pub writeback_result: Option<String>,
    pub error: Option<String>,
}

/// What a `ChunkMeasurementTrace` stands for.
#[verifier::ext_equal]
pub struct Trace {
    pub chunk_id: u64,
    pub source_chunk_ids: Seq<u64>,
    pub source_sample_start: Option<u64>,
    pub source_sample_end: Option<u64>,
    pub sample_rate_hz: Option<u32>,
    pub overlap_samples: u64,
    pub vad_decision: Option<Seq<char>>,
    pub vad_exclusion_reason: Option<Seq<char>>,
    pub enqueued_at_monotonic_ns: Option<u64>,
    pub dequeued_at_monotonic_ns: Option<u64>,
    pub inference_started_at_monotonic_ns: Option<u64>,
    pub inference_finished_at_monotonic_ns: Option<u64>,
    pub inference_batch_chunk_id: Option<u64>,
    pub inference_sample_start: Option<u64>,
    pub inference_sample_end: Option<u64>,
    pub inference_sample_count: Option<u64>,
    pub inference_pcm_sha256: Option<Seq<char>>,
    pub transcription_provider: Option<Seq<char>>,
    pub transcription_model: Option<Seq<char>>,
    pub final_writeback_at_monotonic_ns: Option<u64>,
    pub text_before_dedup: Option<Seq<char>>,
    pub text_after_dedup: Option<Seq<char>>,
    pub text_after_context_normalization: Option<Seq<char>>,
    pub dedup_trace_status: Option<Seq<char>>,
    pub actual_language: Option<Seq<char>>,
    pub language_applied_to_provider: Option<bool>,
    pub context_version_id: Option<Seq<char>>,
    pub context_sha256: Option<Seq<char>>,
    pub coalesced_into_chunk_id: Option<u64>,
    pub writeback_result: Option<Seq<char>>,
    pub error: Option<Seq<char>>,
}

impl View for ChunkMeasurementTrace {
    type V = Trace;

    open spec fn view(&self) -> Trace {
        Trace {
            chunk_id: self.chunk_id,
            source_chunk_ids: self.source_chunk_ids@,
            source_sample_start: self.source_sample_start,
            source_sample_end: self.source_sample_end,
            sample_rate_hz: self.sample_rate_hz,
            overlap_samples: self.overlap_samples,
            vad_decision: text_of(self.vad_decision),
            vad_exclusion_reason: text_of(self.vad_exclusion_reason),
            enqueued_at_monotonic_ns: self.enqueued_at_monotonic_ns,
            dequeued_at_monotonic_ns: self.dequeued_at_monotonic_ns,
            inference_started_at_monotonic_ns: self.inference_started_at_monotonic_ns,
            inference_finished_at_monotonic_ns: self.inference_finished_at_monotonic_ns,
            inference_batch_chunk_id: self.inference_batch_chunk_id,
            inference_sample_start: self.inference_sample_start,
            inference_sample_end: self.inference_sample_end,
            inference_sample_count: self.inference_sample_count,
            inference_pcm_sha256: text_of(self.inference_pcm_sha256),
            transcription_provider: text_of(self.transcription_provider),
            transcription_model: text_of(self.transcription_model),
            final_writeback_at_monotonic_ns: self.final_writeback_at_monotonic_ns,
            text_before_dedup: text_of(self.text_before_dedup),
            text_after_dedup: text_of(self.text_after_dedup),
            text_after_context_normalization: text_of(self.text_after_context_normalization),
            dedup_trace_status: text_of(self.dedup_trace_status),
            actual_language: text_of(self.actual_language),
            language_applied_to_provider: self.language_applied_to_provider,
            context_version_id: text_of(self.context_version_id),
            context_sha256: text_of(self.context_sha256),
            coalesced_into_chunk_id: self.coalesced_into_chunk_id,
            writeback_result: text_of(self.writeback_result),
            error: text_of(self.error),
        }
    }
}

impl Trace {
    /// A chunk of which nothing is known but its identifier.
    pub open spec fn unknown(chunk_id: u64) -> Trace {
        Trace {
            chunk_id,
            source_chunk_ids: seq![chunk_id],
            source_sample_start: None,
            source_sample_end: None,
            sample_rate_hz: None,
            overlap_samples: 0,
            vad_decision: None,
            vad_exclusion_reason: None,
            enqueued_at_monotonic_ns: None,
            dequeued_at_monotonic_ns: None,
            inference_started_at_monotonic_ns: None,
            inference_finished_at_monotonic_ns: None,
            inference_batch_chunk_id: None,
            inference_sample_start: None,
            inference_sample_end: None,
            inference_sample_count: None,
            inference_pcm_sha256: None,
            transcription_provider: None,
            transcription_model: None,
            final_writeback_at_monotonic_ns: None,
            text_before_dedup: None,
            text_after_dedup: None,
            text_after_context_normalization: None,
            dedup_trace_status: None,
            actual_language: None,
            language_applied_to_provider: None,
            context_version_id: None,
            context_sha256: None,
            coalesced_into_chunk_id: None,
            writeback_result: None,
            error: None,
        }
    }
}

/// A chunk of which nothing is known but its identifier.
pub fn unknown_chunk(chunk_id: u64) -> (r: ChunkMeasurementTrace)
    ensures
        r@ == Trace::unknown(chunk_id),
{
    let mut source_chunk_ids: Vec<u64> = Vec::new();
    source_chunk_ids.push(chunk_id);
    let r = ChunkMeasurementTrace {
        chunk_id,
        source_chunk_ids,
        source_sample_start: None,
        source_sample_end: None,
        sample_rate_hz: None,
        overlap_samples: 0,
        vad_decision: None,
        vad_exclusion_reason: None,
        enqueued_at_monotonic_ns: None,
        dequeued_at_monotonic_ns: None,
        inference_started_at_monotonic_ns: None,
        inference_finished_at_monotonic_ns: None,
        inference_batch_chunk_id: None,
        inference_sample_start: None,
        inference_sample_end: None,
        inference_sample_count: None,
        inference_pcm_sha256: None,
        transcription_provider: None,
        transcription_model: None,
        final_writeback_at_monotonic_ns: None,
        text_before_dedup: None,
        text_after_dedup: None,
        text_after_context_normalization: None,
        dedup_trace_status: None,
        actual_language: None,
        language_applied_to_provider: None,
        context_version_id: None,
        context_sha256: None,
        coalesced_into_chunk_id: None,
        writeback_result: None,
        error: None,
    };
    assert(r@ =~= Trace::unknown(chunk_id));
    r
}

/// Something that happened to a chunk.
#[derive(Debug)]
pub enum TraceEvent {
    /// Speech was found in these samples of the source.
    Detected {
        source_sample_start: u64,
        source_sample_end: u64,
        sample_rate_hz: u32,
        vad_decision: String,
        vad_exclusion_reason: Option<String>,
    },
    Enqueued { at_ns: u64 },
    Dequeued { at_ns: u64 },
    /// Another chunk was joined to this one.
    Absorbed { chunk_id: u64, overlap_samples: u64 },
    /// This chunk was joined to another one.
    JoinedTo { chunk_id: u64, overlap_samples: u64 },
    InferenceStarted(InferenceStart),
    InferenceFinished { at_ns: u64, error: Option<String> },
    Transcribed {
        before_dedup: String,
        after_dedup: String,
        after_context_normalization: String,
        dedup_trace_status: String,
    },
    WrittenBack { at_ns: u64, result: Result<(), String> },
    EndedWithout { at_ns: u64, reason: String },
}

/// What an engine was given for a batch of chunks.
#[derive(Debug)]
pub struct InferenceStart {
    pub at_ns: u64,
    pub batch_chunk_id: Option<u64>,
    pub sample_start: u64,
    pub sample_end: u64,
    pub sample_count: u64,
    pub pcm_sha256: String,
    pub provider: String,
    pub model: String,
    pub language: Option<String>,
    pub language_applied: bool,
    pub context_version_id: Option<String>,
    pub context_sha256: Option<String>,
}

/// What a `TraceEvent` stands for.
pub enum Event {
    Detected {
        source_sample_start: u64,
        source_sample_end: u64,
        sample_rate_hz: u32,
        vad_decision: Seq<char>,
        vad_exclusion_reason: Option<Seq<char>>,
    },
    Enqueued { at_ns: u64 },
    Dequeued { at_ns: u64 },
    Absorbed { chunk_id: u64, overlap_samples: u64 },
    JoinedTo { chunk_id: u64, overlap_samples: u64 },
    InferenceStarted(Inference),
    InferenceFinished { at_ns: u64, error: Option<Seq<char>> },
    Transcribed {
        before_dedup: Seq<char>,
        after_dedup: Seq<char>,
        after_context_normalization: Seq<char>,
        dedup_trace_status: Seq<char>,
    },
    WrittenBack { at_ns: u64, result: Result<(), Seq<char>> },
    EndedWithout { at_ns: u64, reason: Seq<char> },
}

/// What an `InferenceStart` stands for.
pub struct Inference {
    pub at_ns: u64,
    pub batch_chunk_id: Option<u64>,
    pub sample_start: u64,
    pub sample_end: u64,
    pub sample_count: u64,
    pub pcm_sha256: Seq<char>,
    pub provider: Seq<char>,
    pub model: Seq<char>,
    pub language: Option<Seq<char>>,
    pub language_applied: bool,
    pub context_version_id: Option<Seq<char>>,
    pub context_sha256: Option<Seq<char>>,
}

impl View for InferenceStart {
    type V = Inference;

    open spec fn view(&self) -> Inference {
        Inference {
            at_ns: self.at_ns,
            batch_chunk_id: self.batch_chunk_id,
            sample_start: self.sample_start,
            sample_end: self.sample_end,
            sample_count: self.sample_count,
            pcm_sha256: self.pcm_sha256@,
            provider: self.provider@,
            model: self.model@,
            language: text_of(self.language),
            language_applied: self.language_applied,
            context_version_id: text_of(self.context_version_id),
            context_sha256: text_of(self.context_sha256),
        }
    }
}

impl View for TraceEvent {
    type V = Event;

    open spec fn view(&self) -> Event {
        match *self {
            TraceEvent::Detected {
                source_sample_start,
                source_sample_end,
                sample_rate_hz,
                vad_decision,
                vad_exclusion_reason,
            } => Event::Detected {
                source_sample_start,
                source_sample_end,
                sample_rate_hz,
                vad_decision: vad_decision@,
                vad_exclusion_reason: text_of(vad_exclusion_reason),
            },
            TraceEvent::Enqueued { at_ns } => Event::Enqueued { at_ns },
            TraceEvent::Dequeued { at_ns } => Event::Dequeued { at_ns },
            TraceEvent::Absorbed { chunk_id, overlap_samples } => Event::Absorbed {
                chunk_id,
                overlap_samples,
            },
            TraceEvent::JoinedTo { chunk_id, overlap_samples } => Event::JoinedTo {
                chunk_id,
                overlap_samples,
            },
            TraceEvent::InferenceStarted(start) => Event::InferenceStarted(start@),
            TraceEvent::InferenceFinished { at_ns, error } => Event::InferenceFinished {
                at_ns,
                error: text_of(error),
            },
            TraceEvent::Transcribed {
                before_dedup,
                after_dedup,
                after_context_normalization,
                dedup_trace_status,
            } => Event::Transcribed {
                before_dedup: before_dedup@,
                after_dedup: after_dedup@,
                after_context_normalization: after_context_normalization@,
                dedup_trace_status: dedup_trace_status@,
            },
            TraceEvent::WrittenBack { at_ns, result } => Event::WrittenBack {
                at_ns,
                result: result_text(result),
            },
            TraceEvent::EndedWithout { at_ns, reason } => Event::EndedWithout {
                at_ns,
                reason: reason@,
            },
        }
    }
}

/// What an outcome with a text for its failure stands for.
pub open spec fn result_text(result: Result<(), String>) -> Result<(), Seq<char>> {
    match result {
        Ok(_) => Ok(()),
        Err(error) => Err(error@),
    }
}

impl Trace {
    /// What is known of the chunk after an event.
    pub open spec fn after(self, event: Event) -> Trace {
        match event {
            Event::Detected {
                source_sample_start,
                source_sample_end,
                sample_rate_hz,
                vad_decision,
                vad_exclusion_reason,
            } => Trace {
                source_sample_start: Some(source_sample_start),
                source_sample_end: Some(source_sample_end),
                sample_rate_hz: Some(sample_rate_hz),
                vad_decision: Some(vad_decision),
                vad_exclusion_reason: vad_exclusion_reason,
                ..self
            },
            Event::Enqueued { at_ns } => Trace {
                enqueued_at_monotonic_ns: Some(at_ns),
                ..self
            },
            Event::Dequeued { at_ns } => Trace {
                dequeued_at_monotonic_ns: Some(at_ns),
                ..self
            },
            Event::Absorbed { chunk_id, overlap_samples } => Trace {
                source_chunk_ids: if self.source_chunk_ids.contains(chunk_id) {
                    self.source_chunk_ids
                } else {
                    self.source_chunk_ids.push(chunk_id)
                },
                overlap_samples: self.overlap_samples.saturating_add(overlap_samples),
                ..self
            },
            Event::JoinedTo { chunk_id, overlap_samples } => Trace {
                overlap_samples,
                coalesced_into_chunk_id: Some(chunk_id),
                ..self
            },
            Event::InferenceStarted(start) => Trace {
                inference_started_at_monotonic_ns: Some(start.at_ns),
                inference_batch_chunk_id: start.batch_chunk_id,
                inference_sample_start: Some(start.sample_start),
                inference_sample_end: Some(start.sample_end),
                inference_sample_count: Some(start.sample_count),
                inference_pcm_sha256: Some(start.pcm_sha256),
                transcription_provider: Some(start.provider),
                transcription_model: Some(start.model),
                actual_language: start.language,
                language_applied_to_provider: Some(start.language_applied),
                context_version_id: start.context_version_id,
                context_sha256: start.context_sha256,
                ..self
            },
            Event::InferenceFinished { at_ns, error } => Trace {
                inference_finished_at_monotonic_ns: Some(at_ns),
                error: error,
                ..self
            },
            Event::Transcribed {
                before_dedup,
                after_dedup,
                after_context_normalization,
                dedup_trace_status,
            } => Trace {
                text_before_dedup: Some(before_dedup),
                text_after_dedup: Some(after_dedup),
                text_after_context_normalization: Some(after_context_normalization),
                dedup_trace_status: Some(dedup_trace_status),
                ..self
            },
            Event::WrittenBack { at_ns, result } => Trace {
                final_writeback_at_monotonic_ns: Some(at_ns),
                writeback_result: Some(if result is Ok { "written"@ } else { "failed"@ }),
                error: match result {
                    Ok(_) => self.error,
                    Err(error) => Some(error),
                },
                ..self
            },
            Event::EndedWithout { at_ns, reason } => Trace {
                final_writeback_at_monotonic_ns: Some(at_ns),
                writeback_result: Some(reason),
                ..self
            },
        }
    }
}

/// Whether a list holds an identifier.
fn holds(ids: &Vec<u64>, id: u64) -> (r: bool)
    ensures
        r == ids@.contains(id),
{
    let mut i: usize = 0;
    while i < ids.len()
        invariant
            i <= ids@.len(),
            forall|j: int| 0 <= j < i ==> ids@[j] != id,
        decreases ids@.len() - i,
    {
        if ids[i] == id {
            return true;
        }
        i = i + 1;
    }
    false
}

impl ChunkMeasurementTrace {
    /// Takes an event in.
    pub fn apply(&mut self, event: &TraceEvent)
        ensures
            final(self)@ == old(self)@.after(event@),
    {
        match event {
            TraceEvent::Detected {
                source_sample_start,
                source_sample_end,
                sample_rate_hz,
                vad_decision,
                vad_exclusion_reason,
            } => {
                self.source_sample_start = Some(*source_sample_start);
                self.source_sample_end = Some(*source_sample_end);
                self.sample_rate_hz = Some(*sample_rate_hz);
                self.vad_decision = Some(vad_decision.clone());
                self.vad_exclusion_reason = clone_text(vad_exclusion_reason);
            },
            TraceEvent::Enqueued { at_ns } => {
                self.enqueued_at_monotonic_ns = Some(*at_ns);
            },
            TraceEvent::Dequeued { at_ns } => {
                self.dequeued_at_monotonic_ns = Some(*at_ns);
            },
            TraceEvent::Absorbed { chunk_id, overlap_samples } => {
                if !holds(&self.source_chunk_ids, *chunk_id) {
                    self.source_chunk_ids.push(*chunk_id);
                }
                self.overlap_samples = self.overlap_samples.saturating_add(*overlap_samples);
            },
            TraceEvent::JoinedTo { chunk_id, overlap_samples } => {
                self.overlap_samples = *overlap_samples;
                self.coalesced_into_chunk_id = Some(*chunk_id);
            },
            TraceEvent::InferenceStarted(start) => {
                self.inference_started_at_monotonic_ns = Some(start.at_ns);
                self.inference_batch_chunk_id = start.batch_chunk_id;
                self.inference_sample_start = Some(start.sample_start);
                self.inference_sample_end = Some(start.sample_end);
                self.inference_sample_count = Some(start.sample_count);
                self.inference_pcm_sha256 = Some(start.pcm_sha256.clone());
                self.transcription_provider = Some(start.provider.clone());
                self.transcription_model = Some(start.model.clone());
                self.actual_language = clone_text(&start.language);
                self.language_applied_to_provider = Some(start.language_applied);
                self.context_version_id = clone_text(&start.context_version_id);
                self.context_sha256 = clone_text(&start.context_sha256);
            },
            TraceEvent::InferenceFinished { at_ns, error } => {
                self.inference_finished_at_monotonic_ns = Some(*at_ns);
                self.error = clone_text(error);
            },
            TraceEvent::Transcribed {
                before_dedup,
                after_dedup,
                after_context_normalization,
                dedup_trace_status,
            } => {
                self.text_before_dedup = Some(before_dedup.clone());
                self.text_after_dedup = Some(after_dedup.clone());
                self.text_after_context_normalization = Some(after_context_normalization.clone());
                self.dedup_trace_status = Some(dedup_trace_status.clone());
            },
            TraceEvent::WrittenBack { at_ns, result } => {
                self.final_writeback_at_monotonic_ns = Some(*at_ns);
                match result {
                    Ok(_) => {
                        self.writeback_result = Some("written".to_owned());
                    },
                    Err(error) => {
                        self.writeback_result = Some("failed".to_owned());
                        self.error = Some(error.clone());
                    },
                }
            },
            TraceEvent::EndedWithout { at_ns, reason } => {
                self.final_writeback_at_monotonic_ns = Some(*at_ns);
                self.writeback_result = Some(reason.clone());
            },
        }
    }
}

/// Law: what happens to a chunk is put in its trace, and what is there of it stays, but for what is
/// told anew; the trace never changes its chunk.
pub proof fn traces_keep_what_they_know(
    trace: Trace,
    at_ns: u64,
    error: Seq<char>,
    reason: Seq<char>,
    other: u64,
    overlap_samples: u64,
    start: Inference,
)
    ensures
        ({
            let enqueued = trace.after(Event::Enqueued { at_ns });
            let dequeued = trace.after(Event::Dequeued { at_ns });
            let written = trace.after(Event::WrittenBack { at_ns, result: Ok(()) });
            let failed = trace.after(Event::WrittenBack { at_ns, result: Err(error) });
            let without = trace.after(Event::EndedWithout { at_ns, reason });
            let absorbed = trace.after(Event::Absorbed { chunk_id: other, overlap_samples });
            let joined = trace.after(Event::JoinedTo { chunk_id: other, overlap_samples });
            let begun = trace.after(Event::InferenceStarted(start));
            let finished = trace.after(
                Event::InferenceFinished { at_ns, error: Some(error) });
            &&& enqueued == (Trace { enqueued_at_monotonic_ns: Some(at_ns), ..trace })
            &&& dequeued == (Trace { dequeued_at_monotonic_ns: Some(at_ns), ..trace })
            &&& written.writeback_result == Some("written"@) && written.error == trace.error
                && written.final_writeback_at_monotonic_ns == Some(at_ns)
            &&& failed.writeback_result == Some("failed"@) && failed.error == Some(error)
                && failed.final_writeback_at_monotonic_ns == Some(at_ns)
            &&& without.writeback_result == Some(reason) && without.error == trace.error
                && without.final_writeback_at_monotonic_ns == Some(at_ns)
            &&& absorbed.source_chunk_ids.contains(other)
            &&& forall|id: u64| trace.source_chunk_ids.contains(id)
                ==> #[trigger] absorbed.source_chunk_ids.contains(id)
            &&& trace.overlap_samples + overlap_samples <= u64::MAX ==> absorbed.overlap_samples
                == trace.overlap_samples + overlap_samples
            &&& joined.coalesced_into_chunk_id == Some(other) && joined.overlap_samples
                == overlap_samples
            &&& begun.inference_sample_start == Some(start.sample_start)
                && begun.inference_sample_end == Some(start.sample_end)
                && begun.inference_sample_count == Some(start.sample_count)
                && begun.inference_pcm_sha256 == Some(start.pcm_sha256)
                && begun.transcription_provider == Some(start.provider)
                && begun.transcription_model == Some(start.model)
                && begun.actual_language == start.language
                && begun.language_applied_to_provider == Some(start.language_applied)
                && begun.context_version_id == start.context_version_id
                && begun.context_sha256 == start.context_sha256
                && begun.inference_batch_chunk_id == start.batch_chunk_id
                && begun.inference_started_at_monotonic_ns == Some(start.at_ns)
            &&& finished.inference_finished_at_monotonic_ns == Some(at_ns) && finished.error
                == Some(error)
        }),
        forall|event: Event| (#[trigger] trace.after(event)).chunk_id == trace.chunk_id,
{
    let absorbed = trace.after(Event::Absorbed { chunk_id: other, overlap_samples });
    let known = trace.source_chunk_ids;
    if !known.contains(other) {
        assert(absorbed.source_chunk_ids[known.len() as int] == other);
        assert forall|id: u64| known.contains(id) implies
            #[trigger] absorbed.source_chunk_ids.contains(id) by {
            let k = choose|k: int| 0 <= k < known.len() && known[k] == id;
            assert(absorbed.source_chunk_ids[k] == id);
        }
    }
}

/// Law: the texts of a chunk are on record as they were before and after repetitions were removed
/// and the terms of the meeting put right.
pub proof fn texts_are_traced_in_order(
    trace: Trace,
    before: Seq<char>,
    after: Seq<char>,
    normalized: Seq<char>,
    status: Seq<char>,
)
    ensures
        ({
            let said = trace.after(
                Event::Transcribed {
                    before_dedup: before,
                    after_dedup: after,
                    after_context_normalization: normalized,
                    dedup_trace_status: status,
                },
            );
            &&& said.text_before_dedup == Some(before)
            &&& said.text_after_dedup == Some(after)
            &&& said.text_after_context_normalization == Some(normalized)
            &&& said.dedup_trace_status == Some(status)
            &&& said.error == trace.error
        }),
{
}

} // verus!
