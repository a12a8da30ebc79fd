//! Collects the evidence of a controlled real-time measurement.

use std::collections::BTreeMap;

use vstd::prelude::*;
use vstd::string::*;

use crate::devices::configuration::text_of;
use crate::measurement::input::{
    pcm_bytes, pcm_f32le_bytes, sha256_bytes, sha256_hex, InputContract,
    RealtimeAudioInputContract, CAPTURE_PCM_FILE, LOAD_TIMELINE_FILE, STOP_TIMELINE_FILE,
    TRACE_FILE,
};
use crate::measurement::trace::{
    result_text, unknown_chunk, ChunkMeasurementTrace, Event, Inference, InferenceStart, Trace,
    TraceEvent,
};
use crate::outside::{
    absorbed, sha256, sha256_finish, sha256_start, sha256_update, RunningSha256,
};
use crate::text;
use crate::transcription::provider::str_view;

verus! {

/// Pause between two samples of the machine's load.
pub const LOAD_SAMPLE_INTERVAL_MS: u64 = 250;

/// What the detector of speech made of a window of the source.
#[derive(Debug)]
pub struct VadWindowTrace {
    pub sequence: u64,
    pub source_sample_start: u64,
    pub source_sample_end: u64,
    pub vad_decision: String,
    pub vad_exclusion_reason: Option<String>,
    pub emitted_chunk_ids: Vec<u64>,
    pub observed_at_monotonic_ns: u64,
}

/// What a `VadWindowTrace` stands for.
#[verifier::ext_equal]
pub struct VadWindow {
    pub sequence: u64,
    pub source_sample_start: u64,
    pub source_sample_end: u64,
    pub vad_decision: Seq<char>,
    pub vad_exclusion_reason: Option<Seq<char>>,
    pub emitted_chunk_ids: Seq<u64>,
    pub observed_at_monotonic_ns: u64,
}

impl View for VadWindowTrace {
    type V = VadWindow;

    open spec fn view(&self) -> VadWindow {
        VadWindow {
            sequence: self.sequence,
            source_sample_start: self.source_sample_start,
            source_sample_end: self.source_sample_end,
            vad_decision: self.vad_decision@,
            vad_exclusion_reason: text_of(self.vad_exclusion_reason),
            emitted_chunk_ids: self.emitted_chunk_ids@,
            observed_at_monotonic_ns: self.observed_at_monotonic_ns,
        }
    }
}

/// A step of ending and saving a recording.
#[derive(Debug)]
pub struct StopSaveTimelineEvent {
    pub sequence: u64,
    pub stage: String,
    pub result: String,
    pub monotonic_ns: u64,
    pub error: Option<String>,
}

/// What a `StopSaveTimelineEvent` stands for.
#[verifier::ext_equal]
pub struct StopStage {
    pub sequence: u64,
    pub stage: Seq<char>,
    pub result: Seq<char>,
    pub monotonic_ns: u64,
    pub error: Option<Seq<char>>,
}

impl View for StopSaveTimelineEvent {
    type V = StopStage;

    open spec fn view(&self) -> StopStage {
        StopStage {
            sequence: self.sequence,
            stage: self.stage@,
            result: self.result@,
            monotonic_ns: self.monotonic_ns,
            error: text_of(self.error),
        }
    }
}

/// The load of the machine at one instant. Percentages are bit patterns of 32-bit floats.
#[derive(Debug)]
pub struct LoadTimelineSample {
    pub sequence: u64,
    pub monotonic_ns: u64,
    pub system_cpu_percent_bits: Option<u32>,
    pub system_memory_used_bytes: u64,
    pub system_memory_total_bytes: u64,
    pub system_unavailable_reason: Option<String>,
    pub process_cpu_percent_bits: Option<u32>,
    pub process_memory_used_bytes: Option<u64>,
    pub process_unavailable_reason: Option<String>,
    pub gpu_percent_bits: Option<u32>,
    pub gpu_memory_used_bytes: Option<u64>,
    pub gpu_unavailable_reason: Option<String>,
}

/// What a `LoadTimelineSample` stands for.
#[verifier::ext_equal]
pub struct LoadSample {
    pub sequence: u64,
    pub monotonic_ns: u64,
    pub system_cpu_percent_bits: Option<u32>,
    pub system_memory_used_bytes: u64,
    pub system_memory_total_bytes: u64,
    pub system_unavailable_reason: Option<Seq<char>>,
    pub process_cpu_percent_bits: Option<u32>,
    pub process_memory_used_bytes: Option<u64>,
    pub process_unavailable_reason: Option<Seq<char>>,
    pub gpu_percent_bits: Option<u32>,
    pub gpu_memory_used_bytes: Option<u64>,
    pub gpu_unavailable_reason: Option<Seq<char>>,
}

impl View for LoadTimelineSample {
    type V = LoadSample;

    open spec fn view(&self) -> LoadSample {
        LoadSample {
            sequence: self.sequence,
            monotonic_ns: self.monotonic_ns,
            system_cpu_percent_bits: self.system_cpu_percent_bits,
            system_memory_used_bytes: self.system_memory_used_bytes,
            system_memory_total_bytes: self.system_memory_total_bytes,
            system_unavailable_reason: text_of(self.system_unavailable_reason),
            process_cpu_percent_bits: self.process_cpu_percent_bits,
            process_memory_used_bytes: self.process_memory_used_bytes,
            process_unavailable_reason: text_of(self.process_unavailable_reason),
            gpu_percent_bits: self.gpu_percent_bits,
            gpu_memory_used_bytes: self.gpu_memory_used_bytes,
            gpu_unavailable_reason: text_of(self.gpu_unavailable_reason),
        }
    }
}

/// What the host reports of the machine's load.
#[derive(Debug, Clone, Copy)]
pub struct LoadReading {
    /// Mean load of the processors, where there are any.
    pub system_cpu_percent_bits: Option<u32>,
    pub system_memory_used_bytes: u64,
    pub system_memory_total_bytes: u64,
    /// Load and memory of this process, where it can be found.
    pub process: Option<(u32, u64)>,
}

/// The sample made of a reading: what is missing is explained.
pub open spec fn load_sample(sequence: u64, at_ns: u64, reading: LoadReading) -> LoadSample {
    LoadSample {
        sequence,
        monotonic_ns: at_ns,
        system_cpu_percent_bits: reading.system_cpu_percent_bits,
        system_memory_used_bytes: reading.system_memory_used_bytes,
        system_memory_total_bytes: reading.system_memory_total_bytes,
        system_unavailable_reason: if reading.system_cpu_percent_bits is None {
            Some("system CPU metrics are unavailable from sysinfo"@)
        } else {
            None
        },
        process_cpu_percent_bits: match reading.process {
            Some(process) => Some(process.0),
            None => None,
        },
        process_memory_used_bytes: match reading.process {
            Some(process) => Some(process.1),
            None => None,
        },
        process_unavailable_reason: if reading.process is None {
            Some("current process metrics are unavailable from sysinfo"@)
        } else {
            None
        },
        gpu_percent_bits: None,
        gpu_memory_used_bytes: None,
        gpu_unavailable_reason: Some(
            "GPU telemetry is not exposed by the current cross-platform runtime"@,
        ),
    }
}

/// A file of a measurement.
#[derive(Debug)]
pub struct MeasurementFileRecord {
    pub path: String,
    pub bytes: u64,
    pub sha256: String,
}

/// `record` describes a file with this name and these bytes.
pub open spec fn describes(record: MeasurementFileRecord, name: Seq<char>, bytes: Seq<u8>) -> bool {
    &&& record.path@ == name
    &&& record.bytes == bytes.len()
    &&& record.sha256@ == sha256_hex(bytes)
}

/// Describes a file by its name and its bytes.
pub fn file_record(name: &str, bytes: &[u8]) -> (r: MeasurementFileRecord)
    ensures
        describes(r, name@, bytes@),
{
    MeasurementFileRecord {
        path: name.to_owned(),
        bytes: bytes.len() as u64,
        sha256: sha256_bytes(bytes),
    }
}

/// Rows of bytes, each ended by a line break.
pub open spec fn joined_rows(rows: Seq<Vec<u8>>) -> Seq<u8>
    decreases rows.len(),
{
    if rows.len() == 0 {
        Seq::empty()
    } else {
        joined_rows(rows.drop_last()) + rows.last()@ + seq![10u8]
    }
}

/// Puts rows of bytes one after the other, each ended by a line break.
pub fn jsonl_bytes(rows: &Vec<Vec<u8>>) -> (bytes: Vec<u8>)
    ensures
        bytes@ == joined_rows(rows@),
{
    let mut bytes: Vec<u8> = Vec::new();
    let mut i: usize = 0;
    while i < rows.len()
        invariant
            i <= rows@.len(),
            bytes@ == joined_rows(rows@.take(i as int)),
        decreases rows@.len() - i,
    {
        let ghost before = bytes@;
        let mut j: usize = 0;
        while j < rows[i as usize].len()
            invariant
                i < rows@.len(),
                j <= rows@[i as int]@.len(),
                bytes@ == before + rows@[i as int]@.take(j as int),
            decreases rows@[i as int]@.len() - j,
        {
            bytes.push(rows[i][j]);
            j = j + 1;
            assert(rows@[i as int]@.take(j as int) =~= rows@[i as int]@.take(j - 1).push(
                rows@[i as int]@[j - 1]));
        }
        bytes.push(10u8);
        proof {
            assert(rows@[i as int]@.take(j as int) =~= rows@[i as int]@);
            assert(rows@.take(i + 1).drop_last() =~= rows@.take(i as int));
            assert(bytes@ =~= before + rows@[i as int]@ + seq![10u8]);
        }
        i = i + 1;
    }
    assert(rows@.take(i as int) =~= rows@);
    bytes
}

/// Which engine and model transcribed a recording.
#[derive(Debug)]
pub struct TranscriptionEngineIdentity {
    pub provider: String,
    pub model: String,
}

/// What an engine's identity stands for.
pub open spec fn identity_text(identity: Option<TranscriptionEngineIdentity>) -> Option<
    (Seq<char>, Seq<char>),
> {
    match identity {
        Some(identity) => Some((identity.provider@, identity.model@)),
        None => None,
    }
}

/// What a finished measurement amounts to.
#[derive(Debug)]
pub struct RealtimeMeasurementSummary {
    pub schema_version: u32,
    pub recording_id: String,
    pub audio_input_path_id: String,
    pub baseline_snapshot_id: String,
    pub isolated_data_identity: String,
    pub transcription_engine: Option<TranscriptionEngineIdentity>,
    pub measurement_started_at_monotonic_ns: u64,
    pub measurement_finalized_at_monotonic_ns: u64,
    pub capture_pcm_sha256: String,
    pub capture_pcm: MeasurementFileRecord,
    pub capture_pcm_sample_count: u64,
    pub capture_pcm_sample_rate_hz: Option<u32>,
    pub trace: MeasurementFileRecord,
    pub load_timeline: MeasurementFileRecord,
    pub load_timeline_sha256: String,
    pub stop_save_timeline: MeasurementFileRecord,
    pub chunk_count: usize,
    pub vad_window_count: usize,
    pub load_sample_count: usize,
    pub stop_save_event_count: usize,
    pub errors: Vec<String>,
}

/// Why a measurement cannot be finalized.
#[derive(Debug)]
pub enum FinalizeError {
    AlreadyFinalized,
    /// A file of the measurement could not be written.
    NotWritten(String),
    CaptureHashMismatch,
}

impl FinalizeError {
    /// The text that describes the failure.
    pub open spec fn text(self) -> Seq<char> {
        match self {
            FinalizeError::AlreadyFinalized => "D-11 measurement was already finalized"@,
            FinalizeError::NotWritten(error) => error@,
            FinalizeError::CaptureHashMismatch =>
                "capture PCM hash mismatch between streaming and persisted evidence"@,
        }
    }

    pub fn message(&self) -> (r: String)
        ensures
            r@ == self.text(),
    {
        match self {
            FinalizeError::AlreadyFinalized => "D-11 measurement was already finalized".to_owned(),
            FinalizeError::NotWritten(error) => error.clone(),
            FinalizeError::CaptureHashMismatch =>
                "capture PCM hash mismatch between streaming and persisted evidence".to_owned(),
        }
    }
}

/// What a `D11MeasurementRecorder` stands for.
#[verifier::ext_equal]
pub struct Measurement {
    pub recording_id: Seq<char>,
    pub contract: InputContract,
    pub sequence: u64,
    pub chunks: Map<u64, Trace>,
    pub vad_windows: Seq<VadWindow>,
    pub load_samples: Seq<LoadSample>,
    pub stop_stages: Seq<StopStage>,
    pub errors: Seq<Seq<char>>,
    pub engine: Option<(Seq<char>, Seq<char>)>,
    /// The bytes of all audio that an engine was given.
    pub captured: Seq<u8>,
    pub capture_sample_count: u64,
    pub capture_sample_rate_hz: u64,
    pub finalized: bool,
}

/// The trace of a chunk, or an empty one.
pub open spec fn trace_of(chunks: Map<u64, Trace>, chunk_id: u64) -> Trace {
    if chunks.contains_key(chunk_id) {
        chunks[chunk_id]
    } else {
        Trace::unknown(chunk_id)
    }
}

/// The traces after an event on each of the chunks, in order.
pub open spec fn traced(chunks: Map<u64, Trace>, chunk_ids: Seq<u64>, event: Event) -> Map<
    u64,
    Trace,
>
    decreases chunk_ids.len(),
{
    if chunk_ids.len() == 0 {
        chunks
    } else {
        let before = traced(chunks, chunk_ids.drop_last(), event);
        before.insert(chunk_ids.last(), trace_of(before, chunk_ids.last()).after(event))
    }
}

impl Measurement {
    /// The measurement was not finalized before, and its files are written.
    pub open spec fn can_be_finalized(self, written: Result<(), String>) -> bool {
        !self.finalized && written is Ok
    }

    /// The measurement once it was to be finalized.
    pub open spec fn closed(self) -> Measurement {
        Measurement { finalized: true, ..self }
    }

    /// The measurement after an event on each of the chunks.
    pub open spec fn with_event(self, chunk_ids: Seq<u64>, event: Event) -> Measurement {
        Measurement { chunks: traced(self.chunks, chunk_ids, event), ..self }
    }

    /// The measurement with one more step of ending and saving.
    pub open spec fn with_stage(
        self,
        stage: Seq<char>,
        result: Seq<char>,
        error: Option<Seq<char>>,
        at_ns: u64,
    ) -> Measurement {
        Measurement {
            sequence: self.sequence.wrapping_add(1),
            stop_stages: self.stop_stages.push(
                StopStage { sequence: self.sequence, stage, result, monotonic_ns: at_ns, error },
            ),
            ..self
        }
    }

    /// The measurement with one more error.
    pub open spec fn with_error(self, error: Seq<char>) -> Measurement {
        Measurement { errors: self.errors.push(error), ..self }
    }

    /// The inference that starts with these samples.
    pub open spec fn inference(
        self,
        chunk_ids: Seq<u64>,
        samples: Seq<u32>,
        language: Option<Seq<char>>,
        language_applied: bool,
        context_version_id: Option<Seq<char>>,
        context_sha256: Option<Seq<char>>,
        provider: Seq<char>,
        model: Seq<char>,
        at_ns: u64,
    ) -> Inference {
        Inference {
            at_ns,
            batch_chunk_id: if chunk_ids.len() > 0 { Some(chunk_ids[0]) } else { None },
            sample_start: self.capture_sample_count,
            sample_end: self.capture_sample_count.saturating_add(samples.len() as u64),
            sample_count: samples.len() as u64,
            pcm_sha256: sha256_hex(pcm_bytes(samples)),
            provider,
            model,
            language,
            language_applied,
            context_version_id,
            context_sha256,
        }
    }

    /// The measurement after an engine was given samples.
    pub open spec fn with_capture(self, samples: Seq<u32>, sample_rate_hz: u32) -> Measurement {
        Measurement {
            captured: self.captured + pcm_bytes(samples),
            capture_sample_count: self.capture_sample_count.wrapping_add(samples.len() as u64),
            capture_sample_rate_hz: if self.capture_sample_rate_hz == 0 {
                sample_rate_hz as u64
            } else {
                self.capture_sample_rate_hz
            },
            ..self
        }
    }
}

/// A call that puts something on record.
#[allow(inconsistent_fields)]
pub enum Record {
    Window {
        source_sample_start: u64,
        source_sample_end: u64,
        vad_decision: Seq<char>,
        vad_exclusion_reason: Option<Seq<char>>,
        emitted_chunk_ids: Seq<u64>,
        at_ns: u64,
    },
    /// An event on each of the chunks.
    OnChunks { chunk_ids: Seq<u64>, event: Event },
    /// A chunk was joined to another one.
    Overlap { base_chunk_id: u64, next_chunk_id: u64, overlap_samples: u64 },
    InferenceStarted {
        chunk_ids: Seq<u64>,
        samples: Seq<u32>,
        sample_rate_hz: u32,
        language: Option<Seq<char>>,
        language_applied: bool,
        context_version_id: Option<Seq<char>>,
        context_sha256: Option<Seq<char>>,
        provider: Seq<char>,
        model: Seq<char>,
        at_ns: u64,
    },
    WrittenBack { chunk_ids: Seq<u64>, result: Result<(), Seq<char>>, at_ns: u64 },
    Stage { stage: Seq<char>, result: Seq<char>, error: Option<Seq<char>>, at_ns: u64 },
    Error(Seq<char>),
    Engine { provider: Seq<char>, model: Seq<char> },
    Load { reading: LoadReading, at_ns: u64 },
}

impl Measurement {
    /// The measurement after a call.
    pub open spec fn recorded(self, call: Record) -> Measurement {
        match call {
            Record::Window {
                source_sample_start,
                source_sample_end,
                vad_decision,
                vad_exclusion_reason,
                emitted_chunk_ids,
                at_ns,
            } => Measurement {
                sequence: self.sequence.wrapping_add(1),
                vad_windows: self.vad_windows.push(
                    VadWindow {
                        sequence: self.sequence,
                        source_sample_start,
                        source_sample_end,
                        vad_decision,
                        vad_exclusion_reason,
                        emitted_chunk_ids,
                        observed_at_monotonic_ns: at_ns,
                    },
                ),
                ..self
            },
            Record::OnChunks { chunk_ids, event } => self.with_event(chunk_ids, event),
            Record::Overlap { base_chunk_id, next_chunk_id, overlap_samples } => self.with_event(
                seq![base_chunk_id],
                Event::Absorbed { chunk_id: next_chunk_id, overlap_samples },
            ).with_event(
                seq![next_chunk_id],
                Event::JoinedTo { chunk_id: base_chunk_id, overlap_samples },
            ),
            Record::InferenceStarted {
                chunk_ids,
                samples,
                sample_rate_hz,
                language,
                language_applied,
                context_version_id,
                context_sha256,
                provider,
                model,
                at_ns,
            } => self.with_capture(samples, sample_rate_hz).with_event(
                chunk_ids,
                Event::InferenceStarted(
                    self.inference(
                        chunk_ids,
                        samples,
                        language,
                        language_applied,
                        context_version_id,
                        context_sha256,
                        provider,
                        model,
                        at_ns,
                    ),
                ),
            ),
            Record::WrittenBack { chunk_ids, result, at_ns } => {
                let traced = self.with_event(chunk_ids, Event::WrittenBack { at_ns, result });
                match result {
                    Ok(_) => traced,
                    Err(error) => traced.with_error(
                        "final transcript writeback failed: "@ + error),
                }
            },
            Record::Stage { stage, result, error, at_ns } => self.with_stage(
                stage, result, error, at_ns),
            Record::Error(error) => self.with_error(error),
            Record::Engine { provider, model } => Measurement {
                engine: Some((provider, model)),
                ..self
            },
            Record::Load { reading, at_ns } => Measurement {
                sequence: self.sequence.wrapping_add(1),
                load_samples: self.load_samples.push(load_sample(self.sequence, at_ns, reading)),
                ..self
            },
        }
    }

    /// The measurement after calls, one after the other.
    pub open spec fn recorded_all(self, calls: Seq<Record>) -> Measurement
        decreases calls.len(),
    {
        if calls.len() == 0 {
            self
        } else {
            self.recorded_all(calls.drop_last()).recorded(calls.last())
        }
    }

    /// Nothing is on record yet.
    pub open spec fn is_new(self) -> bool {
        &&& self.chunks == Map::<u64, Trace>::empty()
        &&& self.captured.len() == 0
        &&& self.capture_sample_count == 0
        &&& !self.finalized
    }
}

/// Collects the evidence of a measurement. Every reading of the clock comes in as `at_ns`, which
/// counts nanoseconds from the start of the measurement.
pub struct D11MeasurementRecorder {
    recording_id: String,
    contract: RealtimeAudioInputContract,
    sequence: u64,
    chunks: BTreeMap<u64, ChunkMeasurementTrace>,
    vad_windows: Vec<VadWindowTrace>,
    load_samples: Vec<LoadTimelineSample>,
    stop_save_timeline: Vec<StopSaveTimelineEvent>,
    errors: Vec<String>,
    transcription_engine: Option<TranscriptionEngineIdentity>,
    capture_hasher: RunningSha256,
    capture_pcm_bytes: Vec<u8>,
    capture_sample_count: u64,
    capture_sample_rate_hz: u64,
    finalized: bool,
}

/// What the traces stand for.
pub open spec fn trace_views(chunks: Map<u64, ChunkMeasurementTrace>) -> Map<u64, Trace> {
    chunks.map_values(|trace: ChunkMeasurementTrace| trace@)
}

/// What a list of windows stands for.
pub open spec fn window_views(windows: Seq<VadWindowTrace>) -> Seq<VadWindow> {
    Seq::new(windows.len(), |i: int| windows[i]@)
}

/// What a list of load samples stands for.
pub open spec fn load_views(samples: Seq<LoadTimelineSample>) -> Seq<LoadSample> {
    Seq::new(samples.len(), |i: int| samples[i]@)
}

/// What a list of steps stands for.
pub open spec fn stage_views(stages: Seq<StopSaveTimelineEvent>) -> Seq<StopStage> {
    Seq::new(stages.len(), |i: int| stages[i]@)
}

/// `summary` sums a measurement up.
pub open spec fn sums_up(
    summary: RealtimeMeasurementSummary,
    measurement: Measurement,
    trace_bytes: Seq<u8>,
    load_bytes: Seq<u8>,
    stop_bytes: Seq<u8>,
    finalized_at_ns: u64,
) -> bool {
    &&& summary.schema_version == 1
    &&& summary.recording_id@ == measurement.recording_id
    &&& summary.audio_input_path_id@ == measurement.contract.audio_input_path_id
    &&& summary.baseline_snapshot_id@ == measurement.contract.baseline_snapshot_id
    &&& summary.isolated_data_identity@ == measurement.contract.isolated_data_identity
    &&& identity_text(summary.transcription_engine) == measurement.engine
    &&& summary.measurement_started_at_monotonic_ns == 0
    &&& summary.measurement_finalized_at_monotonic_ns == finalized_at_ns
    &&& summary.capture_pcm_sha256@ == sha256_hex(measurement.captured)
    &&& describes(summary.capture_pcm, CAPTURE_PCM_FILE@, measurement.captured)
    &&& summary.capture_pcm_sample_count == measurement.capture_sample_count
    &&& summary.capture_pcm_sample_rate_hz == if measurement.capture_sample_rate_hz == 0 {
        None
    } else {
        Some(measurement.capture_sample_rate_hz as u32)
    }
    &&& describes(summary.trace, TRACE_FILE@, trace_bytes)
    &&& describes(summary.load_timeline, LOAD_TIMELINE_FILE@, load_bytes)
    &&& summary.load_timeline_sha256@ == sha256_hex(load_bytes)
    &&& describes(summary.stop_save_timeline, STOP_TIMELINE_FILE@, stop_bytes)
    &&& summary.chunk_count == measurement.chunks.len()
    &&& summary.vad_window_count == measurement.vad_windows.len()
    &&& summary.load_sample_count == measurement.load_samples.len()
    &&& summary.stop_save_event_count == measurement.stop_stages.len()
    &&& text::views(summary.errors@) == measurement.errors
}

impl View for D11MeasurementRecorder {
    type V = Measurement;

    closed spec fn view(&self) -> Measurement {
        Measurement {
            recording_id: self.recording_id@,
            contract: self.contract@,
            sequence: self.sequence,
            chunks: trace_views(self.chunks@),
            vad_windows: window_views(self.vad_windows@),
            load_samples: load_views(self.load_samples@),
            stop_stages: stage_views(self.stop_save_timeline@),
            errors: text::views(self.errors@),
            engine: identity_text(self.transcription_engine),
            captured: self.capture_pcm_bytes@,
            capture_sample_count: self.capture_sample_count,
            capture_sample_rate_hz: self.capture_sample_rate_hz,
            finalized: self.finalized,
        }
    }
}

fn owned(s: Option<&str>) -> (r: Option<String>)
    ensures
        text_of(r) == str_view(s),
{
    match s {
        Some(s) => Some(s.to_owned()),
        None => None,
    }
}

impl D11MeasurementRecorder {
    /// The running digest was fed exactly the captured bytes.
    pub closed spec fn wf(&self) -> bool {
        absorbed(self.capture_hasher) == self.capture_pcm_bytes@
    }

    pub fn new(recording_id: String, contract: RealtimeAudioInputContract) -> (r: Self)
        ensures
            r.wf(),
            r@ == (Measurement {
                recording_id: recording_id@,
                contract: contract@,
                sequence: 0,
                chunks: Map::empty(),
                vad_windows: Seq::empty(),
                load_samples: Seq::empty(),
                stop_stages: Seq::empty(),
                errors: Seq::empty(),
                engine: None,
                captured: Seq::empty(),
                capture_sample_count: 0,
                capture_sample_rate_hz: 0,
                finalized: false,
            }),
    {
        D11MeasurementRecorder {
            recording_id,
            contract,
            sequence: 0,
            chunks: BTreeMap::new(),
            vad_windows: Vec::new(),
            load_samples: Vec::new(),
            stop_save_timeline: Vec::new(),
            errors: Vec::new(),
            transcription_engine: None,
            capture_hasher: sha256_start(),
            capture_pcm_bytes: Vec::new(),
            capture_sample_count: 0,
            capture_sample_rate_hz: 0,
            finalized: false,
        }
    }

    pub fn contract(&self) -> (r: &RealtimeAudioInputContract)
        ensures
            r@ == self@.contract,
    {
        &self.contract
    }

    /// The traces by chunk, in the order of their identifiers.
    pub fn chunks(&self) -> (r: &BTreeMap<u64, ChunkMeasurementTrace>)
        ensures
            trace_views(r@) == self@.chunks,
    {
        &self.chunks
    }

    pub fn vad_windows(&self) -> (r: &Vec<VadWindowTrace>)
        ensures
            window_views(r@) == self@.vad_windows,
    {
        &self.vad_windows
    }

    pub fn load_samples(&self) -> (r: &Vec<LoadTimelineSample>)
        ensures
            load_views(r@) == self@.load_samples,
    {
        &self.load_samples
    }

    pub fn stop_save_timeline(&self) -> (r: &Vec<StopSaveTimelineEvent>)
        ensures
            stage_views(r@) == self@.stop_stages,
    {
        &self.stop_save_timeline
    }

    pub fn capture_pcm_bytes(&self) -> (r: &Vec<u8>)
        ensures
            r@ == self@.captured,
    {
        &self.capture_pcm_bytes
    }

    fn next_sequence(&mut self) -> (r: u64)
        requires
            old(self).wf(),
        ensures
            final(self).wf(),
            r == old(self)@.sequence,
            final(self)@ == (Measurement {
                sequence: old(self)@.sequence.wrapping_add(1),
                ..old(self)@
            }),
    {
        let sequence: u64 = self.sequence;
        self.sequence = self.sequence.wrapping_add(1);
        sequence
    }

    fn update_chunks(&mut self, chunk_ids: &[u64], event: &TraceEvent)
        requires
            old(self).wf(),
        ensures
            final(self).wf(),
            final(self)@ == old(self)@.with_event(chunk_ids@, event@),
    {
        broadcast use vstd::std_specs::btree::group_btree_axioms;

        let ghost start = trace_views(self.chunks@);
        let mut i: usize = 0;
        assert(chunk_ids@.take(0) =~= Seq::empty());
        while i < chunk_ids.len()
            invariant
                i <= chunk_ids@.len(),
                start == old(self)@.chunks,
                trace_views(self.chunks@) == traced(start, chunk_ids@.take(i as int), event@),
                self@ == (Measurement { chunks: trace_views(self.chunks@), ..old(self)@ }),
                self.wf(),
            decreases chunk_ids@.len() - i,
        {
            let chunk_id: u64 = chunk_ids[i];
            let ghost before = self.chunks@;
            let mut trace = match self.chunks.remove(&chunk_id) {
                Some(trace) => trace,
                None => unknown_chunk(chunk_id),
            };
            assert(trace@ == trace_of(trace_views(before), chunk_id));
            trace.apply(event);
            self.chunks.insert(chunk_id, trace);
            proof {
                assert(chunk_ids@.take(i + 1).drop_last() =~= chunk_ids@.take(i as int));
                assert(trace_views(self.chunks@) =~= trace_views(before).insert(chunk_id, trace@));
            }
            i = i + 1;
        }
        assert(chunk_ids@.take(i as int) =~= chunk_ids@);
    }

    fn update_chunk(&mut self, chunk_id: u64, event: &TraceEvent)
        requires
            old(self).wf(),
        ensures
            final(self).wf(),
            final(self)@ == old(self)@.with_event(seq![chunk_id], event@),
    {
        let mut ids: Vec<u64> = Vec::new();
        ids.push(chunk_id);
        assert(ids@ =~= seq![chunk_id]);
        self.update_chunks(ids.as_slice(), event);
    }

    pub fn record_vad_window(
        &mut self,
        source_sample_start: u64,
        source_sample_end: u64,
        vad_decision: &str,
        vad_exclusion_reason: Option<&str>,
        emitted_chunk_ids: Vec<u64>,
        at_ns: u64,
    )
        requires
            old(self).wf(),
        ensures
            final(self).wf(),
            final(self)@ == old(self)@.recorded(
                Record::Window {
                    source_sample_start,
                    source_sample_end,
                    vad_decision: vad_decision@,
                    vad_exclusion_reason: str_view(vad_exclusion_reason),
                    emitted_chunk_ids: emitted_chunk_ids@,
                    at_ns,
                },
            ),
    {
        let sequence: u64 = self.next_sequence();
        let window = VadWindowTrace {
            sequence,
            source_sample_start,
            source_sample_end,
            vad_decision: vad_decision.to_owned(),
            vad_exclusion_reason: owned(vad_exclusion_reason),
            emitted_chunk_ids,
            observed_at_monotonic_ns: at_ns,
        };
        let ghost before = window_views(self.vad_windows@);
        self.vad_windows.push(window);
        assert(window_views(self.vad_windows@) =~= before.push(window@));
    }

    pub fn record_vad_chunk(
        &mut self,
        chunk_id: u64,
        source_sample_start: u64,
        source_sample_end: u64,
        sample_rate_hz: u32,
        vad_decision: &str,
        vad_exclusion_reason: Option<&str>,
    )
        requires
            old(self).wf(),
        ensures
            final(self).wf(),
            final(self)@ == old(self)@.recorded(
                Record::OnChunks {
                    chunk_ids: seq![chunk_id],
                    event: Event::Detected {
                        source_sample_start,
                        source_sample_end,
                        sample_rate_hz,
                        vad_decision: vad_decision@,
                        vad_exclusion_reason: str_view(vad_exclusion_reason),
                    },
                },
            ),
    {
        let event = TraceEvent::Detected {
            source_sample_start,
            source_sample_end,
            sample_rate_hz,
            vad_decision: vad_decision.to_owned(),
            vad_exclusion_reason: owned(vad_exclusion_reason),
        };
        self.update_chunk(chunk_id, &event);
    }

    pub fn record_enqueued(&mut self, chunk_id: u64, at_ns: u64)
        requires
            old(self).wf(),
        ensures
            final(self).wf(),
            final(self)@ == old(self)@.recorded(
                Record::OnChunks { chunk_ids: seq![chunk_id], event: Event::Enqueued { at_ns } }),
    {
        self.update_chunk(chunk_id, &TraceEvent::Enqueued { at_ns });
    }

    pub fn record_dequeued(&mut self, chunk_id: u64, at_ns: u64)
        requires
            old(self).wf(),
        ensures
            final(self).wf(),
            final(self)@ == old(self)@.recorded(
                Record::OnChunks { chunk_ids: seq![chunk_id], event: Event::Dequeued { at_ns } }),
    {
        self.update_chunk(chunk_id, &TraceEvent::Dequeued { at_ns });
    }

    /// Notes that a chunk was joined to another one.
    pub fn record_overlap(&mut self, base_chunk_id: u64, next_chunk_id: u64, overlap_samples: u64)
        requires
            old(self).wf(),
        ensures
            final(self).wf(),
            final(self)@ == old(self)@.recorded(
                Record::Overlap { base_chunk_id, next_chunk_id, overlap_samples }),
    {
        self.update_chunk(
            base_chunk_id, &TraceEvent::Absorbed { chunk_id: next_chunk_id, overlap_samples });
        self.update_chunk(
            next_chunk_id, &TraceEvent::JoinedTo { chunk_id: base_chunk_id, overlap_samples });
    }

    /// Notes what an engine is given, and keeps it. A sample is the bit pattern of a 32-bit float.
    pub fn record_inference_started(
        &mut self,
        chunk_ids: &[u64],
        samples: &[u32],
        sample_rate_hz: u32,
        actual_language: Option<&str>,
        language_applied_to_provider: bool,
        context_version_id: Option<&str>,
        context_sha256: Option<&str>,
        transcription_provider: &str,
        transcription_model: &str,
        at_ns: u64,
    )
        requires
            old(self).wf(),
        ensures
            final(self).wf(),
            final(self)@ == old(self)@.recorded(
                Record::InferenceStarted {
                    chunk_ids: chunk_ids@,
                    samples: samples@,
                    sample_rate_hz,
                    language: str_view(actual_language),
                    language_applied: language_applied_to_provider,
                    context_version_id: str_view(context_version_id),
                    context_sha256: str_view(context_sha256),
                    provider: transcription_provider@,
                    model: transcription_model@,
                    at_ns,
                },
            ),
    {
        let bytes = pcm_f32le_bytes(samples);
        let pcm_sha256 = sha256_bytes(bytes.as_slice());
        sha256_update(&mut self.capture_hasher, bytes.as_slice());
        let mut more = bytes;
        self.capture_pcm_bytes.append(&mut more);
        let sample_start: u64 = self.capture_sample_count;
        self.capture_sample_count = sample_start.wrapping_add(samples.len() as u64);
        if self.capture_sample_rate_hz == 0 {
            self.capture_sample_rate_hz = sample_rate_hz as u64;
        }
        let batch_chunk_id: Option<u64> = if chunk_ids.len() > 0 { Some(chunk_ids[0]) } else { None };
        let event = TraceEvent::InferenceStarted(
            InferenceStart {
                at_ns,
                batch_chunk_id,
                sample_start,
                sample_end: sample_start.saturating_add(samples.len() as u64),
                sample_count: samples.len() as u64,
                pcm_sha256,
                provider: transcription_provider.to_owned(),
                model: transcription_model.to_owned(),
                language: owned(actual_language),
                language_applied: language_applied_to_provider,
                context_version_id: owned(context_version_id),
                context_sha256: owned(context_sha256),
            },
        );
        assert(self@ =~= old(self)@.with_capture(samples@, sample_rate_hz));
        self.update_chunks(chunk_ids, &event);
    }

    pub fn record_inference_finished(
        &mut self,
        chunk_ids: &[u64],
        error: Option<&str>,
        at_ns: u64,
    )
        requires
            old(self).wf(),
        ensures
            final(self).wf(),
            final(self)@ == old(self)@.recorded(
                Record::OnChunks {
                    chunk_ids: chunk_ids@,
                    event: Event::InferenceFinished { at_ns, error: str_view(error) },
                },
            ),
    {
        let event = TraceEvent::InferenceFinished { at_ns, error: owned(error) };
        self.update_chunks(chunk_ids, &event);
    }

    pub fn record_text(
        &mut self,
        chunk_ids: &[u64],
        before_dedup: &str,
        after_dedup: &str,
        after_context_normalization: &str,
        dedup_trace_status: &str,
    )
        requires
            old(self).wf(),
        ensures
            final(self).wf(),
            final(self)@ == old(self)@.recorded(
                Record::OnChunks {
                    chunk_ids: chunk_ids@,
                    event: Event::Transcribed {
                        before_dedup: before_dedup@,
                        after_dedup: after_dedup@,
                        after_context_normalization: after_context_normalization@,
                        dedup_trace_status: dedup_trace_status@,
                    },
                },
            ),
    {
        let event = TraceEvent::Transcribed {
            before_dedup: before_dedup.to_owned(),
            after_dedup: after_dedup.to_owned(),
            after_context_normalization: after_context_normalization.to_owned(),
            dedup_trace_status: dedup_trace_status.to_owned(),
        };
        self.update_chunks(chunk_ids, &event);
    }

    /// Notes whether the text of chunks was saved; a failure is an error of the measurement too.
    pub fn record_final_writeback(
        &mut self,
        chunk_ids: &[u64],
        result: Result<(), String>,
        at_ns: u64,
    )
        requires
            old(self).wf(),
        ensures
            final(self).wf(),
            final(self)@ == old(self)@.recorded(
                Record::WrittenBack { chunk_ids: chunk_ids@, result: result_text(result), at_ns }),
    {
        let failure: Option<String> = match &result {
            Ok(_) => None,
            Err(error) => Some(
                text::joined("final transcript writeback failed: ", error.as_str()),
            ),
        };
        let event = TraceEvent::WrittenBack { at_ns, result };
        self.update_chunks(chunk_ids, &event);
        if let Some(failure) = failure {
            self.record_error(failure);
        }
    }

    /// Notes that chunks ended without a text to save.
    pub fn record_terminal_without_writeback(
        &mut self,
        chunk_ids: &[u64],
        reason: &str,
        at_ns: u64,
    )
        requires
            old(self).wf(),
        ensures
            final(self).wf(),
            final(self)@ == old(self)@.recorded(
                Record::OnChunks {
                    chunk_ids: chunk_ids@,
                    event: Event::EndedWithout { at_ns, reason: reason@ },
                },
            ),
    {
        let event = TraceEvent::EndedWithout { at_ns, reason: reason.to_owned() };
        self.update_chunks(chunk_ids, &event);
    }

    pub fn record_stop_stage(
        &mut self,
        stage: &str,
        result: &str,
        error: Option<&str>,
        at_ns: u64,
    )
        requires
            old(self).wf(),
        ensures
            final(self).wf(),
            final(self)@ == old(self)@.recorded(
                Record::Stage { stage: stage@, result: result@, error: str_view(error), at_ns }),
    {
        let sequence: u64 = self.next_sequence();
        let event = StopSaveTimelineEvent {
            sequence,
            stage: stage.to_owned(),
            result: result.to_owned(),
            monotonic_ns: at_ns,
            error: owned(error),
        };
        let ghost before = stage_views(self.stop_save_timeline@);
        self.stop_save_timeline.push(event);
        assert(stage_views(self.stop_save_timeline@) =~= before.push(event@));
    }

    pub fn record_error(&mut self, error: String)
        requires
            old(self).wf(),
        ensures
            final(self).wf(),
            final(self)@ == old(self)@.recorded(Record::Error(error@)),
    {
        let ghost before = text::views(self.errors@);
        self.errors.push(error);
        assert(text::views(self.errors@) =~= before.push(error@));
    }

    pub fn record_engine_identity(&mut self, provider: &str, model: &str)
        requires
            old(self).wf(),
        ensures
            final(self).wf(),
            final(self)@ == old(self)@.recorded(
                Record::Engine { provider: provider@, model: model@ }),
    {
        self.transcription_engine =
        Some(
            TranscriptionEngineIdentity { provider: provider.to_owned(), model: model.to_owned() },
        );
    }

    /// Takes in a reading of the machine's load.
    pub fn record_load_sample(&mut self, reading: LoadReading, at_ns: u64)
        requires
            old(self).wf(),
        ensures
            final(self).wf(),
            final(self)@ == old(self)@.recorded(Record::Load { reading, at_ns }),
    {
        let sequence: u64 = self.next_sequence();
        let system_unavailable_reason: Option<String> = if reading.system_cpu_percent_bits.is_none() {
            Some("system CPU metrics are unavailable from sysinfo".to_owned())
        } else {
            None
        };
        let process_unavailable_reason: Option<String> = if reading.process.is_none() {
            Some("current process metrics are unavailable from sysinfo".to_owned())
        } else {
            None
        };
        let (process_cpu_percent_bits, process_memory_used_bytes): (Option<u32>, Option<u64>) =
            match reading.process {
            Some((cpu, memory)) => (Some(cpu), Some(memory)),
            None => (None, None),
        };
        let sample = LoadTimelineSample {
            sequence,
            monotonic_ns: at_ns,
            system_cpu_percent_bits: reading.system_cpu_percent_bits,
            system_memory_used_bytes: reading.system_memory_used_bytes,
            system_memory_total_bytes: reading.system_memory_total_bytes,
            system_unavailable_reason,
            process_cpu_percent_bits,
            process_memory_used_bytes,
            process_unavailable_reason,
            gpu_percent_bits: None,
            gpu_memory_used_bytes: None,
            gpu_unavailable_reason: Some(
                "GPU telemetry is not exposed by the current cross-platform runtime".to_owned(),
            ),
        };
        let ghost before = load_views(self.load_samples@);
        self.load_samples.push(sample);
        assert(load_views(self.load_samples@) =~= before.push(sample@));
    }

    /// Ends the timelines of a measurement that is finalized next. One that was finalized before
    /// stays as it is.
    pub fn close_timeline(&mut self, at_ns: u64) -> (r: Result<(), FinalizeError>)
        requires
            old(self).wf(),
        ensures
            final(self).wf(),
            if old(self)@.finalized {
                r == Err::<(), FinalizeError>(FinalizeError::AlreadyFinalized) && final(self)@
                    == old(self)@
            } else {
                r is Ok && final(self)@ == old(self)@.recorded(
                    Record::Stage {
                        stage: "measurement_finalized"@,
                        result: "completed"@,
                        error: None,
                        at_ns,
                    },
                )
            },
    {
        if self.finalized {
            return Err(FinalizeError::AlreadyFinalized);
        }
        self.record_stop_stage("measurement_finalized", "completed", None, at_ns);
        Ok(())
    }

    /// Finalizes the measurement and sums it up; this happens once. The three byte strings are the
    /// contents of its trace, its load timeline and its timeline of ending and saving, and
    /// `written` says whether they and the captured audio could be written.
    pub fn finalize(
        &mut self,
        trace_bytes: &[u8],
        load_bytes: &[u8],
        stop_bytes: &[u8],
        written: Result<(), String>,
        finalized_at_ns: u64,
    ) -> (r: Result<RealtimeMeasurementSummary, FinalizeError>)
        requires
            old(self).wf(),
        ensures
            final(self).wf(),
            r is Ok == old(self)@.can_be_finalized(written),
            final(self)@ == old(self)@.closed(),
            final(self)@ == (Measurement { finalized: true, ..old(self)@ }),
            match r {
                Err(FinalizeError::AlreadyFinalized) => old(self)@.finalized,
                Err(FinalizeError::NotWritten(error)) => !old(self)@.finalized && written == Err::<
                    (),
                    String,
                >(error),
                Err(FinalizeError::CaptureHashMismatch) => false,
                Ok(summary) => !old(self)@.finalized && written is Ok && sums_up(
                    summary,
                    old(self)@,
                    trace_bytes@,
                    load_bytes@,
                    stop_bytes@,
                    finalized_at_ns,
                ),
            },
    {
        if self.finalized {
            return Err(FinalizeError::AlreadyFinalized);
        }
        self.finalized = true;
        if let Err(error) = written {
            return Err(FinalizeError::NotWritten(error));
        }
        self.summary(trace_bytes, load_bytes, stop_bytes, finalized_at_ns)
    }

    fn summary(
        &self,
        trace_bytes: &[u8],
        load_bytes: &[u8],
        stop_bytes: &[u8],
        finalized_at_ns: u64,
    ) -> (r: Result<RealtimeMeasurementSummary, FinalizeError>)
        requires
            self.wf(),
        ensures
            r matches Ok(summary) && sums_up(
                summary, self@, trace_bytes@, load_bytes@, stop_bytes@, finalized_at_ns),
    {
        broadcast use vstd::std_specs::btree::group_btree_axioms;

        let streamed = sha256_finish(&self.capture_hasher);
        let capture_pcm_sha256 = text::to_hex(&streamed);
        let capture_pcm = file_record(
            CAPTURE_PCM_FILE, self.capture_pcm_bytes.as_slice());
        if capture_pcm.sha256 != capture_pcm_sha256 {
            return Err(FinalizeError::CaptureHashMismatch);
        }
        let load_timeline = file_record(LOAD_TIMELINE_FILE, load_bytes);
        let sample_rate: u64 = self.capture_sample_rate_hz;
        let chunk_count: usize = self.chunks.len();
        assert(self@.chunks.dom() =~= self.chunks@.dom());
        let transcription_engine = match &self.transcription_engine {
            Some(identity) => Some(
                TranscriptionEngineIdentity {
                    provider: identity.provider.clone(),
                    model: identity.model.clone(),
                },
            ),
            None => None,
        };
        Ok(
            RealtimeMeasurementSummary {
                schema_version: 1,
                recording_id: self.recording_id.clone(),
                audio_input_path_id: self.contract.audio_input_path_id.clone(),
                baseline_snapshot_id: self.contract.baseline_snapshot_id.clone(),
                isolated_data_identity: self.contract.isolated_data_identity.clone(),
                transcription_engine,
                measurement_started_at_monotonic_ns: 0,
                measurement_finalized_at_monotonic_ns: finalized_at_ns,
                capture_pcm_sha256,
                capture_pcm,
                capture_pcm_sample_count: self.capture_sample_count,
                capture_pcm_sample_rate_hz: if sample_rate == 0 {
                    None
                } else {
                    Some(sample_rate as u32)
                },
                trace: file_record(TRACE_FILE, trace_bytes),
                load_timeline_sha256: load_timeline.sha256.clone(),
                load_timeline,
                stop_save_timeline: file_record(STOP_TIMELINE_FILE, stop_bytes),
                chunk_count,
                vad_window_count: self.vad_windows.len(),
                load_sample_count: self.load_samples.len(),
                stop_save_event_count: self.stop_save_timeline.len(),
                errors: text::clone_strings(&self.errors),
            },
        )
    }
}

/// Law: an event on some chunks changes the trace of no other chunk.
pub proof fn events_touch_only_their_chunks(
    chunks: Map<u64, Trace>,
    chunk_ids: Seq<u64>,
    event: Event,
    other: u64,
)
    requires
        !chunk_ids.contains(other),
    ensures
        traced(chunks, chunk_ids, event).contains_key(other) == chunks.contains_key(other),
        chunks.contains_key(other) ==> traced(chunks, chunk_ids, event)[other] == chunks[other],
    decreases chunk_ids.len(),
{
    if chunk_ids.len() > 0 {
        assert(chunk_ids.contains(chunk_ids.last())) by {
            assert(chunk_ids[chunk_ids.len() - 1] == chunk_ids.last());
        }
        assert forall|i: int| 0 <= i < chunk_ids.drop_last().len() implies chunk_ids.drop_last()[i]
            != other by {
            assert(chunk_ids[i] != other);
        }
        events_touch_only_their_chunks(chunks, chunk_ids.drop_last(), event, other);
    }
}

/// Law: every chunk that an event is about has a trace, and keeps its identifier.
pub proof fn every_chunk_is_traced(
    chunks: Map<u64, Trace>,
    chunk_ids: Seq<u64>,
    event: Event,
    chunk_id: u64,
)
    requires
        chunk_ids.contains(chunk_id),
        forall|id: u64| chunks.contains_key(id) ==> (#[trigger] chunks[id]).chunk_id == id,
    ensures
        traced(chunks, chunk_ids, event).contains_key(chunk_id),
        forall|id: u64|
            traced(chunks, chunk_ids, event).contains_key(id) ==> (#[trigger] traced(
                chunks, chunk_ids, event)[id]).chunk_id == id,
    decreases chunk_ids.len(),
{
    let shorter = chunk_ids.drop_last();
    if shorter.contains(chunk_id) {
        every_chunk_is_traced(chunks, shorter, event, chunk_id);
    } else if shorter.len() > 0 {
        assert(shorter.contains(shorter[0]));
        every_chunk_is_traced(chunks, shorter, event, shorter[0]);
    }
    let i = choose|i: int| 0 <= i < chunk_ids.len() && chunk_ids[i] == chunk_id;
    if i < shorter.len() {
        assert(shorter[i] == chunk_id);
    }
}

/// Law: what an engine is given is kept where it lies in the capture: each batch begins where the
/// one before ended, with its own samples and their digest.
pub proof fn batches_adjoin_in_the_capture(
    measurement: Measurement,
    chunk_ids: Seq<u64>,
    samples: Seq<u32>,
    sample_rate_hz: u32,
    language: Option<Seq<char>>,
    language_applied: bool,
    context_version_id: Option<Seq<char>>,
    context_sha256: Option<Seq<char>>,
    provider: Seq<char>,
    model: Seq<char>,
    at_ns: u64,
)
    requires
        measurement.capture_sample_count + samples.len() <= u64::MAX,
    ensures
        ({
            let inference = measurement.inference(
                chunk_ids, samples, language, language_applied, context_version_id, context_sha256,
                provider, model, at_ns);
            let after = measurement.with_capture(samples, sample_rate_hz);
            &&& inference.sample_start == measurement.capture_sample_count
            &&& inference.sample_end == inference.sample_start + inference.sample_count
            &&& inference.sample_count == samples.len()
            &&& inference.sample_end == after.capture_sample_count
            &&& inference.pcm_sha256 == sha256_hex(pcm_bytes(samples))
            &&& inference.language == language && inference.language_applied == language_applied
            &&& inference.provider == provider && inference.model == model
            &&& inference.context_version_id == context_version_id && inference.context_sha256
                == context_sha256
            &&& inference.at_ns == at_ns
            &&& chunk_ids.len() > 0 ==> inference.batch_chunk_id == Some(chunk_ids.first())
            &&& after.captured == measurement.captured + pcm_bytes(samples)
            &&& measurement.capture_sample_rate_hz > 0 ==> after.capture_sample_rate_hz
                == measurement.capture_sample_rate_hz
            &&& measurement.capture_sample_rate_hz == 0 ==> after.capture_sample_rate_hz
                == sample_rate_hz
        }),
{
}

/// Law: the steps of stopping, readings of the load, windows and errors are kept in the order they
/// came, each with its time, and numbered one after the other.
pub proof fn timelines_keep_their_order(
    measurement: Measurement,
    stage: Seq<char>,
    result: Seq<char>,
    error: Option<Seq<char>>,
    at_ns: u64,
    reading: LoadReading,
    failure: Seq<char>,
)
    requires
        measurement.sequence < u64::MAX,
    ensures
        ({
            let stopped = measurement.recorded(Record::Stage { stage, result, error, at_ns });
            let loaded = measurement.recorded(Record::Load { reading, at_ns });
            let failed = measurement.recorded(Record::Error(failure));
            &&& stopped.stop_stages.drop_last() == measurement.stop_stages
            &&& stopped.stop_stages.last().stage == stage && stopped.stop_stages.last().result
                == result && stopped.stop_stages.last().error == error
                && stopped.stop_stages.last().monotonic_ns == at_ns
                && stopped.stop_stages.last().sequence == measurement.sequence
            &&& stopped.sequence == measurement.sequence + 1
            &&& loaded.load_samples.drop_last() == measurement.load_samples
            &&& loaded.load_samples.last().monotonic_ns == at_ns
                && loaded.load_samples.last().sequence == measurement.sequence
                && loaded.load_samples.last().system_cpu_percent_bits
                == reading.system_cpu_percent_bits
                && loaded.load_samples.last().process_unavailable_reason is Some
                == reading.process is None && loaded.load_samples.last().system_unavailable_reason
                is Some == reading.system_cpu_percent_bits is None
                && loaded.load_samples.last().gpu_percent_bits is None
            &&& loaded.sequence == measurement.sequence + 1
            &&& failed.errors.drop_last() == measurement.errors && failed.errors.last() == failure
            &&& stopped.chunks == measurement.chunks && loaded.chunks == measurement.chunks
                && failed.chunks == measurement.chunks
        }),
{
    let stopped = measurement.recorded(Record::Stage { stage, result, error, at_ns });
    let loaded = measurement.recorded(Record::Load { reading, at_ns });
    let failed = measurement.recorded(Record::Error(failure));
    assert(stopped.stop_stages.drop_last() =~= measurement.stop_stages);
    assert(loaded.load_samples.drop_last() =~= measurement.load_samples);
    assert(failed.errors.drop_last() =~= measurement.errors);
}

/// Law: text that could not be saved is an error of the measurement; text that was saved is none.
pub proof fn lost_text_is_an_error(
    measurement: Measurement,
    chunk_ids: Seq<u64>,
    error: Seq<char>,
    at_ns: u64,
)
    ensures
        measurement.recorded(
            Record::WrittenBack { chunk_ids, result: Ok(()), at_ns },
        ).errors == measurement.errors,
        measurement.recorded(
            Record::WrittenBack { chunk_ids, result: Err(error), at_ns },
        ).errors == measurement.errors.push("final transcript writeback failed: "@ + error),
{
}

/// Law: rows of a file are written one after the other, each on a line of its own.
pub proof fn rows_are_lines(rows: Seq<Vec<u8>>, row: Vec<u8>)
    ensures
        joined_rows(rows.push(row)) == joined_rows(rows) + row@ + seq![10u8],
        joined_rows(Seq::empty()).len() == 0,
{
    assert(rows.push(row).drop_last() =~= rows);
}

/// Law: a measurement is finalized at most once, and only where its files were written; after a
/// first attempt no other one counts, and nothing that was measured changes.
pub proof fn measurements_are_finalized_once(
    measurement: Measurement,
    written: Result<(), String>,
    again: Result<(), String>,
)
    ensures
        !measurement.closed().can_be_finalized(again),
        measurement.can_be_finalized(written) ==> written is Ok && !measurement.finalized,
        !measurement.finalized && written is Ok ==> measurement.can_be_finalized(written),
        measurement.closed().chunks == measurement.chunks,
        measurement.closed().captured == measurement.captured,
        measurement.closed().errors == measurement.errors,
        measurement.closed().closed() == measurement.closed(),
{
}

/// Law: the summary of a measurement names its files and their digests, counts what was measured,
/// and keeps every error.
pub proof fn summaries_name_their_files(
    summary: RealtimeMeasurementSummary,
    measurement: Measurement,
    trace_bytes: Seq<u8>,
    load_bytes: Seq<u8>,
    stop_bytes: Seq<u8>,
    finalized_at_ns: u64,
)
    requires
        sums_up(summary, measurement, trace_bytes, load_bytes, stop_bytes, finalized_at_ns),
    ensures
        summary.trace.sha256@ == sha256_hex(trace_bytes) && summary.trace.bytes
            == trace_bytes.len(),
        summary.load_timeline.sha256@ == sha256_hex(load_bytes) && summary.load_timeline_sha256@
            == summary.load_timeline.sha256@,
        summary.stop_save_timeline.sha256@ == sha256_hex(stop_bytes),
        summary.capture_pcm.sha256@ == sha256_hex(measurement.captured)
            && summary.capture_pcm_sha256@ == summary.capture_pcm.sha256@,
        summary.capture_pcm.bytes == measurement.captured.len(),
        summary.trace.path@ == TRACE_FILE@ && summary.load_timeline.path@ == LOAD_TIMELINE_FILE@
            && summary.stop_save_timeline.path@ == STOP_TIMELINE_FILE@ && summary.capture_pcm.path@
            == CAPTURE_PCM_FILE@,
        summary.recording_id@ == measurement.recording_id,
        summary.chunk_count == measurement.chunks.dom().len(),
        summary.vad_window_count == measurement.vad_windows.len(),
        summary.load_sample_count == measurement.load_samples.len(),
        summary.stop_save_event_count == measurement.stop_stages.len(),
        summary.errors@.len() == measurement.errors.len(),
        forall|i: int| 0 <= i < summary.errors@.len() ==> (#[trigger] summary.errors@[i])@
            == measurement.errors[i],
        summary.measurement_finalized_at_monotonic_ns == finalized_at_ns,
        summary.audio_input_path_id@ == measurement.contract.audio_input_path_id,
        summary.baseline_snapshot_id@ == measurement.contract.baseline_snapshot_id,
        summary.isolated_data_identity@ == measurement.contract.isolated_data_identity,
        measurement.engine matches Some(engine) ==> (summary.transcription_engine matches Some(used)
            && used.provider@ == engine.0 && used.model@ == engine.1),
        measurement.engine is None ==> summary.transcription_engine is None,
{
    assert forall|i: int| 0 <= i < summary.errors@.len() implies (#[trigger] summary.errors@[i])@
        == measurement.errors[i] by {
        assert(text::views(summary.errors@)[i] == summary.errors@[i]@);
    }
}

/// Law: an event reaches the trace of each of its chunks, as it stood, or a new one.
pub proof fn events_reach_their_chunk(
    chunks: Map<u64, Trace>,
    chunk_id: u64,
    event: Event,
    measurement: Measurement,
    other: u64,
    overlap_samples: u64,
)
    requires
        chunk_id != other,
    ensures
        ({
            let after = traced(chunks, seq![chunk_id], event);
            &&& chunks.contains_key(chunk_id) ==> after[chunk_id] == chunks[chunk_id].after(event)
            &&& !chunks.contains_key(chunk_id) ==> after[chunk_id] == Trace::unknown(
                chunk_id).after(event)
            &&& chunks.contains_key(other) ==> after[other] == chunks[other]
        }),
        measurement.recorded(
            Record::OnChunks { chunk_ids: seq![chunk_id], event },
        ).chunks == traced(measurement.chunks, seq![chunk_id], event),
        ({
            let joined = measurement.recorded(
                Record::Overlap {
                    base_chunk_id: chunk_id,
                    next_chunk_id: other,
                    overlap_samples,
                },
            );
            &&& joined.chunks[other].coalesced_into_chunk_id == Some(chunk_id)
            &&& joined.chunks[chunk_id].source_chunk_ids.contains(other)
            &&& joined.chunks[other].overlap_samples == overlap_samples
        }),
{
    let one = seq![chunk_id];
    let two = seq![other];
    assert(one.drop_last() =~= Seq::empty());
    assert(two.drop_last() =~= Seq::empty());
    assert(one.last() == chunk_id && two.last() == other);
    assert(traced(chunks, one.drop_last(), event) == chunks);
    let absorbed = Event::Absorbed { chunk_id: other, overlap_samples };
    let joins = Event::JoinedTo { chunk_id, overlap_samples };
    let first = traced(measurement.chunks, one, absorbed);
    assert(traced(measurement.chunks, one.drop_last(), absorbed) == measurement.chunks);
    assert(traced(first, two.drop_last(), joins) == first);
    let before = trace_of(measurement.chunks, chunk_id);
    let known = before.source_chunk_ids;
    let after = before.after(absorbed);
    if !known.contains(other) {
        assert(after.source_chunk_ids[known.len() as int] == other);
    }
}

/// Law: a window of detection is kept as it was observed, in order.
pub proof fn windows_are_kept_as_observed(
    measurement: Measurement,
    source_sample_start: u64,
    source_sample_end: u64,
    vad_decision: Seq<char>,
    vad_exclusion_reason: Option<Seq<char>>,
    emitted_chunk_ids: Seq<u64>,
    at_ns: u64,
    provider: Seq<char>,
    model: Seq<char>,
)
    ensures
        ({
            let after = measurement.recorded(
                Record::Window {
                    source_sample_start,
                    source_sample_end,
                    vad_decision,
                    vad_exclusion_reason,
                    emitted_chunk_ids,
                    at_ns,
                },
            );
            let window = after.vad_windows.last();
            &&& after.vad_windows.len() == measurement.vad_windows.len() + 1
            &&& window.source_sample_start == source_sample_start && window.source_sample_end
                == source_sample_end
            &&& window.vad_decision == vad_decision && window.vad_exclusion_reason
                == vad_exclusion_reason
            &&& window.emitted_chunk_ids == emitted_chunk_ids
            &&& window.observed_at_monotonic_ns == at_ns && window.sequence == measurement.sequence
            &&& after.chunks == measurement.chunks
        }),
        measurement.recorded(Record::Engine { provider, model }).engine == Some((provider, model)),
{
}

} // verus!
