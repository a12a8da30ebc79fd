//! The audio that a controlled measurement replays, and what must hold before it does.

use vstd::prelude::*;
use vstd::string::*;

use crate::outside::{sha256, sha256_digest};
use crate::text;

verus! {

pub const ISOLATION_MARKER_FILE: &'static str = ".meetily-d11-isolated.json";

pub const INPUT_CONTRACT_FILE: &'static str = "audio-input-contract.json";

pub const CAPTURE_PCM_FILE: &'static str = "capture-pcm.f32le";

pub const TRACE_FILE: &'static str = "realtime-transcription-trace.jsonl";

pub const LOAD_TIMELINE_FILE: &'static str = "load-timeline.jsonl";

pub const STOP_TIMELINE_FILE: &'static str = "stop-save-timeline.jsonl";

pub const SUMMARY_FILE: &'static str = "realtime-measurement.json";

/// Samples per second of the replayed audio.
pub const CONTROLLED_SAMPLE_RATE: u32 = 16_000;

/// Samples that are replayed at a time.
pub const CONTROLLED_FRAME_SAMPLES: usize = 1_600;

/// Nanoseconds that one replayed sample lasts.
pub const NANOS_PER_CONTROLLED_SAMPLE: u64 = 62_500;

/// What a controlled measurement is asked to replay.
#[derive(Debug)]
pub struct RealtimeAudioInputRequest {
    pub input_path: String,
    pub controlled_input_root: String,
    pub isolated_output_root: String,
    pub isolated_data_identity: String,
    pub baseline_snapshot_id: String,
    pub expected_input_file_sha256: String,
    pub meeting_name: Option<String>,
}

/// What a controlled measurement replays, fixed before it starts.
#[derive(Debug)]
pub struct RealtimeAudioInputContract {
    pub schema_version: u32,
    pub audio_input_path_id: String,
    pub input_path: String,
    pub controlled_input_root: String,
    pub isolated_output_root: String,
    pub isolated_data_identity: String,
    pub baseline_snapshot_id: String,
    pub input_file_sha256: String,
    pub canonical_pcm_sha256: String,
    pub canonical_sample_rate_hz: u32,
    pub canonical_channels: u16,
    pub canonical_sample_format: String,
    pub canonical_sample_count: u64,
    pub duration_ns: u128,
    pub frame_samples: usize,
    pub pacing: String,
    pub injection_point: String,
}

/// What a `RealtimeAudioInputContract` stands for.
#[verifier::ext_equal]
pub struct InputContract {
    pub schema_version: u32,
    pub audio_input_path_id: Seq<char>,
    pub input_path: Seq<char>,
    pub controlled_input_root: Seq<char>,
    pub isolated_output_root: Seq<char>,
    pub isolated_data_identity: Seq<char>,
    pub baseline_snapshot_id: Seq<char>,
    pub input_file_sha256: Seq<char>,
    pub canonical_pcm_sha256: Seq<char>,
    pub canonical_sample_rate_hz: u32,
    pub canonical_channels: u16,
    pub canonical_sample_format: Seq<char>,
    pub canonical_sample_count: u64,
    pub duration_ns: int,
    pub frame_samples: usize,
    pub pacing: Seq<char>,
    pub injection_point: Seq<char>,
}

impl View for RealtimeAudioInputContract {
    type V = InputContract;

    open spec fn view(&self) -> InputContract {
        InputContract {
            schema_version: self.schema_version,
            audio_input_path_id: self.audio_input_path_id@,
            input_path: self.input_path@,
            controlled_input_root: self.controlled_input_root@,
            isolated_output_root: self.isolated_output_root@,
            isolated_data_identity: self.isolated_data_identity@,
            baseline_snapshot_id: self.baseline_snapshot_id@,
            input_file_sha256: self.input_file_sha256@,
            canonical_pcm_sha256: self.canonical_pcm_sha256@,
            canonical_sample_rate_hz: self.canonical_sample_rate_hz,
            canonical_channels: self.canonical_channels,
            canonical_sample_format: self.canonical_sample_format@,
            canonical_sample_count: self.canonical_sample_count,
            duration_ns: self.duration_ns as int,
            frame_samples: self.frame_samples,
            pacing: self.pacing@,
            injection_point: self.injection_point@,
        }
    }
}

impl Clone for RealtimeAudioInputContract {
    fn clone(&self) -> (r: Self)
        ensures
            r == *self,
    {
        RealtimeAudioInputContract {
            schema_version: self.schema_version,
            audio_input_path_id: self.audio_input_path_id.clone(),
            input_path: self.input_path.clone(),
            controlled_input_root: self.controlled_input_root.clone(),
            isolated_output_root: self.isolated_output_root.clone(),
            isolated_data_identity: self.isolated_data_identity.clone(),
            baseline_snapshot_id: self.baseline_snapshot_id.clone(),
            input_file_sha256: self.input_file_sha256.clone(),
            canonical_pcm_sha256: self.canonical_pcm_sha256.clone(),
            canonical_sample_rate_hz: self.canonical_sample_rate_hz,
            canonical_channels: self.canonical_channels,
            canonical_sample_format: self.canonical_sample_format.clone(),
            canonical_sample_count: self.canonical_sample_count,
            duration_ns: self.duration_ns,
            frame_samples: self.frame_samples,
            pacing: self.pacing.clone(),
            injection_point: self.injection_point.clone(),
        }
    }
}

/// What the caller of a controlled measurement is told of its input.
#[derive(Debug)]
pub struct RealtimeAudioInputAccepted {
    pub audio_input_path_id: String,
    pub input_file_sha256: String,
    pub canonical_pcm_sha256: String,
    pub canonical_sample_count: u64,
    pub canonical_sample_rate_hz: u32,
    pub duration_ns: u128,
    pub baseline_snapshot_id: String,
    pub isolated_data_identity: String,
}

impl RealtimeAudioInputAccepted {
    pub fn from_contract(value: &RealtimeAudioInputContract) -> (r: Self)
        ensures
            r.audio_input_path_id == value.audio_input_path_id,
            r.input_file_sha256 == value.input_file_sha256,
            r.canonical_pcm_sha256 == value.canonical_pcm_sha256,
            r.canonical_sample_count == value.canonical_sample_count,
            r.canonical_sample_rate_hz == value.canonical_sample_rate_hz,
            r.duration_ns == value.duration_ns,
            r.baseline_snapshot_id == value.baseline_snapshot_id,
            r.isolated_data_identity == value.isolated_data_identity,
    {
        RealtimeAudioInputAccepted {
            audio_input_path_id: value.audio_input_path_id.clone(),
            input_file_sha256: value.input_file_sha256.clone(),
            canonical_pcm_sha256: value.canonical_pcm_sha256.clone(),
            canonical_sample_count: value.canonical_sample_count,
            canonical_sample_rate_hz: value.canonical_sample_rate_hz,
            duration_ns: value.duration_ns,
            baseline_snapshot_id: value.baseline_snapshot_id.clone(),
            isolated_data_identity: value.isolated_data_identity.clone(),
        }
    }
}

/// How a recording's metadata refers to its measurement.
#[derive(Debug)]
pub struct RealtimeMeasurementReference {
    pub schema_version: u32,
    pub audio_input_path_id: String,
    pub baseline_snapshot_id: String,
    pub isolated_data_identity: String,
    pub input_contract_file: String,
    pub capture_pcm_file: String,
    pub trace_file: String,
    pub load_timeline_file: String,
    pub stop_save_timeline_file: String,
    pub summary_file: String,
}

/// What a `RealtimeMeasurementReference` stands for.
#[verifier::ext_equal]
pub struct MeasurementReference {
    pub schema_version: u32,
    pub audio_input_path_id: Seq<char>,
    pub baseline_snapshot_id: Seq<char>,
    pub isolated_data_identity: Seq<char>,
    pub input_contract_file: Seq<char>,
    pub capture_pcm_file: Seq<char>,
    pub trace_file: Seq<char>,
    pub load_timeline_file: Seq<char>,
    pub stop_save_timeline_file: Seq<char>,
    pub summary_file: Seq<char>,
}

impl View for RealtimeMeasurementReference {
    type V = MeasurementReference;

    open spec fn view(&self) -> MeasurementReference {
        MeasurementReference {
            schema_version: self.schema_version,
            audio_input_path_id: self.audio_input_path_id@,
            baseline_snapshot_id: self.baseline_snapshot_id@,
            isolated_data_identity: self.isolated_data_identity@,
            input_contract_file: self.input_contract_file@,
            capture_pcm_file: self.capture_pcm_file@,
            trace_file: self.trace_file@,
            load_timeline_file: self.load_timeline_file@,
            stop_save_timeline_file: self.stop_save_timeline_file@,
            summary_file: self.summary_file@,
        }
    }
}

/// The reference to the measurement of an input.
pub open spec fn reference_to(contract: InputContract) -> MeasurementReference {
    MeasurementReference {
        schema_version: 1,
        audio_input_path_id: contract.audio_input_path_id,
        baseline_snapshot_id: contract.baseline_snapshot_id,
        isolated_data_identity: contract.isolated_data_identity,
        input_contract_file: INPUT_CONTRACT_FILE@,
        capture_pcm_file: CAPTURE_PCM_FILE@,
        trace_file: TRACE_FILE@,
        load_timeline_file: LOAD_TIMELINE_FILE@,
        stop_save_timeline_file: STOP_TIMELINE_FILE@,
        summary_file: SUMMARY_FILE@,
    }
}

impl RealtimeMeasurementReference {
    pub fn from_contract(value: &RealtimeAudioInputContract) -> (r: Self)
        ensures
            r@ == reference_to(value@),
    {
        RealtimeMeasurementReference {
            schema_version: 1,
            audio_input_path_id: value.audio_input_path_id.clone(),
            baseline_snapshot_id: value.baseline_snapshot_id.clone(),
            isolated_data_identity: value.isolated_data_identity.clone(),
            input_contract_file: INPUT_CONTRACT_FILE.to_owned(),
            capture_pcm_file: CAPTURE_PCM_FILE.to_owned(),
            trace_file: TRACE_FILE.to_owned(),
            load_timeline_file: LOAD_TIMELINE_FILE.to_owned(),
            stop_save_timeline_file: STOP_TIMELINE_FILE.to_owned(),
            summary_file: SUMMARY_FILE.to_owned(),
        }
    }
}

impl Clone for RealtimeMeasurementReference {
    fn clone(&self) -> (r: Self)
        ensures
            r == *self,
    {
        RealtimeMeasurementReference {
            schema_version: self.schema_version,
            audio_input_path_id: self.audio_input_path_id.clone(),
            baseline_snapshot_id: self.baseline_snapshot_id.clone(),
            isolated_data_identity: self.isolated_data_identity.clone(),
            input_contract_file: self.input_contract_file.clone(),
            capture_pcm_file: self.capture_pcm_file.clone(),
            trace_file: self.trace_file.clone(),
            load_timeline_file: self.load_timeline_file.clone(),
            stop_save_timeline_file: self.stop_save_timeline_file.clone(),
            summary_file: self.summary_file.clone(),
        }
    }
}

/// What a directory that is set apart for measurements says of itself.
#[derive(Debug)]
pub struct IsolationMarker {
    pub schema_version: u32,
    pub purpose: String,
    pub isolated_data_identity: String,
}

/// Why an input is refused.
#[derive(Debug)]
pub enum InputError {
    /// The field with this name is no identifier.
    InvalidIdentifier(&'static str),
    /// The path with this description does not lead anywhere.
    PathUnavailable { what: &'static str, error: String },
    /// A path leads into the data of the installed application.
    FormalApplicationData,
    /// The input lies outside the controlled directory.
    OutsideControlledRoot,
    /// A directory has no marker that can be read.
    MarkerMissing { path: String, error: String },
    /// What stands in a marker's place is none.
    MarkerInvalid(String),
    /// A marker does not match the request.
    MarkerMismatch,
    /// The expected digest is not 64 hexadecimal digits.
    MalformedDigest,
    /// The input cannot be read.
    InputUnreadable { path: String, error: String },
    /// The input has another digest.
    DigestMismatch { expected: String, actual: String },
    /// The input cannot be decoded.
    NotDecoded(String),
    /// The input holds no audio.
    EmptyPcm,
}

/// What an `InputError` stands for.
pub enum InputFailure {
    InvalidIdentifier(Seq<char>),
    PathUnavailable { what: Seq<char>, error: Seq<char> },
    FormalApplicationData,
    OutsideControlledRoot,
    MarkerMissing { path: Seq<char>, error: Seq<char> },
    MarkerInvalid(Seq<char>),
    MarkerMismatch,
    MalformedDigest,
    InputUnreadable { path: Seq<char>, error: Seq<char> },
    DigestMismatch { expected: Seq<char>, actual: Seq<char> },
    NotDecoded(Seq<char>),
    EmptyPcm,
}

impl View for InputError {
    type V = InputFailure;

    open spec fn view(&self) -> InputFailure {
        match *self {
            InputError::InvalidIdentifier(label) => InputFailure::InvalidIdentifier(label@),
            InputError::PathUnavailable { what, error } => InputFailure::PathUnavailable {
                what: what@,
                error: error@,
            },
            InputError::FormalApplicationData => InputFailure::FormalApplicationData,
            InputError::OutsideControlledRoot => InputFailure::OutsideControlledRoot,
            InputError::MarkerMissing { path, error } => InputFailure::MarkerMissing {
                path: path@,
                error: error@,
            },
            InputError::MarkerInvalid(error) => InputFailure::MarkerInvalid(error@),
            InputError::MarkerMismatch => InputFailure::MarkerMismatch,
            InputError::MalformedDigest => InputFailure::MalformedDigest,
            InputError::InputUnreadable { path, error } => InputFailure::InputUnreadable {
                path: path@,
                error: error@,
            },
            InputError::DigestMismatch { expected, actual } => InputFailure::DigestMismatch {
                expected: expected@,
                actual: actual@,
            },
            InputError::NotDecoded(error) => InputFailure::NotDecoded(error@),
            InputError::EmptyPcm => InputFailure::EmptyPcm,
        }
    }
}

impl InputFailure {
    /// The text that describes the failure.
    pub open spec fn text(self) -> Seq<char> {
        match self {
            InputFailure::InvalidIdentifier(label) => label
                + " must contain only ASCII letters, digits, dash, underscore, or dot"@,
            InputFailure::PathUnavailable { what, error } => what + " is unavailable: "@ + error,
            InputFailure::FormalApplicationData =>
                "refusing formal application data root for D-11 controlled measurement"@,
            InputFailure::OutsideControlledRoot =>
                "controlled input must be inside controlled_input_root: prefix not found"@,
            InputFailure::MarkerMissing { path, error } => "missing isolation marker "@ + path
                + ": "@ + error,
            InputFailure::MarkerInvalid(error) => "invalid D-11 isolation marker JSON: "@ + error,
            InputFailure::MarkerMismatch => "D-11 isolation marker does not match the request"@,
            InputFailure::MalformedDigest =>
                "expected_input_file_sha256 must be 64 hexadecimal characters"@,
            InputFailure::InputUnreadable { path, error } => "failed to read controlled input "@
                + path + ": "@ + error,
            InputFailure::DigestMismatch { expected, actual } =>
                "controlled input SHA-256 mismatch: expected "@ + expected + ", got "@ + actual,
            InputFailure::NotDecoded(error) => "failed to decode controlled input: "@ + error,
            InputFailure::EmptyPcm => "controlled input decoded to empty canonical PCM"@,
        }
    }
}

impl InputError {
    pub fn message(&self) -> (r: String)
        ensures
            r@ == self@.text(),
    {
        match self {
            InputError::InvalidIdentifier(label) => text::joined(
                label, " must contain only ASCII letters, digits, dash, underscore, or dot"),
            InputError::PathUnavailable { what, error } => {
                let mut r = text::joined(what, " is unavailable: ");
                r.append(error.as_str());
                r
            },
            InputError::FormalApplicationData =>
                "refusing formal application data root for D-11 controlled measurement".to_owned(),
            InputError::OutsideControlledRoot =>
                "controlled input must be inside controlled_input_root: prefix not found".to_owned(),
            InputError::MarkerMissing { path, error } => {
                let mut r = text::joined("missing isolation marker ", path.as_str());
                r.append(": ");
                r.append(error.as_str());
                r
            },
            InputError::MarkerInvalid(error) => text::joined(
                "invalid D-11 isolation marker JSON: ", error.as_str()),
            InputError::InputUnreadable { path, error } => {
                let mut r = text::joined("failed to read controlled input ", path.as_str());
                r.append(": ");
                r.append(error.as_str());
                r
            },
            InputError::NotDecoded(error) => text::joined(
                "failed to decode controlled input: ", error.as_str()),
            InputError::MarkerMismatch =>
                "D-11 isolation marker does not match the request".to_owned(),
            InputError::MalformedDigest =>
                "expected_input_file_sha256 must be 64 hexadecimal characters".to_owned(),
            InputError::DigestMismatch { expected, actual } => {
                let mut r = text::joined(
                    "controlled input SHA-256 mismatch: expected ", expected.as_str());
                r.append(", got ");
                r.append(actual.as_str());
                r
            },
            InputError::EmptyPcm => "controlled input decoded to empty canonical PCM".to_owned(),
        }
    }
}

/// A character of an identifier.
pub open spec fn identifier_char(c: char) -> bool {
    ||| 'a' <= c <= 'z'
    ||| 'A' <= c <= 'Z'
    ||| '0' <= c <= '9'
    ||| c == '-'
    ||| c == '_'
    ||| c == '.'
}

/// One to 128 characters of an identifier.
pub open spec fn is_identifier(value: Seq<char>) -> bool {
    1 <= value.len() <= 128 && forall|i: int| 0 <= i < value.len() ==> identifier_char(
        #[trigger] value[i])
}

/// Checks that the field `label` holds an identifier.
pub fn validate_identifier(value: &str, label: &'static str) -> (r: Result<(), InputError>)
    ensures
        r is Ok <==> is_identifier(value@),
        r matches Err(error) ==> error@ == InputFailure::InvalidIdentifier(label@),
{
    let chars = text::chars_of(value);
    if chars.len() == 0 || chars.len() > 128 {
        return Err(InputError::InvalidIdentifier(label));
    }
    let mut i: usize = 0;
    while i < chars.len()
        invariant
            chars@ == value@,
            i <= chars@.len(),
            1 <= chars@.len() <= 128,
            forall|j: int| 0 <= j < i ==> identifier_char(#[trigger] chars@[j]),
        decreases chars@.len() - i,
    {
        let c: char = chars[i];
        if !(('a' <= c && c <= 'z') || ('A' <= c && c <= 'Z') || ('0' <= c && c <= '9') || c == '-'
            || c == '_' || c == '.') {
            return Err(InputError::InvalidIdentifier(label));
        }
        i = i + 1;
    }
    Ok(())
}

/// A path leads into the data of the installed application.
pub open spec fn in_formal_app_data(path: Seq<char>) -> bool {
    text::contains(text::lowered(path), "com.meetily.ai"@)
}

/// Refuses a path into the data of the installed application.
pub fn ensure_not_formal_app_data(path: &str) -> (r: Result<(), InputError>)
    ensures
        r is Ok <==> !in_formal_app_data(path@),
        r matches Err(error) ==> error@ == InputFailure::FormalApplicationData,
{
    let lower = text::to_ascii_lower(path);
    if text::has_part(lower.as_str(), "com.meetily.ai") {
        Err(InputError::FormalApplicationData)
    } else {
        Ok(())
    }
}

/// A marker that allows a measurement for `identity`.
pub open spec fn marker_allows(marker: IsolationMarker, identity: Seq<char>) -> bool {
    &&& marker.schema_version == 1
    &&& marker.purpose@ == "D11_REALTIME_BASELINE"@
    &&& marker.isolated_data_identity@ == identity
}

/// Checks a directory's marker against the identity that a request gives.
pub fn check_isolation_marker(marker: &IsolationMarker, identity: &str) -> (r: Result<
    (),
    InputError,
>)
    ensures
        r is Ok <==> marker_allows(*marker, identity@),
        r matches Err(error) ==> error@ == InputFailure::MarkerMismatch,
{
    if marker.schema_version != 1 || !text::same(marker.purpose.as_str(), "D11_REALTIME_BASELINE")
        || !text::same(marker.isolated_data_identity.as_str(), identity) {
        Err(InputError::MarkerMismatch)
    } else {
        Ok(())
    }
}

/// What is found where the marker of a directory should be.
#[derive(Debug)]
pub enum MarkerReading {
    Found(IsolationMarker),
    /// There is no file that can be read at this path.
    Missing { path: String, error: String },
    /// The file is no marker.
    Invalid(String),
}

impl MarkerReading {
    /// Why a directory cannot be used for `identity`, if it cannot.
    pub open spec fn failure(self, identity: Seq<char>) -> Option<InputFailure> {
        match self {
            MarkerReading::Found(marker) => if marker_allows(marker, identity) {
                None
            } else {
                Some(InputFailure::MarkerMismatch)
            },
            MarkerReading::Missing { path, error } => Some(
                InputFailure::MarkerMissing { path: path@, error: error@ },
            ),
            MarkerReading::Invalid(error) => Some(InputFailure::MarkerInvalid(error@)),
        }
    }
}

/// Checks what is found where the marker of a directory should be.
pub fn read_isolation_marker(reading: &MarkerReading, identity: &str) -> (r: Result<
    (),
    InputError,
>)
    ensures
        match r {
            Ok(()) => reading.failure(identity@) is None,
            Err(error) => reading.failure(identity@) == Some(error@),
        },
{
    match reading {
        MarkerReading::Found(marker) => check_isolation_marker(marker, identity),
        MarkerReading::Missing { path, error } => Err(
            InputError::MarkerMissing { path: path.clone(), error: error.clone() },
        ),
        MarkerReading::Invalid(error) => Err(InputError::MarkerInvalid(error.clone())),
    }
}

/// Checks the identifiers of a request.
pub fn validate_request(request: &RealtimeAudioInputRequest) -> (r: Result<(), InputError>)
    ensures
        r is Ok <==> is_identifier(request.isolated_data_identity@) && is_identifier(
            request.baseline_snapshot_id@),
        r matches Err(error) ==> error@ == InputFailure::InvalidIdentifier(
            if is_identifier(request.isolated_data_identity@) {
                "baseline_snapshot_id"@
            } else {
                "isolated_data_identity"@
            },
        ),
{
    match validate_identifier(request.isolated_data_identity.as_str(), "isolated_data_identity") {
        Ok(()) => validate_identifier(
            request.baseline_snapshot_id.as_str(), "baseline_snapshot_id"),
        Err(error) => Err(error),
    }
}

/// The paths of a request with every link followed.
#[derive(Debug)]
pub struct ResolvedPaths {
    pub input_path: String,
    pub controlled_input_root: String,
    pub isolated_output_root: String,
    /// The input lies inside the controlled directory.
    pub input_is_inside_root: bool,
}

/// The paths of a request as far as they lead anywhere.
#[derive(Debug)]
pub struct PathReadings {
    pub input_path: Result<String, String>,
    pub controlled_input_root: Result<String, String>,
    pub isolated_output_root: Result<String, String>,
    /// The input lies inside the controlled directory.
    pub input_is_inside_root: bool,
}

impl PathReadings {
    /// The first path that does not lead anywhere.
    pub open spec fn failure(self) -> Option<InputFailure> {
        match (self.input_path, self.controlled_input_root, self.isolated_output_root) {
            (Err(error), _, _) => Some(
                InputFailure::PathUnavailable { what: "controlled input path"@, error: error@ },
            ),
            (Ok(_), Err(error), _) => Some(
                InputFailure::PathUnavailable { what: "controlled input root"@, error: error@ },
            ),
            (Ok(_), Ok(_), Err(error)) => Some(
                InputFailure::PathUnavailable { what: "isolated output root"@, error: error@ },
            ),
            (Ok(_), Ok(_), Ok(_)) => None,
        }
    }

    /// The paths, where they lead somewhere.
    pub open spec fn resolved(self) -> ResolvedPaths {
        ResolvedPaths {
            input_path: self.input_path->Ok_0,
            controlled_input_root: self.controlled_input_root->Ok_0,
            isolated_output_root: self.isolated_output_root->Ok_0,
            input_is_inside_root: self.input_is_inside_root,
        }
    }
}

/// The paths of a request, if all of them lead somewhere.
pub fn resolve_paths(readings: PathReadings) -> (r: Result<ResolvedPaths, InputError>)
    ensures
        match r {
            Ok(paths) => readings.failure() is None && paths == readings.resolved(),
            Err(error) => readings.failure() == Some(error@),
        },
{
    match (readings.input_path, readings.controlled_input_root, readings.isolated_output_root) {
        (Err(error), _, _) => Err(
            InputError::PathUnavailable { what: "controlled input path", error },
        ),
        (Ok(_), Err(error), _) => Err(
            InputError::PathUnavailable { what: "controlled input root", error },
        ),
        (Ok(_), Ok(_), Err(error)) => Err(
            InputError::PathUnavailable { what: "isolated output root", error },
        ),
        (Ok(input_path), Ok(controlled_input_root), Ok(isolated_output_root)) => Ok(
            ResolvedPaths {
                input_path,
                controlled_input_root,
                isolated_output_root,
                input_is_inside_root: readings.input_is_inside_root,
            },
        ),
    }
}

/// A path of a request leads into the data of the installed application.
pub open spec fn touches_formal_data(paths: ResolvedPaths) -> bool {
    in_formal_app_data(paths.input_path@) || in_formal_app_data(paths.controlled_input_root@)
        || in_formal_app_data(paths.isolated_output_root@)
}

/// Checks the resolved paths of a request.
pub fn validate_paths(paths: &ResolvedPaths) -> (r: Result<(), InputError>)
    ensures
        match r {
            Ok(()) => !touches_formal_data(*paths) && paths.input_is_inside_root,
            Err(error) => if touches_formal_data(*paths) {
                error@ == InputFailure::FormalApplicationData
            } else {
                !paths.input_is_inside_root && error@ == InputFailure::OutsideControlledRoot
            },
        },
{
    match ensure_not_formal_app_data(paths.input_path.as_str()) {
        Ok(()) => {},
        Err(error) => {
            return Err(error);
        },
    }
    match ensure_not_formal_app_data(paths.controlled_input_root.as_str()) {
        Ok(()) => {},
        Err(error) => {
            return Err(error);
        },
    }
    match ensure_not_formal_app_data(paths.isolated_output_root.as_str()) {
        Ok(()) => {},
        Err(error) => {
            return Err(error);
        },
    }
    if paths.input_is_inside_root {
        Ok(())
    } else {
        Err(InputError::OutsideControlledRoot)
    }
}

/// The SHA-256 of bytes in capital hexadecimal digits.
pub open spec fn sha256_hex(bytes: Seq<u8>) -> Seq<char> {
    text::hex(sha256(bytes))
}

/// The SHA-256 of bytes in capital hexadecimal digits.
pub fn sha256_bytes(bytes: &[u8]) -> (r: String)
    ensures
        r@ == sha256_hex(bytes@),
        r@.len() == 64,
{
    let digest = sha256_digest(bytes);
    text::to_hex(&digest)
}

/// A hexadecimal digit.
pub open spec fn is_hex_digit(c: char) -> bool {
    '0' <= c <= '9' || 'a' <= c <= 'f' || 'A' <= c <= 'F'
}

/// Sixty-four hexadecimal digits.
pub open spec fn is_digest_text(value: Seq<char>) -> bool {
    value.len() == 64 && forall|i: int| 0 <= i < value.len() ==> is_hex_digit(#[trigger] value[i])
}

fn check_digest_text(value: &str) -> (r: bool)
    ensures
        r == is_digest_text(value@),
{
    let chars = text::chars_of(value);
    if chars.len() != 64 {
        return false;
    }
    let mut i: usize = 0;
    while i < chars.len()
        invariant
            chars@ == value@,
            chars@.len() == 64,
            i <= 64,
            forall|j: int| 0 <= j < i ==> is_hex_digit(#[trigger] chars@[j]),
        decreases 64 - i,
    {
        let c: char = chars[i];
        if !(('0' <= c && c <= '9') || ('a' <= c && c <= 'f') || ('A' <= c && c <= 'F')) {
            return false;
        }
        i = i + 1;
    }
    true
}

/// The digest that a request expects, without white space and in capitals.
pub open spec fn expected_digest(request: RealtimeAudioInputRequest) -> Seq<char> {
    text::raised(text::trimmed(request.expected_input_file_sha256@))
}

/// The digest that a request expects, if it is one.
pub fn validate_expected_digest(request: &RealtimeAudioInputRequest) -> (r: Result<
    String,
    InputError,
>)
    ensures
        match r {
            Ok(expected) => expected@ == expected_digest(*request) && is_digest_text(expected@),
            Err(error) => error@ == InputFailure::MalformedDigest && !is_digest_text(
                expected_digest(*request)),
        },
{
    let trimmed = text::trim(request.expected_input_file_sha256.as_str());
    let expected = text::to_ascii_upper(trimmed.as_str());
    if check_digest_text(expected.as_str()) {
        Ok(expected)
    } else {
        Err(InputError::MalformedDigest)
    }
}

/// Compares the bytes of the input with the digest that is expected of them, and returns theirs.
pub fn verify_input_bytes(expected: String, bytes: &[u8]) -> (r: Result<String, InputError>)
    ensures
        match r {
            Ok(actual) => actual@ == sha256_hex(bytes@) && expected@ == sha256_hex(bytes@),
            Err(error) => expected@ != sha256_hex(bytes@) && error@
                == (InputFailure::DigestMismatch {
                expected: expected@,
                actual: sha256_hex(bytes@),
            }),
        },
{
    let actual = sha256_bytes(bytes);
    if actual == expected {
        Ok(actual)
    } else {
        Err(InputError::DigestMismatch { expected, actual })
    }
}

/// The four bytes of a number, the least significant first.
pub open spec fn le_bytes(n: u32) -> Seq<u8> {
    seq![
        (n % 256) as u8,
        (n / 256 % 256) as u8,
        (n / 65536 % 256) as u8,
        (n / 16777216) as u8,
    ]
}

/// The bytes of samples, each the bit pattern of a 32-bit float, the least significant first.
pub open spec fn pcm_bytes(samples: Seq<u32>) -> Seq<u8>
    decreases samples.len(),
{
    if samples.len() == 0 {
        Seq::empty()
    } else {
        pcm_bytes(samples.drop_last()) + le_bytes(samples.last())
    }
}

/// Lays samples out as bytes. A sample is the bit pattern of a 32-bit float.
pub fn pcm_f32le_bytes(samples: &[u32]) -> (bytes: Vec<u8>)
    ensures
        bytes@ == pcm_bytes(samples@),
{
    let mut bytes: Vec<u8> = Vec::new();
    let mut i: usize = 0;
    while i < samples.len()
        invariant
            i <= samples@.len(),
            bytes@ == pcm_bytes(samples@.take(i as int)),
        decreases samples@.len() - i,
    {
        let n: u32 = samples[i];
        let ghost before = bytes@;
        bytes.push((n % 256) as u8);
        bytes.push((n / 256 % 256) as u8);
        bytes.push((n / 65536 % 256) as u8);
        bytes.push((n / 16777216) as u8);
        i = i + 1;
        proof {
            assert(samples@.take(i as int).drop_last() =~= samples@.take(i - 1));
            assert(bytes@ =~= before + le_bytes(n));
        }
    }
    assert(samples@.take(i as int) =~= samples@);
    bytes
}

/// Law: laying samples out as bytes takes four bytes each, and no two different sequences of
/// samples give the same bytes.
pub proof fn pcm_bytes_are_faithful(a: Seq<u32>, b: Seq<u32>)
    ensures
        pcm_bytes(a).len() == 4 * a.len(),
        pcm_bytes(a) == pcm_bytes(b) ==> a == b,
    decreases a.len(),
{
    pcm_bytes_len(a);
    pcm_bytes_len(b);
    if pcm_bytes(a) == pcm_bytes(b) {
        if a.len() > 0 {
            pcm_bytes_len(a.drop_last());
            pcm_bytes_len(b.drop_last());
            let n = pcm_bytes(a.drop_last()).len() as int;
            assert(n == pcm_bytes(b.drop_last()).len());
            assert(pcm_bytes(a).take(n) =~= pcm_bytes(a.drop_last()));
            assert(pcm_bytes(b).take(n) =~= pcm_bytes(b.drop_last()));
            assert(pcm_bytes(a).skip(n) =~= le_bytes(a.last()));
            assert(pcm_bytes(b).skip(n) =~= le_bytes(b.last()));
            pcm_bytes_are_faithful(a.drop_last(), b.drop_last());
            le_bytes_are_faithful(a.last(), b.last());
            assert(a =~= a.drop_last().push(a.last()));
            assert(b =~= b.drop_last().push(b.last()));
        } else {
            assert(a =~= b);
        }
    }
}

proof fn pcm_bytes_len(samples: Seq<u32>)
    ensures
        pcm_bytes(samples).len() == 4 * samples.len(),
    decreases samples.len(),
{
    if samples.len() > 0 {
        pcm_bytes_len(samples.drop_last());
    }
}

proof fn le_bytes_are_faithful(a: u32, b: u32)
    requires
        le_bytes(a) == le_bytes(b),
    ensures
        a == b,
{
    assert(le_bytes(a)[0] == le_bytes(b)[0]);
    assert(le_bytes(a)[1] == le_bytes(b)[1]);
    assert(le_bytes(a)[2] == le_bytes(b)[2]);
    assert(le_bytes(a)[3] == le_bytes(b)[3]);
}

/// The text whose digest names an input.
pub open spec fn input_material(
    input_file_sha256: Seq<char>,
    canonical_pcm_sha256: Seq<char>,
    sample_count: nat,
) -> Seq<char> {
    "schema_version=1\ninput_file_sha256="@ + input_file_sha256 + "\ncanonical_pcm_sha256="@
        + canonical_pcm_sha256
        + "\nsample_rate_hz=16000\nchannels=1\nsample_format=f32le\nsample_count="@
        + text::decimal_digits(sample_count) + "\n"@
}

/// The digest that names an input.
pub open spec fn naming_digest(
    input_file_sha256: Seq<char>,
    canonical_pcm_sha256: Seq<char>,
    sample_count: nat,
) -> Seq<u8> {
    sha256(
        vstd::utf8::encode_utf8(
            input_material(input_file_sha256, canonical_pcm_sha256, sample_count),
        ),
    )
}

/// The name of an input, made of its bytes and its format.
pub open spec fn input_id(
    input_file_sha256: Seq<char>,
    canonical_pcm_sha256: Seq<char>,
    sample_count: nat,
) -> Seq<char> {
    "audio_input_v1_"@ + text::lowered(
        text::hex(naming_digest(input_file_sha256, canonical_pcm_sha256, sample_count)),
    )
}

/// A hexadecimal digit without capitals.
pub open spec fn is_small_hex_digit(c: char) -> bool {
    '0' <= c <= '9' || 'a' <= c <= 'f'
}

/// The prefix of an input's name, followed by 64 small hexadecimal digits.
pub open spec fn is_input_id(id: Seq<char>) -> bool {
    &&& id.len() == 79
    &&& id.take(15) == "audio_input_v1_"@
    &&& forall|i: int| 15 <= i < 79 ==> is_small_hex_digit(#[trigger] id[i])
}

proof fn lowered_hex_is_small(bytes: Seq<u8>)
    ensures
        forall|i: int|
            0 <= i < 2 * bytes.len() ==> is_small_hex_digit(
                #[trigger] text::lowered(text::hex(bytes))[i]),
{
    assert forall|i: int| 0 <= i < 2 * bytes.len() implies is_small_hex_digit(
        #[trigger] text::lowered(text::hex(bytes))[i]) by {
        let b = bytes[i / 2];
        let n: nat = if i % 2 == 0 { b as nat / 16 } else { b as nat % 16 };
        assert(n < 16);
        assert(text::hex(bytes)[i] == text::hex_digit(n));
        small_digit(n);
    }
}

proof fn small_digit(n: nat)
    requires
        n < 16,
    ensures
        is_small_hex_digit(text::ascii_lower(text::hex_digit(n))),
{
    if n < 10 {
        assert('0' <= text::hex_digit(n) <= '9');
    } else {
        assert('A' <= text::hex_digit(n) <= 'F');
    }
}

/// Law: inputs that differ in their number of samples alone are named by the digests of different
/// texts.
pub proof fn sample_counts_are_told_apart(
    input_file_sha256: Seq<char>,
    canonical_pcm_sha256: Seq<char>,
    a: nat,
    b: nat,
)
    requires
        a != b,
    ensures
        input_material(input_file_sha256, canonical_pcm_sha256, a) != input_material(
            input_file_sha256, canonical_pcm_sha256, b),
{
    let head = "schema_version=1\ninput_file_sha256="@ + input_file_sha256
        + "\ncanonical_pcm_sha256="@ + canonical_pcm_sha256
        + "\nsample_rate_hz=16000\nchannels=1\nsample_format=f32le\nsample_count="@;
    let x = input_material(input_file_sha256, canonical_pcm_sha256, a);
    let y = input_material(input_file_sha256, canonical_pcm_sha256, b);
    let k = "\n"@.len() as int;
    if x == y {
        let n = head.len() as int;
        assert(x.skip(n).take(x.len() - n - k) =~= text::decimal_digits(a));
        assert(y.skip(n).take(y.len() - n - k) =~= text::decimal_digits(b));
        text::decimal_digits_are_faithful(a, b);
    }
}

proof fn small_digits_are_faithful(a: nat, b: nat)
    requires
        a < 16,
        b < 16,
        text::ascii_lower(text::hex_digit(a)) == text::ascii_lower(text::hex_digit(b)),
    ensures
        a == b,
{
    let x = text::hex_digit(a);
    let y = text::hex_digit(b);
    assert(x as u32 == if a < 10 { 48 + a } else { 55 + a });
    assert(y as u32 == if b < 10 { 48 + b } else { 55 + b });
    assert(text::ascii_lower(x) as u32 == if a < 10 { 48 + a } else { 87 + a });
    assert(text::ascii_lower(y) as u32 == if b < 10 { 48 + b } else { 87 + b });
}

proof fn small_hex_is_faithful(a: Seq<u8>, b: Seq<u8>)
    requires
        text::lowered(text::hex(a)) == text::lowered(text::hex(b)),
    ensures
        a == b,
{
    let x = text::lowered(text::hex(a));
    let y = text::lowered(text::hex(b));
    assert(x.len() == 2 * a.len() && y.len() == 2 * b.len());
    assert forall|i: int| 0 <= i < a.len() implies a[i] == b[i] by {
        assert(x[2 * i] == text::ascii_lower(text::hex_digit(a[i] as nat / 16)));
        assert(y[2 * i] == text::ascii_lower(text::hex_digit(b[i] as nat / 16)));
        assert(x[2 * i + 1] == text::ascii_lower(text::hex_digit(a[i] as nat % 16)));
        assert(y[2 * i + 1] == text::ascii_lower(text::hex_digit(b[i] as nat % 16)));
        small_digits_are_faithful(a[i] as nat / 16, b[i] as nat / 16);
        small_digits_are_faithful(a[i] as nat % 16, b[i] as nat % 16);
    }
    assert(a =~= b);
}

/// Law: two inputs have the same name exactly when the digests that name them are the same.
pub proof fn names_differ_where_digests_do(
    file_a: Seq<char>,
    pcm_a: Seq<char>,
    count_a: nat,
    file_b: Seq<char>,
    pcm_b: Seq<char>,
    count_b: nat,
)
    ensures
        input_id(file_a, pcm_a, count_a) == input_id(file_b, pcm_b, count_b) <==> naming_digest(
            file_a, pcm_a, count_a) == naming_digest(file_b, pcm_b, count_b),
{
    let x = input_id(file_a, pcm_a, count_a);
    let y = input_id(file_b, pcm_b, count_b);
    let a = naming_digest(file_a, pcm_a, count_a);
    let b = naming_digest(file_b, pcm_b, count_b);
    if x == y {
        let n = "audio_input_v1_"@.len() as int;
        assert(x.skip(n) =~= text::lowered(text::hex(a)));
        assert(y.skip(n) =~= text::lowered(text::hex(b)));
        small_hex_is_faithful(a, b);
    }
}

/// Names an input by its bytes and its format.
pub fn deterministic_input_id(
    input_file_sha256: &str,
    canonical_pcm_sha256: &str,
    sample_count: usize,
) -> (r: String)
    ensures
        r@ == input_id(input_file_sha256@, canonical_pcm_sha256@, sample_count as nat),
        is_input_id(r@),
{
    let mut material = text::joined("schema_version=1\ninput_file_sha256=", input_file_sha256);
    material.append("\ncanonical_pcm_sha256=");
    material.append(canonical_pcm_sha256);
    material.append("\nsample_rate_hz=16000\nchannels=1\nsample_format=f32le\nsample_count=");
    material.append(text::decimal(sample_count as u64).as_str());
    material.append("\n");
    let digest = sha256_bytes(material.as_str().as_bytes());
    let r = text::joined("audio_input_v1_", text::to_ascii_lower(digest.as_str()).as_str());
    proof {
        reveal_strlit("audio_input_v1_");
        let bytes = sha256(vstd::utf8::encode_utf8(material@));
        assert(digest@ == text::hex(bytes));
        lowered_hex_is_small(bytes);
        assert(r@.take(15) =~= "audio_input_v1_"@);
        assert forall|i: int| 15 <= i < 79 implies is_small_hex_digit(#[trigger] r@[i]) by {
            assert(r@[i] == text::lowered(digest@)[i - 15]);
        }
    }
    r
}

/// The contract for an input: its names, digests and format.
pub open spec fn input_contract(
    request: RealtimeAudioInputRequest,
    paths: ResolvedPaths,
    input_file_sha256: Seq<char>,
    pcm: Seq<u32>,
) -> InputContract {
    let pcm_sha256 = sha256_hex(pcm_bytes(pcm));
    InputContract {
        schema_version: 1,
        audio_input_path_id: input_id(input_file_sha256, pcm_sha256, pcm.len()),
        input_path: paths.input_path@,
        controlled_input_root: paths.controlled_input_root@,
        isolated_output_root: paths.isolated_output_root@,
        isolated_data_identity: request.isolated_data_identity@,
        baseline_snapshot_id: request.baseline_snapshot_id@,
        input_file_sha256,
        canonical_pcm_sha256: pcm_sha256,
        canonical_sample_rate_hz: CONTROLLED_SAMPLE_RATE,
        canonical_channels: 1,
        canonical_sample_format: "f32le"@,
        canonical_sample_count: pcm.len() as u64,
        duration_ns: pcm.len() * NANOS_PER_CONTROLLED_SAMPLE,
        frame_samples: CONTROLLED_FRAME_SAMPLES,
        pacing: "monotonic_realtime"@,
        injection_point: "post_capture_post_mix_pre_vad"@,
    }
}

/// Why an input may not be measured, before it is decoded: the first check that fails says it.
pub open spec fn admission_failure(
    request: RealtimeAudioInputRequest,
    readings: PathReadings,
    input_marker: MarkerReading,
    output_marker: MarkerReading,
    input: Result<Vec<u8>, String>,
) -> Option<InputFailure> {
    let identity = request.isolated_data_identity@;
    if !is_identifier(identity) {
        Some(InputFailure::InvalidIdentifier("isolated_data_identity"@))
    } else if !is_identifier(request.baseline_snapshot_id@) {
        Some(InputFailure::InvalidIdentifier("baseline_snapshot_id"@))
    } else if readings.failure() is Some {
        readings.failure()
    } else if touches_formal_data(readings.resolved()) {
        Some(InputFailure::FormalApplicationData)
    } else if !readings.input_is_inside_root {
        Some(InputFailure::OutsideControlledRoot)
    } else if input_marker.failure(identity) is Some {
        input_marker.failure(identity)
    } else if output_marker.failure(identity) is Some {
        output_marker.failure(identity)
    } else if !is_digest_text(expected_digest(request)) {
        Some(InputFailure::MalformedDigest)
    } else {
        match input {
            Err(error) => Some(
                InputFailure::InputUnreadable { path: readings.resolved().input_path@, error: error@ },
            ),
            Ok(bytes) => if expected_digest(request) != sha256_hex(bytes@) {
                Some(
                    InputFailure::DigestMismatch {
                        expected: expected_digest(request),
                        actual: sha256_hex(bytes@),
                    },
                )
            } else {
                None
            },
        }
    }
}

/// An input that may be measured: its paths and its digest.
#[derive(Debug)]
pub struct AdmittedInput {
    pub paths: ResolvedPaths,
    pub input_file_sha256: String,
}

/// Checks everything that can be checked of an input before it is decoded.
pub fn admit_realtime_audio_input(
    request: &RealtimeAudioInputRequest,
    readings: PathReadings,
    input_marker: &MarkerReading,
    output_marker: &MarkerReading,
    input: &Result<Vec<u8>, String>,
) -> (r: Result<AdmittedInput, InputError>)
    ensures
        match r {
            Ok(admitted) => {
                &&& admission_failure(
                    *request, readings, *input_marker, *output_marker, *input) is None
                &&& admitted.paths == readings.resolved()
                &&& admitted.input_file_sha256@ == expected_digest(*request)
            },
            Err(error) => admission_failure(
                *request, readings, *input_marker, *output_marker, *input) == Some(error@),
        },
{
    if let Err(error) = validate_request(request) {
        return Err(error);
    }
    let paths = match resolve_paths(readings) {
        Ok(paths) => paths,
        Err(error) => {
            return Err(error);
        },
    };
    if let Err(error) = validate_paths(&paths) {
        return Err(error);
    }
    let identity = request.isolated_data_identity.as_str();
    if let Err(error) = read_isolation_marker(input_marker, identity) {
        return Err(error);
    }
    if let Err(error) = read_isolation_marker(output_marker, identity) {
        return Err(error);
    }
    let expected = match validate_expected_digest(request) {
        Ok(expected) => expected,
        Err(error) => {
            return Err(error);
        },
    };
    match input {
        Err(error) => Err(
            InputError::InputUnreadable { path: paths.input_path, error: error.clone() },
        ),
        Ok(bytes) => match verify_input_bytes(expected, bytes.as_slice()) {
            Ok(input_file_sha256) => Ok(AdmittedInput { paths, input_file_sha256 }),
            Err(error) => Err(error),
        },
    }
}

/// Why an input may not be measured: the first check that fails says it.
pub open spec fn input_failure(
    request: RealtimeAudioInputRequest,
    readings: PathReadings,
    input_marker: MarkerReading,
    output_marker: MarkerReading,
    input: Result<Vec<u8>, String>,
    decoded: Result<Vec<u32>, String>,
) -> Option<InputFailure> {
    let admission = admission_failure(request, readings, input_marker, output_marker, input);
    if admission is Some {
        admission
    } else {
        match decoded {
            Err(error) => Some(InputFailure::NotDecoded(error@)),
            Ok(pcm) => if pcm@.len() == 0 {
                Some(InputFailure::EmptyPcm)
            } else {
                None
            },
        }
    }
}

/// Fixes what a measurement replays, if all checks of the input pass. It fails closed: what
/// cannot be read, found or decoded is refused. `decoded` is the decoded input, each sample the
/// bit pattern of a 32-bit float; it is only looked at where the input is admitted.
pub fn prepare_realtime_audio_input(
    request: RealtimeAudioInputRequest,
    readings: PathReadings,
    input_marker: MarkerReading,
    output_marker: MarkerReading,
    input: Result<Vec<u8>, String>,
    decoded: Result<Vec<u32>, String>,
) -> (r: Result<(RealtimeAudioInputContract, Vec<u32>), InputError>)
    ensures
        match r {
            Ok((contract, pcm)) => {
                &&& input_failure(
                    request, readings, input_marker, output_marker, input, decoded) is None
                &&& decoded == Ok::<Vec<u32>, String>(pcm)
                &&& contract@ == input_contract(
                    request, readings.resolved(), expected_digest(request), pcm@)
            },
            Err(error) => input_failure(
                request, readings, input_marker, output_marker, input, decoded) == Some(error@),
        },
{
    let admitted = match admit_realtime_audio_input(
        &request,
        readings,
        &input_marker,
        &output_marker,
        &input,
    ) {
        Ok(admitted) => admitted,
        Err(error) => {
            return Err(error);
        },
    };
    let pcm = match decoded {
        Ok(pcm) => pcm,
        Err(error) => {
            return Err(InputError::NotDecoded(error));
        },
    };
    if pcm.len() == 0 {
        return Err(InputError::EmptyPcm);
    }
    let contract = contract_for(request, admitted, pcm.as_slice());
    Ok((contract, pcm))
}

fn contract_for(request: RealtimeAudioInputRequest, admitted: AdmittedInput, pcm: &[u32]) -> (r:
    RealtimeAudioInputContract)
    ensures
        r@ == input_contract(request, admitted.paths, admitted.input_file_sha256@, pcm@),
{
    let bytes = pcm_f32le_bytes(pcm);
    let canonical_pcm_sha256 = sha256_bytes(bytes.as_slice());
    let audio_input_path_id = deterministic_input_id(
        admitted.input_file_sha256.as_str(),
        canonical_pcm_sha256.as_str(),
        pcm.len(),
    );
    RealtimeAudioInputContract {
        schema_version: 1,
        audio_input_path_id,
        input_path: admitted.paths.input_path,
        controlled_input_root: admitted.paths.controlled_input_root,
        isolated_output_root: admitted.paths.isolated_output_root,
        isolated_data_identity: request.isolated_data_identity,
        baseline_snapshot_id: request.baseline_snapshot_id,
        input_file_sha256: admitted.input_file_sha256,
        canonical_pcm_sha256,
        canonical_sample_rate_hz: CONTROLLED_SAMPLE_RATE,
        canonical_channels: 1,
        canonical_sample_format: "f32le".to_owned(),
        canonical_sample_count: pcm.len() as u64,
        duration_ns: pcm.len() as u128 * NANOS_PER_CONTROLLED_SAMPLE as u128,
        frame_samples: CONTROLLED_FRAME_SAMPLES,
        pacing: "monotonic_realtime".to_owned(),
        injection_point: "post_capture_post_mix_pre_vad".to_owned(),
    }
}

/// Law: controlled input fails closed. Whatever is measured has valid identifiers, lies inside its
/// directory and outside the data of the installed application, stands between two directories
/// that are marked for it, has the digest that was expected, and holds audio.
pub proof fn measured_input_passed_every_check(
    request: RealtimeAudioInputRequest,
    readings: PathReadings,
    input_marker: MarkerReading,
    output_marker: MarkerReading,
    input: Result<Vec<u8>, String>,
    decoded: Result<Vec<u32>, String>,
)
    requires
        input_failure(request, readings, input_marker, output_marker, input, decoded) is None,
    ensures
        is_identifier(request.isolated_data_identity@),
        is_identifier(request.baseline_snapshot_id@),
        readings.input_is_inside_root,
        !in_formal_app_data(readings.resolved().input_path@),
        !in_formal_app_data(readings.resolved().controlled_input_root@),
        !in_formal_app_data(readings.resolved().isolated_output_root@),
        input_marker matches MarkerReading::Found(marker) && marker_allows(
            marker, request.isolated_data_identity@),
        output_marker matches MarkerReading::Found(marker) && marker_allows(
            marker, request.isolated_data_identity@),
        input matches Ok(bytes) && sha256_hex(bytes@) == expected_digest(request),
        decoded matches Ok(pcm) && pcm@.len() > 0,
{
}

/// Law: an identifier is a plain name of at most 128 letters, digits, dashes, underscores and dots;
/// it never leads to another place.
pub proof fn identifiers_are_plain_names(value: Seq<char>, i: int)
    requires
        is_identifier(value),
        0 <= i < value.len(),
    ensures
        1 <= value.len() <= 128,
        value[i] != '/' && value[i] != '\\' && value[i] != ' ' && value[i] != ':',
        value[i] as u32 <= 122,
        value[i] == '-' || value[i] == '_' || value[i] == '.' || '0' <= value[i] <= '9' || 'a'
            <= value[i] <= 'z' || 'A' <= value[i] <= 'Z',
{
}

/// Law: every plain name is an identifier, but not an empty one.
pub proof fn plain_names_are_identifiers(value: Seq<char>)
    ensures
        value.len() == 0 ==> !is_identifier(value),
        value.len() > 128 ==> !is_identifier(value),
        1 <= value.len() <= 128 && (forall|i: int|
            0 <= i < value.len() ==> '0' <= #[trigger] value[i] <= '9' || 'a' <= value[i] <= 'z'
                || 'A' <= value[i] <= 'Z' || value[i] == '-' || value[i] == '_' || value[i] == '.')
            ==> is_identifier(value),
{
}

/// Law: a path that names the installed application anywhere, in capitals or small letters, leads
/// into its data.
pub proof fn application_data_is_recognized(before: Seq<char>, after: Seq<char>, path: Seq<char>)
    ensures
        text::lowered(path) == before + "com.meetily.ai"@ + after ==> in_formal_app_data(path),
        in_formal_app_data(path) == in_formal_app_data(text::lowered(path)),
        in_formal_app_data(path) ==> path.len() >= 14,
{
    text::contained_text_stands_inside(before, "com.meetily.ai"@, after);
    assert(text::lowered(text::lowered(path)) =~= text::lowered(path)) by {
        assert forall|i: int| 0 <= i < path.len() implies text::lowered(text::lowered(path))[i]
            == text::lowered(path)[i] by {
            text::only_letters_change_their_case(path, i);
        }
    }
    reveal_strlit("com.meetily.ai");
    if in_formal_app_data(path) {
        let i = choose|i: int| text::stands_at(text::lowered(path), "com.meetily.ai"@, i);
        assert(text::stands_at(text::lowered(path), "com.meetily.ai"@, i));
    }
}

/// Law: a marker allows one identity and no other, and only a marker made for this purpose does.
pub proof fn markers_allow_one_identity(
    marker: IsolationMarker,
    identity: Seq<char>,
    other: Seq<char>,
    path: String,
    error: String,
)
    ensures
        marker_allows(marker, identity) && marker_allows(marker, other) ==> identity == other,
        marker_allows(marker, identity) ==> marker.schema_version == 1 && marker.purpose@
            == "D11_REALTIME_BASELINE"@ && marker.isolated_data_identity@ == identity,
        marker.schema_version == 1 && marker.purpose@ == "D11_REALTIME_BASELINE"@ ==> marker_allows(
            marker, marker.isolated_data_identity@),
        MarkerReading::Found(marker).failure(identity) is None <==> marker_allows(marker, identity),
        (MarkerReading::Missing { path, error }).failure(identity) is Some,
        MarkerReading::Invalid(error).failure(identity) is Some,
{
}

/// Law: the expected digest is compared without regard to white space around it and to the case of
/// its letters, so a digest in small letters fits the same bytes.
pub proof fn digests_are_compared_without_case(request: RealtimeAudioInputRequest, bytes: Seq<u8>)
    ensures
        text::trimmed(request.expected_input_file_sha256@) == sha256_hex(bytes) || text::trimmed(
            request.expected_input_file_sha256@) == text::lowered(sha256_hex(bytes))
            ==> expected_digest(request) == sha256_hex(bytes),
        is_digest_text(expected_digest(request)) ==> expected_digest(request).len() == 64,
{
    let digest = sha256_hex(bytes);
    let bits = sha256(bytes);
    assert forall|i: int| 0 <= i < digest.len() implies text::ascii_upper(#[trigger] digest[i])
        == digest[i] && text::ascii_upper(text::ascii_lower(digest[i])) == digest[i] by {
        let n: nat = if i % 2 == 0 { bits[i / 2] as nat / 16 } else { bits[i / 2] as nat % 16 };
        assert(n < 16);
        assert(digest[i] == text::hex_digit(n));
        assert(text::hex_digit(n) as u32 == if n < 10 { 48 + n } else { 55 + n });
        if n >= 10 {
            assert(text::ascii_lower(digest[i]) as u32 == 87 + n);
        }
    }
    assert(text::raised(digest) =~= digest);
    assert(text::raised(text::lowered(digest)) =~= digest);
}

/// Law: a sample is written with its lowest byte first.
pub proof fn samples_are_little_endian(n: u32)
    ensures
        le_bytes(n).len() == 4,
        le_bytes(n)[0] + 256 * le_bytes(n)[1] + 65536 * le_bytes(n)[2] + 16777216 * le_bytes(n)[3]
            == n,
{
    let b = n as int / 256;
    assert(b / 256 == n as int / 65536);
    assert(b / 256 / 256 == n as int / 16777216);
}

/// Law: the contract of an input says what it is: its audio at sixteen thousand samples a second,
/// how long that lasts, and whose it is.
pub proof fn contracts_describe_their_input(
    request: RealtimeAudioInputRequest,
    paths: ResolvedPaths,
    input_file_sha256: Seq<char>,
    pcm: Seq<u32>,
)
    requires
        pcm.len() <= u64::MAX,
    ensures
        ({
            let contract = input_contract(request, paths, input_file_sha256, pcm);
            &&& contract.canonical_sample_count == pcm.len()
            &&& contract.canonical_sample_rate_hz == 16_000 && contract.canonical_channels == 1
            &&& contract.duration_ns * 16_000 == pcm.len() * 1_000_000_000
            &&& contract.frame_samples == 1_600
            &&& contract.input_file_sha256 == input_file_sha256
            &&& contract.canonical_pcm_sha256 == sha256_hex(pcm_bytes(pcm))
            &&& contract.audio_input_path_id == input_id(
                input_file_sha256, contract.canonical_pcm_sha256, pcm.len())
            &&& contract.input_path == paths.input_path@
            &&& contract.controlled_input_root == paths.controlled_input_root@
            &&& contract.isolated_output_root == paths.isolated_output_root@
            &&& contract.isolated_data_identity == request.isolated_data_identity@
            &&& contract.baseline_snapshot_id == request.baseline_snapshot_id@
            &&& reference_to(contract).audio_input_path_id == contract.audio_input_path_id
            &&& reference_to(contract).baseline_snapshot_id == contract.baseline_snapshot_id
            &&& reference_to(contract).isolated_data_identity == contract.isolated_data_identity
        }),
{
}

/// Law: each check of an input refuses it by itself, whatever the others say.
pub proof fn every_check_can_refuse(
    request: RealtimeAudioInputRequest,
    readings: PathReadings,
    input_marker: MarkerReading,
    output_marker: MarkerReading,
    input: Result<Vec<u8>, String>,
    decoded: Result<Vec<u32>, String>,
)
    ensures
        ({
            let failure = input_failure(
                request, readings, input_marker, output_marker, input, decoded);
            let identity = request.isolated_data_identity@;
            &&& !is_identifier(identity) ==> failure is Some
            &&& !is_identifier(request.baseline_snapshot_id@) ==> failure is Some
            &&& readings.input_path is Err || readings.controlled_input_root is Err
                || readings.isolated_output_root is Err ==> failure is Some
            &&& !readings.input_is_inside_root ==> failure is Some
            &&& (readings.input_path matches Ok(path) && in_formal_app_data(path@)) ==> failure
                is Some
            &&& !(input_marker is Found) || !(output_marker is Found) ==> failure is Some
            &&& (input_marker matches MarkerReading::Found(marker) && !marker_allows(
                marker, identity)) ==> failure is Some
            &&& (output_marker matches MarkerReading::Found(marker) && !marker_allows(
                marker, identity)) ==> failure is Some
            &&& input is Err || decoded is Err ==> failure is Some
            &&& (input matches Ok(bytes) && sha256_hex(bytes@) != expected_digest(request))
                ==> failure is Some
            &&& (decoded matches Ok(pcm) && pcm@.len() == 0) ==> failure is Some
        }),
{
}

} // verus!
