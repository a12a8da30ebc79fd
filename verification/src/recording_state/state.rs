//! The recording state as it is kept.

use vstd::prelude::*;

use crate::devices::configuration::{clone_device, clone_text, AudioDevice, Device};
use crate::recording_state::error::AudioError;
use crate::recording_state::evidence::{
    active_cutover, clone_cutovers, clone_epochs, clone_format, clone_incidents, closed, closes_any,
    cutover_views, epoch_views, format_of, has_open, in_progress, incident_views, open_on, settled,
    AudioCutoverEvidence, AudioDeviceEpochEvidence, AudioRouteEvidenceSnapshot,
    AudioRouteIncidentEvidence, Incident, SystemAudioFormat,
};
use crate::recording_state::model::{
    elapsed, first_of_epoch, larger, nonzero, CutoverCounters, DeviceType, DriverMuteBehavior,
    MuteTracking, RecordingStats, RouteCounters, State, AUDIO_CALLBACK_DEADLINE_NS,
    MAX_RECOVERABLE_ERRORS, MAX_TOTAL_ERRORS, NO_EPOCH,
};
use crate::text;

verus! {

/// Why a recording cannot be paused or resumed.
#[derive(Debug, Clone, Copy, PartialEq, Eq, Structural)]
pub enum PauseError {
    PauseWhenNotRecording,
    AlreadyPaused,
    ResumeWhenNotRecording,
    NotPaused,
}

impl PauseError {
    pub fn message(&self) -> (r: &'static str)
        ensures
            r@ == match *self {
                PauseError::PauseWhenNotRecording => "Cannot pause when not recording"@,
                PauseError::AlreadyPaused => "Recording is already paused"@,
                PauseError::ResumeWhenNotRecording => "Cannot resume when not recording"@,
                PauseError::NotPaused => "Recording is not paused"@,
            },
    {
        match *self {
            PauseError::PauseWhenNotRecording => "Cannot pause when not recording",
            PauseError::AlreadyPaused => "Recording is already paused",
            PauseError::ResumeWhenNotRecording => "Cannot resume when not recording",
            PauseError::NotPaused => "Recording is not paused",
        }
    }
}

/// What becomes of the next chunk of audio of a recording.
pub open spec fn send_decision(state: State) -> SendDecision {
    if !state.timeline_open() {
        SendDecision::Ignore
    } else if state.sender_attached {
        SendDecision::Deliver
    } else {
        SendDecision::PipelineNotReady
    }
}

/// A recording once it was to be paused: whether it is, and what became of it.
pub open spec fn paused(state: State, now_ns: u64) -> (Result<(), PauseError>, State) {
    if !state.recording {
        (Err(PauseError::PauseWhenNotRecording), state)
    } else if state.paused {
        (Err(PauseError::AlreadyPaused), state)
    } else {
        (Ok(()), state.paused_at(now_ns))
    }
}

/// A recording once its pause was to be taken back.
pub open spec fn resumed(state: State, now_ns: u64) -> (Result<(), PauseError>, State) {
    if !state.recording {
        (Err(PauseError::ResumeWhenNotRecording), state)
    } else if !state.paused {
        (Err(PauseError::NotPaused), state)
    } else {
        (Ok(()), state.resumed_at(now_ns))
    }
}

/// A recording once a chunk was handed on, or could not be.
pub open spec fn sent(state: State, delivered: bool, now_ns: u64) -> State {
    if delivered {
        State {
            stats: RecordingStats {
                chunks_processed: state.stats.chunks_processed.wrapping_add(1),
                last_activity_ns: Some(now_ns),
                ..state.stats
            },
            ..state
        }
    } else {
        state
    }
}

/// How long ago a recording started, if it did.
pub open spec fn age(state: State, now_ns: u64) -> Option<u64> {
    match state.recording_start_ns {
        Some(start) => Some(elapsed(start, now_ns)),
        None => None,
    }
}

/// How long the present pause lasts, if there is one.
pub open spec fn present_pause(state: State, now_ns: u64) -> Option<u64> {
    match state.pause_start_ns {
        Some(pause) if state.paused => Some(elapsed(pause, now_ns)),
        _ => None,
    }
}

/// The last error of a recording cannot be recovered from.
pub open spec fn failed_for_good(state: State) -> bool {
    match state.last_error {
        Some(error) => !error.recoverable() && state.error_count > 0,
        None => false,
    }
}

/// What becomes of a chunk of audio.
#[derive(Debug, Clone, Copy, PartialEq, Eq, Structural)]
pub enum SendDecision {
    /// The timeline is closed: the chunk is dropped without an error.
    Ignore,
    /// The chunk goes to the pipeline.
    Deliver,
    /// There is no pipeline to take the chunk.
    PipelineNotReady,
}

/// The pipeline did not take a chunk.
#[derive(Debug, Clone, Copy, PartialEq, Eq, Structural)]
pub struct SendFailed;

/// A producer of audio that is at work. Only beginning a callback makes one, and ending the
/// callback takes it back.
#[derive(Debug)]
pub struct InFlightAudioCallback {
    private: (),
}

/// The state of a recording. Every clock reading comes in as an argument: `now_ns` counts
/// nanoseconds on a clock that never goes back, `qpc_ns` on the capture clock.
pub struct RecordingState {
    is_recording: bool,
    is_paused: bool,
    is_reconnecting: bool,
    routes_ready: bool,
    microphone_device: Option<AudioDevice>,
    system_device: Option<AudioDevice>,
    disconnected_device: Option<(AudioDevice, DeviceType)>,
    sender_attached: bool,
    error_count: u32,
    recoverable_error_count: u32,
    last_error: Option<AudioError>,
    callback_attached: bool,
    stats: RecordingStats,
    device_epoch: u64,
    microphone: RouteCounters,
    system: RouteCounters,
    mute: MuteTracking,
    system_audio_format: Option<SystemAudioFormat>,
    cutover: CutoverCounters,
    in_flight_callback_count: u64,
    microphone_stream_started_count: u64,
    completed_epoch_evidence: Vec<AudioDeviceEpochEvidence>,
    route_incidents: Vec<AudioRouteIncidentEvidence>,
    cutover_evidence: Vec<AudioCutoverEvidence>,
    evidence_sequence: u64,
    evidence_dirty: bool,
    recording_start_ns: Option<u64>,
    pause_start_ns: Option<u64>,
    total_pause_ns: u64,
}

/// What a device that may be missing stands for.
pub open spec fn device_of(device: Option<AudioDevice>) -> Option<Device> {
    match device {
        Some(device) => Some(device@),
        None => None,
    }
}

/// What a lost device stands for.
pub open spec fn lost_device_of(lost: Option<(AudioDevice, DeviceType)>) -> Option<
    (Device, DeviceType),
> {
    match lost {
        Some((device, device_type)) => Some((device@, device_type)),
        None => None,
    }
}

impl View for RecordingState {
    type V = State;

    closed spec fn view(&self) -> State {
        State {
            recording: self.is_recording,
            paused: self.is_paused,
            reconnecting: self.is_reconnecting,
            routes_ready: self.routes_ready,
            microphone_device: device_of(self.microphone_device),
            system_device: device_of(self.system_device),
            disconnected_device: lost_device_of(self.disconnected_device),
            sender_attached: self.sender_attached,
            error_count: self.error_count,
            recoverable_error_count: self.recoverable_error_count,
            last_error: self.last_error,
            callback_attached: self.callback_attached,
            stats: self.stats,
            device_epoch: self.device_epoch,
            microphone: self.microphone,
            system: self.system,
            mute: self.mute,
            system_format: format_of(self.system_audio_format),
            cutover: self.cutover,
            in_flight_callbacks: self.in_flight_callback_count,
            microphone_stream_started_count: self.microphone_stream_started_count,
            completed_epochs: epoch_views(self.completed_epoch_evidence@),
            incidents: incident_views(self.route_incidents@),
            cutovers: cutover_views(self.cutover_evidence@),
            evidence_sequence: self.evidence_sequence,
            evidence_dirty: self.evidence_dirty,
            recording_start_ns: self.recording_start_ns,
            pause_start_ns: self.pause_start_ns,
            total_pause_ns: self.total_pause_ns,
        }
    }
}

fn option_nonzero(value: u64) -> (r: Option<u64>)
    ensures
        r == nonzero(value),
{
    if value != 0 {
        Some(value)
    } else {
        None
    }
}

fn max(a: u64, b: u64) -> (r: u64)
    ensures
        r == larger(a, b),
{
    if a < b {
        b
    } else {
        a
    }
}

fn zero_counters() -> (r: RouteCounters)
    ensures
        r == RouteCounters::zero(),
{
    RouteCounters {
        stream_started_qpc_ns: 0,
        last_capture_qpc_ns: 0,
        last_callback_observed_qpc_ns: 0,
        max_callback_gap_ns: 0,
        no_signal: false,
        no_signal_count: 0,
        route_failed: false,
        callback_count: 0,
        frame_count: 0,
        sample_count: 0,
        rms_bits: 0,
        peak_bits: 0,
    }
}

fn zero_mute() -> (r: MuteTracking)
    ensures
        r == MuteTracking::zero(),
{
    MuteTracking {
        endpoint_muted: false,
        audio_silent: false,
        driver_mute_behavior: DriverMuteBehavior::Unknown,
        muted_zero_since_qpc_ns: 0,
        silent_flag_frame_count: 0,
        all_zero_frame_count: 0,
    }
}

fn no_cutover() -> (r: CutoverCounters)
    ensures
        r == CutoverCounters::none(),
{
    CutoverCounters {
        closing_device_epoch: NO_EPOCH,
        watermark_qpc_ns: 0,
        drain_deadline_qpc_ns: 0,
        late_callback_dropped_frames: 0,
        attribution_error_frames: 0,
        old_last_capture_qpc_ns: 0,
        new_epoch: NO_EPOCH,
        new_first_capture_qpc_ns: 0,
    }
}

/// The counters of a route after a callback.
fn observe(counters: RouteCounters, capture_qpc_ns: u64, observed_qpc_ns: u64) -> (r: RouteCounters)
    ensures
        r == counters.observed(capture_qpc_ns, observed_qpc_ns),
{
    let prior: u64 = counters.last_callback_observed_qpc_ns;
    let reference: u64 = if prior == 0 { counters.stream_started_qpc_ns } else { prior };
    let mut r = counters;
    r.last_capture_qpc_ns = capture_qpc_ns;
    r.last_callback_observed_qpc_ns = observed_qpc_ns;
    if reference > 0 && observed_qpc_ns >= reference {
        r.max_callback_gap_ns = max(r.max_callback_gap_ns, observed_qpc_ns - reference);
    }
    r.no_signal = false;
    r.route_failed = false;
    r
}

/// The counters of a route after it was without a callback.
fn note_silence(counters: RouteCounters, gap_ns: u64) -> (r: RouteCounters)
    ensures
        r == counters.silent_for(gap_ns),
{
    let mut r = counters;
    r.max_callback_gap_ns = max(r.max_callback_gap_ns, gap_ns);
    r.no_signal = true;
    r.no_signal_count = r.no_signal_count.wrapping_add(1);
    r.rms_bits = 0;
    r.peak_bits = 0;
    r
}

/// The mute observation after the switch was read.
fn note_no_callback(mute: MuteTracking, endpoint_muted: bool) -> (r: MuteTracking)
    ensures
        r == mute.without_callback(endpoint_muted),
{
    let mut r = read_switch(mute, endpoint_muted, 0);
    if endpoint_muted && r.driver_mute_behavior == DriverMuteBehavior::Unknown {
        r.driver_mute_behavior = DriverMuteBehavior::NoCallback;
    }
    r
}

fn read_switch(mute: MuteTracking, endpoint_muted: bool, zero_since_qpc_ns: u64) -> (r:
    MuteTracking)
    ensures
        r == mute.switched(endpoint_muted, zero_since_qpc_ns),
{
    let mut r = mute;
    r.endpoint_muted = endpoint_muted;
    if endpoint_muted && !mute.endpoint_muted {
        r.driver_mute_behavior = DriverMuteBehavior::Unknown;
        r.audio_silent = false;
        r.muted_zero_since_qpc_ns = zero_since_qpc_ns;
    }
    r
}

impl RecordingState {
    pub fn new() -> (r: Self)
        ensures
            r@ == State::initial(),
    {
        let r = RecordingState {
            is_recording: false,
            is_paused: false,
            is_reconnecting: false,
            routes_ready: false,
            microphone_device: None,
            system_device: None,
            disconnected_device: None,
            sender_attached: false,
            error_count: 0,
            recoverable_error_count: 0,
            last_error: None,
            callback_attached: false,
            stats: RecordingStats {
                chunks_processed: 0,
                total_duration_ns: 0,
                last_activity_ns: None,
            },
            device_epoch: 0,
            microphone: zero_counters(),
            system: zero_counters(),
            mute: zero_mute(),
            system_audio_format: None,
            cutover: no_cutover(),
            in_flight_callback_count: 0,
            microphone_stream_started_count: 0,
            completed_epoch_evidence: Vec::new(),
            route_incidents: Vec::new(),
            cutover_evidence: Vec::new(),
            evidence_sequence: 0,
            evidence_dirty: false,
            recording_start_ns: None,
            pause_start_ns: None,
            total_pause_ns: 0,
        };
        assert(r@ =~= State::initial());
        r
    }

    /// Begins a recording.
    pub fn start_recording(&mut self, now_ns: u64)
        ensures
            final(self)@ == old(self)@.started(now_ns),
    {
        self.is_recording = true;
        self.routes_ready = false;
        self.recording_start_ns = Some(now_ns);
        self.error_count = 0;
        self.recoverable_error_count = 0;
        self.last_error = None;
        self.device_epoch = 0;
        self.microphone = zero_counters();
        self.system = zero_counters();
        self.mute = zero_mute();
        self.system_audio_format = None;
        self.cutover = no_cutover();
        self.in_flight_callback_count = 0;
        self.microphone_stream_started_count = 0;
        self.completed_epoch_evidence = Vec::new();
        self.route_incidents = Vec::new();
        self.cutover_evidence = Vec::new();
        self.evidence_sequence = 0;
        self.evidence_dirty = false;
        assert(self@ =~= old(self)@.started(now_ns));
    }

    /// Ends the recording, closes the pipeline and releases the devices.
    pub fn stop_recording(&mut self)
        ensures
            final(self)@ == old(self)@.stopped(),
    {
        self.is_recording = false;
        self.is_paused = false;
        self.routes_ready = false;
        self.pause_start_ns = None;
        self.sender_attached = false;
        self.microphone_device = None;
        self.system_device = None;
        self.disconnected_device = None;
    }

    pub fn pause_recording(&mut self, now_ns: u64) -> (r: Result<(), PauseError>)
        ensures
            (r, final(self)@) == paused(old(self)@, now_ns),
            !old(self)@.recording ==> r == Err::<(), PauseError>(PauseError::PauseWhenNotRecording),
            old(self)@.recording && old(self)@.paused ==> r == Err::<(), PauseError>(
                PauseError::AlreadyPaused),
            old(self)@.recording && !old(self)@.paused ==> r is Ok,
            final(self)@ == if r is Ok { old(self)@.paused_at(now_ns) } else { old(self)@ },
    {
        if !self.is_recording {
            return Err(PauseError::PauseWhenNotRecording);
        }
        if self.is_paused {
            return Err(PauseError::AlreadyPaused);
        }
        self.is_paused = true;
        self.pause_start_ns = Some(now_ns);
        Ok(())
    }

    pub fn resume_recording(&mut self, now_ns: u64) -> (r: Result<(), PauseError>)
        ensures
            (r, final(self)@) == resumed(old(self)@, now_ns),
            !old(self)@.recording ==> r == Err::<(), PauseError>(
                PauseError::ResumeWhenNotRecording),
            old(self)@.recording && !old(self)@.paused ==> r == Err::<(), PauseError>(
                PauseError::NotPaused),
            old(self)@.recording && old(self)@.paused ==> r is Ok,
            final(self)@ == if r is Ok { old(self)@.resumed_at(now_ns) } else { old(self)@ },
    {
        if !self.is_recording {
            return Err(PauseError::ResumeWhenNotRecording);
        }
        if !self.is_paused {
            return Err(PauseError::NotPaused);
        }
        if let Some(pause_start) = self.pause_start_ns {
            self.total_pause_ns = self.total_pause_ns.saturating_add(
                now_ns.saturating_sub(pause_start));
        }
        self.pause_start_ns = None;
        self.is_paused = false;
        Ok(())
    }

    pub fn is_recording(&self) -> (r: bool)
        ensures
            r == self@.recording,
    {
        self.is_recording
    }

    pub fn is_paused(&self) -> (r: bool)
        ensures
            r == self@.paused,
    {
        self.is_paused
    }

    /// Whether both routes deliver and nothing holds the recording up.
    pub fn is_active(&self) -> (r: bool)
        ensures
            r == self@.active(),
    {
        self.accepts_audio_timeline() && !self.system.no_signal && !self.mute.audio_silent
    }

    /// Whether audio may be put on the timeline. A silent system route does not close it.
    pub fn accepts_audio_timeline(&self) -> (r: bool)
        ensures
            r == self@.timeline_open(),
    {
        self.is_recording && !self.is_paused && !self.is_reconnecting && self.routes_ready
            && !self.microphone.no_signal && !self.microphone.route_failed
            && !self.system.route_failed
    }

    pub fn start_reconnecting(&mut self, device: AudioDevice, device_type: DeviceType)
        ensures
            final(self)@ == old(self)@.reconnecting_to(device@, device_type),
    {
        self.is_reconnecting = true;
        self.routes_ready = false;
        self.disconnected_device = Some((device, device_type));
    }

    pub fn stop_reconnecting(&mut self)
        ensures
            final(self)@ == old(self)@.reconnected(),
    {
        self.is_reconnecting = false;
        self.routes_ready = true;
        self.disconnected_device = None;
    }

    pub fn is_reconnecting(&self) -> (r: bool)
        ensures
            r == self@.reconnecting,
    {
        self.is_reconnecting
    }

    pub fn mark_routes_ready(&mut self)
        ensures
            final(self)@ == (State { routes_ready: true, ..old(self)@ }),
    {
        self.routes_ready = true;
    }

    /// Whether missing callbacks count against the routes.
    pub fn route_watchdog_enabled(&self) -> (r: bool)
        ensures
            r == self@.watched(),
    {
        self.is_recording && !self.is_paused && !self.is_reconnecting && self.routes_ready
    }

    pub fn get_disconnected_device(&self) -> (r: Option<(AudioDevice, DeviceType)>)
        ensures
            lost_device_of(r) == self@.disconnected_device,
    {
        match &self.disconnected_device {
            Some((device, device_type)) => Some((device.clone(), *device_type)),
            None => None,
        }
    }

    pub fn set_microphone_device(&mut self, device: AudioDevice)
        ensures
            final(self)@ == (State { microphone_device: Some(device@), ..old(self)@ }),
    {
        self.microphone_device = Some(device);
    }

    pub fn set_system_device(&mut self, device: AudioDevice)
        ensures
            final(self)@ == (State { system_device: Some(device@), ..old(self)@ }),
    {
        self.system_device = Some(device);
    }

    pub fn clear_microphone_device(&mut self)
        ensures
            final(self)@ == (State {
                microphone_device: None,
                evidence_dirty: true,
                ..old(self)@
            }),
    {
        self.microphone_device = None;
        self.evidence_dirty = true;
    }

    pub fn clear_system_device(&mut self)
        ensures
            final(self)@ == (State { system_device: None, evidence_dirty: true, ..old(self)@ }),
    {
        self.system_device = None;
        self.evidence_dirty = true;
    }

    pub fn get_microphone_device(&self) -> (r: Option<AudioDevice>)
        ensures
            device_of(r) == self@.microphone_device,
    {
        clone_device(&self.microphone_device)
    }

    pub fn get_system_device(&self) -> (r: Option<AudioDevice>)
        ensures
            device_of(r) == self@.system_device,
    {
        clone_device(&self.system_device)
    }

    pub fn get_device_epoch(&self) -> (r: u64)
        ensures
            r == self@.device_epoch,
    {
        self.device_epoch
    }

    /// Puts the present epoch on record and begins the next one, whose number is returned.
    pub fn advance_device_epoch(&mut self) -> (next: u64)
        ensures
            final(self)@ == old(self)@.next_epoch(),
            next == final(self)@.device_epoch,
    {
        let current = self.snapshot_current_epoch();
        let ghost before = self.completed_epoch_evidence@;
        self.completed_epoch_evidence.push(current);
        assert(epoch_views(self.completed_epoch_evidence@) =~= epoch_views(before).push(current@));
        self.device_epoch = self.device_epoch.wrapping_add(1);
        self.microphone = zero_counters();
        self.system = zero_counters();
        self.mute = zero_mute();
        self.system_audio_format = None;
        self.evidence_dirty = true;
        self.device_epoch
    }

    /// Begins to close the present epoch and returns the instant by which it must have drained.
    pub fn begin_device_cutover(&mut self, watermark_qpc_ns: u64) -> (deadline: u64)
        ensures
            final(self)@ == old(self)@.cutover_begun(watermark_qpc_ns),
            deadline == State::drain_deadline(watermark_qpc_ns),
    {
        self.freeze_latest_cutover_metrics();
        let closing_epoch: u64 = self.device_epoch;
        let deadline: u64 = watermark_qpc_ns.saturating_add(AUDIO_CALLBACK_DEADLINE_NS);
        let mut cutover = no_cutover();
        cutover.closing_device_epoch = closing_epoch;
        cutover.watermark_qpc_ns = watermark_qpc_ns;
        cutover.drain_deadline_qpc_ns = deadline;
        self.cutover = cutover;
        let sequence: u64 = self.evidence_sequence.wrapping_add(1);
        self.evidence_sequence = sequence;
        let evidence = AudioCutoverEvidence {
            sequence,
            old_device_epoch: closing_epoch,
            new_device_epoch: None,
            watermark_qpc_ns,
            drain_deadline_qpc_ns: deadline,
            old_epoch_last_capture_qpc_ns: None,
            new_epoch_first_capture_qpc_ns: None,
            late_callback_dropped_frames: 0,
            attribution_error_frames: 0,
            terminal_result: "in_progress".to_owned(),
            error: None,
        };
        let ghost before = self.cutover_evidence@;
        self.cutover_evidence.push(evidence);
        assert(cutover_views(self.cutover_evidence@) =~= cutover_views(before).push(evidence@));
        self.evidence_dirty = true;
        deadline
    }

    /// The change of devices succeeded.
    pub fn finish_device_cutover(&mut self, new_epoch: u64)
        ensures
            final(self)@ == old(self)@.cutover_finished(new_epoch),
    {
        self.cutover.closing_device_epoch = NO_EPOCH;
        self.cutover.new_epoch = new_epoch;
        settle_cutover(&mut self.cutover_evidence, "rebound", Some(new_epoch), None);
        self.evidence_dirty = true;
    }

    /// The change of devices is given up. Returns the epoch that begins instead.
    pub fn abort_device_cutover(&mut self, reason: &str) -> (epoch: u64)
        ensures
            final(self)@ == old(self)@.cutover_aborted(reason@),
            epoch == final(self)@.device_epoch,
    {
        let invalidating_epoch: u64 = self.advance_device_epoch();
        self.cutover.closing_device_epoch = NO_EPOCH;
        self.cutover.new_epoch = NO_EPOCH;
        settle_cutover(
            &mut self.cutover_evidence,
            "failed",
            Some(invalidating_epoch),
            Some(reason.to_owned()),
        );
        self.evidence_dirty = true;
        invalidating_epoch
    }

    /// The change of devices failed once the new epoch had begun.
    pub fn fail_device_cutover(&mut self, new_epoch: u64, reason: &str)
        ensures
            final(self)@ == old(self)@.cutover_failed(new_epoch, reason@),
    {
        self.cutover.closing_device_epoch = NO_EPOCH;
        self.cutover.new_epoch = new_epoch;
        self.evidence_dirty = true;
        let ghost before = self.cutover_evidence@;
        if let Some(mut last) = self.cutover_evidence.pop() {
            last.new_device_epoch = Some(new_epoch);
            last.terminal_result = "failed".to_owned();
            last.error = Some(reason.to_owned());
            self.cutover_evidence.push(last);
            assert(cutover_views(self.cutover_evidence@) =~= cutover_views(
                before).drop_last().push(last@));
        }
    }

    fn freeze_latest_cutover_metrics(&mut self)
        ensures
            final(self)@ == (State {
                cutovers: old(self)@.cutover.measured_last(old(self)@.cutovers),
                ..old(self)@
            }),
    {
        measure_last(&mut self.cutover_evidence, &self.cutover);
    }

    /// Lets a producer put silence on the timeline, counted among those at work.
    pub fn begin_timeline_padding(&mut self, epoch: u64) -> (r: Option<InFlightAudioCallback>)
        ensures
            r is Some == old(self)@.padding_accepted(epoch),
            final(self)@ == if r is Some { old(self)@.callback_entered() } else { old(self)@ },
    {
        if self.accepts_audio_timeline() && epoch == self.device_epoch && epoch
            != self.cutover.closing_device_epoch {
            self.in_flight_callback_count = self.in_flight_callback_count.wrapping_add(1);
            Some(InFlightAudioCallback { private: () })
        } else {
            None
        }
    }

    /// Lets a callback's audio into the recording, counted among the producers at work, or drops
    /// and counts its frames.
    pub fn begin_audio_callback(
        &mut self,
        callback_epoch: u64,
        capture_qpc_ns: Option<u64>,
        frame_count: u64,
    ) -> (r: Option<InFlightAudioCallback>)
        ensures
            r is Some == old(self)@.callback_accepted(callback_epoch, capture_qpc_ns),
            final(self)@ == old(self)@.callback_begun(callback_epoch, capture_qpc_ns, frame_count),
    {
        let closing: bool = self.cutover.closing_device_epoch == callback_epoch;
        let newest: bool = self.cutover.new_epoch == callback_epoch;
        let watermark: u64 = self.cutover.watermark_qpc_ns;
        let missing_cutover_qpc: bool = capture_qpc_ns.is_none() && watermark != 0 && (closing
            || newest);
        if missing_cutover_qpc {
            self.cutover.attribution_error_frames =
                self.cutover.attribution_error_frames.wrapping_add(frame_count);
        }
        let late_for_closing_epoch: bool = match capture_qpc_ns {
            Some(capture) => closing && capture > watermark,
            None => false,
        };
        if callback_epoch != self.device_epoch || late_for_closing_epoch || missing_cutover_qpc {
            self.cutover.late_callback_dropped_frames =
                self.cutover.late_callback_dropped_frames.wrapping_add(frame_count);
            return None;
        }
        self.in_flight_callback_count = self.in_flight_callback_count.wrapping_add(1);
        if let Some(capture) = capture_qpc_ns {
            if closing {
                self.cutover.old_last_capture_qpc_ns = max(
                    self.cutover.old_last_capture_qpc_ns, capture);
            }
            if newest && self.cutover.new_first_capture_qpc_ns == 0 {
                self.cutover.new_first_capture_qpc_ns = capture;
            }
        }
        Some(InFlightAudioCallback { private: () })
    }

    /// A producer of audio is done.
    pub fn end_audio_callback(&mut self, callback: InFlightAudioCallback)
        ensures
            final(self)@ == old(self)@.callback_left(),
    {
        self.in_flight_callback_count = self.in_flight_callback_count.wrapping_sub(1);
    }

    /// How many producers are at work, and when those of a closing epoch must be done.
    pub fn callback_drain_state(&self) -> (r: (u64, u64))
        ensures
            r == (self@.in_flight_callbacks, self@.cutover.drain_deadline_qpc_ns),
    {
        (self.in_flight_callback_count, self.cutover.drain_deadline_qpc_ns)
    }

    /// The watermark, the last capture before it, the first capture of the new epoch, the frames
    /// dropped and those that could not be attributed.
    pub fn cutover_state(&self) -> (r: (Option<u64>, Option<u64>, Option<u64>, u64, u64))
        ensures
            r == (
                nonzero(self@.cutover.watermark_qpc_ns),
                nonzero(self@.cutover.old_last_capture_qpc_ns),
                nonzero(self@.cutover.new_first_capture_qpc_ns),
                self@.cutover.late_callback_dropped_frames,
                self@.cutover.attribution_error_frames,
            ),
    {
        (
            option_nonzero(self.cutover.watermark_qpc_ns),
            option_nonzero(self.cutover.old_last_capture_qpc_ns),
            option_nonzero(self.cutover.new_first_capture_qpc_ns),
            self.cutover.late_callback_dropped_frames,
            self.cutover.attribution_error_frames,
        )
    }

    fn snapshot_current_epoch(&self) -> (r: AudioDeviceEpochEvidence)
        ensures
            r@ == self@.epoch_evidence(),
    {
        let (microphone_name, microphone_native_id, microphone_default_role) = identity(
            &self.microphone_device);
        let (system_name, system_native_id, system_default_role) = identity(&self.system_device);
        let driver_mute_behavior = match self.mute.driver_mute_behavior.label() {
            Some(label) => Some(label.to_owned()),
            None => None,
        };
        AudioDeviceEpochEvidence {
            device_epoch: self.device_epoch,
            microphone_name,
            microphone_native_id,
            microphone_default_role,
            system_name,
            system_native_id,
            system_default_role,
            system_format: clone_format(&self.system_audio_format),
            microphone_stream_started_qpc_ns: option_nonzero(self.microphone.stream_started_qpc_ns),
            system_stream_started_qpc_ns: option_nonzero(self.system.stream_started_qpc_ns),
            microphone_last_capture_qpc_ns: option_nonzero(self.microphone.last_capture_qpc_ns),
            system_last_capture_qpc_ns: option_nonzero(self.system.last_capture_qpc_ns),
            microphone_last_callback_observed_qpc_ns: option_nonzero(
                self.microphone.last_callback_observed_qpc_ns,
            ),
            system_last_callback_observed_qpc_ns: option_nonzero(
                self.system.last_callback_observed_qpc_ns,
            ),
            microphone_max_callback_gap_ns: self.microphone.max_callback_gap_ns,
            system_max_callback_gap_ns: self.system.max_callback_gap_ns,
            microphone_callback_count: self.microphone.callback_count,
            microphone_frame_count: self.microphone.frame_count,
            microphone_sample_count: self.microphone.sample_count,
            system_callback_count: self.system.callback_count,
            system_frame_count: self.system.frame_count,
            system_sample_count: self.system.sample_count,
            system_silent_flag_frame_count: self.mute.silent_flag_frame_count,
            system_all_zero_frame_count: self.mute.all_zero_frame_count,
            microphone_no_signal_count: self.microphone.no_signal_count,
            system_no_signal_count: self.system.no_signal_count,
            microphone_route_failed: self.microphone.route_failed,
            system_route_failed: self.system.route_failed,
            system_endpoint_muted: self.mute.endpoint_muted,
            system_audio_silent: self.mute.audio_silent,
            driver_mute_behavior,
            microphone_rms_bits: self.microphone.rms_bits,
            microphone_peak_bits: self.microphone.peak_bits,
            system_rms_bits: self.system.rms_bits,
            system_peak_bits: self.system.peak_bits,
        }
    }

    /// Everything recorded about the routes so far.
    pub fn audio_route_evidence_snapshot(&self) -> (r: AudioRouteEvidenceSnapshot)
        ensures
            r@ == self@.evidence(),
    {
        let mut epochs = clone_epochs(&self.completed_epoch_evidence);
        let current = self.snapshot_current_epoch();
        let ghost current_view = current@;
        let ghost before = epoch_views(epochs@);
        match find_epoch(&epochs, self.device_epoch) {
            Some(i) => {
                epochs.set(i, current);
                assert(epoch_views(epochs@) =~= before.update(i as int, current_view));
            },
            None => {
                epochs.push(current);
                assert(epoch_views(epochs@) =~= before.push(current_view));
            },
        }
        let mut cutovers = clone_cutovers(&self.cutover_evidence);
        measure_last(&mut cutovers, &self.cutover);
        AudioRouteEvidenceSnapshot {
            schema_version: 1,
            current_device_epoch: self.device_epoch,
            microphone_stream_started_count: self.microphone_stream_started_count,
            epochs,
            incidents: clone_incidents(&self.route_incidents),
            cutovers,
        }
    }

    /// Whether the evidence changed since it was last asked for.
    pub fn take_audio_route_evidence_dirty(&mut self) -> (r: bool)
        ensures
            r == old(self)@.evidence_dirty,
            final(self)@ == (State { evidence_dirty: false, ..old(self)@ }),
    {
        let dirty = self.evidence_dirty;
        self.evidence_dirty = false;
        dirty
    }

    pub fn mark_audio_route_evidence_dirty(&mut self)
        ensures
            final(self)@ == (State { evidence_dirty: true, ..old(self)@ }),
    {
        self.evidence_dirty = true;
    }

    fn open_route_incident(
        &mut self,
        route: &str,
        code: &str,
        started_qpc_ns: Option<u64>,
        callback_gap_ns: Option<u64>,
    )
        ensures
            final(self)@ == old(self)@.incident_opened(
                route@, code@, started_qpc_ns, callback_gap_ns),
    {
        if is_open(&self.route_incidents, self.device_epoch, route, code) {
            return;
        }
        let sequence: u64 = self.evidence_sequence.wrapping_add(1);
        self.evidence_sequence = sequence;
        let incident = AudioRouteIncidentEvidence {
            sequence,
            device_epoch: self.device_epoch,
            route: route.to_owned(),
            code: code.to_owned(),
            started_qpc_ns,
            recovered_qpc_ns: None,
            callback_gap_ns,
        };
        let ghost before = incident_views(self.route_incidents@);
        self.route_incidents.push(incident);
        assert(incident_views(self.route_incidents@) =~= before.push(incident@));
        self.evidence_dirty = true;
    }

    /// Notes that a route fell back from the preferred device to the default one.
    pub fn record_device_fallback(&mut self, route: &str)
        ensures
            final(self)@ == old(self)@.incident_opened(
                route@, "preferred_device_fallback"@, None, None),
    {
        self.open_route_incident(route, "preferred_device_fallback", None, None);
    }

    fn recover_route_incidents(&mut self, route: &str, recovered_qpc_ns: u64)
        ensures
            final(self)@ == old(self)@.incidents_closed(route@, recovered_qpc_ns),
    {
        let any = close_incidents(
            &mut self.route_incidents, self.device_epoch, route, recovered_qpc_ns);
        if any {
            self.evidence_dirty = true;
        }
    }

    /// The first start of the system stream in an epoch counts.
    pub fn mark_system_stream_started(&mut self, qpc_ns: u64)
        ensures
            final(self)@ == (State {
                system: RouteCounters {
                    stream_started_qpc_ns: if old(self)@.system.stream_started_qpc_ns == 0 {
                        qpc_ns
                    } else {
                        old(self)@.system.stream_started_qpc_ns
                    },
                    ..old(self)@.system
                },
                evidence_dirty: true,
                ..old(self)@
            }),
    {
        if self.system.stream_started_qpc_ns == 0 {
            self.system.stream_started_qpc_ns = qpc_ns;
        }
        self.evidence_dirty = true;
    }

    pub fn system_stream_started_qpc_ns(&self) -> (r: Option<u64>)
        ensures
            r == nonzero(self@.system.stream_started_qpc_ns),
    {
        option_nonzero(self.system.stream_started_qpc_ns)
    }

    pub fn set_system_audio_format(&mut self, format: SystemAudioFormat)
        ensures
            final(self)@ == (State {
                system_format: Some(format@),
                evidence_dirty: true,
                ..old(self)@
            }),
    {
        self.system_audio_format = Some(format);
        self.evidence_dirty = true;
    }

    pub fn system_audio_format(&self) -> (r: Option<SystemAudioFormat>)
        ensures
            format_of(r) == self@.system_format,
    {
        clone_format(&self.system_audio_format)
    }

    /// Takes in a callback of the system route. Returns the error that a listener is to be told.
    pub fn record_system_callback_qpc(
        &mut self,
        capture_qpc_ns: u64,
        observed_qpc_ns: u64,
        frames: u32,
        silent_flag: bool,
        all_zero_frames: u32,
        endpoint_muted: bool,
    ) -> (notice: Option<AudioError>)
        ensures
            final(self)@ == old(self)@.system_callback(
                capture_qpc_ns,
                observed_qpc_ns,
                frames,
                silent_flag,
                all_zero_frames,
                endpoint_muted,
            ),
            notice == if old(self)@.goes_silent(
                observed_qpc_ns, frames, all_zero_frames, endpoint_muted) {
                old(self)@.notice(AudioError::SystemAudioSilent)
            } else {
                None
            },
    {
        self.observe_system(capture_qpc_ns, observed_qpc_ns, frames, silent_flag, all_zero_frames);
        self.observe_mute(observed_qpc_ns, frames, all_zero_frames, endpoint_muted)
    }

    fn observe_system(
        &mut self,
        capture_qpc_ns: u64,
        observed_qpc_ns: u64,
        frames: u32,
        silent_flag: bool,
        all_zero_frames: u32,
    )
        ensures
            final(self)@ == old(self)@.system_observed(
                capture_qpc_ns, observed_qpc_ns, frames, silent_flag, all_zero_frames),
    {
        let unhealthy: bool = self.system.no_signal || self.system.route_failed;
        self.system = observe(self.system, capture_qpc_ns, observed_qpc_ns);
        self.system.frame_count = self.system.frame_count.wrapping_add(frames as u64);
        if silent_flag {
            self.mute.silent_flag_frame_count =
                self.mute.silent_flag_frame_count.wrapping_add(frames as u64);
        }
        self.mute.all_zero_frame_count =
            self.mute.all_zero_frame_count.wrapping_add(all_zero_frames as u64);
        if unhealthy {
            self.recover_route_incidents("system", observed_qpc_ns);
        }
    }

    fn observe_mute(
        &mut self,
        observed_qpc_ns: u64,
        frames: u32,
        all_zero_frames: u32,
        endpoint_muted: bool,
    ) -> (notice: Option<AudioError>)
        ensures
            final(self)@ == old(self)@.mute_observed(
                observed_qpc_ns, frames, all_zero_frames, endpoint_muted),
            notice == if old(self)@.goes_silent(
                observed_qpc_ns, frames, all_zero_frames, endpoint_muted) {
                old(self)@.notice(AudioError::SystemAudioSilent)
            } else {
                None
            },
    {
        self.mute = read_switch(self.mute, endpoint_muted, observed_qpc_ns);
        assert(self@ =~= old(self)@.switch_read(endpoint_muted, observed_qpc_ns));
        if endpoint_muted && frames > 0 && all_zero_frames == frames {
            self.observe_zeros(observed_qpc_ns)
        } else {
            self.observe_sound(observed_qpc_ns, endpoint_muted && frames > 0);
            None
        }
    }

    fn observe_zeros(&mut self, observed_qpc_ns: u64) -> (notice: Option<AudioError>)
        ensures
            final(self)@ == old(self)@.zeros_observed(observed_qpc_ns),
            notice == if old(self)@.zeros_are_due(observed_qpc_ns) {
                old(self)@.notice(AudioError::SystemAudioSilent)
            } else {
                None
            },
    {
        if self.mute.driver_mute_behavior == DriverMuteBehavior::AudibleFrames {
            self.mute.audio_silent = false;
            return None;
        }
        self.mute.driver_mute_behavior = DriverMuteBehavior::SilentFrames;
        let zero_since: u64 = self.mute.muted_zero_since_qpc_ns;
        if zero_since == 0 {
            self.mute.muted_zero_since_qpc_ns = observed_qpc_ns;
            return None;
        }
        let silent_for: u64 = observed_qpc_ns.saturating_sub(zero_since);
        if silent_for >= AUDIO_CALLBACK_DEADLINE_NS && !self.mute.audio_silent {
            self.mute.audio_silent = true;
            self.open_route_incident(
                "system",
                "silent_frames_while_muted",
                Some(zero_since),
                Some(silent_for),
            );
            return self.report_route_error(AudioError::SystemAudioSilent);
        }
        None
    }

    fn observe_sound(&mut self, observed_qpc_ns: u64, while_muted: bool)
        ensures
            final(self)@ == old(self)@.sound_observed(observed_qpc_ns, while_muted),
    {
        if while_muted {
            self.mute.driver_mute_behavior = DriverMuteBehavior::AudibleFrames;
        }
        let was_silent: bool = self.mute.audio_silent;
        self.mute.audio_silent = false;
        self.mute.muted_zero_since_qpc_ns = 0;
        if was_silent {
            self.recover_route_incidents("system", observed_qpc_ns);
        }
    }

    /// The system route had no callback for `gap_ns`. Returns the error that a listener is to be
    /// told.
    pub fn report_system_no_signal(&mut self, gap_ns: u64, endpoint_muted: bool) -> (notice: Option<
        AudioError,
    >)
        ensures
            final(self)@ == old(self)@.system_no_signal(gap_ns, endpoint_muted),
            notice == old(self)@.notice(AudioError::SystemAudioNoSignal),
    {
        let reference: u64 = if self.system.last_callback_observed_qpc_ns != 0 {
            self.system.last_callback_observed_qpc_ns
        } else {
            self.system.stream_started_qpc_ns
        };
        self.open_system_silence(reference, gap_ns);
        self.mute = note_no_callback(self.mute, endpoint_muted);
        self.report_route_error(AudioError::SystemAudioNoSignal)
    }

    fn open_system_silence(&mut self, reference: u64, gap_ns: u64)
        ensures
            final(self)@ == (State {
                system: old(self)@.system.silent_for(gap_ns),
                ..old(self)@
            }).incident_opened("system"@, "no_signal"@, nonzero(reference), Some(gap_ns)),
    {
        self.system = note_silence(self.system, gap_ns);
        self.open_route_incident("system", "no_signal", option_nonzero(reference), Some(gap_ns));
    }

    fn report_route_error(&mut self, error: AudioError) -> (notice: Option<AudioError>)
        ensures
            final(self)@ == old(self)@.route_error(error),
            notice == old(self)@.notice(error),
    {
        self.error_count = self.error_count.wrapping_add(1);
        self.recoverable_error_count = self.recoverable_error_count.wrapping_add(1);
        self.last_error = Some(error);
        if self.callback_attached {
            Some(error)
        } else {
            None
        }
    }

    /// The last capture and callback of the system route, its longest gap, whether it is without
    /// a signal and how often it was.
    pub fn system_route_health(&self) -> (r: (Option<u64>, Option<u64>, u64, bool, u64))
        ensures
            r == (
                nonzero(self@.system.last_capture_qpc_ns),
                nonzero(self@.system.last_callback_observed_qpc_ns),
                self@.system.max_callback_gap_ns,
                self@.system.no_signal,
                self@.system.no_signal_count,
            ),
    {
        (
            option_nonzero(self.system.last_capture_qpc_ns),
            option_nonzero(self.system.last_callback_observed_qpc_ns),
            self.system.max_callback_gap_ns,
            self.system.no_signal,
            self.system.no_signal_count,
        )
    }

    /// The frames of the system route: all, those flagged silent, those that were all zero.
    pub fn system_native_frame_counts(&self) -> (r: (u64, u64, u64))
        ensures
            r == (
                self@.system.frame_count,
                self@.mute.silent_flag_frame_count,
                self@.mute.all_zero_frame_count,
            ),
    {
        (
            self.system.frame_count,
            self.mute.silent_flag_frame_count,
            self.mute.all_zero_frame_count,
        )
    }

    /// Whether the endpoint is muted, whether the route counts as silent, and what the driver
    /// was seen to do.
    pub fn system_mute_state(&self) -> (r: (bool, bool, Option<&'static str>))
        ensures
            r.0 == self@.mute.endpoint_muted,
            r.1 == self@.mute.audio_silent,
            match r.2 {
                Some(label) => self@.mute.driver_mute_behavior.name() == Some(label@),
                None => self@.mute.driver_mute_behavior.name() is None,
            },
    {
        (
            self.mute.endpoint_muted,
            self.mute.audio_silent,
            self.mute.driver_mute_behavior.label(),
        )
    }

    pub fn mark_microphone_stream_started(&mut self, qpc_ns: u64)
        ensures
            final(self)@ == old(self)@.microphone_started(qpc_ns),
    {
        self.microphone_stream_started_count = self.microphone_stream_started_count.wrapping_add(1);
        self.microphone.stream_started_qpc_ns = qpc_ns;
        self.microphone.no_signal = false;
        self.microphone.route_failed = false;
        self.evidence_dirty = true;
    }

    pub fn microphone_stream_started_count(&self) -> (r: u64)
        ensures
            r == self@.microphone_stream_started_count,
    {
        self.microphone_stream_started_count
    }

    /// Takes in a callback of the microphone route.
    pub fn record_microphone_callback_qpc(
        &mut self,
        capture_qpc_ns: Option<u64>,
        observed_qpc_ns: u64,
    )
        ensures
            final(self)@ == old(self)@.microphone_callback(capture_qpc_ns, observed_qpc_ns),
    {
        let unhealthy: bool = self.microphone.no_signal || self.microphone.route_failed;
        let capture: u64 = match capture_qpc_ns {
            Some(capture) => capture,
            None => self.microphone.last_capture_qpc_ns,
        };
        self.microphone = observe(self.microphone, capture, observed_qpc_ns);
        if unhealthy {
            self.recover_route_incidents("microphone", observed_qpc_ns);
        }
    }

    /// The microphone route had no callback for `gap_ns`. Returns the error that a listener is to
    /// be told.
    pub fn report_microphone_no_signal(&mut self, gap_ns: u64) -> (notice: Option<AudioError>)
        ensures
            final(self)@ == old(self)@.microphone_no_signal(gap_ns),
            notice == old(self)@.notice(AudioError::MicrophoneNoSignal),
    {
        let reference: u64 = if self.microphone.last_callback_observed_qpc_ns != 0 {
            self.microphone.last_callback_observed_qpc_ns
        } else {
            self.microphone.stream_started_qpc_ns
        };
        self.microphone = note_silence(self.microphone, gap_ns);
        self.open_route_incident(
            "microphone", "no_signal", option_nonzero(reference), Some(gap_ns));
        self.report_route_error(AudioError::MicrophoneNoSignal)
    }

    /// The last capture and callback of the microphone route, its longest gap, whether it is
    /// without a signal and how often it was.
    pub fn microphone_route_health(&self) -> (r: (Option<u64>, Option<u64>, u64, bool, u64))
        ensures
            r == (
                nonzero(self@.microphone.last_capture_qpc_ns),
                nonzero(self@.microphone.last_callback_observed_qpc_ns),
                self@.microphone.max_callback_gap_ns,
                self@.microphone.no_signal,
                self@.microphone.no_signal_count,
            ),
    {
        (
            option_nonzero(self.microphone.last_capture_qpc_ns),
            option_nonzero(self.microphone.last_callback_observed_qpc_ns),
            self.microphone.max_callback_gap_ns,
            self.microphone.no_signal,
            self.microphone.no_signal_count,
        )
    }

    pub fn route_failed(&self, device_type: &DeviceType) -> (r: bool)
        ensures
            r == self@.route(*device_type).route_failed,
    {
        match device_type {
            DeviceType::Microphone => self.microphone.route_failed,
            DeviceType::System => self.system.route_failed,
        }
    }

    /// The stream of a route failed. Returns the error that a listener is to be told.
    pub fn report_route_stream_error(&mut self, device_type: &DeviceType, error: AudioError) -> (
    notice: Option<AudioError>)
        ensures
            final(self)@ == old(self)@.stream_failed(*device_type, error),
            notice == old(self)@.notice(error),
    {
        self.open_route_incident(device_type.route_name(), error.code(), None, None);
        match device_type {
            DeviceType::Microphone => {
                self.microphone.route_failed = true;
                self.microphone.rms_bits = 0;
                self.microphone.peak_bits = 0;
            },
            DeviceType::System => {
                self.system.route_failed = true;
                self.system.rms_bits = 0;
                self.system.peak_bits = 0;
            },
        }
        self.report_error(error)
    }

    /// Counts a callback with `sample_count` interleaved samples and notes its levels. `rms_bits`
    /// and `peak_bits` are the bit patterns of the levels of the samples that are finite.
    pub fn record_route_callback(
        &mut self,
        device_type: &DeviceType,
        sample_count: usize,
        channels: u16,
        rms_bits: u32,
        peak_bits: u32,
    )
        ensures
            final(self)@ == old(self)@.route_callback(
                *device_type, sample_count as nat, channels, rms_bits, peak_bits),
    {
        let per_frame: usize = if channels == 0 { 1 } else { channels as usize };
        let frame_count: u64 = (sample_count / per_frame) as u64;
        let rms: u32 = if sample_count == 0 { 0 } else { rms_bits };
        let peak: u32 = if sample_count == 0 { 0 } else { peak_bits };
        match device_type {
            DeviceType::Microphone => {
                self.microphone.callback_count = self.microphone.callback_count.wrapping_add(1);
                self.microphone.frame_count = self.microphone.frame_count.wrapping_add(frame_count);
                self.microphone.sample_count =
                    self.microphone.sample_count.wrapping_add(sample_count as u64);
                self.microphone.rms_bits = rms;
                self.microphone.peak_bits = peak;
            },
            DeviceType::System => {
                self.system.callback_count = self.system.callback_count.wrapping_add(1);
                self.system.sample_count =
                    self.system.sample_count.wrapping_add(sample_count as u64);
                self.system.rms_bits = rms;
                self.system.peak_bits = peak;
            },
        }
    }

    /// The bit patterns of a route's latest RMS and peak.
    pub fn route_audio_levels(&self, device_type: &DeviceType) -> (r: (u32, u32))
        ensures
            r == (self@.route(*device_type).rms_bits, self@.route(*device_type).peak_bits),
    {
        match device_type {
            DeviceType::Microphone => (self.microphone.rms_bits, self.microphone.peak_bits),
            DeviceType::System => (self.system.rms_bits, self.system.peak_bits),
        }
    }

    /// The callbacks and samples counted on a route.
    pub fn route_callback_counts(&self, device_type: &DeviceType) -> (r: (u64, u64))
        ensures
            r == (self@.route(*device_type).callback_count, self@.route(*device_type).sample_count),
    {
        match device_type {
            DeviceType::Microphone => (self.microphone.callback_count, self.microphone.sample_count),
            DeviceType::System => (self.system.callback_count, self.system.sample_count),
        }
    }

    pub fn microphone_frame_count(&self) -> (r: u64)
        ensures
            r == self@.microphone.frame_count,
    {
        self.microphone.frame_count
    }

    /// A pipeline is ready to take audio.
    pub fn set_audio_sender(&mut self)
        ensures
            final(self)@ == (State { sender_attached: true, ..old(self)@ }),
    {
        self.sender_attached = true;
    }

    /// What becomes of the next chunk of audio.
    pub fn send_audio_chunk(&self) -> (r: SendDecision)
        ensures
            r == send_decision(self@),
            r == if !self@.timeline_open() {
                SendDecision::Ignore
            } else if self@.sender_attached {
                SendDecision::Deliver
            } else {
                SendDecision::PipelineNotReady
            },
    {
        if !self.accepts_audio_timeline() {
            SendDecision::Ignore
        } else if self.sender_attached {
            SendDecision::Deliver
        } else {
            SendDecision::PipelineNotReady
        }
    }

    /// A chunk was handed to the pipeline, which took it or not.
    pub fn finish_audio_send(&mut self, delivered: bool, now_ns: u64) -> (r: Result<(), SendFailed>)
        ensures
            final(self)@ == sent(old(self)@, delivered, now_ns),
            r is Ok == delivered,
            final(self)@ == if delivered {
                State {
                    stats: RecordingStats {
                        chunks_processed: old(self)@.stats.chunks_processed.wrapping_add(1),
                        last_activity_ns: Some(now_ns),
                        ..old(self)@.stats
                    },
                    ..old(self)@
                }
            } else {
                old(self)@
            },
    {
        if delivered {
            self.stats.chunks_processed = self.stats.chunks_processed.wrapping_add(1);
            self.stats.last_activity_ns = Some(now_ns);
            Ok(())
        } else {
            Err(SendFailed)
        }
    }

    /// A listener wants to be told of errors.
    pub fn set_error_callback(&mut self)
        ensures
            final(self)@ == (State { callback_attached: true, ..old(self)@ }),
    {
        self.callback_attached = true;
    }

    /// Counts an error, and ends the recording where it must. Returns the error that a listener
    /// is to be told.
    pub fn report_error(&mut self, error: AudioError) -> (notice: Option<AudioError>)
        ensures
            final(self)@ == old(self)@.error_reported(error),
            notice == old(self)@.notice(error),
    {
        let count: u32 = self.error_count.wrapping_add(1);
        self.error_count = count;
        if error.is_recoverable() {
            let recoverable_count: u32 = self.recoverable_error_count.wrapping_add(1);
            self.recoverable_error_count = recoverable_count;
            if recoverable_count >= MAX_RECOVERABLE_ERRORS {
                self.stop_recording();
            }
        } else {
            self.stop_recording();
        }
        self.last_error = Some(error);
        if count >= MAX_TOTAL_ERRORS {
            self.stop_recording();
        }
        if self.callback_attached {
            Some(error)
        } else {
            None
        }
    }

    pub fn get_error_count(&self) -> (r: u32)
        ensures
            r == self@.error_count,
    {
        self.error_count
    }

    pub fn get_recoverable_error_count(&self) -> (r: u32)
        ensures
            r == self@.recoverable_error_count,
    {
        self.recoverable_error_count
    }

    pub fn get_last_error(&self) -> (r: Option<AudioError>)
        ensures
            r == self@.last_error,
    {
        self.last_error
    }

    /// Whether the last error ended the recording for good.
    pub fn has_fatal_error(&self) -> (r: bool)
        ensures
            r == failed_for_good(self@),
            r == match self@.last_error {
                Some(error) => !error.recoverable() && self@.error_count > 0,
                None => false,
            },
    {
        match self.last_error {
            Some(error) => !error.is_recoverable() && self.error_count > 0,
            None => false,
        }
    }

    pub fn get_stats(&self) -> (r: RecordingStats)
        ensures
            r == self@.stats,
    {
        self.stats
    }

    /// The age of the recording in nanoseconds.
    pub fn get_recording_duration(&self, now_ns: u64) -> (r: Option<u64>)
        ensures
            r == age(self@, now_ns),
            r == match self@.recording_start_ns {
                Some(start) => Some(elapsed(start, now_ns)),
                None => None,
            },
    {
        match self.recording_start_ns {
            Some(start) => Some(now_ns.saturating_sub(start)),
            None => None,
        }
    }

    /// The age of the recording without its pauses, in nanoseconds.
    pub fn get_active_recording_duration(&self, now_ns: u64) -> (r: Option<i128>)
        ensures
            match r {
                Some(duration) => self@.active_duration(now_ns) == Some(duration as int),
                None => self@.active_duration(now_ns) is None,
            },
    {
        match self.recording_start_ns {
            Some(start) => {
                let current_pause: u64 = match self.pause_start_ns {
                    Some(pause) => if self.is_paused {
                        now_ns.saturating_sub(pause)
                    } else {
                        0
                    },
                    None => 0,
                };
                Some(
                    now_ns.saturating_sub(start) as i128 - self.total_pause_ns as i128
                        - current_pause as i128,
                )
            },
            None => None,
        }
    }

    /// The length of all pauses that are over, in nanoseconds.
    pub fn get_total_pause_duration(&self) -> (r: u64)
        ensures
            r == self@.total_pause_ns,
    {
        self.total_pause_ns
    }

    /// The length of the pause that is under way, in nanoseconds.
    pub fn get_current_pause_duration(&self, now_ns: u64) -> (r: Option<u64>)
        ensures
            r == present_pause(self@, now_ns),
            r == match self@.pause_start_ns {
                Some(pause) if self@.paused => Some(elapsed(pause, now_ns)),
                _ => None,
            },
    {
        match self.pause_start_ns {
            Some(pause) => if self.is_paused {
                Some(now_ns.saturating_sub(pause))
            } else {
                None
            },
            None => None,
        }
    }

    /// Releases and forgets everything but the evidence of the routes.
    pub fn cleanup(&mut self)
        ensures
            final(self)@ == old(self)@.cleaned(),
    {
        self.stop_recording();
        self.stop_reconnecting();
        self.last_error = None;
        self.callback_attached = false;
        self.stats =
        RecordingStats { chunks_processed: 0, total_duration_ns: 0, last_activity_ns: None };
        self.recording_start_ns = None;
        self.total_pause_ns = 0;
        self.error_count = 0;
        self.recoverable_error_count = 0;
    }
}

impl Default for RecordingState {
    fn default() -> (r: Self)
        ensures
            r@ == State::initial(),
    {
        RecordingState::new()
    }
}

/// The name, identifier and role of a device that may be missing.
fn identity(device: &Option<AudioDevice>) -> (r: (Option<String>, Option<String>, Option<String>))
    ensures
        match *device {
            Some(d) => r == (Some(d.name), d.native_id, d.default_role),
            None => r.0 is None && r.1 is None && r.2 is None,
        },
{
    match device {
        Some(device) => (
            Some(device.name.clone()),
            clone_text(&device.native_id),
            clone_text(&device.default_role),
        ),
        None => (None, None, None),
    }
}

/// The first record of an epoch.
fn find_epoch(epochs: &Vec<AudioDeviceEpochEvidence>, epoch: u64) -> (r: Option<usize>)
    ensures
        match r {
            Some(i) => i < epochs@.len() && first_of_epoch(epoch_views(epochs@), epoch) == Some(
                i as nat),
            None => first_of_epoch(epoch_views(epochs@), epoch) is None,
        },
{
    let ghost views = epoch_views(epochs@);
    let mut i: usize = 0;
    assert(views.take(0) =~= Seq::empty());
    while i < epochs.len()
        invariant
            i <= epochs@.len(),
            views == epoch_views(epochs@),
            first_of_epoch(views.take(i as int), epoch) is None,
        decreases epochs@.len() - i,
    {
        assert(views.take(i + 1).drop_last() =~= views.take(i as int));
        assert(views[i as int] == epochs@[i as int]@);
        if epochs[i].device_epoch == epoch {
            proof {
                first_of_epoch_extends(views, epoch, i + 1);
            }
            return Some(i);
        }
        i = i + 1;
    }
    assert(views.take(i as int) =~= views);
    None
}

proof fn first_of_epoch_extends(
    epochs: Seq<crate::recording_state::evidence::EpochEvidence>,
    epoch: u64,
    n: int,
)
    requires
        0 <= n <= epochs.len(),
        first_of_epoch(epochs.take(n), epoch) is Some,
    ensures
        first_of_epoch(epochs, epoch) == first_of_epoch(epochs.take(n), epoch),
    decreases epochs.len(),
{
    if n < epochs.len() {
        assert(epochs.drop_last().take(n) =~= epochs.take(n));
        first_of_epoch_extends(epochs.drop_last(), epoch, n);
    } else {
        assert(epochs.take(n) =~= epochs);
    }
}

/// Writes the present measurements into the latest cutover.
fn measure_last(cutovers: &mut Vec<AudioCutoverEvidence>, counters: &CutoverCounters)
    ensures
        cutover_views(final(cutovers)@) == counters.measured_last(cutover_views(old(cutovers)@)),
{
    let ghost before = cutover_views(cutovers@);
    if let Some(mut last) = cutovers.pop() {
        last.old_epoch_last_capture_qpc_ns = option_nonzero(counters.old_last_capture_qpc_ns);
        last.new_epoch_first_capture_qpc_ns = option_nonzero(counters.new_first_capture_qpc_ns);
        last.late_callback_dropped_frames = counters.late_callback_dropped_frames;
        last.attribution_error_frames = counters.attribution_error_frames;
        cutovers.push(last);
        assert(cutover_views(cutovers@) =~= before.drop_last().push(
            counters.measured(before.last())));
    }
}

/// Gives an outcome to the latest cutover that has none.
fn settle_cutover(
    cutovers: &mut Vec<AudioCutoverEvidence>,
    terminal_result: &str,
    new_device_epoch: Option<u64>,
    error: Option<String>,
)
    ensures
        cutover_views(final(cutovers)@) == settled(
            cutover_views(old(cutovers)@),
            terminal_result@,
            new_device_epoch,
            crate::devices::configuration::text_of(error),
        ),
{
    let ghost views = cutover_views(cutovers@);
    let mut i: usize = cutovers.len();
    assert(views.take(i as int) =~= views);
    while i > 0
        invariant
            i <= cutovers@.len(),
            *cutovers == *old(cutovers),
            views == cutover_views(cutovers@),
            active_cutover(views) == active_cutover(views.take(i as int)),
        decreases i,
    {
        i = i - 1;
        assert(views.take(i + 1).drop_last() =~= views.take(i as int));
        assert(views.take(i + 1).last() == cutovers@[i as int]@);
        if text::same(cutovers[i].terminal_result.as_str(), "in_progress") {
            let old_cutover = cutovers[i].clone();
            let settled_cutover = AudioCutoverEvidence {
                sequence: old_cutover.sequence,
                old_device_epoch: old_cutover.old_device_epoch,
                new_device_epoch,
                watermark_qpc_ns: old_cutover.watermark_qpc_ns,
                drain_deadline_qpc_ns: old_cutover.drain_deadline_qpc_ns,
                old_epoch_last_capture_qpc_ns: old_cutover.old_epoch_last_capture_qpc_ns,
                new_epoch_first_capture_qpc_ns: old_cutover.new_epoch_first_capture_qpc_ns,
                late_callback_dropped_frames: old_cutover.late_callback_dropped_frames,
                attribution_error_frames: old_cutover.attribution_error_frames,
                terminal_result: terminal_result.to_owned(),
                error,
            };
            let ghost settled_view = settled_cutover@;
            cutovers.set(i, settled_cutover);
            assert(cutover_views(cutovers@) =~= views.update(i as int, settled_view));
            return;
        }
    }
}

/// Whether an incident with this code is open on the route.
fn is_open(incidents: &Vec<AudioRouteIncidentEvidence>, epoch: u64, route: &str, code: &str) -> (r:
    bool)
    ensures
        r == has_open(incident_views(incidents@), epoch, route@, code@),
{
    let ghost views = incident_views(incidents@);
    let mut i: usize = 0;
    while i < incidents.len()
        invariant
            i <= incidents@.len(),
            views == incident_views(incidents@),
            forall|j: int| 0 <= j < i ==> !(open_on(#[trigger] views[j], epoch, route@)
                && views[j].code == code@),
        decreases incidents@.len() - i,
    {
        assert(views[i as int] == incidents@[i as int]@);
        if incidents[i].device_epoch == epoch && text::same(incidents[i].route.as_str(), route)
            && text::same(incidents[i].code.as_str(), code)
            && incidents[i].recovered_qpc_ns.is_none() {
            return true;
        }
        i = i + 1;
    }
    false
}

/// Closes the open incidents of a route, from the latest back to the beginning of the epoch.
/// Returns whether there was one.
fn close_incidents(
    incidents: &mut Vec<AudioRouteIncidentEvidence>,
    epoch: u64,
    route: &str,
    recovered_qpc_ns: u64,
) -> (any: bool)
    ensures
        incident_views(final(incidents)@) == closed(
            incident_views(old(incidents)@), epoch, route@, recovered_qpc_ns),
        any == closes_any(incident_views(old(incidents)@), epoch, route@),
{
    let ghost start = incident_views(incidents@);
    let mut any = false;
    let mut i: usize = incidents.len();
    let ghost mut tail: Seq<Incident> = Seq::empty();
    assert(start.take(i as int) =~= start);
    assert(closed(start, epoch, route@, recovered_qpc_ns) + tail =~= closed(
        start, epoch, route@, recovered_qpc_ns));
    while i > 0
        invariant
            i <= incidents@.len(),
            incidents@.len() == start.len(),
            incident_views(incidents@) == start.take(i as int) + tail,
            tail.len() == start.len() - i,
            closed(start, epoch, route@, recovered_qpc_ns) == closed(
                start.take(i as int), epoch, route@, recovered_qpc_ns) + tail,
            closes_any(start, epoch, route@) == (any || closes_any(
                start.take(i as int), epoch, route@)),
        ensures
            incident_views(incidents@) == closed(start, epoch, route@, recovered_qpc_ns),
            any == closes_any(start, epoch, route@),
        decreases i,
    {
        let ghost views = incident_views(incidents@);
        assert(views[i - 1] == incidents@[i - 1]@);
        assert(views[i - 1] == start[i - 1]);
        assert(start.take(i as int).last() == start[i - 1]);
        assert(start.take(i as int).drop_last() =~= start.take(i - 1));
        if incidents[i - 1].device_epoch != epoch {
            break;
        }
        i = i - 1;
        if text::same(incidents[i].route.as_str(), route)
            && incidents[i].recovered_qpc_ns.is_none() {
            let mut incident = incidents[i].clone();
            incident.recovered_qpc_ns = Some(recovered_qpc_ns);
            incidents.set(i, incident);
            any = true;
        }
        let ghost now = incidents@[i as int]@;
        assert(now == if open_on(start[i as int], epoch, route@) {
            Incident { recovered_qpc_ns: Some(recovered_qpc_ns), ..start[i as int] }
        } else {
            start[i as int]
        });
        proof {
            let rest = closed(start.take(i as int), epoch, route@, recovered_qpc_ns);
            assert(incident_views(incidents@) =~= views.update(i as int, now));
            assert(views == start.take(i + 1) + tail);
            assert(incident_views(incidents@) =~= start.take(i as int) + (seq![now] + tail));
            assert(rest.push(now) + tail =~= rest + (seq![now] + tail));
            tail = seq![now] + tail;
        }
    }
    any
}

/// Law: a paused recording hands no chunk on, whether it has a pipeline or not, and neither does
/// one that ended, lost a device or has no microphone signal. One that takes audio in hands it to
/// its pipeline, and only without one is that an error.
pub proof fn nothing_is_recorded_during_a_pause(
    state: State,
    now_ns: u64,
    later_ns: u64,
    device: Device,
    device_type: DeviceType,
    gap_ns: u64,
)
    ensures
        send_decision(state.paused_at(now_ns)) == SendDecision::Ignore,
        paused(state, now_ns).0 is Ok ==> send_decision(paused(state, now_ns).1)
            == SendDecision::Ignore,
        send_decision(state.stopped()) == SendDecision::Ignore,
        send_decision(state.started(now_ns)) == SendDecision::Ignore,
        send_decision(state.reconnecting_to(device, device_type)) == SendDecision::Ignore,
        send_decision(state.microphone_no_signal(gap_ns)) == SendDecision::Ignore,
        !state.recording ==> send_decision(state) == SendDecision::Ignore,
        send_decision(state) == SendDecision::Deliver <==> state.timeline_open()
            && state.sender_attached,
        send_decision(state) == SendDecision::PipelineNotReady ==> !state.sender_attached,
        send_decision(state) == SendDecision::Deliver ==> {
            let p = paused(state, now_ns);
            let r = resumed(p.1, later_ns);
            p.0 is Ok && r.0 is Ok && send_decision(r.1) == SendDecision::Deliver
        },
{
}

/// Law: only a recording that runs can be paused, once, and only a paused one resumed; what is
/// refused changes nothing, and the two undo each other but for the time that passed.
pub proof fn pauses_are_taken_and_taken_back(state: State, now_ns: u64, later_ns: u64)
    ensures
        paused(state, now_ns).0 is Ok <==> state.recording && !state.paused,
        resumed(state, now_ns).0 is Ok <==> state.recording && state.paused,
        paused(state, now_ns).0 is Err ==> paused(state, now_ns).1 == state,
        resumed(state, now_ns).0 is Err ==> resumed(state, now_ns).1 == state,
        !state.recording ==> paused(state, now_ns).0 == Err::<(), PauseError>(
            PauseError::PauseWhenNotRecording) && resumed(state, now_ns).0
            == Err::<(), PauseError>(PauseError::ResumeWhenNotRecording),
        paused(state, now_ns).0 is Ok ==> {
            let p = paused(state, now_ns).1;
            &&& p.paused && p.recording && p.pause_start_ns == Some(now_ns)
            &&& paused(p, later_ns) == (Err::<(), PauseError>(PauseError::AlreadyPaused), p)
            &&& resumed(p, later_ns).0 is Ok
            &&& !resumed(p, later_ns).1.paused
            &&& resumed(resumed(p, later_ns).1, later_ns).0 == Err::<(), PauseError>(
                PauseError::NotPaused)
            &&& resumed(p, later_ns).1 == (State {
                pause_start_ns: None,
                total_pause_ns: resumed(p, later_ns).1.total_pause_ns,
                ..state
            })
            &&& now_ns <= later_ns ==> present_pause(p, later_ns) == Some((later_ns - now_ns) as u64)
        },
        !state.paused ==> present_pause(state, now_ns) is None,
{
}

/// Law: a chunk that was handed on counts, with its time, and one that was not does not; the age of
/// a recording runs on through its pauses.
pub proof fn handed_on_chunks_are_counted(state: State, now_ns: u64, later_ns: u64)
    requires
        state.stats.chunks_processed < u64::MAX,
        now_ns <= later_ns,
    ensures
        sent(state, false, now_ns) == state,
        sent(state, true, now_ns).stats.chunks_processed == state.stats.chunks_processed + 1,
        sent(state, true, now_ns).stats.last_activity_ns == Some(now_ns),
        sent(state, true, now_ns).stats.total_duration_ns == state.stats.total_duration_ns,
        sent(state, true, now_ns).timeline_open() == state.timeline_open(),
        age(state.started(now_ns), later_ns) == Some((later_ns - now_ns) as u64),
        age(state.started(now_ns).paused_at(now_ns), later_ns) == Some((later_ns - now_ns) as u64),
        state.recording_start_ns is None ==> age(state, now_ns) is None,
        state.pause_start_ns is None ==> (age(state, now_ns) matches Some(passed) ==> Some(
            passed - state.total_pause_ns) == state.active_duration(now_ns)),
        failed_for_good(state) ==> state.last_error is Some,
        state.error_count < u32::MAX ==> failed_for_good(
            state.error_reported(AudioError::PermissionDenied)),
        !failed_for_good(state.error_reported(AudioError::DeviceDisconnected)),
{
}

} // verus!
