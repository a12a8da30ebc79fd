//! The recording state as a value, and what each event makes of it.

use vstd::prelude::*;

use crate::devices::configuration::Device;
use crate::recording_state::error::AudioError;
use crate::recording_state::evidence::{
    closed, closes_any, has_open, settled, Cutover, EpochEvidence, EvidenceSnapshot, Format,
    Identity, Incident, MuteEvidence, RouteEvidence,
};

verus! {

/// How long a route may be without a callback, and a cutover without its callbacks drained.
pub const AUDIO_CALLBACK_DEADLINE_NS: u64 = 2_000_000_000;

/// The number of recoverable errors that ends a recording.
pub const MAX_RECOVERABLE_ERRORS: u32 = 10;

/// The number of errors of any kind that ends a recording.
pub const MAX_TOTAL_ERRORS: u32 = 15;

/// Stands for the absence of an epoch.
pub const NO_EPOCH: u64 = u64::MAX;

/// The route that a chunk of audio came through.
#[derive(Debug, Clone, Copy, PartialEq, Eq, Structural)]
pub enum DeviceType {
    Microphone,
    System,
}

impl DeviceType {
    /// The name of the route in incidents.
    pub open spec fn name(self) -> Seq<char> {
        match self {
            DeviceType::Microphone => "microphone"@,
            DeviceType::System => "system"@,
        }
    }

    /// The name of the route in incidents.
    pub fn route_name(&self) -> (r: &'static str)
        ensures
            r@ == self.name(),
    {
        match self {
            DeviceType::Microphone => "microphone",
            DeviceType::System => "system",
        }
    }
}

/// What a muted endpoint's driver was seen to deliver.
#[derive(Debug, Clone, Copy, PartialEq, Eq, Structural)]
pub enum DriverMuteBehavior {
    Unknown,
    AudibleFrames,
    SilentFrames,
    NoCallback,
}

impl DriverMuteBehavior {
    /// The name of the behaviour, where it is known.
    pub open spec fn name(self) -> Option<Seq<char>> {
        match self {
            DriverMuteBehavior::Unknown => None,
            DriverMuteBehavior::AudibleFrames => Some("audible_frames"@),
            DriverMuteBehavior::SilentFrames => Some("silent_frames"@),
            DriverMuteBehavior::NoCallback => Some("no_callback"@),
        }
    }

    /// The name of the behaviour, where it is known.
    pub fn label(&self) -> (r: Option<&'static str>)
        ensures
            match r {
                Some(label) => self.name() == Some(label@),
                None => self.name() is None,
            },
    {
        match self {
            DriverMuteBehavior::Unknown => None,
            DriverMuteBehavior::AudibleFrames => Some("audible_frames"),
            DriverMuteBehavior::SilentFrames => Some("silent_frames"),
            DriverMuteBehavior::NoCallback => Some("no_callback"),
        }
    }
}

/// What is counted on one route during one device epoch. An instant of zero means none.
#[derive(Debug, Clone, Copy, PartialEq, Eq, Structural)]
pub struct RouteCounters {
    pub stream_started_qpc_ns: u64,
    pub last_capture_qpc_ns: u64,
    pub last_callback_observed_qpc_ns: u64,
    pub max_callback_gap_ns: u64,
    pub no_signal: bool,
    pub no_signal_count: u64,
    pub route_failed: bool,
    pub callback_count: u64,
    pub frame_count: u64,
    pub sample_count: u64,
    pub rms_bits: u32,
    pub peak_bits: u32,
}

/// An instant, where there is one.
pub open spec fn nonzero(value: u64) -> Option<u64> {
    if value != 0 {
        Some(value)
    } else {
        None
    }
}

/// The larger of two numbers.
pub open spec fn larger(a: u64, b: u64) -> u64 {
    if a < b {
        b
    } else {
        a
    }
}

impl RouteCounters {
    pub open spec fn zero() -> RouteCounters {
        RouteCounters {
            stream_started_qpc_ns: 0,
            last_capture_qpc_ns: 0,
            last_callback_observed_qpc_ns: 0,
            max_callback_gap_ns: 0,
            no_signal: false,
            no_signal_count: 0,
            route_failed: false,
            callback_count: 0,
            frame_count: 0,
            sample_count: 0,
            rms_bits: 0,
            peak_bits: 0,
        }
    }

    /// The record made of the counters.
    pub open spec fn evidence(self) -> RouteEvidence {
        RouteEvidence {
            stream_started_qpc_ns: nonzero(self.stream_started_qpc_ns),
            last_capture_qpc_ns: nonzero(self.last_capture_qpc_ns),
            last_callback_observed_qpc_ns: nonzero(self.last_callback_observed_qpc_ns),
            max_callback_gap_ns: self.max_callback_gap_ns,
            callback_count: self.callback_count,
            frame_count: self.frame_count,
            sample_count: self.sample_count,
            no_signal_count: self.no_signal_count,
            route_failed: self.route_failed,
            rms_bits: self.rms_bits,
            peak_bits: self.peak_bits,
        }
    }

    /// The instant from which the next callback is awaited, zero where there is none.
    pub open spec fn reference(self) -> u64 {
        if self.last_callback_observed_qpc_ns != 0 {
            self.last_callback_observed_qpc_ns
        } else {
            self.stream_started_qpc_ns
        }
    }

    /// The counters after a callback was observed: the route is healthy again.
    pub open spec fn observed(self, capture_qpc_ns: u64, observed_qpc_ns: u64) -> RouteCounters {
        RouteCounters {
            last_capture_qpc_ns: capture_qpc_ns,
            last_callback_observed_qpc_ns: observed_qpc_ns,
            max_callback_gap_ns: if self.reference() > 0 && observed_qpc_ns >= self.reference() {
                larger(self.max_callback_gap_ns, (observed_qpc_ns - self.reference()) as u64)
            } else {
                self.max_callback_gap_ns
            },
            no_signal: false,
            route_failed: false,
            ..self
        }
    }

    /// The counters after the route was without a callback for `gap_ns`.
    pub open spec fn silent_for(self, gap_ns: u64) -> RouteCounters {
        RouteCounters {
            max_callback_gap_ns: larger(self.max_callback_gap_ns, gap_ns),
            no_signal: true,
            no_signal_count: self.no_signal_count.wrapping_add(1),
            rms_bits: 0,
            peak_bits: 0,
            ..self
        }
    }

    /// The counters after the route's stream failed.
    pub open spec fn failed(self) -> RouteCounters {
        RouteCounters { route_failed: true, rms_bits: 0, peak_bits: 0, ..self }
    }
}

/// What is known about silence on the system route during one device epoch.
#[derive(Debug, Clone, Copy, PartialEq, Eq, Structural)]
pub struct MuteTracking {
    pub endpoint_muted: bool,
    pub audio_silent: bool,
    pub driver_mute_behavior: DriverMuteBehavior,
    pub muted_zero_since_qpc_ns: u64,
    pub silent_flag_frame_count: u64,
    pub all_zero_frame_count: u64,
}

impl MuteTracking {
    pub open spec fn zero() -> MuteTracking {
        MuteTracking {
            endpoint_muted: false,
            audio_silent: false,
            driver_mute_behavior: DriverMuteBehavior::Unknown,
            muted_zero_since_qpc_ns: 0,
            silent_flag_frame_count: 0,
            all_zero_frame_count: 0,
        }
    }

    /// The record made of what is known.
    pub open spec fn evidence(self) -> MuteEvidence {
        MuteEvidence {
            silent_flag_frame_count: self.silent_flag_frame_count,
            all_zero_frame_count: self.all_zero_frame_count,
            endpoint_muted: self.endpoint_muted,
            audio_silent: self.audio_silent,
            driver_mute_behavior: self.driver_mute_behavior.name(),
        }
    }

    /// What is known once the endpoint's mute switch was read: a switch that was just turned on
    /// starts the observation of the driver anew, with zeros counted from `zero_since_qpc_ns`.
    pub open spec fn switched(self, endpoint_muted: bool, zero_since_qpc_ns: u64) -> MuteTracking {
        if endpoint_muted && !self.endpoint_muted {
            MuteTracking {
                endpoint_muted: true,
                audio_silent: false,
                driver_mute_behavior: DriverMuteBehavior::Unknown,
                muted_zero_since_qpc_ns: zero_since_qpc_ns,
                ..self
            }
        } else {
            MuteTracking { endpoint_muted, ..self }
        }
    }

    /// What is known once the endpoint was without a callback: a muted driver of which nothing
    /// else is known delivers none.
    pub open spec fn without_callback(self, endpoint_muted: bool) -> MuteTracking {
        let switched = self.switched(endpoint_muted, 0);
        MuteTracking {
            driver_mute_behavior: if endpoint_muted && switched.driver_mute_behavior
                == DriverMuteBehavior::Unknown {
                DriverMuteBehavior::NoCallback
            } else {
                switched.driver_mute_behavior
            },
            ..switched
        }
    }
}

/// The change of devices that is under way or was last made. `NO_EPOCH` and an instant of zero
/// mean none.
#[derive(Debug, Clone, Copy, PartialEq, Eq, Structural)]
pub struct CutoverCounters {
    pub closing_device_epoch: u64,
    pub watermark_qpc_ns: u64,
    pub drain_deadline_qpc_ns: u64,
    pub late_callback_dropped_frames: u64,
    pub attribution_error_frames: u64,
    pub old_last_capture_qpc_ns: u64,
    pub new_epoch: u64,
    pub new_first_capture_qpc_ns: u64,
}

impl CutoverCounters {
    pub open spec fn none() -> CutoverCounters {
        CutoverCounters {
            closing_device_epoch: NO_EPOCH,
            watermark_qpc_ns: 0,
            drain_deadline_qpc_ns: 0,
            late_callback_dropped_frames: 0,
            attribution_error_frames: 0,
            old_last_capture_qpc_ns: 0,
            new_epoch: NO_EPOCH,
            new_first_capture_qpc_ns: 0,
        }
    }

    /// A cutover record with the present measurements.
    pub open spec fn measured(self, cutover: Cutover) -> Cutover {
        Cutover {
            old_epoch_last_capture_qpc_ns: nonzero(self.old_last_capture_qpc_ns),
            new_epoch_first_capture_qpc_ns: nonzero(self.new_first_capture_qpc_ns),
            late_callback_dropped_frames: self.late_callback_dropped_frames,
            attribution_error_frames: self.attribution_error_frames,
            ..cutover
        }
    }

    /// The records with the present measurements in the latest one.
    pub open spec fn measured_last(self, cutovers: Seq<Cutover>) -> Seq<Cutover> {
        if cutovers.len() == 0 {
            cutovers
        } else {
            cutovers.drop_last().push(self.measured(cutovers.last()))
        }
    }

    /// A callback that cannot be attributed: it carries no capture instant, and it belongs to
    /// the epoch that is closing or to the one that follows it.
    pub open spec fn unattributable(self, callback_epoch: u64, capture_qpc_ns: Option<u64>) -> bool {
        capture_qpc_ns is None && self.watermark_qpc_ns != 0 && (self.closing_device_epoch
            == callback_epoch || self.new_epoch == callback_epoch)
    }

    /// A callback of the closing epoch whose audio was captured after the watermark.
    pub open spec fn late(self, callback_epoch: u64, capture_qpc_ns: Option<u64>) -> bool {
        self.closing_device_epoch == callback_epoch && capture_qpc_ns is Some
            && capture_qpc_ns->0 > self.watermark_qpc_ns
    }
}

/// What was processed so far.
#[derive(Debug, Clone, Copy, PartialEq, Eq, Structural)]
pub struct RecordingStats {
    pub chunks_processed: u64,
    pub total_duration_ns: u64,
    /// When audio was last handed on.
    pub last_activity_ns: Option<u64>,
}

impl RecordingStats {
    pub open spec fn zero() -> RecordingStats {
        RecordingStats { chunks_processed: 0, total_duration_ns: 0, last_activity_ns: None }
    }
}

/// What a `RecordingState` stands for.
#[verifier::ext_equal]
pub struct State {
    pub recording: bool,
    pub paused: bool,
    pub reconnecting: bool,
    pub routes_ready: bool,
    pub microphone_device: Option<Device>,
    pub system_device: Option<Device>,
    pub disconnected_device: Option<(Device, DeviceType)>,
    pub sender_attached: bool,
    pub error_count: u32,
    pub recoverable_error_count: u32,
    pub last_error: Option<AudioError>,
    pub callback_attached: bool,
    pub stats: RecordingStats,
    pub device_epoch: u64,
    pub microphone: RouteCounters,
    pub system: RouteCounters,
    pub mute: MuteTracking,
    pub system_format: Option<Format>,
    pub cutover: CutoverCounters,
    pub in_flight_callbacks: u64,
    pub microphone_stream_started_count: u64,
    pub completed_epochs: Seq<EpochEvidence>,
    pub incidents: Seq<Incident>,
    pub cutovers: Seq<Cutover>,
    pub evidence_sequence: u64,
    pub evidence_dirty: bool,
    pub recording_start_ns: Option<u64>,
    pub pause_start_ns: Option<u64>,
    pub total_pause_ns: u64,
}

/// Which device a route is bound to.
pub open spec fn identity_of(device: Option<Device>) -> Identity {
    match device {
        Some(device) => Identity {
            name: Some(device.name),
            native_id: device.native_id,
            default_role: device.default_role,
        },
        None => Identity { name: None, native_id: None, default_role: None },
    }
}

/// The time from `since_ns` to `now_ns`, zero where the clock went back.
pub open spec fn elapsed(since_ns: u64, now_ns: u64) -> u64 {
    if now_ns < since_ns {
        0
    } else {
        (now_ns - since_ns) as u64
    }
}

impl State {
    /// Nothing recorded yet.
    pub open spec fn initial() -> State {
        State {
            recording: false,
            paused: false,
            reconnecting: false,
            routes_ready: false,
            microphone_device: None,
            system_device: None,
            disconnected_device: None,
            sender_attached: false,
            error_count: 0,
            recoverable_error_count: 0,
            last_error: None,
            callback_attached: false,
            stats: RecordingStats::zero(),
            device_epoch: 0,
            microphone: RouteCounters::zero(),
            system: RouteCounters::zero(),
            mute: MuteTracking::zero(),
            system_format: None,
            cutover: CutoverCounters::none(),
            in_flight_callbacks: 0,
            microphone_stream_started_count: 0,
            completed_epochs: Seq::empty(),
            incidents: Seq::empty(),
            cutovers: Seq::empty(),
            evidence_sequence: 0,
            evidence_dirty: false,
            recording_start_ns: None,
            pause_start_ns: None,
            total_pause_ns: 0,
        }
    }

    /// A recording begins at `now_ns`: errors, counters and evidence start anew. Devices, the
    /// pipeline, pauses and statistics stay as they are.
    pub open spec fn started(self, now_ns: u64) -> State {
        State {
            recording: true,
            routes_ready: false,
            recording_start_ns: Some(now_ns),
            error_count: 0,
            recoverable_error_count: 0,
            last_error: None,
            device_epoch: 0,
            microphone: RouteCounters::zero(),
            system: RouteCounters::zero(),
            mute: MuteTracking::zero(),
            system_format: None,
            cutover: CutoverCounters::none(),
            in_flight_callbacks: 0,
            microphone_stream_started_count: 0,
            completed_epochs: Seq::empty(),
            incidents: Seq::empty(),
            cutovers: Seq::empty(),
            evidence_sequence: 0,
            evidence_dirty: false,
            ..self
        }
    }

    /// The recording ends: the pipeline is closed and the devices are released.
    pub open spec fn stopped(self) -> State {
        State {
            recording: false,
            paused: false,
            routes_ready: false,
            pause_start_ns: None,
            sender_attached: false,
            microphone_device: None,
            system_device: None,
            disconnected_device: None,
            ..self
        }
    }

    /// The recording is paused at `now_ns`.
    pub open spec fn paused_at(self, now_ns: u64) -> State {
        State { paused: true, pause_start_ns: Some(now_ns), ..self }
    }

    /// A pause ends at `now_ns`, and its length is added up.
    pub open spec fn resumed_at(self, now_ns: u64) -> State {
        State {
            paused: false,
            pause_start_ns: None,
            total_pause_ns: match self.pause_start_ns {
                Some(start) => self.total_pause_ns.saturating_add(elapsed(start, now_ns)),
                None => self.total_pause_ns,
            },
            ..self
        }
    }

    /// Audio of both routes reaches the recording.
    pub open spec fn timeline_open(self) -> bool {
        self.recording && !self.paused && !self.reconnecting && self.routes_ready
            && !self.microphone.no_signal && !self.microphone.route_failed
            && !self.system.route_failed
    }

    /// The timeline is open and the system route delivers sound.
    pub open spec fn active(self) -> bool {
        self.timeline_open() && !self.system.no_signal && !self.mute.audio_silent
    }

    /// Missing callbacks count against the routes.
    pub open spec fn watched(self) -> bool {
        self.recording && !self.paused && !self.reconnecting && self.routes_ready
    }

    /// A device was lost and is being reconnected.
    pub open spec fn reconnecting_to(self, device: Device, device_type: DeviceType) -> State {
        State {
            reconnecting: true,
            routes_ready: false,
            disconnected_device: Some((device, device_type)),
            ..self
        }
    }

    /// The attempt to reconnect is over.
    pub open spec fn reconnected(self) -> State {
        State { reconnecting: false, routes_ready: true, disconnected_device: None, ..self }
    }

    /// The record of the present epoch.
    pub open spec fn epoch_evidence(self) -> EpochEvidence {
        EpochEvidence {
            device_epoch: self.device_epoch,
            microphone_identity: identity_of(self.microphone_device),
            system_identity: identity_of(self.system_device),
            system_format: self.system_format,
            microphone: self.microphone.evidence(),
            system: self.system.evidence(),
            mute: self.mute.evidence(),
        }
    }

    /// The next epoch begins: the present one is put on record and its counters are reset.
    pub open spec fn next_epoch(self) -> State {
        State {
            completed_epochs: self.completed_epochs.push(self.epoch_evidence()),
            device_epoch: self.device_epoch.wrapping_add(1),
            microphone: RouteCounters::zero(),
            system: RouteCounters::zero(),
            mute: MuteTracking::zero(),
            system_format: None,
            evidence_dirty: true,
            ..self
        }
    }

    /// The instant by which the callbacks of a closing epoch must have drained.
    pub open spec fn drain_deadline(watermark_qpc_ns: u64) -> u64 {
        watermark_qpc_ns.saturating_add(AUDIO_CALLBACK_DEADLINE_NS)
    }

    /// The present epoch begins to close: its audio counts up to the watermark.
    pub open spec fn cutover_begun(self, watermark_qpc_ns: u64) -> State {
        State {
            cutover: CutoverCounters {
                closing_device_epoch: self.device_epoch,
                watermark_qpc_ns,
                drain_deadline_qpc_ns: State::drain_deadline(watermark_qpc_ns),
                ..CutoverCounters::none()
            },
            evidence_sequence: self.evidence_sequence.wrapping_add(1),
            cutovers: self.cutover.measured_last(self.cutovers).push(
                Cutover {
                    sequence: self.evidence_sequence.wrapping_add(1),
                    old_device_epoch: self.device_epoch,
                    new_device_epoch: None,
                    watermark_qpc_ns,
                    drain_deadline_qpc_ns: State::drain_deadline(watermark_qpc_ns),
                    old_epoch_last_capture_qpc_ns: None,
                    new_epoch_first_capture_qpc_ns: None,
                    late_callback_dropped_frames: 0,
                    attribution_error_frames: 0,
                    terminal_result: "in_progress"@,
                    error: None,
                },
            ),
            evidence_dirty: true,
            ..self
        }
    }

    /// The devices were changed: `new_epoch` takes over.
    pub open spec fn cutover_finished(self, new_epoch: u64) -> State {
        State {
            cutover: CutoverCounters {
                closing_device_epoch: NO_EPOCH,
                new_epoch,
                ..self.cutover
            },
            cutovers: settled(self.cutovers, "rebound"@, Some(new_epoch), None),
            evidence_dirty: true,
            ..self
        }
    }

    /// The change was given up: the next epoch begins with no device taking over.
    pub open spec fn cutover_aborted(self, reason: Seq<char>) -> State {
        let next = self.next_epoch();
        State {
            cutover: CutoverCounters {
                closing_device_epoch: NO_EPOCH,
                new_epoch: NO_EPOCH,
                ..next.cutover
            },
            cutovers: settled(next.cutovers, "failed"@, Some(next.device_epoch), Some(reason)),
            ..next
        }
    }

    /// The change to `new_epoch` failed after it began: the latest record says so.
    pub open spec fn cutover_failed(self, new_epoch: u64, reason: Seq<char>) -> State {
        State {
            cutover: CutoverCounters {
                closing_device_epoch: NO_EPOCH,
                new_epoch,
                ..self.cutover
            },
            cutovers: if self.cutovers.len() == 0 {
                self.cutovers
            } else {
                self.cutovers.drop_last().push(
                    Cutover {
                        new_device_epoch: Some(new_epoch),
                        terminal_result: "failed"@,
                        error: Some(reason),
                        ..self.cutovers.last()
                    },
                )
            },
            evidence_dirty: true,
            ..self
        }
    }

    /// Silence may be put on the timeline for this epoch.
    pub open spec fn padding_accepted(self, epoch: u64) -> bool {
        self.timeline_open() && epoch == self.device_epoch && epoch
            != self.cutover.closing_device_epoch
    }

    /// A producer of audio is at work.
    pub open spec fn callback_entered(self) -> State {
        State { in_flight_callbacks: self.in_flight_callbacks.wrapping_add(1), ..self }
    }

    /// A producer of audio is done.
    pub open spec fn callback_left(self) -> State {
        State { in_flight_callbacks: self.in_flight_callbacks.wrapping_sub(1), ..self }
    }

    /// The audio of a callback belongs to the recording: it is of the present epoch, not past
    /// the watermark, and it can be attributed.
    pub open spec fn callback_accepted(self, epoch: u64, capture_qpc_ns: Option<u64>) -> bool {
        epoch == self.device_epoch && !self.cutover.late(epoch, capture_qpc_ns)
            && !self.cutover.unattributable(epoch, capture_qpc_ns)
    }

    /// A callback of `frames` frames came in.
    pub open spec fn callback_begun(
        self,
        epoch: u64,
        capture_qpc_ns: Option<u64>,
        frames: u64,
    ) -> State {
        let c = self.cutover;
        if self.callback_accepted(epoch, capture_qpc_ns) {
            State {
                cutover: CutoverCounters {
                    old_last_capture_qpc_ns: if c.closing_device_epoch == epoch
                        && capture_qpc_ns is Some {
                        larger(c.old_last_capture_qpc_ns, capture_qpc_ns->0)
                    } else {
                        c.old_last_capture_qpc_ns
                    },
                    new_first_capture_qpc_ns: if c.new_epoch == epoch && capture_qpc_ns is Some
                        && c.new_first_capture_qpc_ns == 0 {
                        capture_qpc_ns->0
                    } else {
                        c.new_first_capture_qpc_ns
                    },
                    ..c
                },
                ..self.callback_entered()
            }
        } else {
            State {
                cutover: CutoverCounters {
                    late_callback_dropped_frames: c.late_callback_dropped_frames.wrapping_add(
                        frames),
                    attribution_error_frames: if c.unattributable(epoch, capture_qpc_ns) {
                        c.attribution_error_frames.wrapping_add(frames)
                    } else {
                        c.attribution_error_frames
                    },
                    ..c
                },
                ..self
            }
        }
    }

    /// The epochs on record, the present one with its present counters.
    pub open spec fn all_epochs(self) -> Seq<EpochEvidence> {
        let current = self.epoch_evidence();
        match first_of_epoch(self.completed_epochs, self.device_epoch) {
            Some(i) => self.completed_epochs.update(i as int, current),
            None => self.completed_epochs.push(current),
        }
    }

    /// Everything recorded about the routes so far.
    pub open spec fn evidence(self) -> EvidenceSnapshot {
        EvidenceSnapshot {
            schema_version: 1,
            current_device_epoch: self.device_epoch,
            microphone_stream_started_count: self.microphone_stream_started_count,
            epochs: self.all_epochs(),
            incidents: self.incidents,
            cutovers: self.cutover.measured_last(self.cutovers),
        }
    }

    /// An incident on a route, unless the same one is open already.
    pub open spec fn incident_opened(
        self,
        route: Seq<char>,
        code: Seq<char>,
        started_qpc_ns: Option<u64>,
        callback_gap_ns: Option<u64>,
    ) -> State {
        if has_open(self.incidents, self.device_epoch, route, code) {
            self
        } else {
            State {
                evidence_sequence: self.evidence_sequence.wrapping_add(1),
                incidents: self.incidents.push(
                    Incident {
                        sequence: self.evidence_sequence.wrapping_add(1),
                        device_epoch: self.device_epoch,
                        route,
                        code,
                        started_qpc_ns,
                        recovered_qpc_ns: None,
                        callback_gap_ns,
                    },
                ),
                evidence_dirty: true,
                ..self
            }
        }
    }

    /// The open incidents of a route are over.
    pub open spec fn incidents_closed(self, route: Seq<char>, recovered_qpc_ns: u64) -> State {
        State {
            incidents: closed(self.incidents, self.device_epoch, route, recovered_qpc_ns),
            evidence_dirty: self.evidence_dirty || closes_any(
                self.incidents, self.device_epoch, route),
            ..self
        }
    }

    /// A route's error is counted. It never ends the recording.
    pub open spec fn route_error(self, error: AudioError) -> State {
        State {
            error_count: self.error_count.wrapping_add(1),
            recoverable_error_count: self.recoverable_error_count.wrapping_add(1),
            last_error: Some(error),
            ..self
        }
    }

    /// An error ends the recording: it is not recoverable, or there were too many.
    pub open spec fn error_ends(self, error: AudioError) -> bool {
        ||| !error.recoverable()
        ||| self.recoverable_error_count.wrapping_add(1) >= MAX_RECOVERABLE_ERRORS
        ||| self.error_count.wrapping_add(1) >= MAX_TOTAL_ERRORS
    }

    /// An error is counted, and ends the recording where it must.
    pub open spec fn error_reported(self, error: AudioError) -> State {
        let counted = State {
            error_count: self.error_count.wrapping_add(1),
            recoverable_error_count: if error.recoverable() {
                self.recoverable_error_count.wrapping_add(1)
            } else {
                self.recoverable_error_count
            },
            last_error: Some(error),
            ..self
        };
        if self.error_ends(error) {
            counted.stopped()
        } else {
            counted
        }
    }

    /// What a listener is told of an error.
    pub open spec fn notice(self, error: AudioError) -> Option<AudioError> {
        if self.callback_attached {
            Some(error)
        } else {
            None
        }
    }

    /// The zeros of a muted endpoint have gone on for the whole deadline, its driver was never
    /// seen to deliver sound while muted, and the route does not count as silent yet.
    pub open spec fn zeros_are_due(self, observed_qpc_ns: u64) -> bool {
        &&& self.mute.driver_mute_behavior != DriverMuteBehavior::AudibleFrames
        &&& self.mute.muted_zero_since_qpc_ns != 0
        &&& elapsed(self.mute.muted_zero_since_qpc_ns, observed_qpc_ns)
            >= AUDIO_CALLBACK_DEADLINE_NS
        &&& !self.mute.audio_silent
    }

    /// The state once the endpoint's mute switch was read.
    pub open spec fn switch_read(self, endpoint_muted: bool, observed_qpc_ns: u64) -> State {
        State { mute: self.mute.switched(endpoint_muted, observed_qpc_ns), ..self }
    }

    /// A callback makes the system route count as silent: all its frames are zero, the endpoint
    /// is muted, and this has gone on long enough.
    pub open spec fn goes_silent(
        self,
        observed_qpc_ns: u64,
        frames: u32,
        all_zero_frames: u32,
        endpoint_muted: bool,
    ) -> bool {
        &&& endpoint_muted && frames > 0 && all_zero_frames == frames
        &&& self.switch_read(endpoint_muted, observed_qpc_ns).zeros_are_due(observed_qpc_ns)
    }

    /// A muted endpoint delivered only zeros.
    pub open spec fn zeros_observed(self, observed_qpc_ns: u64) -> State {
        let mute = self.mute;
        if mute.driver_mute_behavior == DriverMuteBehavior::AudibleFrames {
            State { mute: MuteTracking { audio_silent: false, ..mute }, ..self }
        } else if self.zeros_are_due(observed_qpc_ns) {
            State {
                mute: MuteTracking {
                    driver_mute_behavior: DriverMuteBehavior::SilentFrames,
                    audio_silent: true,
                    ..mute
                },
                ..self
            }.incident_opened(
                "system"@,
                "silent_frames_while_muted"@,
                Some(mute.muted_zero_since_qpc_ns),
                Some(elapsed(mute.muted_zero_since_qpc_ns, observed_qpc_ns)),
            ).route_error(AudioError::SystemAudioSilent)
        } else {
            State {
                mute: MuteTracking {
                    driver_mute_behavior: DriverMuteBehavior::SilentFrames,
                    muted_zero_since_qpc_ns: if mute.muted_zero_since_qpc_ns == 0 {
                        observed_qpc_ns
                    } else {
                        mute.muted_zero_since_qpc_ns
                    },
                    ..mute
                },
                ..self
            }
        }
    }

    /// The endpoint is not muted, or delivered something else than zeros.
    pub open spec fn sound_observed(self, observed_qpc_ns: u64, while_muted: bool) -> State {
        let audible = State {
            mute: MuteTracking {
                driver_mute_behavior: if while_muted {
                    DriverMuteBehavior::AudibleFrames
                } else {
                    self.mute.driver_mute_behavior
                },
                audio_silent: false,
                muted_zero_since_qpc_ns: 0,
                ..self.mute
            },
            ..self
        };
        if self.mute.audio_silent {
            audible.incidents_closed("system"@, observed_qpc_ns)
        } else {
            audible
        }
    }

    /// A callback of the system route was observed: the route is healthy, and the frames count.
    pub open spec fn system_observed(
        self,
        capture_qpc_ns: u64,
        observed_qpc_ns: u64,
        frames: u32,
        silent_flag: bool,
        all_zero_frames: u32,
    ) -> State {
        let healthy = State {
            system: RouteCounters {
                frame_count: self.system.frame_count.wrapping_add(frames as u64),
                ..self.system.observed(capture_qpc_ns, observed_qpc_ns)
            },
            mute: MuteTracking {
                silent_flag_frame_count: if silent_flag {
                    self.mute.silent_flag_frame_count.wrapping_add(frames as u64)
                } else {
                    self.mute.silent_flag_frame_count
                },
                all_zero_frame_count: self.mute.all_zero_frame_count.wrapping_add(
                    all_zero_frames as u64),
                ..self.mute
            },
            ..self
        };
        if self.system.no_signal || self.system.route_failed {
            healthy.incidents_closed("system"@, observed_qpc_ns)
        } else {
            healthy
        }
    }

    /// The frames of a callback say what a muted endpoint delivers.
    pub open spec fn mute_observed(
        self,
        observed_qpc_ns: u64,
        frames: u32,
        all_zero_frames: u32,
        endpoint_muted: bool,
    ) -> State {
        let read = self.switch_read(endpoint_muted, observed_qpc_ns);
        if endpoint_muted && frames > 0 && all_zero_frames == frames {
            read.zeros_observed(observed_qpc_ns)
        } else {
            read.sound_observed(observed_qpc_ns, endpoint_muted && frames > 0)
        }
    }

    /// A callback of the system route came in.
    pub open spec fn system_callback(
        self,
        capture_qpc_ns: u64,
        observed_qpc_ns: u64,
        frames: u32,
        silent_flag: bool,
        all_zero_frames: u32,
        endpoint_muted: bool,
    ) -> State {
        self.system_observed(
            capture_qpc_ns, observed_qpc_ns, frames, silent_flag, all_zero_frames
        ).mute_observed(observed_qpc_ns, frames, all_zero_frames, endpoint_muted)
    }

    /// The system route was without a callback for `gap_ns`.
    pub open spec fn system_no_signal(self, gap_ns: u64, endpoint_muted: bool) -> State {
        let opened = State { system: self.system.silent_for(gap_ns), ..self }.incident_opened(
            "system"@, "no_signal"@, nonzero(self.system.reference()), Some(gap_ns));
        State {
            mute: self.mute.without_callback(endpoint_muted),
            ..opened
        }.route_error(AudioError::SystemAudioNoSignal)
    }

    /// A microphone stream was started.
    pub open spec fn microphone_started(self, qpc_ns: u64) -> State {
        State {
            microphone_stream_started_count: self.microphone_stream_started_count.wrapping_add(1),
            microphone: RouteCounters {
                stream_started_qpc_ns: qpc_ns,
                no_signal: false,
                route_failed: false,
                ..self.microphone
            },
            evidence_dirty: true,
            ..self
        }
    }

    /// A callback of the microphone route was observed.
    pub open spec fn microphone_callback(
        self,
        capture_qpc_ns: Option<u64>,
        observed_qpc_ns: u64,
    ) -> State {
        let capture = match capture_qpc_ns {
            Some(capture) => capture,
            None => self.microphone.last_capture_qpc_ns,
        };
        let healthy = State {
            microphone: self.microphone.observed(capture, observed_qpc_ns),
            ..self
        };
        if self.microphone.no_signal || self.microphone.route_failed {
            healthy.incidents_closed("microphone"@, observed_qpc_ns)
        } else {
            healthy
        }
    }

    /// The microphone route was without a callback for `gap_ns`.
    pub open spec fn microphone_no_signal(self, gap_ns: u64) -> State {
        State { microphone: self.microphone.silent_for(gap_ns), ..self }.incident_opened(
            "microphone"@, "no_signal"@, nonzero(self.microphone.reference()), Some(gap_ns)
        ).route_error(AudioError::MicrophoneNoSignal)
    }

    /// The counters of a route.
    pub open spec fn route(self, device_type: DeviceType) -> RouteCounters {
        match device_type {
            DeviceType::Microphone => self.microphone,
            DeviceType::System => self.system,
        }
    }

    /// The state with other counters for a route.
    pub open spec fn with_route(self, device_type: DeviceType, counters: RouteCounters) -> State {
        match device_type {
            DeviceType::Microphone => State { microphone: counters, ..self },
            DeviceType::System => State { system: counters, ..self },
        }
    }

    /// The stream of a route failed.
    pub open spec fn stream_failed(self, device_type: DeviceType, error: AudioError) -> State {
        let opened = self.incident_opened(device_type.name(), error.name(), None, None);
        opened.with_route(device_type, opened.route(device_type).failed()).error_reported(error)
    }

    /// A callback with samples came through a route. The frames of the system route are counted
    /// where its native callbacks are observed.
    pub open spec fn route_callback(
        self,
        device_type: DeviceType,
        samples: nat,
        channels: u16,
        rms_bits: u32,
        peak_bits: u32,
    ) -> State {
        let counters = self.route(device_type);
        let per_frame: nat = if channels == 0 { 1 } else { channels as nat };
        self.with_route(
            device_type,
            RouteCounters {
                callback_count: counters.callback_count.wrapping_add(1),
                frame_count: match device_type {
                    DeviceType::Microphone => counters.frame_count.wrapping_add(
                        (samples / per_frame) as u64),
                    DeviceType::System => counters.frame_count,
                },
                sample_count: counters.sample_count.wrapping_add(samples as u64),
                rms_bits: if samples == 0 { 0 } else { rms_bits },
                peak_bits: if samples == 0 { 0 } else { peak_bits },
                ..counters
            },
        )
    }

    /// How long the recording has been active: its age without its pauses.
    pub open spec fn active_duration(self, now_ns: u64) -> Option<int> {
        match self.recording_start_ns {
            Some(start) => Some(
                elapsed(start, now_ns) - self.total_pause_ns - match self.pause_start_ns {
                    Some(pause) if self.paused => elapsed(pause, now_ns) as int,
                    _ => 0,
                },
            ),
            None => None,
        }
    }

    /// Everything is released and forgotten, except the evidence of the routes.
    pub open spec fn cleaned(self) -> State {
        State {
            last_error: None,
            callback_attached: false,
            stats: RecordingStats::zero(),
            recording_start_ns: None,
            total_pause_ns: 0,
            error_count: 0,
            recoverable_error_count: 0,
            ..self.stopped().reconnected()
        }
    }
}

/// The first record of an epoch.
pub open spec fn first_of_epoch(epochs: Seq<EpochEvidence>, epoch: u64) -> Option<nat>
    decreases epochs.len(),
{
    if epochs.len() == 0 {
        None
    } else {
        match first_of_epoch(epochs.drop_last(), epoch) {
            Some(i) => Some(i),
            None => if epochs.last().device_epoch == epoch {
                Some((epochs.len() - 1) as nat)
            } else {
                None
            },
        }
    }
}

} // verus!
