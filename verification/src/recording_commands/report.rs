//! The state of a recording, as it is shown to the user.

use vstd::prelude::*;
use vstd::string::*;

use crate::devices::configuration::{text_of, Device};
use crate::recording_state::evidence::{format_of, SystemAudioFormat};
use crate::recording_state::model::{
    elapsed, nonzero, CutoverCounters, DeviceType, MuteTracking, RouteCounters, State,
};
use crate::recording_state::state::RecordingState;

verus! {

/// The last change of devices.
#[derive(Debug, Clone, Copy, PartialEq, Eq, Structural)]
pub struct CutoverReport {
    pub watermark_qpc_ns: Option<u64>,
    pub callback_drain_deadline_qpc_ns: Option<u64>,
    pub in_flight_callback_count: u64,
    pub old_epoch_last_capture_qpc_ns: Option<u64>,
    pub new_epoch_first_capture_qpc_ns: Option<u64>,
    pub late_callback_dropped_frames: u64,
    pub attribution_error_frames: u64,
}

impl CutoverReport {
    /// What is shown of a change of devices.
    pub open spec fn of(cutover: CutoverCounters, in_flight_callbacks: u64) -> CutoverReport {
        CutoverReport {
            watermark_qpc_ns: nonzero(cutover.watermark_qpc_ns),
            callback_drain_deadline_qpc_ns: nonzero(cutover.drain_deadline_qpc_ns),
            in_flight_callback_count: in_flight_callbacks,
            old_epoch_last_capture_qpc_ns: nonzero(cutover.old_last_capture_qpc_ns),
            new_epoch_first_capture_qpc_ns: nonzero(cutover.new_first_capture_qpc_ns),
            late_callback_dropped_frames: cutover.late_callback_dropped_frames,
            attribution_error_frames: cutover.attribution_error_frames,
        }
    }
}

/// What both routes show. Levels are the bit patterns of 32-bit floats.
#[derive(Debug)]
pub struct RouteReport {
    pub active: bool,
    pub device_name: Option<String>,
    pub native_id: Option<String>,
    pub callback_count: u64,
    pub frame_count: u64,
    pub sample_count: u64,
    pub last_capture_qpc_ns: Option<u64>,
    pub last_callback_observed_qpc_ns: Option<u64>,
    pub max_callback_gap_ns: u64,
    pub no_signal: bool,
    pub no_signal_count: u64,
    pub failed: bool,
    pub rms_bits: u32,
    pub peak_bits: u32,
}

/// What a `RouteReport` stands for.
#[verifier::ext_equal]
pub struct Route {
    pub active: bool,
    pub device_name: Option<Seq<char>>,
    pub native_id: Option<Seq<char>>,
    pub callback_count: u64,
    pub frame_count: u64,
    pub sample_count: u64,
    pub last_capture_qpc_ns: Option<u64>,
    pub last_callback_observed_qpc_ns: Option<u64>,
    pub max_callback_gap_ns: u64,
    pub no_signal: bool,
    pub no_signal_count: u64,
    pub failed: bool,
    pub rms_bits: u32,
    pub peak_bits: u32,
}

impl View for RouteReport {
    type V = Route;

    open spec fn view(&self) -> Route {
        Route {
            active: self.active,
            device_name: text_of(self.device_name),
            native_id: text_of(self.native_id),
            callback_count: self.callback_count,
            frame_count: self.frame_count,
            sample_count: self.sample_count,
            last_capture_qpc_ns: self.last_capture_qpc_ns,
            last_callback_observed_qpc_ns: self.last_callback_observed_qpc_ns,
            max_callback_gap_ns: self.max_callback_gap_ns,
            no_signal: self.no_signal,
            no_signal_count: self.no_signal_count,
            failed: self.failed,
            rms_bits: self.rms_bits,
            peak_bits: self.peak_bits,
        }
    }
}

impl Route {
    /// What is shown of a route with a device and its counters.
    pub open spec fn of(device: Option<Device>, counters: RouteCounters) -> Route {
        Route {
            active: device is Some,
            device_name: match device {
                Some(device) => Some(device.name),
                None => None,
            },
            native_id: match device {
                Some(device) => device.native_id,
                None => None,
            },
            callback_count: counters.callback_count,
            frame_count: counters.frame_count,
            sample_count: counters.sample_count,
            last_capture_qpc_ns: nonzero(counters.last_capture_qpc_ns),
            last_callback_observed_qpc_ns: nonzero(counters.last_callback_observed_qpc_ns),
            max_callback_gap_ns: counters.max_callback_gap_ns,
            no_signal: counters.no_signal,
            no_signal_count: counters.no_signal_count,
            failed: counters.route_failed,
            rms_bits: counters.rms_bits,
            peak_bits: counters.peak_bits,
        }
    }
}

/// What the system route shows besides.
#[derive(Debug)]
pub struct SystemRouteDetails {
    pub silent_flag_frame_count: u64,
    pub all_zero_frame_count: u64,
    pub endpoint_muted: bool,
    pub silent: bool,
    pub driver_mute_behavior: Option<&'static str>,
    pub format: Option<SystemAudioFormat>,
}

impl SystemRouteDetails {
    /// The details show what is known about silence and the format.
    pub open spec fn shows(
        self,
        mute: MuteTracking,
        format: Option<crate::recording_state::evidence::Format>,
    ) -> bool {
        &&& self.silent_flag_frame_count == mute.silent_flag_frame_count
        &&& self.all_zero_frame_count == mute.all_zero_frame_count
        &&& self.endpoint_muted == mute.endpoint_muted
        &&& self.silent == mute.audio_silent
        &&& match self.driver_mute_behavior {
            Some(label) => mute.driver_mute_behavior.name() == Some(label@),
            None => mute.driver_mute_behavior.name() is None,
        }
        &&& format_of(self.format) == format
    }
}

/// The state of a recording. Durations are in nanoseconds.
#[derive(Debug)]
pub struct RecordingReport {
    pub is_recording: bool,
    pub is_paused: bool,
    pub is_active: bool,
    pub is_reconnecting: bool,
    pub recording_mode: &'static str,
    pub device_epoch: u64,
    pub system_stream_started_qpc_ns: Option<u64>,
    pub last_error: Option<&'static str>,
    pub cutover: CutoverReport,
    pub microphone_route: RouteReport,
    pub microphone_stream_started_count: u64,
    pub system_route: RouteReport,
    pub system_details: SystemRouteDetails,
    pub recording_duration_ns: Option<u64>,
    pub active_duration_ns: Option<i128>,
    pub total_pause_duration_ns: u64,
    pub current_pause_duration_ns: Option<u64>,
}

/// The name of what is recorded.
pub open spec fn mode_name(microphone: bool, system_audio: bool) -> Seq<char> {
    match (microphone, system_audio) {
        (true, true) => "microphone_and_system"@,
        (true, false) => "microphone_only"@,
        (false, true) => "system_only"@,
        (false, false) => "inactive"@,
    }
}

/// The name of what is recorded.
pub fn recording_mode_name(microphone: bool, system_audio: bool) -> (r: &'static str)
    ensures
        r@ == mode_name(microphone, system_audio),
{
    match (microphone, system_audio) {
        (true, true) => "microphone_and_system",
        (true, false) => "microphone_only",
        (false, true) => "system_only",
        (false, false) => "inactive",
    }
}

/// `report` shows `state` as it is at `now_ns`.
pub open spec fn shows(report: RecordingReport, is_recording: bool, state: State, now_ns: u64) -> bool {
    &&& report.is_recording == is_recording
    &&& report.is_paused == state.paused
    &&& report.is_active == state.active()
    &&& report.is_reconnecting == state.reconnecting
    &&& report.recording_mode@ == mode_name(
        state.microphone_device is Some, state.system_device is Some)
    &&& report.device_epoch == state.device_epoch
    &&& report.system_stream_started_qpc_ns == nonzero(state.system.stream_started_qpc_ns)
    &&& match report.last_error {
        Some(name) => state.last_error is Some && name@ == state.last_error->0.name(),
        None => state.last_error is None,
    }
    &&& report.cutover == CutoverReport::of(state.cutover, state.in_flight_callbacks)
    &&& report.microphone_route@ == Route::of(state.microphone_device, state.microphone)
    &&& report.microphone_stream_started_count == state.microphone_stream_started_count
    &&& report.system_route@ == Route::of(state.system_device, state.system)
    &&& report.system_details.shows(state.mute, state.system_format)
    &&& report.recording_duration_ns == match state.recording_start_ns {
        Some(start) => Some(elapsed(start, now_ns)),
        None => None,
    }
    &&& match report.active_duration_ns {
        Some(duration) => state.active_duration(now_ns) == Some(duration as int),
        None => state.active_duration(now_ns) is None,
    }
    &&& report.total_pause_duration_ns == state.total_pause_ns
    &&& report.current_pause_duration_ns == match state.pause_start_ns {
        Some(pause) if state.paused => Some(elapsed(pause, now_ns)),
        _ => None,
    }
}

fn when_nonzero(value: u64) -> (r: Option<u64>)
    ensures
        r == nonzero(value),
{
    if value != 0 {
        Some(value)
    } else {
        None
    }
}

fn cutover_report(state: &RecordingState) -> (r: CutoverReport)
    ensures
        r == CutoverReport::of(state@.cutover, state@.in_flight_callbacks),
{
    let (in_flight_callback_count, deadline) = state.callback_drain_state();
    let (watermark, old_last, new_first, late, unattributed) = state.cutover_state();
    CutoverReport {
        watermark_qpc_ns: watermark,
        callback_drain_deadline_qpc_ns: when_nonzero(deadline),
        in_flight_callback_count,
        old_epoch_last_capture_qpc_ns: old_last,
        new_epoch_first_capture_qpc_ns: new_first,
        late_callback_dropped_frames: late,
        attribution_error_frames: unattributed,
    }
}

fn route_report(state: &RecordingState, device_type: DeviceType) -> (r: RouteReport)
    ensures
        r@ == match device_type {
            DeviceType::Microphone => Route::of(state@.microphone_device, state@.microphone),
            DeviceType::System => Route::of(state@.system_device, state@.system),
        },
{
    let device = match device_type {
        DeviceType::Microphone => state.get_microphone_device(),
        DeviceType::System => state.get_system_device(),
    };
    let (last_capture, last_observed, max_gap, no_signal, no_signal_count) = match device_type {
        DeviceType::Microphone => state.microphone_route_health(),
        DeviceType::System => state.system_route_health(),
    };
    let frame_count: u64 = match device_type {
        DeviceType::Microphone => state.microphone_frame_count(),
        DeviceType::System => state.system_native_frame_counts().0,
    };
    let (callback_count, sample_count) = state.route_callback_counts(&device_type);
    let (rms_bits, peak_bits) = state.route_audio_levels(&device_type);
    let active: bool = device.is_some();
    let (device_name, native_id) = match device {
        Some(device) => (Some(device.name), device.native_id),
        None => (None, None),
    };
    RouteReport {
        active,
        device_name,
        native_id,
        callback_count,
        frame_count,
        sample_count,
        last_capture_qpc_ns: last_capture,
        last_callback_observed_qpc_ns: last_observed,
        max_callback_gap_ns: max_gap,
        no_signal,
        no_signal_count,
        failed: state.route_failed(&device_type),
        rms_bits,
        peak_bits,
    }
}

fn system_details(state: &RecordingState) -> (r: SystemRouteDetails)
    ensures
        r.shows(state@.mute, state@.system_format),
{
    let (_frames, silent_flag_frame_count, all_zero_frame_count) =
        state.system_native_frame_counts();
    let (endpoint_muted, silent, driver_mute_behavior) = state.system_mute_state();
    SystemRouteDetails {
        silent_flag_frame_count,
        all_zero_frame_count,
        endpoint_muted,
        silent,
        driver_mute_behavior,
        format: state.system_audio_format(),
    }
}

/// Shows the state of a recording at `now_ns`.
pub fn get_recording_state(is_recording: bool, state: &RecordingState, now_ns: u64) -> (r:
    RecordingReport)
    ensures
        shows(r, is_recording, state@, now_ns),
{
    let microphone_route = route_report(state, DeviceType::Microphone);
    let system_route = route_report(state, DeviceType::System);
    RecordingReport {
        is_recording,
        is_paused: state.is_paused(),
        is_active: state.is_active(),
        is_reconnecting: state.is_reconnecting(),
        recording_mode: recording_mode_name(microphone_route.active, system_route.active),
        device_epoch: state.get_device_epoch(),
        system_stream_started_qpc_ns: state.system_stream_started_qpc_ns(),
        last_error: match state.get_last_error() {
            Some(error) => Some(error.code()),
            None => None,
        },
        cutover: cutover_report(state),
        microphone_route,
        microphone_stream_started_count: state.microphone_stream_started_count(),
        system_route,
        system_details: system_details(state),
        recording_duration_ns: state.get_recording_duration(now_ns),
        active_duration_ns: state.get_active_recording_duration(now_ns),
        total_pause_duration_ns: state.get_total_pause_duration(),
        current_pause_duration_ns: state.get_current_pause_duration(now_ns),
    }
}

/// Shows that there is no recording to show: all is as in a recorder that never recorded.
pub fn get_idle_state(is_recording: bool) -> (r: RecordingReport)
    ensures
        forall|now_ns: u64| #[trigger] shows(r, is_recording, State::initial(), now_ns),
{
    let state = RecordingState::new();
    get_recording_state(is_recording, &state, 0)
}

/// Law: what is shown of a recording fits together: a paused or reconnecting one is not active, its
/// active time is its age without its pauses, each route shows its own device, and a route without
/// a device is not active.
pub proof fn reports_fit_together(
    report: RecordingReport,
    is_recording: bool,
    state: State,
    now_ns: u64,
)
    requires
        shows(report, is_recording, state, now_ns),
    ensures
        report.is_recording == is_recording,
        report.is_paused == state.paused && report.is_reconnecting == state.reconnecting,
        report.is_paused || report.is_reconnecting ==> !report.is_active,
        state.timeline_open() && !state.system.no_signal && !state.mute.audio_silent
            ==> report.is_active,
        report.is_active ==> !report.microphone_route.no_signal && !report.system_route.no_signal
            && !report.microphone_route.failed && !report.system_route.failed,
        report.microphone_route@.active == state.microphone_device is Some,
        report.system_route@.active == state.system_device is Some,
        state.microphone_device matches Some(device) ==> report.microphone_route@.device_name
            == Some(device.name) && report.microphone_route@.native_id == device.native_id,
        state.system_device matches Some(device) ==> report.system_route@.device_name == Some(
            device.name) && report.system_route@.native_id == device.native_id,
        report.microphone_route@.callback_count == state.microphone.callback_count,
        report.system_route@.callback_count == state.system.callback_count,
        report.microphone_route@.sample_count == state.microphone.sample_count,
        report.system_route@.sample_count == state.system.sample_count,
        report.microphone_route@.frame_count == state.microphone.frame_count,
        report.system_route@.frame_count == state.system.frame_count,
        report.microphone_route@.rms_bits == state.microphone.rms_bits,
        report.system_route@.rms_bits == state.system.rms_bits,
        report.microphone_route@.peak_bits == state.microphone.peak_bits,
        report.system_route@.peak_bits == state.system.peak_bits,
        report.microphone_route@.max_callback_gap_ns == state.microphone.max_callback_gap_ns,
        report.system_route@.max_callback_gap_ns == state.system.max_callback_gap_ns,
        report.recording_mode@ == "inactive"@ || report.microphone_route@.active
            || report.system_route@.active,
        match (report.recording_duration_ns, report.active_duration_ns) {
            (Some(age), Some(active)) => active + report.total_pause_duration_ns + match
                report.current_pause_duration_ns {
                Some(pause) => pause as int,
                None => 0,
            } == age,
            (None, None) => state.recording_start_ns is None,
            _ => false,
        },
        report.current_pause_duration_ns is Some ==> report.is_paused,
        report.device_epoch == state.device_epoch,
        report.last_error is Some == state.last_error is Some,
        report.cutover.late_callback_dropped_frames == state.cutover.late_callback_dropped_frames,
        report.cutover.attribution_error_frames == state.cutover.attribution_error_frames,
        report.cutover.in_flight_callback_count == state.in_flight_callbacks,
{
}

} // verus!
