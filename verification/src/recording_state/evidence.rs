//! The record of what each audio route did during a recording.

use vstd::prelude::*;

use crate::devices::configuration::{clone_text, text_of};

verus! {

/// Native format bound to the current system-audio epoch.
#[derive(Debug)]
pub struct SystemAudioFormat {
    pub sample_rate: u32,
    pub channels: u16,
    pub bits_per_sample: u16,
    pub block_align: u16,
    pub sample_format: String,
}

/// What a `SystemAudioFormat` stands for.
#[verifier::ext_equal]
pub struct Format {
    pub sample_rate: u32,
    pub channels: u16,
    pub bits_per_sample: u16,
    pub block_align: u16,
    pub sample_format: Seq<char>,
}

impl View for SystemAudioFormat {
    type V = Format;

    open spec fn view(&self) -> Format {
        Format {
            sample_rate: self.sample_rate,
            channels: self.channels,
            bits_per_sample: self.bits_per_sample,
            block_align: self.block_align,
            sample_format: self.sample_format@,
        }
    }
}

impl Clone for SystemAudioFormat {
    fn clone(&self) -> (r: Self)
        ensures
            r == *self,
    {
        SystemAudioFormat {
            sample_rate: self.sample_rate,
            channels: self.channels,
            bits_per_sample: self.bits_per_sample,
            block_align: self.block_align,
            sample_format: self.sample_format.clone(),
        }
    }
}

/// What a format that may be missing stands for.
pub open spec fn format_of(format: Option<SystemAudioFormat>) -> Option<Format> {
    match format {
        Some(format) => Some(format@),
        None => None,
    }
}

/// Copies a format that may be missing.
pub fn clone_format(format: &Option<SystemAudioFormat>) -> (r: Option<SystemAudioFormat>)
    ensures
        r == *format,
{
    match format {
        Some(format) => Some(format.clone()),
        None => None,
    }
}

/// What the two routes did while one pair of devices was bound. Levels are the bit patterns of
/// 32-bit floats; instants are counts of nanoseconds, missing where nothing was seen.
#[derive(Debug)]
pub struct AudioDeviceEpochEvidence {
    pub device_epoch: u64,
    pub microphone_name: Option<String>,
    pub microphone_native_id: Option<String>,
    pub microphone_default_role: Option<String>,
    pub system_name: Option<String>,
    pub system_native_id: Option<String>,
    pub system_default_role: Option<String>,
    pub system_format: Option<SystemAudioFormat>,
    pub microphone_stream_started_qpc_ns: Option<u64>,
    pub system_stream_started_qpc_ns: Option<u64>,
    pub microphone_last_capture_qpc_ns: Option<u64>,
    pub system_last_capture_qpc_ns: Option<u64>,
    pub microphone_last_callback_observed_qpc_ns: Option<u64>,
    pub system_last_callback_observed_qpc_ns: Option<u64>,
    pub microphone_max_callback_gap_ns: u64,
    pub system_max_callback_gap_ns: u64,
    pub microphone_callback_count: u64,
    pub microphone_frame_count: u64,
    pub microphone_sample_count: u64,
    pub system_callback_count: u64,
    pub system_frame_count: u64,
    pub system_sample_count: u64,
    pub system_silent_flag_frame_count: u64,
    pub system_all_zero_frame_count: u64,
    pub microphone_no_signal_count: u64,
    pub system_no_signal_count: u64,
    pub microphone_route_failed: bool,
    pub system_route_failed: bool,
    pub system_endpoint_muted: bool,
    pub system_audio_silent: bool,
    pub driver_mute_behavior: Option<String>,
    pub microphone_rms_bits: u32,
    pub microphone_peak_bits: u32,
    pub system_rms_bits: u32,
    pub system_peak_bits: u32,
}

/// Which device a route was bound to.
#[verifier::ext_equal]
pub struct Identity {
    pub name: Option<Seq<char>>,
    pub native_id: Option<Seq<char>>,
    pub default_role: Option<Seq<char>>,
}

/// What one route did.
#[verifier::ext_equal]
pub struct RouteEvidence {
    pub stream_started_qpc_ns: Option<u64>,
    pub last_capture_qpc_ns: Option<u64>,
    pub last_callback_observed_qpc_ns: Option<u64>,
    pub max_callback_gap_ns: u64,
    pub callback_count: u64,
    pub frame_count: u64,
    pub sample_count: u64,
    pub no_signal_count: u64,
    pub route_failed: bool,
    pub rms_bits: u32,
    pub peak_bits: u32,
}

/// What is known about silence on the system route.
#[verifier::ext_equal]
pub struct MuteEvidence {
    pub silent_flag_frame_count: u64,
    pub all_zero_frame_count: u64,
    pub endpoint_muted: bool,
    pub audio_silent: bool,
    pub driver_mute_behavior: Option<Seq<char>>,
}

/// What an `AudioDeviceEpochEvidence` stands for.
#[verifier::ext_equal]
pub struct EpochEvidence {
    pub device_epoch: u64,
    pub microphone_identity: Identity,
    pub system_identity: Identity,
    pub system_format: Option<Format>,
    pub microphone: RouteEvidence,
    pub system: RouteEvidence,
    pub mute: MuteEvidence,
}

impl View for AudioDeviceEpochEvidence {
    type V = EpochEvidence;

    open spec fn view(&self) -> EpochEvidence {
        EpochEvidence {
            device_epoch: self.device_epoch,
            microphone_identity: Identity {
                name: text_of(self.microphone_name),
                native_id: text_of(self.microphone_native_id),
                default_role: text_of(self.microphone_default_role),
            },
            system_identity: Identity {
                name: text_of(self.system_name),
                native_id: text_of(self.system_native_id),
                default_role: text_of(self.system_default_role),
            },
            system_format: format_of(self.system_format),
            microphone: RouteEvidence {
                stream_started_qpc_ns: self.microphone_stream_started_qpc_ns,
                last_capture_qpc_ns: self.microphone_last_capture_qpc_ns,
                last_callback_observed_qpc_ns: self.microphone_last_callback_observed_qpc_ns,
                max_callback_gap_ns: self.microphone_max_callback_gap_ns,
                callback_count: self.microphone_callback_count,
                frame_count: self.microphone_frame_count,
                sample_count: self.microphone_sample_count,
                no_signal_count: self.microphone_no_signal_count,
                route_failed: self.microphone_route_failed,
                rms_bits: self.microphone_rms_bits,
                peak_bits: self.microphone_peak_bits,
            },
            system: RouteEvidence {
                stream_started_qpc_ns: self.system_stream_started_qpc_ns,
                last_capture_qpc_ns: self.system_last_capture_qpc_ns,
                last_callback_observed_qpc_ns: self.system_last_callback_observed_qpc_ns,
                max_callback_gap_ns: self.system_max_callback_gap_ns,
                callback_count: self.system_callback_count,
                frame_count: self.system_frame_count,
                sample_count: self.system_sample_count,
                no_signal_count: self.system_no_signal_count,
                route_failed: self.system_route_failed,
                rms_bits: self.system_rms_bits,
                peak_bits: self.system_peak_bits,
            },
            mute: MuteEvidence {
                silent_flag_frame_count: self.system_silent_flag_frame_count,
                all_zero_frame_count: self.system_all_zero_frame_count,
                endpoint_muted: self.system_endpoint_muted,
                audio_silent: self.system_audio_silent,
                driver_mute_behavior: text_of(self.driver_mute_behavior),
            },
        }
    }
}

impl Clone for AudioDeviceEpochEvidence {
    fn clone(&self) -> (r: Self)
        ensures
            r == *self,
    {
        AudioDeviceEpochEvidence {
            device_epoch: self.device_epoch,
            microphone_name: clone_text(&self.microphone_name),
            microphone_native_id: clone_text(&self.microphone_native_id),
            microphone_default_role: clone_text(&self.microphone_default_role),
            system_name: clone_text(&self.system_name),
            system_native_id: clone_text(&self.system_native_id),
            system_default_role: clone_text(&self.system_default_role),
            system_format: clone_format(&self.system_format),
            microphone_stream_started_qpc_ns: self.microphone_stream_started_qpc_ns,
            system_stream_started_qpc_ns: self.system_stream_started_qpc_ns,
            microphone_last_capture_qpc_ns: self.microphone_last_capture_qpc_ns,
            system_last_capture_qpc_ns: self.system_last_capture_qpc_ns,
            microphone_last_callback_observed_qpc_ns: self.microphone_last_callback_observed_qpc_ns,
            system_last_callback_observed_qpc_ns: self.system_last_callback_observed_qpc_ns,
            microphone_max_callback_gap_ns: self.microphone_max_callback_gap_ns,
            system_max_callback_gap_ns: self.system_max_callback_gap_ns,
            microphone_callback_count: self.microphone_callback_count,
            microphone_frame_count: self.microphone_frame_count,
            microphone_sample_count: self.microphone_sample_count,
            system_callback_count: self.system_callback_count,
            system_frame_count: self.system_frame_count,
            system_sample_count: self.system_sample_count,
            system_silent_flag_frame_count: self.system_silent_flag_frame_count,
            system_all_zero_frame_count: self.system_all_zero_frame_count,
            microphone_no_signal_count: self.microphone_no_signal_count,
            system_no_signal_count: self.system_no_signal_count,
            microphone_route_failed: self.microphone_route_failed,
            system_route_failed: self.system_route_failed,
            system_endpoint_muted: self.system_endpoint_muted,
            system_audio_silent: self.system_audio_silent,
            driver_mute_behavior: clone_text(&self.driver_mute_behavior),
            microphone_rms_bits: self.microphone_rms_bits,
            microphone_peak_bits: self.microphone_peak_bits,
            system_rms_bits: self.system_rms_bits,
            system_peak_bits: self.system_peak_bits,
        }
    }
}

/// Something that went wrong on a route, and when it was over.
#[derive(Debug)]
pub struct AudioRouteIncidentEvidence {
    pub sequence: u64,
    pub device_epoch: u64,
    pub route: String,
    pub code: String,
    pub started_qpc_ns: Option<u64>,
    pub recovered_qpc_ns: Option<u64>,
    pub callback_gap_ns: Option<u64>,
}

/// What an `AudioRouteIncidentEvidence` stands for.
#[verifier::ext_equal]
pub struct Incident {
    pub sequence: u64,
    pub device_epoch: u64,
    pub route: Seq<char>,
    pub code: Seq<char>,
    pub started_qpc_ns: Option<u64>,
    pub recovered_qpc_ns: Option<u64>,
    pub callback_gap_ns: Option<u64>,
}

impl View for AudioRouteIncidentEvidence {
    type V = Incident;

    open spec fn view(&self) -> Incident {
        Incident {
            sequence: self.sequence,
            device_epoch: self.device_epoch,
            route: self.route@,
            code: self.code@,
            started_qpc_ns: self.started_qpc_ns,
            recovered_qpc_ns: self.recovered_qpc_ns,
            callback_gap_ns: self.callback_gap_ns,
        }
    }
}

impl Clone for AudioRouteIncidentEvidence {
    fn clone(&self) -> (r: Self)
        ensures
            r == *self,
    {
        AudioRouteIncidentEvidence {
            sequence: self.sequence,
            device_epoch: self.device_epoch,
            route: self.route.clone(),
            code: self.code.clone(),
            started_qpc_ns: self.started_qpc_ns,
            recovered_qpc_ns: self.recovered_qpc_ns,
            callback_gap_ns: self.callback_gap_ns,
        }
    }
}

/// One change from a pair of bound devices to the next, and how it ended.
#[derive(Debug)]
pub struct AudioCutoverEvidence {
    pub sequence: u64,
    pub old_device_epoch: u64,
    pub new_device_epoch: Option<u64>,
    pub watermark_qpc_ns: u64,
    pub drain_deadline_qpc_ns: u64,
    pub old_epoch_last_capture_qpc_ns: Option<u64>,
    pub new_epoch_first_capture_qpc_ns: Option<u64>,
    pub late_callback_dropped_frames: u64,
    pub attribution_error_frames: u64,
    pub terminal_result: String,
    pub error: Option<String>,
}

/// What an `AudioCutoverEvidence` stands for.
#[verifier::ext_equal]
pub struct Cutover {
    pub sequence: u64,
    pub old_device_epoch: u64,
    pub new_device_epoch: Option<u64>,
    pub watermark_qpc_ns: u64,
    pub drain_deadline_qpc_ns: u64,
    pub old_epoch_last_capture_qpc_ns: Option<u64>,
    pub new_epoch_first_capture_qpc_ns: Option<u64>,
    pub late_callback_dropped_frames: u64,
    pub attribution_error_frames: u64,
    pub terminal_result: Seq<char>,
    pub error: Option<Seq<char>>,
}

impl View for AudioCutoverEvidence {
    type V = Cutover;

    open spec fn view(&self) -> Cutover {
        Cutover {
            sequence: self.sequence,
            old_device_epoch: self.old_device_epoch,
            new_device_epoch: self.new_device_epoch,
            watermark_qpc_ns: self.watermark_qpc_ns,
            drain_deadline_qpc_ns: self.drain_deadline_qpc_ns,
            old_epoch_last_capture_qpc_ns: self.old_epoch_last_capture_qpc_ns,
            new_epoch_first_capture_qpc_ns: self.new_epoch_first_capture_qpc_ns,
            late_callback_dropped_frames: self.late_callback_dropped_frames,
            attribution_error_frames: self.attribution_error_frames,
            terminal_result: self.terminal_result@,
            error: text_of(self.error),
        }
    }
}

impl Clone for AudioCutoverEvidence {
    fn clone(&self) -> (r: Self)
        ensures
            r == *self,
    {
        AudioCutoverEvidence {
            sequence: self.sequence,
            old_device_epoch: self.old_device_epoch,
            new_device_epoch: self.new_device_epoch,
            watermark_qpc_ns: self.watermark_qpc_ns,
            drain_deadline_qpc_ns: self.drain_deadline_qpc_ns,
            old_epoch_last_capture_qpc_ns: self.old_epoch_last_capture_qpc_ns,
            new_epoch_first_capture_qpc_ns: self.new_epoch_first_capture_qpc_ns,
            late_callback_dropped_frames: self.late_callback_dropped_frames,
            attribution_error_frames: self.attribution_error_frames,
            terminal_result: self.terminal_result.clone(),
            error: clone_text(&self.error),
        }
    }
}

/// Everything recorded about the routes so far.
#[derive(Debug)]
pub struct AudioRouteEvidenceSnapshot {
    pub schema_version: u32,
    pub current_device_epoch: u64,
    pub microphone_stream_started_count: u64,
    pub epochs: Vec<AudioDeviceEpochEvidence>,
    pub incidents: Vec<AudioRouteIncidentEvidence>,
    pub cutovers: Vec<AudioCutoverEvidence>,
}

/// What an `AudioRouteEvidenceSnapshot` stands for.
#[verifier::ext_equal]
pub struct EvidenceSnapshot {
    pub schema_version: u32,
    pub current_device_epoch: u64,
    pub microphone_stream_started_count: u64,
    pub epochs: Seq<EpochEvidence>,
    pub incidents: Seq<Incident>,
    pub cutovers: Seq<Cutover>,
}

impl View for AudioRouteEvidenceSnapshot {
    type V = EvidenceSnapshot;

    open spec fn view(&self) -> EvidenceSnapshot {
        EvidenceSnapshot {
            schema_version: self.schema_version,
            current_device_epoch: self.current_device_epoch,
            microphone_stream_started_count: self.microphone_stream_started_count,
            epochs: epoch_views(self.epochs@),
            incidents: incident_views(self.incidents@),
            cutovers: cutover_views(self.cutovers@),
        }
    }
}

/// What a list of epochs stands for.
pub open spec fn epoch_views(epochs: Seq<AudioDeviceEpochEvidence>) -> Seq<EpochEvidence> {
    Seq::new(epochs.len(), |i: int| epochs[i]@)
}

/// What a list of incidents stands for.
pub open spec fn incident_views(incidents: Seq<AudioRouteIncidentEvidence>) -> Seq<Incident> {
    Seq::new(incidents.len(), |i: int| incidents[i]@)
}

/// What a list of cutovers stands for.
pub open spec fn cutover_views(cutovers: Seq<AudioCutoverEvidence>) -> Seq<Cutover> {
    Seq::new(cutovers.len(), |i: int| cutovers[i]@)
}

/// Copies a list of epochs.
pub fn clone_epochs(epochs: &Vec<AudioDeviceEpochEvidence>) -> (r: Vec<AudioDeviceEpochEvidence>)
    ensures
        r@ == epochs@,
{
    let mut r: Vec<AudioDeviceEpochEvidence> = Vec::new();
    let mut i: usize = 0;
    while i < epochs.len()
        invariant
            i <= epochs@.len(),
            r@ == epochs@.take(i as int),
        decreases epochs@.len() - i,
    {
        r.push(epochs[i].clone());
        i = i + 1;
        assert(epochs@.take(i as int) =~= epochs@.take(i - 1).push(epochs@[i - 1]));
    }
    assert(epochs@.take(i as int) =~= epochs@);
    r
}

/// Copies a list of incidents.
pub fn clone_incidents(incidents: &Vec<AudioRouteIncidentEvidence>) -> (r: Vec<
    AudioRouteIncidentEvidence,
>)
    ensures
        r@ == incidents@,
{
    let mut r: Vec<AudioRouteIncidentEvidence> = Vec::new();
    let mut i: usize = 0;
    while i < incidents.len()
        invariant
            i <= incidents@.len(),
            r@ == incidents@.take(i as int),
        decreases incidents@.len() - i,
    {
        r.push(incidents[i].clone());
        i = i + 1;
        assert(incidents@.take(i as int) =~= incidents@.take(i - 1).push(incidents@[i - 1]));
    }
    assert(incidents@.take(i as int) =~= incidents@);
    r
}

/// Copies a list of cutovers.
pub fn clone_cutovers(cutovers: &Vec<AudioCutoverEvidence>) -> (r: Vec<AudioCutoverEvidence>)
    ensures
        r@ == cutovers@,
{
    let mut r: Vec<AudioCutoverEvidence> = Vec::new();
    let mut i: usize = 0;
    while i < cutovers.len()
        invariant
            i <= cutovers@.len(),
            r@ == cutovers@.take(i as int),
        decreases cutovers@.len() - i,
    {
        r.push(cutovers[i].clone());
        i = i + 1;
        assert(cutovers@.take(i as int) =~= cutovers@.take(i - 1).push(cutovers@[i - 1]));
    }
    assert(cutovers@.take(i as int) =~= cutovers@);
    r
}

/// A cutover that has no outcome yet.
pub open spec fn in_progress(cutover: Cutover) -> bool {
    cutover.terminal_result == "in_progress"@
}

/// The position of the latest cutover without an outcome, or -1.
pub open spec fn active_cutover(cutovers: Seq<Cutover>) -> int
    decreases cutovers.len(),
{
    if cutovers.len() == 0 {
        -1
    } else if in_progress(cutovers.last()) {
        cutovers.len() - 1
    } else {
        active_cutover(cutovers.drop_last())
    }
}

/// The cutovers with an outcome given to the latest one that has none.
pub open spec fn settled(
    cutovers: Seq<Cutover>,
    terminal_result: Seq<char>,
    new_device_epoch: Option<u64>,
    error: Option<Seq<char>>,
) -> Seq<Cutover> {
    let i = active_cutover(cutovers);
    if i < 0 {
        cutovers
    } else {
        cutovers.update(
            i,
            Cutover { new_device_epoch, terminal_result, error, ..cutovers[i] },
        )
    }
}

/// An incident of the epoch on the route that is not over.
pub open spec fn open_on(incident: Incident, epoch: u64, route: Seq<char>) -> bool {
    incident.device_epoch == epoch && incident.route == route && incident.recovered_qpc_ns is None
}

/// Some incident with this code is open on the route.
pub open spec fn has_open(
    incidents: Seq<Incident>,
    epoch: u64,
    route: Seq<char>,
    code: Seq<char>,
) -> bool {
    exists|i: int|
        0 <= i < incidents.len() && open_on(#[trigger] incidents[i], epoch, route)
            && incidents[i].code == code
}

/// The incidents with every open one of the route closed, as far back as the epoch reaches.
pub open spec fn closed(
    incidents: Seq<Incident>,
    epoch: u64,
    route: Seq<char>,
    recovered_qpc_ns: u64,
) -> Seq<Incident>
    decreases incidents.len(),
{
    if incidents.len() == 0 || incidents.last().device_epoch != epoch {
        incidents
    } else {
        let last = incidents.last();
        closed(incidents.drop_last(), epoch, route, recovered_qpc_ns).push(
            if open_on(last, epoch, route) {
                Incident { recovered_qpc_ns: Some(recovered_qpc_ns), ..last }
            } else {
                last
            },
        )
    }
}

/// Closing finds at least one open incident.
pub open spec fn closes_any(incidents: Seq<Incident>, epoch: u64, route: Seq<char>) -> bool
    decreases incidents.len(),
{
    if incidents.len() == 0 || incidents.last().device_epoch != epoch {
        false
    } else {
        open_on(incidents.last(), epoch, route) || closes_any(incidents.drop_last(), epoch, route)
    }
}

} // verus!
