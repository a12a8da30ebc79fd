//! What is told of a meeting that ended.

use vstd::prelude::*;
use vstd::string::*;

use crate::devices::configuration::{AudioDevice, Device};
use crate::outside::{lowercase, to_lowercase};
use crate::recording_state::state::{device_of, RecordingState};
use crate::text;

verus! {

/// A name in small letters that is that of a device without a wire.
pub open spec fn wireless(lowered: Seq<char>) -> bool {
    text::contains(lowered, "bluetooth"@) || text::contains(lowered, "airpods"@)
        || text::contains(lowered, "beats"@) || text::contains(lowered, "headphones"@)
        || text::contains(lowered, "bt "@) || text::contains(lowered, "wireless"@)
}

/// The kind of device that a name in small letters tells.
pub open spec fn kind_of(lowered: Seq<char>) -> Seq<char> {
    if wireless(lowered) {
        "Bluetooth"@
    } else {
        "Wired"@
    }
}

/// The kind of device that a name in small letters tells.
pub fn kind_of_lowered(lowered: &str) -> (r: &'static str)
    ensures
        r@ == kind_of(lowered@),
{
    if text::has_part(lowered, "bluetooth") || text::has_part(lowered, "airpods")
        || text::has_part(lowered, "beats") || text::has_part(lowered, "headphones")
        || text::has_part(lowered, "bt ") || text::has_part(lowered, "wireless") {
        "Bluetooth"
    } else {
        "Wired"
    }
}

/// The kind of a device, told from its name, so that the name itself is not passed on.
pub fn classify_device_type(device_name: &str) -> (r: &'static str)
    ensures
        r@ == kind_of(lowercase(device_name@)),
{
    let lowered = to_lowercase(device_name);
    kind_of_lowered(lowered.as_str())
}

/// The kind of the device of a route.
pub open spec fn route_kind(device: Option<Device>) -> Seq<char> {
    match device {
        Some(device) => kind_of(lowercase(device.name)),
        None => "Unknown"@,
    }
}

fn classify_route(device: Option<AudioDevice>) -> (r: &'static str)
    ensures
        r@ == route_kind(device_of(device)),
{
    match device {
        Some(device) => classify_device_type(device.name.as_str()),
        None => "Unknown",
    }
}

/// A provider and its model.
#[derive(Debug)]
pub struct ModelChoice {
    pub provider: String,
    pub model: String,
}

/// What is told of a meeting that ended. Durations are in nanoseconds.
#[derive(Debug)]
pub struct MeetingEnded {
    pub transcription_provider: String,
    pub transcription_model: String,
    pub summary_provider: String,
    pub summary_model: String,
    pub total_duration_ns: Option<u64>,
    pub active_duration_ns: i128,
    pub pause_duration_ns: u64,
    pub microphone_device_type: &'static str,
    pub system_audio_device_type: &'static str,
    pub chunks_processed: u64,
    pub transcript_segments_count: u64,
    pub had_fatal_error: bool,
}

/// The texts of a choice, which may not be known.
pub open spec fn choice_texts(choice: Option<ModelChoice>) -> (Seq<char>, Seq<char>) {
    match choice {
        Some(choice) => (choice.provider@, choice.model@),
        None => ("unknown"@, "unknown"@),
    }
}

fn known(choice: Option<ModelChoice>) -> (r: ModelChoice)
    ensures
        (r.provider@, r.model@) == choice_texts(choice),
{
    match choice {
        Some(choice) => choice,
        None => ModelChoice { provider: "unknown".to_owned(), model: "unknown".to_owned() },
    }
}

/// What is told of a meeting that ended at `now_ns`.
pub fn meeting_ended(
    state: &RecordingState,
    now_ns: u64,
    transcript_segments_count: u64,
    transcription: Option<ModelChoice>,
    summary: Option<ModelChoice>,
) -> (r: MeetingEnded)
    ensures
        r.had_fatal_error == crate::recording_state::state::failed_for_good(state@),
        r.total_duration_ns == crate::recording_state::state::age(state@, now_ns),
        (r.transcription_provider@, r.transcription_model@) == choice_texts(transcription),
        (r.summary_provider@, r.summary_model@) == choice_texts(summary),
        r.total_duration_ns == match state@.recording_start_ns {
            Some(start) => Some(crate::recording_state::model::elapsed(start, now_ns)),
            None => None,
        },
        r.active_duration_ns == match state@.active_duration(now_ns) {
            Some(duration) => duration,
            None => 0,
        },
        r.pause_duration_ns == state@.total_pause_ns,
        r.microphone_device_type@ == route_kind(state@.microphone_device),
        r.system_audio_device_type@ == route_kind(state@.system_device),
        r.chunks_processed == state@.stats.chunks_processed,
        r.transcript_segments_count == transcript_segments_count,
        r.had_fatal_error == match state@.last_error {
            Some(error) => !error.recoverable() && state@.error_count > 0,
            None => false,
        },
{
    let transcription = known(transcription);
    let summary = known(summary);
    MeetingEnded {
        transcription_provider: transcription.provider,
        transcription_model: transcription.model,
        summary_provider: summary.provider,
        summary_model: summary.model,
        total_duration_ns: state.get_recording_duration(now_ns),
        active_duration_ns: match state.get_active_recording_duration(now_ns) {
            Some(duration) => duration,
            None => 0,
        },
        pause_duration_ns: state.get_total_pause_duration(),
        microphone_device_type: classify_route(state.get_microphone_device()),
        system_audio_device_type: classify_route(state.get_system_device()),
        chunks_processed: state.get_stats().chunks_processed,
        transcript_segments_count,
        had_fatal_error: state.has_fatal_error(),
    }
}

/// Where a recording that ended can be found, for the listener that stores it.
#[derive(Debug)]
pub struct RecordingStopped {
    pub folder_path: Option<String>,
    pub meeting_name: Option<String>,
}

/// What is told of a recording that ended: its folder and its name, where both are known.
pub fn recording_stopped(folder_path: Option<String>, meeting_name: Option<String>) -> (r:
    RecordingStopped)
    ensures
        if folder_path is Some && meeting_name is Some {
            r.folder_path == folder_path && r.meeting_name == meeting_name
        } else {
            r.folder_path is None && r.meeting_name is None
        },
{
    match (folder_path, meeting_name) {
        (Some(folder_path), Some(meeting_name)) => RecordingStopped {
            folder_path: Some(folder_path),
            meeting_name: Some(meeting_name),
        },
        _ => RecordingStopped { folder_path: None, meeting_name: None },
    }
}

/// Law: a device whose name speaks of a wireless link counts as one, wherever the word stands; a
/// route without a device is unknown, and a choice that is not known is told as that.
pub proof fn names_tell_wireless_devices(
    before: Seq<char>,
    after: Seq<char>,
    device: Device,
    choice: ModelChoice,
)
    ensures
        kind_of(before + "bluetooth"@ + after) == "Bluetooth"@,
        kind_of(before + "airpods"@ + after) == "Bluetooth"@,
        kind_of(before + "beats"@ + after) == "Bluetooth"@,
        kind_of(before + "headphones"@ + after) == "Bluetooth"@,
        kind_of(before + "wireless"@ + after) == "Bluetooth"@,
        kind_of(before + "bt "@ + after) == "Bluetooth"@,
        kind_of(Seq::empty()) == "Wired"@,
        route_kind(None) == "Unknown"@,
        route_kind(Some(device)) == kind_of(lowercase(device.name)),
        choice_texts(Some(choice)) == (choice.provider@, choice.model@),
        choice_texts(None) == ("unknown"@, "unknown"@),
{
    text::contained_text_stands_inside(before, "bluetooth"@, after);
    text::contained_text_stands_inside(before, "airpods"@, after);
    text::contained_text_stands_inside(before, "beats"@, after);
    text::contained_text_stands_inside(before, "headphones"@, after);
    text::contained_text_stands_inside(before, "wireless"@, after);
    text::contained_text_stands_inside(before, "bt "@, after);
    reveal_strlit("bluetooth");
    reveal_strlit("airpods");
    reveal_strlit("beats");
    reveal_strlit("headphones");
    reveal_strlit("wireless");
    reveal_strlit("bt ");
}

} // verus!
