//! Starting and ending a recording session.

use vstd::prelude::*;
use vstd::string::*;

use crate::devices::configuration::AudioDevice;
use crate::recording_preferences::Platform;
use crate::recording_state::model::State;
use crate::recording_state::state::RecordingState;
use crate::text;

verus! {

/// Whether evidence of the routes has to be saved now: it changed, or it is asked for.
pub fn evidence_is_due(state: &mut RecordingState, force: bool) -> (due: bool)
    ensures
        due == (force || old(state)@.evidence_dirty),
        final(state)@ == if force {
            old(state)@
        } else {
            State { evidence_dirty: false, ..old(state)@ }
        },
{
    if force {
        return true;
    }
    state.take_audio_route_evidence_dirty()
}

/// The evidence was saved, or not; then it stays due.
pub fn evidence_saved(state: &mut RecordingState, saved: bool)
    ensures
        final(state)@ == if saved {
            old(state)@
        } else {
            State { evidence_dirty: true, ..old(state)@ }
        },
{
    if !saved {
        state.mark_audio_route_evidence_dirty();
    }
}

/// Ends a session without saving it.
pub fn cleanup_without_save(state: &mut RecordingState)
    ensures
        final(state)@ == old(state)@.cleaned(),
{
    state.cleanup();
}

/// Ends the recording of a session that is saved next. Its devices and its pipeline are let go,
/// whether or not its streams could be stopped, and whether or not it was ended before. The length
/// of the recording and the evidence of its routes have to be taken before.
pub fn stop_streams_and_force_flush(state: &mut RecordingState)
    ensures
        final(state)@ == old(state)@.stopped().cleaned(),
{
    state.stop_recording();
    state.cleanup();
}

/// Law: a recording that could not be started leaves nothing running, and audio that its streams
/// still deliver belongs to a past epoch.
pub proof fn failed_start_leaves_nothing_running(
    state: State,
    capture_qpc_ns: Option<u64>,
    frames: u64,
)
    ensures
        ({
            let after = state.next_epoch().cleaned();
            &&& !after.recording && !after.paused && !after.timeline_open()
            &&& after.microphone_device is None && after.system_device is None
            &&& !after.sender_attached
            &&& after.device_epoch != state.device_epoch
            &&& !after.callback_accepted(state.device_epoch, capture_qpc_ns)
        }),
{
}

/// The name of a route's device for the pipeline.
pub fn device_label(device: &Option<AudioDevice>, missing: &str) -> (r: String)
    ensures
        r@ == match *device {
            Some(device) => device.name@,
            None => missing@,
        },
{
    match device {
        Some(device) => device.name.clone(),
        None => missing.to_owned(),
    }
}

/// No microphone is there to record.
#[derive(Debug, Clone, Copy, PartialEq, Eq, Structural)]
pub struct NoMicrophone;

impl NoMicrophone {
    /// The text that describes the failure.
    pub open spec fn text(self, platform: Platform) -> Seq<char> {
        match platform {
            Platform::MacOs => "\u{274C} No microphone device available for recording"@,
            _ => "No microphone device available"@,
        }
    }

    pub fn message(&self, platform: Platform) -> (r: &'static str)
        ensures
            r@ == self.text(platform),
    {
        match platform {
            Platform::MacOs => "\u{274C} No microphone device available for recording",
            Platform::Windows | Platform::Other => "No microphone device available",
        }
    }
}

/// The default devices of a recording: it needs a microphone, and takes the system's sound where
/// there is any.
pub fn default_devices(
    microphone: Option<AudioDevice>,
    system_audio: Option<AudioDevice>,
) -> (r: Result<(AudioDevice, Option<AudioDevice>), NoMicrophone>)
    ensures
        match microphone {
            Some(device) => r == Ok::<(AudioDevice, Option<AudioDevice>), NoMicrophone>(
                (device, system_audio)),
            None => r is Err,
        },
{
    match microphone {
        Some(device) => Ok((device, system_audio)),
        None => Err(NoMicrophone),
    }
}

/// The length of a recording for its metadata: as it was before the recording was ended, where it
/// was taken then.
pub fn saved_duration(
    duration_before_stop: Option<i128>,
    state: &RecordingState,
    now_ns: u64,
) -> (r: Option<i128>)
    ensures
        match duration_before_stop {
            Some(duration) => r == Some(duration),
            None => match r {
                Some(duration) => state@.active_duration(now_ns) == Some(duration as int),
                None => state@.active_duration(now_ns) is None,
            },
        },
{
    match duration_before_stop {
        Some(duration) => Some(duration),
        None => state.get_active_recording_duration(now_ns),
    }
}

/// The outcome of saving: a recording that is saved without its last evidence is a failure too.
pub fn save_recording_only(
    saved: Result<Option<String>, String>,
    evidence_error: Option<String>,
) -> (r: Result<(), String>)
    ensures
        match saved {
            Err(error) => r == Err::<(), String>(error),
            Ok(_) => match evidence_error {
                None => r is Ok,
                Some(error) => r matches Err(message) && message@
                    == "recording was saved, but the final audio route evidence snapshot was not persisted: "@
                    + error@,
            },
        },
{
    match saved {
        Err(error) => Err(error),
        Ok(_) => match evidence_error {
            None => Ok(()),
            Some(error) => Err(
                text::joined(
                    "recording was saved, but the final audio route evidence snapshot was not persisted: ",
                    error.as_str(),
                ),
            ),
        },
    }
}

} // verus!
