//! Taking a pause back, step by step.
//!
//! On Windows a pause is only taken back once the devices of both routes are known to be there.

use vstd::prelude::*;
use vstd::string::*;

use crate::devices::configuration::{device_views, AudioDevice, Device};
use crate::recording_manager::reconnect::{
    begin_resume, check_microphone_route, check_system_route, default_rebound,
    microphone_loss, microphone_verdict, resume_reconnected, system_loss, system_verdict, texts_of,
    DeviceMonitorType, ResumeError, ResumeFailure, ResumeStart, SystemRoute,
};
use crate::recording_preferences::Platform;
use crate::recording_state::error::AudioError;
use crate::recording_state::model::State;
use crate::recording_state::state::{PauseError, RecordingState};

verus! {

/// Where the resuming of a recording stands.
#[derive(Debug, Clone, Copy, PartialEq, Eq, Structural)]
pub enum ResumePhase {
    /// A lost device is bound again.
    Reconnecting,
    /// The devices that are there are listed.
    Listing,
    /// The new default output is bound.
    Rebinding,
    Done,
}

/// What is to be done next.
#[derive(Debug)]
pub enum ResumeAction {
    /// This device is bound again.
    Reconnect { device_name: String, device_type: DeviceMonitorType },
    /// The devices are listed, and the default output is looked up.
    ListDevices,
    /// The new default output is bound in place of the one with this name.
    BindDefault { device_name: String },
    Finish(Result<(), ResumeError>),
}

/// The resuming of a recording.
pub struct ResumeRun {
    pub phase: ResumePhase,
}

/// What comes of taking the pause back now: the failure, if there is one, and the state.
pub open spec fn pause_taken_back(state: State, now_ns: u64) -> (Option<ResumeFailure>, State) {
    if !state.recording {
        (Some(ResumeFailure::Pause(PauseError::ResumeWhenNotRecording)), state)
    } else if !state.paused {
        (Some(ResumeFailure::Pause(PauseError::NotPaused)), state)
    } else {
        (None, state.resumed_at(now_ns))
    }
}

/// `r` ends the run with a failure, or well.
pub open spec fn finishes(r: ResumeAction, failure: Option<ResumeFailure>) -> bool {
    r matches ResumeAction::Finish(result) && match result {
        Ok(_) => failure is None,
        Err(error) => failure == Some(error@),
    }
}

impl ResumeRun {
    fn finish(&mut self, state: &mut RecordingState, now_ns: u64) -> (r: ResumeAction)
        ensures
            final(self).phase == ResumePhase::Done,
            finishes(r, pause_taken_back(old(state)@, now_ns).0),
            final(state)@ == pause_taken_back(old(state)@, now_ns).1,
    {
        self.phase = ResumePhase::Done;
        match state.resume_recording(now_ns) {
            Ok(()) => ResumeAction::Finish(Ok(())),
            Err(error) => ResumeAction::Finish(Err(ResumeError::Pause(error))),
        }
    }

    fn fail(&mut self, error: ResumeError) -> (r: ResumeAction)
        ensures
            final(self).phase == ResumePhase::Done,
            r == ResumeAction::Finish(Err(error)),
    {
        self.phase = ResumePhase::Done;
        ResumeAction::Finish(Err(error))
    }

    /// Begins to resume. Elsewhere than on Windows the pause is taken back at once.
    pub fn start(state: &mut RecordingState, platform: Platform, now_ns: u64) -> (r: (
        ResumeRun,
        ResumeAction,
    ))
        ensures
            final(state)@ == after_resume_request(old(state)@, platform, now_ns),
            r.1 is Finish == (r.0.phase == ResumePhase::Done),
            ({
                let before = old(state)@;
                if !before.recording || !before.paused || platform != Platform::Windows {
                    &&& r.0.phase == ResumePhase::Done
                    &&& finishes(r.1, pause_taken_back(before, now_ns).0)
                    &&& final(state)@ == pause_taken_back(before, now_ns).1
                } else if !before.reconnecting {
                    &&& r.0.phase == ResumePhase::Listing
                    &&& r.1 is ListDevices
                    &&& final(state)@ == before
                } else {
                    &&& final(state)@ == before
                    &&& match before.disconnected_device {
                        None => r.0.phase == ResumePhase::Done && finishes(
                            r.1, Some(ResumeFailure::RouteUnknown)),
                        Some((device, route)) => {
                            &&& r.0.phase == ResumePhase::Reconnecting
                            &&& (r.1 matches ResumeAction::Reconnect { device_name, device_type }
                                && device_name@ == device.name && device_type.route() == route)
                        },
                    }
                }
            }),
    {
        let mut run = ResumeRun { phase: ResumePhase::Listing };
        match begin_resume(state, platform) {
            Err(error) => {
                let action = run.fail(error);
                (run, action)
            },
            Ok(ResumeStart::Reconnect { device_name, device_type }) => {
                run.phase = ResumePhase::Reconnecting;
                (run, ResumeAction::Reconnect { device_name, device_type })
            },
            Ok(ResumeStart::CheckDevices) => if matches!(platform, Platform::Windows) {
                (run, ResumeAction::ListDevices)
            } else {
                let action = run.finish(state, now_ns);
                (run, action)
            },
        }
    }

    /// The lost device was bound again, or was not there, or that failed.
    pub fn reconnected(&mut self, state: &mut RecordingState, outcome: Result<bool, String>) -> (r:
        ResumeAction)
        requires
            old(self).phase == ResumePhase::Reconnecting,
        ensures
            match outcome {
                Ok(true) => {
                    &&& final(self).phase == ResumePhase::Listing
                    &&& r is ListDevices
                    &&& final(state)@ == old(state)@.reconnected()
                },
                Ok(false) => {
                    &&& final(self).phase == ResumePhase::Done
                    &&& finishes(r, Some(ResumeFailure::RouteUnavailable))
                    &&& final(state)@ == old(state)@
                },
                Err(error) => {
                    &&& final(self).phase == ResumePhase::Done
                    &&& finishes(r, Some(ResumeFailure::Failed(error@)))
                    &&& final(state)@ == old(state)@
                },
            },
    {
        let bound: bool = match outcome {
            Ok(bound) => bound,
            Err(error) => {
                return self.fail(ResumeError::Failed(error));
            },
        };
        match resume_reconnected(state, bound) {
            Err(error) => self.fail(error),
            Ok(()) => {
                self.phase = ResumePhase::Listing;
                ResumeAction::ListDevices
            },
        }
    }

    /// The devices that are there were listed, and the default output was looked up, or not. A
    /// device that is gone counts as lost. Returns the next action and the error that a listener
    /// is to be told.
    pub fn devices_listed(
        &mut self,
        state: &mut RecordingState,
        listed: Result<Vec<AudioDevice>, String>,
        default_id: Result<String, String>,
        now_ns: u64,
    ) -> (r: (ResumeAction, Option<AudioError>))
        requires
            old(self).phase == ResumePhase::Listing,
        ensures
            listed matches Ok(available) ==> {
                let end = after_listing(
                    old(state)@, device_views(available@), texts_of(default_id), now_ns);
                &&& final(state)@ == end.2
                &&& r.0 is BindDefault == end.1
                &&& !end.1 ==> finishes(r.0, end.0)
            },
            match listed {
                Err(error) => {
                    &&& final(self).phase == ResumePhase::Done
                    &&& finishes(r.0, Some(ResumeFailure::Failed(error@)))
                    &&& final(state)@ == old(state)@
                    &&& r.1 is None
                },
                Ok(available) => {
                    let devices = device_views(available@);
                    let (microphone, heard) = microphone_verdict(old(state)@, devices);
                    let (system, looked) = system_verdict(heard, devices, texts_of(default_id));
                    &&& r.1 == if microphone is Some {
                        microphone_loss(old(state)@, devices)
                    } else {
                        system_loss(heard, devices, texts_of(default_id))
                    }
                    &&& match (microphone, system) {
                        (Some(failure), _) => {
                            &&& final(self).phase == ResumePhase::Done
                            &&& finishes(r.0, Some(failure))
                            &&& final(state)@ == heard
                        },
                        (None, Err(failure)) => {
                            &&& final(self).phase == ResumePhase::Done
                            &&& finishes(r.0, Some(failure))
                            &&& final(state)@ == looked
                        },
                        (None, Ok(SystemRoute::Rebind)) => {
                            &&& final(self).phase == ResumePhase::Rebinding
                            &&& (r.0 matches ResumeAction::BindDefault { device_name } && Some(
                                device_name@) == name_of(heard.system_device))
                            &&& final(state)@ == looked
                        },
                        (None, Ok(SystemRoute::Ready)) => {
                            &&& final(self).phase == ResumePhase::Done
                            &&& finishes(r.0, pause_taken_back(looked, now_ns).0)
                            &&& final(state)@ == pause_taken_back(looked, now_ns).1
                        },
                    }
                },
            },
    {
        let available = match listed {
            Ok(available) => available,
            Err(error) => {
                return (self.fail(ResumeError::Failed(error)), None);
            },
        };
        let (heard, notice) = check_microphone_route(state, &available);
        if let Err(error) = heard {
            return (self.fail(error), notice);
        }
        let system = state.get_system_device();
        let (looked, notice) = check_system_route(state, &available, default_id);
        match looked {
            Err(error) => (self.fail(error), notice),
            Ok(SystemRoute::Ready) => (self.finish(state, now_ns), notice),
            Ok(SystemRoute::Rebind) => {
                self.phase = ResumePhase::Rebinding;
                let device_name = match system {
                    Some(device) => device.name,
                    None => String::new(),
                };
                (ResumeAction::BindDefault { device_name }, notice)
            },
        }
    }

    /// The new default output was bound, or was not there, or that failed.
    pub fn default_bound(
        &mut self,
        state: &mut RecordingState,
        outcome: Result<bool, String>,
        now_ns: u64,
    ) -> (r: ResumeAction)
        requires
            old(self).phase == ResumePhase::Rebinding,
        ensures
            final(state)@ == after_binding(old(state)@, outcome is Ok && outcome->Ok_0, now_ns),
            final(self).phase == ResumePhase::Done,
            match outcome {
                Ok(true) => {
                    let bound = old(state)@.reconnected();
                    &&& finishes(r, pause_taken_back(bound, now_ns).0)
                    &&& final(state)@ == pause_taken_back(bound, now_ns).1
                },
                Ok(false) => {
                    &&& finishes(r, Some(ResumeFailure::NewDefaultUnavailable))
                    &&& final(state)@ == old(state)@
                },
                Err(error) => {
                    &&& finishes(r, Some(ResumeFailure::Failed(error@)))
                    &&& final(state)@ == old(state)@
                },
            },
    {
        let bound: bool = match outcome {
            Ok(bound) => bound,
            Err(error) => {
                return self.fail(ResumeError::Failed(error));
            },
        };
        match default_rebound(state, bound) {
            Err(error) => self.fail(error),
            Ok(()) => self.finish(state, now_ns),
        }
    }
}

/// The name of a device that may be missing.
pub open spec fn name_of(device: Option<Device>) -> Option<Seq<char>> {
    match device {
        Some(device) => Some(device.name),
        None => None,
    }
}

/// The pause is as it was.
pub open spec fn keeps_pause(before: State, after: State) -> bool {
    &&& after.total_pause_ns == before.total_pause_ns
    &&& after.paused == before.paused
    &&& after.pause_start_ns == before.pause_start_ns
}

/// Law: on Windows a look at the devices never takes a pause back. The recording stays as long
/// paused as it was, and it is still paused since the same time, unless a device was lost once
/// too often: that ends the recording.
pub proof fn missing_devices_keep_the_pause(
    state: State,
    devices: Seq<Device>,
    default_id: Result<Seq<char>, Seq<char>>,
)
    ensures
        microphone_verdict(state, devices).1.total_pause_ns == state.total_pause_ns,
        system_verdict(state, devices, default_id).1.total_pause_ns == state.total_pause_ns,
        state.error_ends(AudioError::DeviceDisconnected) || {
            &&& keeps_pause(state, microphone_verdict(state, devices).1)
            &&& keeps_pause(state, system_verdict(state, devices, default_id).1)
        },
{
}

/// Law: a pause is taken back only where there is one, and then the recording runs on.
pub proof fn only_a_paused_recording_resumes(state: State, now_ns: u64)
    ensures
        pause_taken_back(state, now_ns).0 is None <==> state.recording && state.paused,
        pause_taken_back(state, now_ns).0 is Some ==> pause_taken_back(state, now_ns).1 == state,
        pause_taken_back(state, now_ns).0 is None ==> {
            let after = pause_taken_back(state, now_ns).1;
            !after.paused && after.recording && after.pause_start_ns is None
        },
{
}

/// The state right after the user asked to resume: on Windows the devices are looked at first.
pub open spec fn after_resume_request(state: State, platform: Platform, now_ns: u64) -> State {
    if platform == Platform::Windows {
        state
    } else {
        pause_taken_back(state, now_ns).1
    }
}

/// What comes of looking at the devices: a failure, or that the default output is to be bound, or
/// that the pause is taken back; and the state then.
pub open spec fn after_listing(
    state: State,
    devices: Seq<Device>,
    default_id: Result<Seq<char>, Seq<char>>,
    now_ns: u64,
) -> (Option<ResumeFailure>, bool, State) {
    let (microphone, heard) = microphone_verdict(state, devices);
    let (system, looked) = system_verdict(heard, devices, default_id);
    match (microphone, system) {
        (Some(failure), _) => (Some(failure), false, heard),
        (None, Err(failure)) => (Some(failure), false, looked),
        (None, Ok(SystemRoute::Rebind)) => (None, true, looked),
        (None, Ok(SystemRoute::Ready)) => (
            pause_taken_back(looked, now_ns).0,
            false,
            pause_taken_back(looked, now_ns).1,
        ),
    }
}

/// The state once the new default output was bound, or was not.
pub open spec fn after_binding(state: State, bound: bool, now_ns: u64) -> State {
    if bound {
        pause_taken_back(state.reconnected(), now_ns).1
    } else {
        state
    }
}

/// Law: on Windows a paused recording is never resumed before its devices were looked at; where
/// one is gone, or the default output has changed, it stays paused; and it runs on where all are
/// there.
pub proof fn a_recording_resumes_with_its_devices(
    state: State,
    devices: Seq<Device>,
    default_id: Result<Seq<char>, Seq<char>>,
    now_ns: u64,
)
    requires
        state.recording,
        state.paused,
        !state.error_ends(AudioError::DeviceDisconnected),
    ensures
        after_resume_request(state, Platform::Windows, now_ns) == state,
        !after_resume_request(state, Platform::MacOs, now_ns).paused,
        !after_resume_request(state, Platform::Other, now_ns).paused,
        ({
            let end = after_listing(state, devices, default_id, now_ns);
            let microphone_gone = state.microphone_device matches Some(device) && !(exists|i: int|
                0 <= i < devices.len() && (#[trigger] devices[i]).native_id is Some
                    && devices[i].native_id == device.native_id);
            let system_gone = state.system_device matches Some(device) && device.default_role
                is None && !(exists|i: int|
                0 <= i < devices.len() && (#[trigger] devices[i]).native_id is Some
                    && devices[i].native_id == device.native_id);
            &&& microphone_gone ==> end.0 is Some && !end.1 && end.2.paused
            &&& system_gone ==> end.0 is Some && !end.1 && end.2.paused
            &&& end.1 ==> end.2.paused && end.2.reconnecting
            &&& !end.2.paused ==> end.0 is None && !end.1
            &&& end.0 is None && !end.1 ==> !end.2.paused && end.2.recording
        }),
        after_binding(state, false, now_ns) == state,
        !after_binding(state, true, now_ns).paused,
        !after_binding(state, true, now_ns).reconnecting,
{
    if let Some(device) = state.microphone_device {
        if let Some(id) = device.native_id {
            if crate::recording_manager::reconnect::has_id(devices, id) {
                let i = choose|i: int|
                    0 <= i < devices.len() && (#[trigger] devices[i]).native_id == Some(id);
                assert(devices[i].native_id == device.native_id);
            }
        }
    }
    if let Some(device) = state.system_device {
        if let Some(id) = device.native_id {
            if crate::recording_manager::reconnect::has_id(devices, id) {
                let i = choose|i: int|
                    0 <= i < devices.len() && (#[trigger] devices[i]).native_id == Some(id);
                assert(devices[i].native_id == device.native_id);
            }
        }
    }
}

} // verus!
