//! Binding a device again, step by step.
//!
//! The old streams are ended and drained first, then the route is let go, then the new streams are
//! opened, and only then the new binding takes over and is saved.

use vstd::prelude::*;
use vstd::string::*;

use crate::devices::configuration::{clone_device, device_views, AudioDevice, Device};
use crate::recording_manager::reconnect::{
    binding_persisted, bound_device, find_reconnect_device, is_replacement, rebound,
    release_route, released, start_failure, streams_restarted, DeviceMonitorType,
};
use crate::recording_preferences::Platform;
use crate::recording_state::model::State;
use crate::recording_state::state::{device_of, RecordingState};

verus! {

/// Pause between letting a route go and opening the new streams, in milliseconds.
pub const RESTART_PAUSE_MS: u64 = 100;

/// Where the binding of a device stands.
#[derive(Debug, Clone, Copy, PartialEq, Eq, Structural)]
pub enum ReplacePhase {
    /// The old streams are ended and drained.
    Rebinding,
    /// The new streams are opened, in this epoch.
    Restarting(u64),
    /// The new binding is saved.
    Persisting(u64),
    Done,
}

/// What is to be done next.
#[derive(Debug)]
pub enum ReplaceAction {
    Rebind,
    /// The streams of both routes are opened in a new epoch.
    RestartStreams { microphone: Option<AudioDevice>, system: Option<AudioDevice>, epoch: u64 },
    /// The devices of both routes, and the evidence of the routes, are saved.
    Persist { epoch: u64 },
    /// The outcome: whether the device was there. Evidence that changed is saved before.
    Finish { result: Result<bool, String>, save_evidence: bool },
}

/// The binding of a device in place of one that was lost.
pub struct ReplaceRun {
    pub device_type: DeviceMonitorType,
    pub device: AudioDevice,
    /// The device of the other route, which stays.
    pub other: Option<AudioDevice>,
    pub phase: ReplacePhase,
}

/// The device of the other route.
pub open spec fn other_device(state: State, device_type: DeviceMonitorType) -> Option<Device> {
    match device_type {
        DeviceMonitorType::Microphone => state.system_device,
        DeviceMonitorType::SystemAudio => state.microphone_device,
    }
}

/// Why no device is bound.
#[derive(Debug)]
pub enum ReplaceStart {
    /// The devices could not be listed.
    Failed(String),
    /// There is no device to bind.
    NotAvailable,
}

impl ReplaceRun {
    /// Looks for the device to bind. Nothing is touched before it is found.
    pub fn start(
        state: &RecordingState,
        platform: Platform,
        listed: Result<Vec<AudioDevice>, String>,
        default_output: Option<AudioDevice>,
        device_name: &str,
        device_type: DeviceMonitorType,
    ) -> (r: Result<ReplaceRun, ReplaceStart>)
        ensures
            match listed {
                Err(error) => r == Err::<ReplaceRun, ReplaceStart>(ReplaceStart::Failed(error)),
                Ok(available) => match r {
                    Ok(run) => {
                        &&& is_replacement(
                            platform,
                            bound_device(state@, device_type),
                            device_views(available@),
                            device_of(default_output),
                            device_name@,
                            device_type,
                            Some(run.device@),
                        )
                        &&& run.device_type == device_type
                        &&& device_of(run.other) == other_device(state@, device_type)
                        &&& run.phase == ReplacePhase::Rebinding
                    },
                    Err(refusal) => refusal is NotAvailable && is_replacement(
                        platform,
                        bound_device(state@, device_type),
                        device_views(available@),
                        device_of(default_output),
                        device_name@,
                        device_type,
                        None,
                    ),
                },
            },
    {
        let available = match listed {
            Ok(available) => available,
            Err(error) => {
                return Err(ReplaceStart::Failed(error));
            },
        };
        let microphone = state.get_microphone_device();
        let system = state.get_system_device();
        let (bound, other) = match device_type {
            DeviceMonitorType::Microphone => (microphone, system),
            DeviceMonitorType::SystemAudio => (system, microphone),
        };
        match find_reconnect_device(
            platform,
            &bound,
            &available,
            default_output,
            device_name,
            device_type,
        ) {
            Some(device) => Ok(
                ReplaceRun { device_type, device, other, phase: ReplacePhase::Rebinding },
            ),
            None => Err(ReplaceStart::NotAvailable),
        }
    }

    /// The devices of both routes with the new one in its place.
    pub open spec fn devices(self) -> (Option<Device>, Option<Device>) {
        match self.device_type {
            DeviceMonitorType::Microphone => (Some(self.device@), device_of(self.other)),
            DeviceMonitorType::SystemAudio => (device_of(self.other), Some(self.device@)),
        }
    }

    /// The old streams were ended and drained, which began a new epoch, or not. Only then is the
    /// route let go.
    pub fn rebound(&mut self, state: &mut RecordingState, outcome: Result<u64, String>) -> (r:
        ReplaceAction)
        requires
            old(self).phase == ReplacePhase::Rebinding,
        ensures
            match outcome {
                Err(error) => {
                    &&& r == (ReplaceAction::Finish { result: Err(error), save_evidence: false })
                    &&& *final(self) == (ReplaceRun { phase: ReplacePhase::Done, ..*old(self) })
                    &&& final(state)@ == old(state)@
                },
                Ok(epoch) => {
                    &&& (r matches ReplaceAction::RestartStreams { microphone, system, epoch: e }
                        && (device_of(microphone), device_of(system)) == old(self).devices() && e
                        == epoch)
                    &&& *final(self) == (ReplaceRun {
                        phase: ReplacePhase::Restarting(epoch),
                        ..*old(self)
                    })
                    &&& final(state)@ == released(old(state)@, old(self).device_type)
                },
            },
    {
        let epoch: u64 = match outcome {
            Ok(epoch) => epoch,
            Err(error) => {
                self.phase = ReplacePhase::Done;
                return ReplaceAction::Finish { result: Err(error), save_evidence: false };
            },
        };
        release_route(state, self.device_type);
        self.phase = ReplacePhase::Restarting(epoch);
        let device = Some(self.device.clone());
        let other = clone_device(&self.other);
        match self.device_type {
            DeviceMonitorType::Microphone => ReplaceAction::RestartStreams {
                microphone: device,
                system: other,
                epoch,
            },
            DeviceMonitorType::SystemAudio => ReplaceAction::RestartStreams {
                microphone: other,
                system: device,
                epoch,
            },
        }
    }

    /// The new streams were opened, or not. Only then does the new device take over.
    pub fn restarted(&mut self, state: &mut RecordingState, outcome: Result<(), String>) -> (r:
        ReplaceAction)
        requires
            old(self).phase is Restarting,
        ensures
            old(self).phase matches ReplacePhase::Restarting(epoch) && match outcome {
                Err(error) => {
                    &&& r == (ReplaceAction::Finish { result: Err(error), save_evidence: true })
                    &&& *final(self) == (ReplaceRun { phase: ReplacePhase::Done, ..*old(self) })
                    &&& final(state)@ == old(state)@.cutover_failed(
                        epoch, start_failure(old(self).device_type))
                },
                Ok(_) => {
                    &&& r == (ReplaceAction::Persist { epoch })
                    &&& *final(self) == (ReplaceRun {
                        phase: ReplacePhase::Persisting(epoch),
                        ..*old(self)
                    })
                    &&& final(state)@ == rebound(
                        old(state)@, old(self).device_type, old(self).device@).cutover_finished(
                        epoch)
                },
            },
    {
        let epoch: u64 = match self.phase {
            ReplacePhase::Restarting(epoch) => epoch,
            _ => 0,
        };
        let device = self.device.clone();
        streams_restarted(state, self.device_type, device, epoch, outcome.is_ok());
        match outcome {
            Err(error) => {
                self.phase = ReplacePhase::Done;
                ReplaceAction::Finish { result: Err(error), save_evidence: true }
            },
            Ok(_) => {
                self.phase = ReplacePhase::Persisting(epoch);
                ReplaceAction::Persist { epoch }
            },
        }
    }

    /// The new binding was saved, or not.
    pub fn persisted(&mut self, state: &mut RecordingState, outcome: Result<(), String>) -> (r:
        ReplaceAction)
        requires
            old(self).phase is Persisting,
        ensures
            *final(self) == (ReplaceRun { phase: ReplacePhase::Done, ..*old(self) }),
            old(self).phase matches ReplacePhase::Persisting(epoch) && match outcome {
                Err(error) => {
                    &&& r == (ReplaceAction::Finish { result: Err(error), save_evidence: false })
                    &&& final(state)@ == old(state)@.cutover_failed(
                        epoch, "route_metadata_persist_failed"@)
                },
                Ok(_) => {
                    &&& r == (ReplaceAction::Finish { result: Ok(true), save_evidence: false })
                    &&& final(state)@ == old(state)@
                },
            },
    {
        let epoch: u64 = match self.phase {
            ReplacePhase::Persisting(epoch) => epoch,
            _ => 0,
        };
        self.phase = ReplacePhase::Done;
        binding_persisted(state, epoch, outcome.is_ok());
        match outcome {
            Err(error) => ReplaceAction::Finish { result: Err(error), save_evidence: false },
            Ok(_) => ReplaceAction::Finish { result: Ok(true), save_evidence: false },
        }
    }
}

/// How each step of binding a device ends, once it was found.
#[derive(Debug)]
pub struct ReplaceOutcomes {
    /// The new epoch, once the old streams were ended and drained.
    pub rebound: Result<u64, String>,
    pub restarted: Result<(), String>,
    pub persisted: Result<(), String>,
}

/// What comes of binding a device: the failure, if there is one, and the state.
pub open spec fn replaced(
    state: State,
    device_type: DeviceMonitorType,
    device: Device,
    outcomes: ReplaceOutcomes,
) -> (Option<Seq<char>>, State) {
    match (outcomes.rebound, outcomes.restarted, outcomes.persisted) {
        (Err(error), _, _) => (Some(error@), state),
        (Ok(epoch), Err(error), _) => (
            Some(error@),
            released(state, device_type).cutover_failed(epoch, start_failure(device_type)),
        ),
        (Ok(epoch), Ok(_), Err(error)) => (
            Some(error@),
            rebound(released(state, device_type), device_type, device).cutover_finished(
                epoch).cutover_failed(epoch, "route_metadata_persist_failed"@),
        ),
        (Ok(epoch), Ok(_), Ok(_)) => (
            None,
            rebound(released(state, device_type), device_type, device).cutover_finished(epoch),
        ),
    }
}

/// Binds a device that was found, given how each step ends.
pub fn replace_device(run: ReplaceRun, state: &mut RecordingState, outcomes: ReplaceOutcomes) -> (r:
    Result<bool, String>)
    requires
        run.phase == ReplacePhase::Rebinding,
    ensures
        match r {
            Ok(done) => done && replaced(
                old(state)@, run.device_type, run.device@, outcomes) == (
                None::<Seq<char>>,
                final(state)@,
            ),
            Err(message) => replaced(old(state)@, run.device_type, run.device@, outcomes) == (
                Some(message@),
                final(state)@,
            ),
        },
{
    let mut run = run;
    if let ReplaceAction::Finish { result, save_evidence: _ } = run.rebound(
        state, outcomes.rebound) {
        return result;
    }
    if let ReplaceAction::Finish { result, save_evidence: _ } = run.restarted(
        state, outcomes.restarted) {
        return result;
    }
    match run.persisted(state, outcomes.persisted) {
        ReplaceAction::Finish { result, save_evidence: _ } => result,
        _ => Ok(true),
    }
}

/// Law: a device is only reported as bound when the old streams were drained, the new ones opened,
/// and the binding saved; and then it is the device of its route, in the new epoch.
pub proof fn bound_means_drained_opened_and_saved(
    state: State,
    device_type: DeviceMonitorType,
    device: Device,
    outcomes: ReplaceOutcomes,
)
    requires
        replaced(state, device_type, device, outcomes).0 is None,
    ensures
        outcomes.rebound is Ok,
        outcomes.restarted is Ok,
        outcomes.persisted is Ok,
        bound_device(replaced(state, device_type, device, outcomes).1, device_type) == Some(
            device),
        other_device(replaced(state, device_type, device, outcomes).1, device_type)
            == other_device(state, device_type),
{
}

/// Law: a device that could not be replaced is told of, and the recording says so: it stays bound
/// where the old streams could not be drained, and is let go where the new one did not open; the
/// device of the other route is never touched.
pub proof fn a_failed_replacement_is_told(
    state: State,
    device_type: DeviceMonitorType,
    device: Device,
    outcomes: ReplaceOutcomes,
)
    ensures
        ({
            let r = replaced(state, device_type, device, outcomes);
            &&& r.0 is Some <==> outcomes.rebound is Err || outcomes.restarted is Err
                || outcomes.persisted is Err
            &&& outcomes.rebound matches Err(error) ==> r == (Some(error@), state)
            &&& outcomes.rebound is Ok && outcomes.restarted is Err ==> r.0 == Some(
                outcomes.restarted->Err_0@) && bound_device(r.1, device_type) is None
            &&& outcomes.rebound is Ok && outcomes.restarted is Ok ==> bound_device(
                r.1, device_type) == Some(device)
            &&& other_device(r.1, device_type) == other_device(state, device_type)
            &&& state.cutovers.len() > 0 && outcomes.rebound is Ok && outcomes.restarted is Err
                ==> r.1.cutovers.last().terminal_result == "failed"@
        }),
{
}

} // verus!
