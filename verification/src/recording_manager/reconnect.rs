//! Finding a lost device again, and taking a pause back.

use vstd::prelude::*;
use vstd::string::*;

use crate::devices::configuration::{device_views, AudioDevice, Device};
use crate::recording_preferences::Platform;
use crate::recording_state::error::AudioError;
use crate::recording_state::model::{DeviceType, State};
use crate::recording_state::state::{device_of, PauseError, RecordingState};
use crate::text;

verus! {

/// The kind of device that is watched for changes.
#[derive(Debug, Clone, Copy, PartialEq, Eq, Structural)]
pub enum DeviceMonitorType {
    Microphone,
    SystemAudio,
}

impl DeviceMonitorType {
    /// The route that the device belongs to.
    pub open spec fn route(self) -> DeviceType {
        match self {
            DeviceMonitorType::Microphone => DeviceType::Microphone,
            DeviceMonitorType::SystemAudio => DeviceType::System,
        }
    }

    /// The route that the device belongs to.
    pub fn recording_type(&self) -> (r: DeviceType)
        ensures
            r == self.route(),
    {
        match *self {
            DeviceMonitorType::Microphone => DeviceType::Microphone,
            DeviceMonitorType::SystemAudio => DeviceType::System,
        }
    }
}

/// The device that is bound to a route.
pub open spec fn bound_device(state: State, device_type: DeviceMonitorType) -> Option<Device> {
    match device_type {
        DeviceMonitorType::Microphone => state.microphone_device,
        DeviceMonitorType::SystemAudio => state.system_device,
    }
}

fn get_bound(state: &RecordingState, device_type: DeviceMonitorType) -> (r: Option<AudioDevice>)
    ensures
        device_of(r) == bound_device(state@, device_type),
{
    match device_type {
        DeviceMonitorType::Microphone => state.get_microphone_device(),
        DeviceMonitorType::SystemAudio => state.get_system_device(),
    }
}

/// The state once a device was lost: the route waits for it, and the loss is counted.
pub open spec fn disconnected(state: State, device_type: DeviceMonitorType) -> State {
    match bound_device(state, device_type) {
        Some(device) => state.reconnecting_to(device, device_type.route()).error_reported(
            AudioError::DeviceDisconnected),
        None => state,
    }
}

/// A device was lost. Returns the error that a listener is to be told.
pub fn handle_device_disconnect(state: &mut RecordingState, device_type: DeviceMonitorType) -> (
notice: Option<AudioError>)
    ensures
        final(state)@ == disconnected(old(state)@, device_type),
        notice == if bound_device(old(state)@, device_type) is Some {
            old(state)@.notice(AudioError::DeviceDisconnected)
        } else {
            None
        },
{
    match get_bound(state, device_type) {
        Some(device) => {
            state.start_reconnecting(device, device_type.recording_type());
            state.report_error(AudioError::DeviceDisconnected)
        },
        None => None,
    }
}

/// A device can stand for the one that was bound: it has its identifier, or its name where the
/// platform gives no identifiers.
pub open spec fn is_same_device(
    platform: Platform,
    bound: Device,
    candidate: Device,
    device_name: Seq<char>,
) -> bool {
    match bound.native_id {
        Some(id) => candidate.native_id == Some(id),
        None => platform != Platform::Windows && candidate.name == device_name,
    }
}

/// Position `i` is the first that can stand for the bound device.
pub open spec fn first_same(
    platform: Platform,
    bound: Device,
    available: Seq<Device>,
    device_name: Seq<char>,
    i: int,
) -> bool {
    &&& 0 <= i < available.len()
    &&& is_same_device(platform, bound, available[i], device_name)
    &&& forall|j: int| 0 <= j < i ==> !is_same_device(
        platform, bound, #[trigger] available[j], device_name)
}

/// The default output follows the system; every other device has to be the very same one.
pub open spec fn follows_default(bound: Device, device_type: DeviceMonitorType) -> bool {
    bound.default_role is Some && device_type == DeviceMonitorType::SystemAudio
}

/// `found` is the device to bind again in place of `bound`.
pub open spec fn is_replacement(
    platform: Platform,
    bound: Option<Device>,
    available: Seq<Device>,
    default_output: Option<Device>,
    device_name: Seq<char>,
    device_type: DeviceMonitorType,
    found: Option<Device>,
) -> bool {
    match bound {
        None => found is None,
        Some(b) => if follows_default(b, device_type) {
            found == default_output
        } else {
            match found {
                Some(device) => exists|i: int| #[trigger]
                    first_same(platform, b, available, device_name, i) && device == available[i],
                None => forall|j: int| 0 <= j < available.len() ==> !is_same_device(
                    platform, b, #[trigger] available[j], device_name),
            }
        },
    }
}

/// Finds the device to bind again. A device of the same name is no replacement for one that had an
/// identifier. `default_output` is the default output now, if there is one.
pub fn find_reconnect_device(
    platform: Platform,
    bound: &Option<AudioDevice>,
    available: &Vec<AudioDevice>,
    default_output: Option<AudioDevice>,
    device_name: &str,
    device_type: DeviceMonitorType,
) -> (r: Option<AudioDevice>)
    ensures
        is_replacement(
            platform,
            device_of(*bound),
            device_views(available@),
            device_of(default_output),
            device_name@,
            device_type,
            device_of(r),
        ),
{
    let bound = match bound {
        Some(bound) => bound,
        None => {
            return None;
        },
    };
    if bound.default_role.is_some() && matches!(device_type, DeviceMonitorType::SystemAudio) {
        return default_output;
    }
    find_same(platform, bound, available, device_name)
}

fn find_same(
    platform: Platform,
    bound: &AudioDevice,
    available: &Vec<AudioDevice>,
    device_name: &str,
) -> (r: Option<AudioDevice>)
    ensures
        match r {
            Some(device) => exists|i: int| #[trigger]
                first_same(platform, bound@, device_views(available@), device_name@, i) && device@
                    == device_views(available@)[i],
            None => forall|j: int| 0 <= j < available@.len() ==> !is_same_device(
                platform, bound@, #[trigger] device_views(available@)[j], device_name@),
        },
{
    let ghost views = device_views(available@);
    let mut i: usize = 0;
    while i < available.len()
        invariant
            i <= available@.len(),
            views == device_views(available@),
            forall|j: int| 0 <= j < i ==> !is_same_device(
                platform, bound@, #[trigger] views[j], device_name@),
        decreases available@.len() - i,
    {
        assert(views[i as int] == available@[i as int]@);
        let same: bool = match &bound.native_id {
            Some(id) => match &available[i].native_id {
                Some(candidate) => *candidate == *id,
                None => false,
            },
            None => match platform {
                Platform::Windows => false,
                Platform::MacOs | Platform::Other => text::same(
                    available[i].name.as_str(), device_name),
            },
        };
        if same {
            let device = available[i].clone();
            assert(first_same(platform, bound@, views, device_name@, i as int));
            return Some(device);
        }
        i = i + 1;
    }
    None
}

/// The state once the old streams are drained and the device of a route is let go.
pub open spec fn released(state: State, device_type: DeviceMonitorType) -> State {
    match device_type {
        DeviceMonitorType::Microphone => State {
            microphone_device: None,
            evidence_dirty: true,
            ..state
        },
        DeviceMonitorType::SystemAudio => State {
            system_device: None,
            evidence_dirty: true,
            ..state
        },
    }
}

/// The state with a device bound to a route.
pub open spec fn rebound(state: State, device_type: DeviceMonitorType, device: Device) -> State {
    match device_type {
        DeviceMonitorType::Microphone => State { microphone_device: Some(device), ..state },
        DeviceMonitorType::SystemAudio => State { system_device: Some(device), ..state },
    }
}

/// Why new streams could not be started.
pub open spec fn start_failure(device_type: DeviceMonitorType) -> Seq<char> {
    match device_type {
        DeviceMonitorType::Microphone => "new_microphone_stream_start_failed"@,
        DeviceMonitorType::SystemAudio => "new_system_stream_start_failed"@,
    }
}

/// Lets the device of a route go before the new one is bound.
pub fn release_route(state: &mut RecordingState, device_type: DeviceMonitorType)
    ensures
        final(state)@ == released(old(state)@, device_type),
{
    match device_type {
        DeviceMonitorType::Microphone => state.clear_microphone_device(),
        DeviceMonitorType::SystemAudio => state.clear_system_device(),
    }
}

/// The new streams were started, or not. Only then does the new epoch take over.
pub fn streams_restarted(
    state: &mut RecordingState,
    device_type: DeviceMonitorType,
    device: AudioDevice,
    epoch: u64,
    started: bool,
)
    ensures
        final(state)@ == if started {
            rebound(old(state)@, device_type, device@).cutover_finished(epoch)
        } else {
            old(state)@.cutover_failed(epoch, start_failure(device_type))
        },
{
    if !started {
        match device_type {
            DeviceMonitorType::Microphone => {
                state.fail_device_cutover(epoch, "new_microphone_stream_start_failed");
            },
            DeviceMonitorType::SystemAudio => {
                state.fail_device_cutover(epoch, "new_system_stream_start_failed");
            },
        }
        return;
    }
    match device_type {
        DeviceMonitorType::Microphone => state.set_microphone_device(device),
        DeviceMonitorType::SystemAudio => state.set_system_device(device),
    }
    state.finish_device_cutover(epoch);
}

/// The new binding was saved, or not.
pub fn binding_persisted(state: &mut RecordingState, epoch: u64, persisted: bool)
    ensures
        final(state)@ == if persisted {
            old(state)@
        } else {
            old(state)@.cutover_failed(epoch, "route_metadata_persist_failed"@)
        },
{
    if !persisted {
        state.fail_device_cutover(epoch, "route_metadata_persist_failed");
    }
}

/// Why a device was not reconnected.
#[derive(Debug)]
pub enum ReconnectError {
    NotAvailable,
    Failed(String),
}

impl ReconnectError {
    /// The text that describes the failure.
    pub open spec fn text(self) -> Seq<char> {
        match self {
            ReconnectError::NotAvailable => "Device not available"@,
            ReconnectError::Failed(error) => error@,
        }
    }

    pub fn message(&self) -> (r: String)
        ensures
            r@ == self.text(),
    {
        match self {
            ReconnectError::NotAvailable => "Device not available".to_owned(),
            ReconnectError::Failed(error) => error.clone(),
        }
    }
}

/// An attempt to reconnect a device ended: it was found and bound, or not found, or it failed.
/// Only success ends the wait for it.
pub fn handle_device_reconnect(state: &mut RecordingState, attempt: Result<bool, String>) -> (r:
    Result<(), ReconnectError>)
    ensures
        match attempt {
            Ok(true) => r is Ok && final(state)@ == old(state)@.reconnected(),
            Ok(false) => r == Err::<(), ReconnectError>(ReconnectError::NotAvailable)
                && final(state)@ == old(state)@,
            Err(error) => r == Err::<(), ReconnectError>(ReconnectError::Failed(error))
                && final(state)@ == old(state)@,
        },
{
    match attempt {
        Ok(found) => if found {
            state.stop_reconnecting();
            Ok(())
        } else {
            Err(ReconnectError::NotAvailable)
        },
        Err(error) => Err(ReconnectError::Failed(error)),
    }
}

/// Why a recording cannot be resumed.
#[derive(Debug)]
pub enum ResumeError {
    Pause(PauseError),
    /// A device is being reconnected, but it is not known which.
    RouteUnknown,
    RouteUnavailable,
    MicrophoneWithoutId,
    MicrophoneUnavailable(String),
    SystemWithoutId,
    /// The default output could not be read.
    DefaultUnreadable(String),
    NewDefaultUnavailable,
    SystemUnavailable(String),
    /// A device could not be bound, or the devices could not be listed.
    Failed(String),
}

/// What a `ResumeError` stands for.
pub enum ResumeFailure {
    Pause(PauseError),
    RouteUnknown,
    RouteUnavailable,
    MicrophoneWithoutId,
    MicrophoneUnavailable(Seq<char>),
    SystemWithoutId,
    DefaultUnreadable(Seq<char>),
    NewDefaultUnavailable,
    SystemUnavailable(Seq<char>),
    Failed(Seq<char>),
}

impl View for ResumeError {
    type V = ResumeFailure;

    open spec fn view(&self) -> ResumeFailure {
        match *self {
            ResumeError::Pause(error) => ResumeFailure::Pause(error),
            ResumeError::RouteUnknown => ResumeFailure::RouteUnknown,
            ResumeError::RouteUnavailable => ResumeFailure::RouteUnavailable,
            ResumeError::MicrophoneWithoutId => ResumeFailure::MicrophoneWithoutId,
            ResumeError::MicrophoneUnavailable(id) => ResumeFailure::MicrophoneUnavailable(id@),
            ResumeError::SystemWithoutId => ResumeFailure::SystemWithoutId,
            ResumeError::DefaultUnreadable(error) => ResumeFailure::DefaultUnreadable(error@),
            ResumeError::NewDefaultUnavailable => ResumeFailure::NewDefaultUnavailable,
            ResumeError::SystemUnavailable(id) => ResumeFailure::SystemUnavailable(id@),
            ResumeError::Failed(error) => ResumeFailure::Failed(error@),
        }
    }
}

impl ResumeFailure {
    /// The text that describes the failure.
    pub open spec fn text(self) -> Seq<char> {
        match self {
            ResumeFailure::Pause(error) => match error {
                PauseError::PauseWhenNotRecording => "Cannot pause when not recording"@,
                PauseError::AlreadyPaused => "Recording is already paused"@,
                PauseError::ResumeWhenNotRecording => "Cannot resume when not recording"@,
                PauseError::NotPaused => "Recording is not paused"@,
            },
            ResumeFailure::RouteUnknown => "Reconnecting route identity is missing"@,
            ResumeFailure::RouteUnavailable =>
                "Audio route is unavailable; recording cannot resume"@,
            ResumeFailure::MicrophoneWithoutId =>
                "Active Windows microphone has no native endpoint ID"@,
            ResumeFailure::MicrophoneUnavailable(id) =>
                "Microphone endpoint is unavailable; recording cannot resume: "@ + id,
            ResumeFailure::SystemWithoutId =>
                "Active Windows system route has no native endpoint ID"@,
            ResumeFailure::DefaultUnreadable(error) => error,
            ResumeFailure::NewDefaultUnavailable =>
                "New default system endpoint is unavailable; recording cannot resume"@,
            ResumeFailure::SystemUnavailable(id) =>
                "System audio endpoint is unavailable; recording cannot resume: "@ + id,
            ResumeFailure::Failed(error) => error,
        }
    }
}

impl ResumeError {
    pub fn message(&self) -> (r: String)
        ensures
            r@ == self@.text(),
    {
        match self {
            ResumeError::Pause(error) => error.message().to_owned(),
            ResumeError::RouteUnknown => "Reconnecting route identity is missing".to_owned(),
            ResumeError::RouteUnavailable =>
                "Audio route is unavailable; recording cannot resume".to_owned(),
            ResumeError::MicrophoneWithoutId =>
                "Active Windows microphone has no native endpoint ID".to_owned(),
            ResumeError::MicrophoneUnavailable(id) => text::joined(
                "Microphone endpoint is unavailable; recording cannot resume: ", id.as_str()),
            ResumeError::SystemWithoutId =>
                "Active Windows system route has no native endpoint ID".to_owned(),
            ResumeError::DefaultUnreadable(error) => error.clone(),
            ResumeError::NewDefaultUnavailable =>
                "New default system endpoint is unavailable; recording cannot resume".to_owned(),
            ResumeError::SystemUnavailable(id) => text::joined(
                "System audio endpoint is unavailable; recording cannot resume: ", id.as_str()),
            ResumeError::Failed(error) => error.clone(),
        }
    }
}

/// What has to be done before a recording can be resumed.
#[derive(Debug)]
pub enum ResumeStart {
    /// The devices can be looked at.
    CheckDevices,
    /// This device has to be reconnected first.
    Reconnect { device_name: String, device_type: DeviceMonitorType },
}

/// Begins to resume a recording. A route that is being reconnected has to be bound first, on
/// Windows, where its devices are checked.
pub fn begin_resume(state: &RecordingState, platform: Platform) -> (r: Result<
    ResumeStart,
    ResumeError,
>)
    ensures
        if !state@.recording {
            r matches Err(e) && e@ == ResumeFailure::Pause(PauseError::ResumeWhenNotRecording)
        } else if !state@.paused {
            r matches Err(e) && e@ == ResumeFailure::Pause(PauseError::NotPaused)
        } else if platform != Platform::Windows || !state@.reconnecting {
            r == Ok::<ResumeStart, ResumeError>(ResumeStart::CheckDevices)
        } else {
            match state@.disconnected_device {
                None => r matches Err(e) && e@ == ResumeFailure::RouteUnknown,
                Some((device, route)) => r matches Ok(
                    ResumeStart::Reconnect { device_name, device_type },
                ) && device_name@ == device.name && device_type.route() == route,
            }
        },
{
    if !state.is_recording() {
        return Err(ResumeError::Pause(PauseError::ResumeWhenNotRecording));
    }
    if !state.is_paused() {
        return Err(ResumeError::Pause(PauseError::NotPaused));
    }
    if !matches!(platform, Platform::Windows) || !state.is_reconnecting() {
        return Ok(ResumeStart::CheckDevices);
    }
    match state.get_disconnected_device() {
        None => Err(ResumeError::RouteUnknown),
        Some((device, route)) => {
            let device_type = match route {
                DeviceType::Microphone => DeviceMonitorType::Microphone,
                DeviceType::System => DeviceMonitorType::SystemAudio,
            };
            Ok(ResumeStart::Reconnect { device_name: device.name, device_type })
        },
    }
}

/// The device that had to be reconnected first was bound, or not.
pub fn resume_reconnected(state: &mut RecordingState, bound: bool) -> (r: Result<(), ResumeError>)
    ensures
        if bound {
            r is Ok && final(state)@ == old(state)@.reconnected()
        } else {
            (r matches Err(e) && e@ == ResumeFailure::RouteUnavailable) && final(state)@
                == old(state)@
        },
{
    if bound {
        state.stop_reconnecting();
        Ok(())
    } else {
        Err(ResumeError::RouteUnavailable)
    }
}

/// A device with this identifier is available.
pub open spec fn has_id(available: Seq<Device>, id: Seq<char>) -> bool {
    exists|i: int| 0 <= i < available.len() && (#[trigger] available[i]).native_id == Some(id)
}

fn lists_id(available: &Vec<AudioDevice>, id: &String) -> (r: bool)
    ensures
        r == has_id(device_views(available@), id@),
{
    let ghost views = device_views(available@);
    let mut i: usize = 0;
    while i < available.len()
        invariant
            i <= available@.len(),
            views == device_views(available@),
            forall|j: int| 0 <= j < i ==> (#[trigger] views[j]).native_id != Some(id@),
        decreases available@.len() - i,
    {
        assert(views[i as int] == available@[i as int]@);
        if let Some(candidate) = &available[i].native_id {
            if *candidate == *id {
                return true;
            }
        }
        i = i + 1;
    }
    false
}

/// What a look at a microphone before resuming gives.
pub open spec fn microphone_verdict(state: State, available: Seq<Device>) -> (
    Option<ResumeFailure>,
    State,
) {
    match state.microphone_device {
        None => (None, state),
        Some(device) => match device.native_id {
            None => (Some(ResumeFailure::MicrophoneWithoutId), state),
            Some(id) => if has_id(available, id) {
                (None, state)
            } else {
                (
                    Some(ResumeFailure::MicrophoneUnavailable(id)),
                    disconnected(state, DeviceMonitorType::Microphone),
                )
            },
        },
    }
}

/// What a listener is told after a look at the microphone before resuming.
pub open spec fn microphone_loss(state: State, available: Seq<Device>) -> Option<AudioError> {
    if microphone_verdict(state, available).0 matches Some(ResumeFailure::MicrophoneUnavailable(
        _,
    )) {
        state.notice(AudioError::DeviceDisconnected)
    } else {
        None
    }
}

/// Checks that the microphone is still there; one that is gone counts as lost. Returns the outcome
/// and the error that a listener is to be told.
pub fn check_microphone_route(state: &mut RecordingState, available: &Vec<AudioDevice>) -> (r: (
    Result<(), ResumeError>,
    Option<AudioError>,
))
    ensures
        r.1 == microphone_loss(old(state)@, device_views(available@)),
        match r.0 {
            Ok(()) => microphone_verdict(old(state)@, device_views(available@)) == (
                None::<ResumeFailure>,
                final(state)@,
            ),
            Err(error) => microphone_verdict(old(state)@, device_views(available@)) == (
                Some(error@),
                final(state)@,
            ),
        },
{
    let microphone = match state.get_microphone_device() {
        Some(microphone) => microphone,
        None => {
            return (Ok(()), None);
        },
    };
    let id = match microphone.native_id {
        Some(id) => id,
        None => {
            return (Err(ResumeError::MicrophoneWithoutId), None);
        },
    };
    if lists_id(available, &id) {
        return (Ok(()), None);
    }
    let notice = handle_device_disconnect(state, DeviceMonitorType::Microphone);
    (Err(ResumeError::MicrophoneUnavailable(id)), notice)
}

/// What is to be done about the system route before resuming.
#[derive(Debug, Clone, Copy, PartialEq, Eq, Structural)]
pub enum SystemRoute {
    Ready,
    /// The default output changed: the new one has to be bound.
    Rebind,
}

/// What a look at the system route before resuming gives.
pub open spec fn system_verdict(
    state: State,
    available: Seq<Device>,
    default_id: Result<Seq<char>, Seq<char>>,
) -> (Result<SystemRoute, ResumeFailure>, State) {
    match state.system_device {
        None => (Ok(SystemRoute::Ready), state),
        Some(device) => match device.native_id {
            None => (Err(ResumeFailure::SystemWithoutId), state),
            Some(id) => if device.default_role is Some {
                match default_id {
                    Err(error) => (Err(ResumeFailure::DefaultUnreadable(error)), state),
                    Ok(default_id) => if default_id == id {
                        (Ok(SystemRoute::Ready), state)
                    } else {
                        (
                            Ok(SystemRoute::Rebind),
                            disconnected(state, DeviceMonitorType::SystemAudio),
                        )
                    },
                }
            } else if has_id(available, id) {
                (Ok(SystemRoute::Ready), state)
            } else {
                (
                    Err(ResumeFailure::SystemUnavailable(id)),
                    disconnected(state, DeviceMonitorType::SystemAudio),
                )
            },
        },
    }
}

/// What an outcome with two texts stands for.
pub open spec fn texts_of(outcome: Result<String, String>) -> Result<Seq<char>, Seq<char>> {
    match outcome {
        Ok(value) => Ok(value@),
        Err(error) => Err(error@),
    }
}

/// What a listener is told after a look at the system route before resuming.
pub open spec fn system_loss(
    state: State,
    available: Seq<Device>,
    default_id: Result<Seq<char>, Seq<char>>,
) -> Option<AudioError> {
    match system_verdict(state, available, default_id).0 {
        Ok(SystemRoute::Rebind) | Err(ResumeFailure::SystemUnavailable(_)) => state.notice(
            AudioError::DeviceDisconnected),
        _ => None,
    }
}

/// Checks the system route. A default output has to be the default still; any other has to be
/// there. `default_id` is the identifier of the default output, which is only looked at for a
/// default output. Returns the outcome and the error that a listener is to be told.
pub fn check_system_route(
    state: &mut RecordingState,
    available: &Vec<AudioDevice>,
    default_id: Result<String, String>,
) -> (r: (Result<SystemRoute, ResumeError>, Option<AudioError>))
    ensures
        r.1 == system_loss(old(state)@, device_views(available@), texts_of(default_id)),
        match r.0 {
            Ok(route) => system_verdict(
                old(state)@, device_views(available@), texts_of(default_id)) == (
                Ok::<SystemRoute, ResumeFailure>(route),
                final(state)@,
            ),
            Err(error) => system_verdict(
                old(state)@, device_views(available@), texts_of(default_id)) == (
                Err::<SystemRoute, ResumeFailure>(error@),
                final(state)@,
            ),
        },
{
    let system = match state.get_system_device() {
        Some(system) => system,
        None => {
            return (Ok(SystemRoute::Ready), None);
        },
    };
    let id = match system.native_id {
        Some(id) => id,
        None => {
            return (Err(ResumeError::SystemWithoutId), None);
        },
    };
    if system.default_role.is_some() {
        let default_id = match default_id {
            Ok(default_id) => default_id,
            Err(error) => {
                return (Err(ResumeError::DefaultUnreadable(error)), None);
            },
        };
        if default_id == id {
            return (Ok(SystemRoute::Ready), None);
        }
        let notice = handle_device_disconnect(state, DeviceMonitorType::SystemAudio);
        return (Ok(SystemRoute::Rebind), notice);
    }
    if lists_id(available, &id) {
        return (Ok(SystemRoute::Ready), None);
    }
    let notice = handle_device_disconnect(state, DeviceMonitorType::SystemAudio);
    (Err(ResumeError::SystemUnavailable(id)), notice)
}

/// The new default output was bound, or not.
pub fn default_rebound(state: &mut RecordingState, bound: bool) -> (r: Result<(), ResumeError>)
    ensures
        if bound {
            r is Ok && final(state)@ == old(state)@.reconnected()
        } else {
            (r matches Err(e) && e@ == ResumeFailure::NewDefaultUnavailable) && final(state)@
                == old(state)@
        },
{
    if bound {
        state.stop_reconnecting();
        Ok(())
    } else {
        Err(ResumeError::NewDefaultUnavailable)
    }
}

/// Law: a device that had an identifier is never replaced by one that only has its name.
pub proof fn names_do_not_replace_identifiers(
    platform: Platform,
    bound: Device,
    candidate: Device,
    device_name: Seq<char>,
)
    requires
        bound.native_id is Some,
        is_same_device(platform, bound, candidate, device_name),
    ensures
        candidate.native_id == bound.native_id,
{
}

/// Law: losing a device never ends a recording by itself, until it is one loss too many, and the
/// device stays known for reconnecting.
pub proof fn a_lost_device_stays_known(state: State, device_type: DeviceMonitorType)
    requires
        bound_device(state, device_type) is Some,
        !state.error_ends(AudioError::DeviceDisconnected),
    ensures
        disconnected(state, device_type).recording == state.recording,
        disconnected(state, device_type).reconnecting,
        disconnected(state, device_type).disconnected_device == Some(
            (bound_device(state, device_type)->0, device_type.route())),
        !disconnected(state, device_type).timeline_open(),
{
}

/// Law: the two routes are not mixed up: what is released, bound or lost on one leaves the device of
/// the other alone.
pub proof fn routes_keep_their_devices(
    state: State,
    device_type: DeviceMonitorType,
    other: DeviceMonitorType,
    device: Device,
)
    requires
        device_type != other,
    ensures
        bound_device(state, DeviceMonitorType::Microphone) == state.microphone_device,
        bound_device(state, DeviceMonitorType::SystemAudio) == state.system_device,
        bound_device(released(state, device_type), device_type) is None,
        bound_device(released(state, device_type), other) == bound_device(state, other),
        released(state, device_type).evidence_dirty,
        bound_device(rebound(state, device_type, device), device_type) == Some(device),
        bound_device(rebound(state, device_type, device), other) == bound_device(state, other),
        !state.error_ends(AudioError::DeviceDisconnected) ==> bound_device(
            disconnected(state, device_type), other) == bound_device(state, other)
            && bound_device(disconnected(state, device_type), device_type) == bound_device(
            state, device_type),
        bound_device(state, device_type) is None ==> disconnected(state, device_type) == state,
        DeviceMonitorType::Microphone.route() == DeviceType::Microphone,
        DeviceMonitorType::SystemAudio.route() == DeviceType::System,
{
}

/// Law: a lost device is replaced by itself, known by its identifier, when it is there again; an
/// output that is the default one is replaced by whatever that is now; without a device on the
/// route nothing is.
pub proof fn lost_devices_are_found_again(
    platform: Platform,
    bound: Device,
    available: Seq<Device>,
    default_output: Option<Device>,
    device_name: Seq<char>,
    device_type: DeviceMonitorType,
    found: Option<Device>,
    i: int,
)
    requires
        is_replacement(
            platform, Some(bound), available, default_output, device_name, device_type, found),
    ensures
        bound.default_role is Some && device_type == DeviceMonitorType::SystemAudio ==> found
            == default_output,
        !(bound.default_role is Some && device_type == DeviceMonitorType::SystemAudio)
            && bound.native_id is Some ==> {
            &&& found matches Some(device) ==> device.native_id == bound.native_id
                && available.contains(device)
            &&& 0 <= i < available.len() && available[i].native_id == bound.native_id ==> found
                is Some
        },
        bound.native_id is None && platform == Platform::Windows && !(bound.default_role is Some
            && device_type == DeviceMonitorType::SystemAudio) ==> found is None,
        is_replacement(
            platform, None, available, default_output, device_name, device_type, found)
            ==> found is None,
{
    if let Some(device) = found {
        if !(bound.default_role is Some && device_type == DeviceMonitorType::SystemAudio) {
            let k = choose|k: int| #[trigger]
                first_same(platform, bound, available, device_name, k) && device == available[k];
            assert(available[k] == device);
        }
    } else if 0 <= i < available.len() && available[i].native_id == bound.native_id
        && bound.native_id is Some && !(bound.default_role is Some && device_type
        == DeviceMonitorType::SystemAudio) {
        assert(!is_same_device(platform, bound, available[i], device_name));
    }
}

/// Law: a recording resumes with the devices it had. A microphone that is gone keeps it paused and
/// is waited for, and so is an output, unless that is the default one, which is followed.
pub proof fn missing_devices_keep_a_recording_from_resuming(
    state: State,
    available: Seq<Device>,
    default_id: Result<Seq<char>, Seq<char>>,
)
    requires
        !state.error_ends(AudioError::DeviceDisconnected),
    ensures
        state.microphone_device is None ==> microphone_verdict(state, available) == (
            None::<ResumeFailure>,
            state,
        ),
        state.microphone_device matches Some(device) ==> (device.native_id matches Some(id) ==> {
            let listed = exists|i: int|
                0 <= i < available.len() && (#[trigger] available[i]).native_id == Some(id);
            &&& listed ==> microphone_verdict(state, available) == (None::<ResumeFailure>, state)
            &&& !listed ==> microphone_verdict(state, available).0 == Some(
                ResumeFailure::MicrophoneUnavailable(id)) && microphone_verdict(
                state, available).1.reconnecting
        }),
        state.system_device is None ==> system_verdict(state, available, default_id).0 == Ok::<
            SystemRoute,
            ResumeFailure,
        >(SystemRoute::Ready),
        state.system_device matches Some(device) ==> (device.native_id matches Some(id) ==> {
            let verdict = system_verdict(state, available, default_id);
            let listed = exists|i: int|
                0 <= i < available.len() && (#[trigger] available[i]).native_id == Some(id);
            &&& device.default_role is Some && default_id == Ok::<Seq<char>, Seq<char>>(id)
                ==> verdict == (Ok::<SystemRoute, ResumeFailure>(SystemRoute::Ready), state)
            &&& device.default_role is Some && default_id is Ok && default_id->Ok_0 != id
                ==> verdict.0 == Ok::<SystemRoute, ResumeFailure>(SystemRoute::Rebind)
                && verdict.1.reconnecting
            &&& device.default_role is None && listed ==> verdict == (
                Ok::<SystemRoute, ResumeFailure>(SystemRoute::Ready),
                state,
            )
            &&& device.default_role is None && !listed ==> verdict.0 is Err
                && verdict.1.reconnecting
        }),
{
}

/// Law: a listener is told of a device that is gone, where there is one, and of none that is there.
pub proof fn lost_devices_are_told_of(
    state: State,
    available: Seq<Device>,
    default_id: Result<Seq<char>, Seq<char>>,
)
    ensures
        microphone_verdict(state, available).0 is None ==> microphone_loss(state, available) is None,
        microphone_verdict(state, available).0 matches Some(ResumeFailure::MicrophoneUnavailable(_))
            ==> microphone_loss(state, available) is Some == state.callback_attached,
        system_verdict(state, available, default_id).0 == Ok::<SystemRoute, ResumeFailure>(
            SystemRoute::Ready) ==> system_loss(state, available, default_id) is None,
        system_verdict(state, available, default_id).0 == Ok::<SystemRoute, ResumeFailure>(
            SystemRoute::Rebind) ==> system_loss(state, available, default_id) is Some
            == state.callback_attached,
        system_loss(state, available, default_id) matches Some(error) ==> error
            == AudioError::DeviceDisconnected,
        microphone_loss(state, available) matches Some(error) ==> error
            == AudioError::DeviceDisconnected,
{
}

} // verus!
