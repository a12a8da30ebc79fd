//! Devices that come and go during a recording.

use vstd::prelude::*;
use vstd::string::*;

use crate::devices::configuration::{clone_text, text_of, AudioDevice, Device};
use crate::recording_commands::control::state_of;
use crate::recording_manager::reconnect::{
    bound_device, disconnected, handle_device_disconnect, handle_device_reconnect,
    DeviceMonitorType,
};
use crate::recording_preferences::Platform;
use crate::recording_state::error::AudioError;
use crate::recording_state::model::{DeviceType, State};
use crate::recording_state::state::{device_of, RecordingState};
use crate::text;

verus! {

/// What the watch on devices saw.
#[derive(Debug)]
pub enum DeviceEvent {
    DeviceDisconnected {
        device_name: String,
        native_id: Option<String>,
        device_type: DeviceMonitorType,
    },
    DeviceReconnected {
        device_name: String,
        native_id: Option<String>,
        device_type: DeviceMonitorType,
    },
    DeviceListChanged,
}

/// What the user is told of an event.
#[derive(Debug)]
pub enum DeviceEventResponse {
    DeviceDisconnected { device_name: String, native_id: Option<String>, device_type: String },
    DeviceReconnected { device_name: String, native_id: Option<String>, device_type: String },
    DeviceListChanged,
}

/// What a `DeviceEventResponse` stands for.
#[verifier::ext_equal]
pub enum Response {
    DeviceDisconnected {
        device_name: Seq<char>,
        native_id: Option<Seq<char>>,
        device_type: Seq<char>,
    },
    DeviceReconnected {
        device_name: Seq<char>,
        native_id: Option<Seq<char>>,
        device_type: Seq<char>,
    },
    DeviceListChanged,
}

impl View for DeviceEventResponse {
    type V = Response;

    open spec fn view(&self) -> Response {
        match *self {
            DeviceEventResponse::DeviceDisconnected { device_name, native_id, device_type } =>
                Response::DeviceDisconnected {
                device_name: device_name@,
                native_id: text_of(native_id),
                device_type: device_type@,
            },
            DeviceEventResponse::DeviceReconnected { device_name, native_id, device_type } =>
                Response::DeviceReconnected {
                device_name: device_name@,
                native_id: text_of(native_id),
                device_type: device_type@,
            },
            DeviceEventResponse::DeviceListChanged => Response::DeviceListChanged,
        }
    }
}

impl DeviceMonitorType {
    /// The name of the kind of device.
    pub open spec fn name(self) -> Seq<char> {
        match self {
            DeviceMonitorType::Microphone => "Microphone"@,
            DeviceMonitorType::SystemAudio => "SystemAudio"@,
        }
    }

    /// The name of the kind of device.
    pub fn label(&self) -> (r: &'static str)
        ensures
            r@ == self.name(),
    {
        match self {
            DeviceMonitorType::Microphone => "Microphone",
            DeviceMonitorType::SystemAudio => "SystemAudio",
        }
    }

    /// The kind of device that a name stands for.
    pub fn from_label(name: &str) -> (r: Option<DeviceMonitorType>)
        ensures
            match r {
                Some(device_type) => name@ == device_type.name(),
                None => name@ != DeviceMonitorType::Microphone.name() && name@
                    != DeviceMonitorType::SystemAudio.name(),
            },
    {
        if text::same(name, "Microphone") {
            Some(DeviceMonitorType::Microphone)
        } else if text::same(name, "SystemAudio") {
            Some(DeviceMonitorType::SystemAudio)
        } else {
            None
        }
    }
}

impl DeviceEvent {
    /// What the user is told of the event.
    pub open spec fn told(self) -> Response {
        match self {
            DeviceEvent::DeviceDisconnected { device_name, native_id, device_type } =>
                Response::DeviceDisconnected {
                device_name: device_name@,
                native_id: text_of(native_id),
                device_type: device_type.name(),
            },
            DeviceEvent::DeviceReconnected { device_name, native_id, device_type } =>
                Response::DeviceReconnected {
                device_name: device_name@,
                native_id: text_of(native_id),
                device_type: device_type.name(),
            },
            DeviceEvent::DeviceListChanged => Response::DeviceListChanged,
        }
    }
}

impl DeviceEventResponse {
    /// What the user is told of an event.
    pub fn from_event(event: &DeviceEvent) -> (r: Self)
        ensures
            r@ == event.told(),
    {
        match event {
            DeviceEvent::DeviceDisconnected { device_name, native_id, device_type } =>
                DeviceEventResponse::DeviceDisconnected {
                device_name: device_name.clone(),
                native_id: clone_text(native_id),
                device_type: device_type.label().to_owned(),
            },
            DeviceEvent::DeviceReconnected { device_name, native_id, device_type } =>
                DeviceEventResponse::DeviceReconnected {
                device_name: device_name.clone(),
                native_id: clone_text(native_id),
                device_type: device_type.label().to_owned(),
            },
            DeviceEvent::DeviceListChanged => DeviceEventResponse::DeviceListChanged,
        }
    }
}

/// The device that was lost is the one that is bound now. On Windows only the identifier counts;
/// elsewhere the name does, where the event has no identifier.
pub open spec fn is_bound_now(
    platform: Platform,
    bound: Option<Device>,
    device_name: Seq<char>,
    native_id: Option<Seq<char>>,
) -> bool {
    match (bound, native_id) {
        (None, _) => false,
        (Some(device), Some(id)) => device.native_id == Some(id),
        (Some(device), None) => platform != Platform::Windows && device.name == device_name,
    }
}

/// Whether the device that was lost is the one that is bound now.
pub fn event_is_current(
    platform: Platform,
    bound: &Option<AudioDevice>,
    device_name: &String,
    native_id: &Option<String>,
) -> (r: bool)
    ensures
        r == is_bound_now(platform, device_of(*bound), device_name@, text_of(*native_id)),
{
    match bound {
        None => false,
        Some(device) => match native_id {
            Some(id) => match &device.native_id {
                Some(bound_id) => *bound_id == *id,
                None => false,
            },
            None => match platform {
                Platform::Windows => false,
                Platform::MacOs | Platform::Other => device.name == *device_name,
            },
        },
    }
}

/// What is to be done about an event.
#[derive(Debug)]
pub enum EventAction {
    Ignore,
    /// A listener is to be told this error, if it is one.
    Lost(Option<AudioError>),
    /// The device is to be bound again.
    Reconnect { device_name: String, device_type: DeviceMonitorType },
}

/// The state once an event was taken note of. Only the loss of the device that is bound now
/// changes anything at once: a late word of a device that was replaced does not.
pub open spec fn after_event(platform: Platform, event: DeviceEvent, state: State) -> State {
    match event {
        DeviceEvent::DeviceDisconnected { device_name, native_id, device_type } => if is_bound_now(
            platform,
            bound_device(state, device_type),
            device_name@,
            text_of(native_id),
        ) {
            disconnected(state, device_type)
        } else {
            state
        },
        _ => state,
    }
}

/// Takes note of an event.
pub fn handle_device_event(
    current: &mut Option<RecordingState>,
    platform: Platform,
    event: DeviceEvent,
) -> (r: EventAction)
    ensures
        match state_of(*old(current)) {
            None => r is Ignore && state_of(*final(current)) is None,
            Some(state) => {
                &&& state_of(*final(current)) == Some(after_event(platform, event, state))
                &&& match event {
                    DeviceEvent::DeviceDisconnected { device_name, native_id, device_type } =>
                        r == if is_bound_now(
                        platform,
                        bound_device(state, device_type),
                        device_name@,
                        text_of(native_id),
                    ) {
                        EventAction::Lost(state.notice(AudioError::DeviceDisconnected))
                    } else {
                        EventAction::Ignore
                    },
                    DeviceEvent::DeviceReconnected { device_name, native_id, device_type } =>
                        r == if state.reconnecting {
                        EventAction::Reconnect { device_name, device_type }
                    } else {
                        EventAction::Ignore
                    },
                    DeviceEvent::DeviceListChanged => r is Ignore,
                }
            },
        },
{
    let state = match current {
        Some(state) => state,
        None => {
            return EventAction::Ignore;
        },
    };
    match event {
        DeviceEvent::DeviceDisconnected { device_name, native_id, device_type } => {
            let bound = match device_type {
                DeviceMonitorType::Microphone => state.get_microphone_device(),
                DeviceMonitorType::SystemAudio => state.get_system_device(),
            };
            if event_is_current(platform, &bound, &device_name, &native_id) {
                EventAction::Lost(handle_device_disconnect(state, device_type))
            } else {
                EventAction::Ignore
            }
        },
        DeviceEvent::DeviceReconnected { device_name, native_id: _, device_type } => {
            if state.is_reconnecting() {
                EventAction::Reconnect { device_name, device_type }
            } else {
                EventAction::Ignore
            }
        },
        DeviceEvent::DeviceListChanged => EventAction::Ignore,
    }
}

/// A device that came back was bound, or not found, or that failed. What failed is reported.
/// Returns the error that a listener is to be told.
pub fn reconnect_ended(state: &mut RecordingState, attempt: Result<bool, String>) -> (notice: Option<
    AudioError,
>)
    ensures
        if attempt == Ok::<bool, String>(true) {
            &&& final(state)@ == old(state)@.reconnected()
            &&& notice is None
        } else {
            &&& final(state)@ == old(state)@.error_reported(AudioError::StreamFailed)
            &&& notice == old(state)@.notice(AudioError::StreamFailed)
        },
{
    match handle_device_reconnect(state, attempt) {
        Ok(()) => None,
        Err(_) => state.report_error(AudioError::StreamFailed),
    }
}

/// Which device was lost.
#[derive(Debug)]
pub struct DisconnectedDeviceInfo {
    pub name: String,
    pub device_type: String,
}

/// Whether a device is waited for, and which.
#[derive(Debug)]
pub struct ReconnectionStatus {
    pub is_reconnecting: bool,
    pub disconnected_device: Option<DisconnectedDeviceInfo>,
}

/// The name of a route's kind.
pub open spec fn route_label(device_type: DeviceType) -> Seq<char> {
    match device_type {
        DeviceType::Microphone => "Microphone"@,
        DeviceType::System => "System"@,
    }
}

/// Whether a device is waited for, and which. Without a recording none is.
pub fn get_reconnection_status(current: &Option<RecordingState>) -> (r: ReconnectionStatus)
    ensures
        r.is_reconnecting == (state_of(*current) matches Some(state) && state.reconnecting),
        match (state_of(*current), r.disconnected_device) {
            (None, info) => info is None,
            (Some(state), None) => state.disconnected_device is None,
            (Some(state), Some(info)) => state.disconnected_device matches Some((device, route))
                && info.name@ == device.name && info.device_type@ == route_label(route),
        },
{
    match current {
        Some(state) => ReconnectionStatus {
            is_reconnecting: state.is_reconnecting(),
            disconnected_device: match state.get_disconnected_device() {
                Some((device, route)) => Some(
                    DisconnectedDeviceInfo {
                        name: device.name,
                        device_type: match route {
                            DeviceType::Microphone => "Microphone".to_owned(),
                            DeviceType::System => "System".to_owned(),
                        },
                    },
                ),
                None => None,
            },
        },
        None => ReconnectionStatus { is_reconnecting: false, disconnected_device: None },
    }
}

/// Why a device cannot be reconnected by hand.
#[derive(Debug)]
pub enum ReconnectRefusal {
    InvalidType(String),
    NotActive,
}

impl ReconnectRefusal {
    /// The text that describes the failure.
    pub open spec fn text(self) -> Seq<char> {
        match self {
            ReconnectRefusal::InvalidType(device_type) => "Invalid device type: "@ + device_type@,
            ReconnectRefusal::NotActive => "Recording not active"@,
        }
    }

    pub fn message(&self) -> (r: String)
        ensures
            r@ == self.text(),
    {
        match self {
            ReconnectRefusal::InvalidType(device_type) => text::joined(
                "Invalid device type: ", device_type.as_str()),
            ReconnectRefusal::NotActive => "Recording not active".to_owned(),
        }
    }
}

/// The kind of device that is to be reconnected by hand, if it can be.
pub fn attempt_device_reconnect(device_type: String, active: bool) -> (r: Result<
    DeviceMonitorType,
    ReconnectRefusal,
>)
    ensures
        match r {
            Ok(kind) => active && kind.name() == device_type@,
            Err(ReconnectRefusal::NotActive) => !active && (device_type@
                == DeviceMonitorType::Microphone.name() || device_type@
                == DeviceMonitorType::SystemAudio.name()),
            Err(ReconnectRefusal::InvalidType(given)) => given == device_type && device_type@
                != DeviceMonitorType::Microphone.name() && device_type@
                != DeviceMonitorType::SystemAudio.name(),
        },
{
    match DeviceMonitorType::from_label(device_type.as_str()) {
        None => Err(ReconnectRefusal::InvalidType(device_type)),
        Some(kind) => if active {
            Ok(kind)
        } else {
            Err(ReconnectRefusal::NotActive)
        },
    }
}

/// Law: on Windows a word of a device changes nothing unless it names the endpoint that is bound
/// now; a device of the same name does not count.
pub proof fn stale_events_change_nothing(
    event: DeviceEvent,
    state: State,
)
    requires
        event matches DeviceEvent::DeviceDisconnected { device_name, native_id, device_type } ==> {
            ||| bound_device(state, device_type) is None
            ||| bound_device(state, device_type)->0.native_id is None
            ||| bound_device(state, device_type)->0.native_id != text_of(native_id)
        },
    ensures
        after_event(Platform::Windows, event, state) == state,
{
}

/// Law: the loss of a device that is bound makes the recording wait for it, on every platform where
/// it is known by its identifier; nothing else changes a recording.
pub proof fn a_lost_device_is_waited_for(
    platform: Platform,
    device_name: String,
    native_id: Option<String>,
    device_type: DeviceMonitorType,
    state: State,
    bound: Device,
)
    requires
        bound_device(state, device_type) == Some(bound),
        native_id is Some,
    ensures
        ({
            let lost = DeviceEvent::DeviceDisconnected { device_name, native_id, device_type };
            let found = DeviceEvent::DeviceReconnected { device_name, native_id, device_type };
            &&& bound.native_id == text_of(native_id) && !state.error_ends(
                AudioError::DeviceDisconnected) ==> after_event(platform, lost, state).reconnecting
                && !after_event(platform, lost, state).timeline_open()
            &&& bound.native_id != text_of(native_id) ==> after_event(platform, lost, state) == state
            &&& after_event(platform, found, state) == state
            &&& after_event(platform, DeviceEvent::DeviceListChanged, state) == state
        }),
{
}

/// Law: without an identifier a device is known by its name, but not on Windows, where names are
/// not unique.
pub proof fn names_identify_devices_outside_windows(
    platform: Platform,
    bound: Device,
    device_name: Seq<char>,
)
    ensures
        !is_bound_now(Platform::Windows, Some(bound), device_name, None),
        platform != Platform::Windows ==> (is_bound_now(platform, Some(bound), device_name, None)
            <==> bound.name == device_name),
        !is_bound_now(platform, None, device_name, None),
{
}

} // verus!
