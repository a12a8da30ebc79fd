//! The devices that a recording starts with.

use vstd::prelude::*;
use vstd::string::*;

use crate::devices::configuration::{AudioDevice, DeviceType};
use crate::recording_preferences::RecordingMode;
use crate::text;

verus! {

/// Where the wish for a device comes from.
#[derive(Debug, Clone, Copy, PartialEq, Eq, Structural)]
pub enum DeviceWish {
    /// The saved preferences.
    Preferred,
    /// The user's choice for this recording.
    Selected,
}

/// A device that could not be used, and the one that takes its place.
#[derive(Debug)]
pub struct DeviceFallback {
    pub route: &'static str,
    pub requested: String,
    pub used: String,
    pub reason: String,
}

/// The name of the route that records from a direction.
pub open spec fn route_of(device_type: DeviceType) -> Seq<char> {
    match device_type {
        DeviceType::Input => "microphone"@,
        DeviceType::Output => "system"@,
    }
}

/// The name of the route that records from a direction.
pub fn route_name(device_type: DeviceType) -> (r: &'static str)
    ensures
        r@ == route_of(device_type),
{
    match device_type {
        DeviceType::Input => "microphone",
        DeviceType::Output => "system",
    }
}

/// A mode records from a direction.
pub open spec fn records_from(mode: RecordingMode, device_type: DeviceType) -> bool {
    match device_type {
        DeviceType::Input => mode.has_microphone(),
        DeviceType::Output => mode.has_system_audio(),
    }
}

/// Whether the route of a direction is recorded, and the name of the device that is wished for on
/// it: the preferred one, or the one selected for this recording. A route that is not recorded
/// needs none.
pub fn wished_device(
    wish: DeviceWish,
    mode: RecordingMode,
    direction: DeviceType,
    preferred: Option<String>,
    selected: Option<String>,
) -> (r: (bool, Option<String>))
    ensures
        r == wished(wish, mode, direction, preferred, selected),
        r.0 == records_from(mode, direction),
        r.1 == if !r.0 {
            None
        } else if wish == DeviceWish::Preferred {
            preferred
        } else {
            selected
        },
{
    let used: bool = match direction {
        DeviceType::Input => mode.uses_microphone(),
        DeviceType::Output => mode.uses_system_audio(),
    };
    if !used {
        return (false, None);
    }
    match wish {
        DeviceWish::Preferred => (true, preferred),
        DeviceWish::Selected => (true, selected),
    }
}

/// A device that was asked for by name, and what looking for it gave.
#[derive(Debug)]
pub struct RequestedDevice {
    pub name: String,
    pub found: Result<AudioDevice, String>,
}

/// Why a route has no device to record from.
#[derive(Debug)]
pub enum RouteError {
    /// The device that was asked for cannot be used, and the default one neither.
    NeitherUsable { name: String, error: String, default_error: String },
    /// No device was asked for, and the default one cannot be used.
    NoDefault(String),
}

impl RouteError {
    /// The text that describes the failure.
    pub open spec fn text(self, wish: DeviceWish, device_type: DeviceType) -> Seq<char> {
        match (self, wish, device_type) {
            (
                RouteError::NeitherUsable { name, error, default_error },
                DeviceWish::Preferred,
                DeviceType::Input,
            ) => "Preferred microphone is unavailable ('"@ + name@ + "': "@ + error@
                + ") and no default microphone could be used: "@ + default_error@,
            (
                RouteError::NeitherUsable { name, error, default_error },
                DeviceWish::Preferred,
                DeviceType::Output,
            ) => "Preferred system audio is unavailable ('"@ + name@ + "': "@ + error@
                + ") and no default output device could be used: "@ + default_error@,
            (
                RouteError::NeitherUsable { name, error, default_error },
                DeviceWish::Selected,
                DeviceType::Input,
            ) => "Invalid microphone device '"@ + name@ + "': "@ + error@
                + "; no default microphone could be used either: "@ + default_error@,
            (
                RouteError::NeitherUsable { name, error, default_error },
                DeviceWish::Selected,
                DeviceType::Output,
            ) => "Invalid system device '"@ + name@ + "': "@ + error@
                + "; no default output device could be used either: "@ + default_error@,
            (RouteError::NoDefault(error), DeviceWish::Preferred, DeviceType::Input) =>
                "No microphone device available: "@ + error@,
            (RouteError::NoDefault(error), DeviceWish::Preferred, DeviceType::Output) =>
                "No default system audio available: "@ + error@,
            (RouteError::NoDefault(error), DeviceWish::Selected, DeviceType::Input) =>
                "Default microphone is unavailable: "@ + error@,
            (RouteError::NoDefault(error), DeviceWish::Selected, DeviceType::Output) =>
                "Default system audio is unavailable: "@ + error@,
        }
    }

    pub fn message(&self, wish: DeviceWish, device_type: DeviceType) -> (r: String)
        ensures
            r@ == self.text(wish, device_type),
    {
        match self {
            RouteError::NeitherUsable { name, error, default_error } => {
                let (start, middle) = match (wish, device_type) {
                    (DeviceWish::Preferred, DeviceType::Input) => (
                        "Preferred microphone is unavailable ('",
                        ") and no default microphone could be used: ",
                    ),
                    (DeviceWish::Preferred, DeviceType::Output) => (
                        "Preferred system audio is unavailable ('",
                        ") and no default output device could be used: ",
                    ),
                    (DeviceWish::Selected, DeviceType::Input) => (
                        "Invalid microphone device '",
                        "; no default microphone could be used either: ",
                    ),
                    (DeviceWish::Selected, DeviceType::Output) => (
                        "Invalid system device '",
                        "; no default output device could be used either: ",
                    ),
                };
                let mut r = start.to_owned();
                r.append(name.as_str());
                r.append("': ");
                r.append(error.as_str());
                r.append(middle);
                r.append(default_error.as_str());
                r
            },
            RouteError::NoDefault(error) => {
                let start = match (wish, device_type) {
                    (DeviceWish::Preferred, DeviceType::Input) => "No microphone device available: ",
                    (DeviceWish::Preferred, DeviceType::Output) =>
                        "No default system audio available: ",
                    (DeviceWish::Selected, DeviceType::Input) =>
                        "Default microphone is unavailable: ",
                    (DeviceWish::Selected, DeviceType::Output) =>
                        "Default system audio is unavailable: ",
                };
                text::joined(start, error.as_str())
            },
        }
    }
}

/// The device of a route, and the one that it takes the place of, if any.
#[derive(Debug)]
pub struct RouteChoice {
    pub device: Option<AudioDevice>,
    pub fallback: Option<DeviceFallback>,
}

/// `choice` is the device that a route records from. A route that is not used has none. A device
/// that was asked for and is there is the one; where it is not, or where none was asked for, the
/// default one is. Only a device that was asked for can be fallen back from.
pub open spec fn is_choice(
    used: bool,
    device_type: DeviceType,
    requested: Option<RequestedDevice>,
    default_device: Result<AudioDevice, String>,
    choice: Result<RouteChoice, RouteError>,
) -> bool {
    if !used {
        choice matches Ok(c) && c.device is None && c.fallback is None
    } else {
        match (requested, default_device) {
            (Some(RequestedDevice { name, found: Ok(device) }), _) => choice matches Ok(c)
                && c.device == Some(device) && c.fallback is None,
            (Some(RequestedDevice { name, found: Err(reason) }), Ok(device)) => {
                choice matches Ok(c) && c.device == Some(device) && (c.fallback matches Some(f)
                    && f.route@ == route_of(device_type) && f.requested == name && f.used
                    == device.name && f.reason == reason)
            },
            (Some(RequestedDevice { name, found: Err(reason) }), Err(default_error)) => choice
                == Err::<RouteChoice, RouteError>(
                RouteError::NeitherUsable { name, error: reason, default_error }),
            (None, Ok(device)) => choice matches Ok(c) && c.device == Some(device)
                && c.fallback is None,
            (None, Err(default_error)) => choice == Err::<RouteChoice, RouteError>(
                RouteError::NoDefault(default_error)),
        }
    }
}

/// Chooses the device of a route.
pub fn choose_route_device(
    used: bool,
    device_type: DeviceType,
    requested: Option<RequestedDevice>,
    default_device: Result<AudioDevice, String>,
) -> (r: Result<RouteChoice, RouteError>)
    ensures
        is_choice(used, device_type, requested, default_device, r),
{
    if !used {
        return Ok(RouteChoice { device: None, fallback: None });
    }
    match requested {
        Some(requested) => match requested.found {
            Ok(device) => Ok(RouteChoice { device: Some(device), fallback: None }),
            Err(reason) => match default_device {
                Ok(device) => {
                    let fallback = DeviceFallback {
                        route: route_name(device_type),
                        requested: requested.name,
                        used: device.name.clone(),
                        reason,
                    };
                    Ok(RouteChoice { device: Some(device), fallback: Some(fallback) })
                },
                Err(default_error) => Err(
                    RouteError::NeitherUsable {
                        name: requested.name,
                        error: reason,
                        default_error,
                    },
                ),
            },
        },
        None => match default_device {
            Ok(device) => Ok(RouteChoice { device: Some(device), fallback: None }),
            Err(default_error) => Err(RouteError::NoDefault(default_error)),
        },
    }
}

/// Law: an unavailable choice of the user does not keep a recording from starting while a default
/// device is there, and the change is always put on record.
pub proof fn a_default_device_is_enough(
    device_type: DeviceType,
    requested: Option<RequestedDevice>,
    default_device: Result<AudioDevice, String>,
    choice: Result<RouteChoice, RouteError>,
)
    requires
        default_device is Ok,
        is_choice(true, device_type, requested, default_device, choice),
    ensures
        choice is Ok,
        choice->Ok_0.device is Some,
        choice->Ok_0.fallback is Some <==> (requested is Some && requested->0.found is Err),
{
}

/// Law: a device that was asked for and found is used, without a word; one that was not found is
/// replaced by the default one, and the user is told which for which and why; a route that is not
/// recorded has none.
pub proof fn what_is_asked_for_is_used(
    device_type: DeviceType,
    name: String,
    found: AudioDevice,
    reason: String,
    default_device: Result<AudioDevice, String>,
    choice: Result<RouteChoice, RouteError>,
    fallback: Result<RouteChoice, RouteError>,
    unused: Result<RouteChoice, RouteError>,
    requested: Option<RequestedDevice>,
)
    requires
        is_choice(
            true,
            device_type,
            Some(RequestedDevice { name, found: Ok(found) }),
            default_device,
            choice,
        ),
        is_choice(
            true,
            device_type,
            Some(RequestedDevice { name, found: Err(reason) }),
            default_device,
            fallback,
        ),
        is_choice(false, device_type, requested, default_device, unused),
    ensures
        choice matches Ok(c) && c.device == Some(found) && c.fallback is None,
        default_device matches Ok(device) ==> (fallback matches Ok(c) && c.device == Some(device)
            && (c.fallback matches Some(f) && f.requested == name && f.used == device.name
            && f.reason == reason)),
        default_device is Err ==> fallback is Err,
        unused matches Ok(c) && c.device is None && c.fallback is None,
{
}

/// Whether a route is recorded, and from which device the user wants it.
pub open spec fn wished(
    wish: DeviceWish,
    mode: RecordingMode,
    direction: DeviceType,
    preferred: Option<String>,
    selected: Option<String>,
) -> (bool, Option<String>) {
    if !records_from(mode, direction) {
        (false, None)
    } else if wish == DeviceWish::Preferred {
        (true, preferred)
    } else {
        (true, selected)
    }
}

/// Law: the device that was selected is wished for where one was to be selected, else the preferred
/// one; and none for a route that the mode leaves out.
pub proof fn wishes_follow_mode_and_choice(
    wish: DeviceWish,
    direction: DeviceType,
    preferred: Option<String>,
    selected: Option<String>,
)
    ensures
        wished(DeviceWish::Preferred, RecordingMode::MicrophoneAndSystem, direction, preferred, selected)
            == (true, preferred),
        wished(DeviceWish::Selected, RecordingMode::MicrophoneAndSystem, direction, preferred, selected)
            == (true, selected),
        wished(wish, RecordingMode::MicrophoneOnly, DeviceType::Output, preferred, selected) == (
            false,
            None::<String>,
        ),
        wished(wish, RecordingMode::SystemOnly, DeviceType::Input, preferred, selected) == (
            false,
            None::<String>,
        ),
        wished(wish, RecordingMode::MicrophoneOnly, DeviceType::Input, preferred, selected).0,
        wished(wish, RecordingMode::SystemOnly, DeviceType::Output, preferred, selected).0,
        route_of(DeviceType::Input) == "microphone"@,
        route_of(DeviceType::Output) == "system"@,
{
}

} // verus!
