//! Windows endpoints: pairing host devices with endpoint identifiers, and choosing a format.

use vstd::prelude::*;

use crate::devices::configuration::{device_views, AudioDevice, Device, DeviceType};
use crate::devices::discovery::{find_native_id, first_identified, none_identified};
use crate::text;

verus! {

/// An active endpoint as the multimedia device interface lists it.
#[derive(Debug)]
pub struct NativeEndpoint {
    pub id: String,
    pub device_type: DeviceType,
}

/// Why the endpoints of the host cannot be used.
#[derive(Debug)]
pub enum EndpointError {
    /// The two interfaces list a different number of devices, so they cannot be paired.
    UnsafeMapping { devices: usize, endpoints: usize },
    /// The name of a device could not be read.
    NameUnavailable(String),
    /// There is no active endpoint at all.
    NoActiveEndpoint,
    /// The endpoint with this identifier is not active any more.
    NoLongerActive(String),
    /// The selection with this name has no identifier.
    NoNativeId(String),
    /// The default endpoint could not be looked up; this step of it failed.
    DefaultUnavailable(LookupStep, String),
    /// The default endpoint, with this identifier, is not active any more.
    DefaultNoLongerActive(String),
    /// The list of devices changed while the endpoint with this identifier was bound.
    MappingChanged(String),
}

/// A step of looking the default endpoint up.
#[derive(Debug, Clone, Copy, PartialEq, Eq, Structural)]
pub enum LookupStep {
    CreateEnumerator,
    GetDefault,
    ReadId,
    DecodeId,
}

impl LookupStep {
    /// What is put before the reason why the step failed.
    pub open spec fn prefix(self) -> Seq<char> {
        match self {
            LookupStep::CreateEnumerator => "Failed to create MMDeviceEnumerator: "@,
            LookupStep::GetDefault => "Windows default audio endpoint is unavailable: "@,
            LookupStep::ReadId => "Failed to read default Windows audio endpoint ID: "@,
            LookupStep::DecodeId => "Default Windows audio endpoint ID is invalid: "@,
        }
    }
}

/// What an `EndpointError` stands for.
pub enum EndpointFailure {
    UnsafeMapping { devices: nat, endpoints: nat },
    NameUnavailable(Seq<char>),
    NoActiveEndpoint,
    NoLongerActive(Seq<char>),
    NoNativeId(Seq<char>),
    DefaultUnavailable(LookupStep, Seq<char>),
    DefaultNoLongerActive(Seq<char>),
    MappingChanged(Seq<char>),
}

impl View for EndpointError {
    type V = EndpointFailure;

    open spec fn view(&self) -> EndpointFailure {
        match *self {
            EndpointError::UnsafeMapping { devices, endpoints } => EndpointFailure::UnsafeMapping {
                devices: devices as nat,
                endpoints: endpoints as nat,
            },
            EndpointError::NameUnavailable(e) => EndpointFailure::NameUnavailable(e@),
            EndpointError::NoActiveEndpoint => EndpointFailure::NoActiveEndpoint,
            EndpointError::NoLongerActive(id) => EndpointFailure::NoLongerActive(id@),
            EndpointError::NoNativeId(name) => EndpointFailure::NoNativeId(name@),
            EndpointError::DefaultUnavailable(step, e) => EndpointFailure::DefaultUnavailable(
                step,
                e@,
            ),
            EndpointError::DefaultNoLongerActive(id) => EndpointFailure::DefaultNoLongerActive(id@),
            EndpointError::MappingChanged(id) => EndpointFailure::MappingChanged(id@),
        }
    }
}

impl EndpointFailure {
    /// The text that describes the failure.
    pub open spec fn text(self) -> Seq<char> {
        match self {
            EndpointFailure::UnsafeMapping { devices, endpoints } =>
                "Windows audio endpoint mapping is unsafe: CPAL returned "@
                + text::decimal_digits(devices) + " devices but MMDevice returned "@
                + text::decimal_digits(endpoints) + " IDs"@,
            EndpointFailure::NameUnavailable(error) =>
                "Failed to read Windows audio device name: "@ + error,
            EndpointFailure::NoActiveEndpoint => "WASAPI returned no active audio endpoints"@,
            EndpointFailure::NoLongerActive(id) =>
                "Windows audio endpoint is no longer active: "@ + id,
            EndpointFailure::NoNativeId(name) => "Windows audio selection '"@ + name
                + "' has no native endpoint ID; refresh the device list and select it again"@,
            EndpointFailure::DefaultUnavailable(step, error) => step.prefix() + error,
            EndpointFailure::DefaultNoLongerActive(id) =>
                "Default Windows audio endpoint is no longer active: "@ + id,
            EndpointFailure::MappingChanged(id) =>
                "Windows audio endpoint mapping changed while binding endpoint: "@ + id,
        }
    }
}

impl EndpointError {
    pub fn message(&self) -> (r: String)
        ensures
            r@ == self@.text(),
    {
        match self {
            EndpointError::UnsafeMapping { devices, endpoints } => {
                let head = text::joined(
                    "Windows audio endpoint mapping is unsafe: CPAL returned ",
                    text::decimal(*devices as u64).as_str(),
                );
                let middle = text::joined(head.as_str(), " devices but MMDevice returned ");
                let counted = text::joined(
                    middle.as_str(), text::decimal(*endpoints as u64).as_str());
                text::joined(counted.as_str(), " IDs")
            },
            EndpointError::NameUnavailable(error) => text::joined(
                "Failed to read Windows audio device name: ", error.as_str()),
            EndpointError::NoActiveEndpoint =>
                "WASAPI returned no active audio endpoints".to_owned(),
            EndpointError::NoLongerActive(id) => text::joined(
                "Windows audio endpoint is no longer active: ", id.as_str()),
            EndpointError::NoNativeId(name) => {
                let head = text::joined("Windows audio selection '", name.as_str());
                text::joined(
                    head.as_str(),
                    "' has no native endpoint ID; refresh the device list and select it again",
                )
            },
            EndpointError::DefaultUnavailable(step, error) => {
                let prefix = match step {
                    LookupStep::CreateEnumerator => "Failed to create MMDeviceEnumerator: ",
                    LookupStep::GetDefault => "Windows default audio endpoint is unavailable: ",
                    LookupStep::ReadId => "Failed to read default Windows audio endpoint ID: ",
                    LookupStep::DecodeId => "Default Windows audio endpoint ID is invalid: ",
                };
                text::joined(prefix, error.as_str())
            },
            EndpointError::DefaultNoLongerActive(id) => text::joined(
                "Default Windows audio endpoint is no longer active: ", id.as_str()),
            EndpointError::MappingChanged(id) => text::joined(
                "Windows audio endpoint mapping changed while binding endpoint: ", id.as_str()),
        }
    }
}

/// The devices of one direction among the first `n` host devices, each with the identifier of
/// the endpoint at the same position; or the first name that could not be read.
pub open spec fn paired(
    names: Seq<Result<String, String>>,
    endpoints: Seq<NativeEndpoint>,
    device_type: DeviceType,
    n: nat,
) -> Result<Seq<Device>, Seq<char>>
    decreases n,
{
    if n == 0 {
        Ok(Seq::empty())
    } else {
        match paired(names, endpoints, device_type, (n - 1) as nat) {
            Err(error) => Err(error),
            Ok(devices) => if endpoints[n - 1].device_type != device_type {
                Ok(devices)
            } else {
                match names[n - 1] {
                    Err(error) => Err(error@),
                    Ok(name) => Ok(
                        devices.push(
                            Device {
                                name: name@,
                                device_type,
                                native_id: Some(endpoints[n - 1].id@),
                                default_role: None,
                            },
                        ),
                    ),
                }
            },
        }
    }
}

/// What pairing the whole lists gives.
pub open spec fn enumerated(
    names: Seq<Result<String, String>>,
    endpoints: Seq<NativeEndpoint>,
    device_type: DeviceType,
) -> Result<Seq<Device>, EndpointFailure> {
    if names.len() != endpoints.len() {
        Err(EndpointFailure::UnsafeMapping { devices: names.len(), endpoints: endpoints.len() })
    } else {
        match paired(names, endpoints, device_type, names.len()) {
            Ok(devices) => Ok(devices),
            Err(error) => Err(EndpointFailure::NameUnavailable(error)),
        }
    }
}

proof fn paired_error_stays(
    names: Seq<Result<String, String>>,
    endpoints: Seq<NativeEndpoint>,
    device_type: DeviceType,
    n: nat,
    m: nat,
)
    requires
        n <= m,
        paired(names, endpoints, device_type, n) is Err,
    ensures
        paired(names, endpoints, device_type, m) == paired(names, endpoints, device_type, n),
    decreases m,
{
    if n < m {
        paired_error_stays(names, endpoints, device_type, n, (m - 1) as nat);
    }
}

/// Pairs the host's devices, in their order, with the endpoint identifiers in theirs, and keeps
/// those of one direction.
pub fn enumerate_cpal_devices_with_ids(
    names: &Vec<Result<String, String>>,
    endpoints: &Vec<NativeEndpoint>,
    device_type: DeviceType,
) -> (r: Result<Vec<AudioDevice>, EndpointError>)
    ensures
        match r {
            Ok(devices) => enumerated(names@, endpoints@, device_type) == Ok::<
                Seq<Device>,
                EndpointFailure,
            >(device_views(devices@)),
            Err(error) => enumerated(names@, endpoints@, device_type) == Err::<
                Seq<Device>,
                EndpointFailure,
            >(error@),
        },
{
    if names.len() != endpoints.len() {
        return Err(
            EndpointError::UnsafeMapping { devices: names.len(), endpoints: endpoints.len() },
        );
    }
    let mut devices: Vec<AudioDevice> = Vec::new();
    assert(device_views(devices@) =~= Seq::empty());
    let mut i: usize = 0;
    while i < names.len()
        invariant
            i <= names@.len(),
            names@.len() == endpoints@.len(),
            paired(names@, endpoints@, device_type, i as nat) == Ok::<Seq<Device>, Seq<char>>(
                device_views(devices@)),
        decreases names@.len() - i,
    {
        if endpoints[i].device_type == device_type {
            match &names[i] {
                Err(error) => {
                    proof {
                        paired_error_stays(
                            names@, endpoints@, device_type, (i + 1) as nat, names@.len());
                    }
                    return Err(EndpointError::NameUnavailable(error.clone()));
                },
                Ok(name) => {
                    let device = AudioDevice::with_native_id(
                        name.clone(), device_type, endpoints[i].id.clone());
                    let ghost before = device_views(devices@);
                    devices.push(device);
                    assert(device_views(devices@) =~= before.push(device@));
                },
            }
        }
        i = i + 1;
    }
    Ok(devices)
}

/// The whole list of the host: the outputs, then the inputs.
pub open spec fn windows_devices(
    names: Seq<Result<String, String>>,
    endpoints: Seq<NativeEndpoint>,
) -> Result<Seq<Device>, EndpointFailure> {
    match enumerated(names, endpoints, DeviceType::Output) {
        Err(error) => Err(error),
        Ok(outputs) => match enumerated(names, endpoints, DeviceType::Input) {
            Err(error) => Err(error),
            Ok(inputs) => if outputs.len() + inputs.len() == 0 {
                Err(EndpointFailure::NoActiveEndpoint)
            } else {
                Ok(outputs + inputs)
            },
        },
    }
}

/// Lists the host's devices with their identifiers.
pub fn configure_windows_audio(
    names: &Vec<Result<String, String>>,
    endpoints: &Vec<NativeEndpoint>,
) -> (r: Result<Vec<AudioDevice>, EndpointError>)
    ensures
        match r {
            Ok(devices) => windows_devices(names@, endpoints@) == Ok::<
                Seq<Device>,
                EndpointFailure,
            >(device_views(devices@)),
            Err(error) => windows_devices(names@, endpoints@) == Err::<
                Seq<Device>,
                EndpointFailure,
            >(error@),
        },
{
    let mut devices = match enumerate_cpal_devices_with_ids(names, endpoints, DeviceType::Output) {
        Ok(devices) => devices,
        Err(error) => {
            return Err(error);
        },
    };
    let mut inputs = match enumerate_cpal_devices_with_ids(names, endpoints, DeviceType::Input) {
        Ok(devices) => devices,
        Err(error) => {
            return Err(error);
        },
    };
    let ghost outputs_views = device_views(devices@);
    let ghost inputs_views = device_views(inputs@);
    devices.append(&mut inputs);
    assert(device_views(devices@) =~= outputs_views + inputs_views);
    if devices.len() == 0 {
        return Err(EndpointError::NoActiveEndpoint);
    }
    Ok(devices)
}

/// Why a default endpoint could not be looked up.
#[derive(Debug)]
pub struct LookupError {
    pub step: LookupStep,
    pub error: String,
}

/// The default endpoint identifiers that the host reports, or why it reports none.
#[derive(Debug)]
pub struct DefaultEndpoints {
    pub capture: Result<String, LookupError>,
    pub render: Result<String, LookupError>,
}

impl DefaultEndpoints {
    /// The report for one direction: capture for inputs, render for outputs.
    pub open spec fn for_type(self, device_type: DeviceType) -> Result<String, LookupError> {
        match device_type {
            DeviceType::Input => self.capture,
            DeviceType::Output => self.render,
        }
    }
}

/// The identifier of the default endpoint for a direction.
pub fn default_windows_endpoint_id(device_type: DeviceType, defaults: &DefaultEndpoints) -> (r:
    Result<String, EndpointError>)
    ensures
        match defaults.for_type(device_type) {
            Ok(id) => r matches Ok(found) && found@ == id@,
            Err(error) => r matches Err(e) && e@ == EndpointFailure::DefaultUnavailable(
                error.step, error.error@),
        },
{
    let reported = match device_type {
        DeviceType::Input => &defaults.capture,
        DeviceType::Output => &defaults.render,
    };
    match reported {
        Ok(id) => Ok(id.clone()),
        Err(error) => Err(EndpointError::DefaultUnavailable(error.step, error.error.clone())),
    }
}

/// The role under which the default endpoint is looked up.
pub open spec fn multimedia_role() -> Seq<char> {
    "multimedia"@
}

/// `device` is the first with the identifier, marked as the default.
pub open spec fn is_default_device(
    devices: Seq<Device>,
    id: Seq<char>,
    device_type: DeviceType,
    device: Device,
) -> bool {
    exists|i: int| #[trigger]
        first_identified(devices, id, device_type, i) && device == (Device {
            default_role: Some(multimedia_role()),
            ..devices[i]
        })
}

/// The default endpoint of a direction, among the host's devices, marked with its role.
pub fn default_windows_audio_device(
    names: &Vec<Result<String, String>>,
    endpoints: &Vec<NativeEndpoint>,
    defaults: &DefaultEndpoints,
    device_type: DeviceType,
) -> (r: Result<AudioDevice, EndpointError>)
    ensures
        match defaults.for_type(device_type) {
            Err(error) => r matches Err(e) && e@ == EndpointFailure::DefaultUnavailable(
                error.step, error.error@),
            Ok(id) => match enumerated(names@, endpoints@, device_type) {
                Err(failure) => r matches Err(e) && e@ == failure,
                Ok(devices) => match r {
                    Ok(device) => is_default_device(devices, id@, device_type, device@),
                    Err(e) => none_identified(devices, id@, device_type) && e@
                        == EndpointFailure::DefaultNoLongerActive(id@),
                },
            },
        },
{
    let id = match default_windows_endpoint_id(device_type, defaults) {
        Ok(id) => id,
        Err(error) => {
            return Err(error);
        },
    };
    let devices = match enumerate_cpal_devices_with_ids(names, endpoints, device_type) {
        Ok(devices) => devices,
        Err(error) => {
            return Err(error);
        },
    };
    match find_native_id(&devices, id.as_str(), device_type) {
        Some(i) => {
            assert(device_views(devices@)[i as int] == devices@[i as int]@);
            let device = devices[i].clone().with_default_role("multimedia");
            assert(is_default_device(device_views(devices@), id@, device_type, device@));
            Ok(device)
        },
        None => Err(EndpointError::DefaultNoLongerActive(id)),
    }
}

/// The endpoint at a position has the identifier and direction of a device.
pub open spec fn endpoint_matches(endpoint: NativeEndpoint, device: Device) -> bool {
    Some(endpoint.id@) == device.native_id && endpoint.device_type == device.device_type
}

/// An active endpoint has the identifier and direction of a device.
pub open spec fn any_endpoint_matches(endpoints: Seq<NativeEndpoint>, device: Device) -> bool {
    exists|i: int| 0 <= i < endpoints.len() && endpoint_matches(#[trigger] endpoints[i], device)
}

/// The position of a device's endpoint among the active ones, which is that of the device among
/// the host's `device_count` devices.
pub fn find_cpal_device_by_native_id(
    endpoints: &Vec<NativeEndpoint>,
    device_count: usize,
    device: &AudioDevice,
) -> (r: Result<usize, EndpointError>)
    ensures
        match r {
            Ok(index) => {
                &&& index < endpoints@.len()
                &&& index < device_count
                &&& endpoint_matches(endpoints@[index as int], device@)
                &&& forall|j: int| 0 <= j < index ==> !endpoint_matches(
                    #[trigger] endpoints@[j], device@)
            },
            Err(error) => match device@.native_id {
                None => error@ == EndpointFailure::NoNativeId(device@.name),
                Some(id) => if any_endpoint_matches(endpoints@, device@) {
                    error@ == EndpointFailure::MappingChanged(id) && forall|j: int|
                        0 <= j < device_count && j < endpoints@.len() ==> !endpoint_matches(
                            #[trigger] endpoints@[j], device@)
                } else {
                    error@ == EndpointFailure::NoLongerActive(id)
                },
            },
        },
{
    let id = match &device.native_id {
        Some(id) => id,
        None => {
            return Err(EndpointError::NoNativeId(device.name.clone()));
        },
    };
    let mut i: usize = 0;
    while i < endpoints.len()
        invariant
            i <= endpoints@.len(),
            device@.native_id == Some(id@),
            forall|j: int| 0 <= j < i ==> !endpoint_matches(#[trigger] endpoints@[j], device@),
        decreases endpoints@.len() - i,
    {
        if endpoints[i].id == *id && endpoints[i].device_type == device.device_type {
            if i < device_count {
                return Ok(i);
            }
            return Err(EndpointError::MappingChanged(id.clone()));
        }
        i = i + 1;
    }
    Err(EndpointError::NoLongerActive(id.clone()))
}

/// How samples of a stream are encoded.
#[derive(Debug, Clone, Copy, PartialEq, Eq, Structural)]
pub enum SampleEncoding {
    F32,
    Other,
}

/// A stream format that a device supports.
#[derive(Debug, Clone, Copy, PartialEq, Eq, Structural)]
pub struct SupportedConfig {
    pub encoding: SampleEncoding,
    pub channels: u16,
}

/// Stereo samples as 32-bit floats.
pub open spec fn is_stereo_f32(config: SupportedConfig) -> bool {
    config.encoding == SampleEncoding::F32 && config.channels == 2
}

/// Samples as 32-bit floats.
pub open spec fn is_f32(config: SupportedConfig) -> bool {
    config.encoding == SampleEncoding::F32
}

/// Position `i` is the first that satisfies `wanted`.
pub open spec fn is_first(
    configs: Seq<SupportedConfig>,
    wanted: spec_fn(SupportedConfig) -> bool,
    i: int,
) -> bool {
    &&& 0 <= i < configs.len()
    &&& wanted(configs[i])
    &&& forall|j: int| 0 <= j < i ==> !wanted(#[trigger] configs[j])
}

/// Some format satisfies `wanted`.
pub open spec fn any(configs: Seq<SupportedConfig>, wanted: spec_fn(SupportedConfig) -> bool) -> bool {
    exists|j: int| 0 <= j < configs.len() && wanted(#[trigger] configs[j])
}

/// The preferred format: the first stereo float one, else the first float one, else the first.
pub open spec fn is_preferred(configs: Seq<SupportedConfig>, i: int) -> bool {
    if any(configs, |c: SupportedConfig| is_stereo_f32(c)) {
        is_first(configs, |c: SupportedConfig| is_stereo_f32(c), i)
    } else if any(configs, |c: SupportedConfig| is_f32(c)) {
        is_first(configs, |c: SupportedConfig| is_f32(c), i)
    } else {
        i == 0
    }
}

/// The preferred one of at least one format.
pub fn preferred_config(configs: &Vec<SupportedConfig>) -> (r: usize)
    requires
        configs@.len() > 0,
    ensures
        r < configs@.len(),
        is_preferred(configs@, r as int),
{
    let ghost stereo = |c: SupportedConfig| is_stereo_f32(c);
    let ghost float = |c: SupportedConfig| is_f32(c);
    let mut first_float: Option<usize> = None;
    let mut i: usize = 0;
    while i < configs.len()
        invariant
            i <= configs@.len(),
            stereo == (|c: SupportedConfig| is_stereo_f32(c)),
            float == (|c: SupportedConfig| is_f32(c)),
            forall|j: int| 0 <= j < i ==> !stereo(#[trigger] configs@[j]),
            match first_float {
                Some(f) => f < i && is_first(configs@, float, f as int),
                None => forall|j: int| 0 <= j < i ==> !float(#[trigger] configs@[j]),
            },
        decreases configs@.len() - i,
    {
        if configs[i].encoding == SampleEncoding::F32 {
            if configs[i].channels == 2 {
                assert(is_first(configs@, stereo, i as int));
                return i;
            }
            if first_float.is_none() {
                first_float = Some(i);
            }
        }
        i = i + 1;
    }
    match first_float {
        Some(f) => {
            assert(float(configs@[f as int]));
            f
        },
        None => 0,
    }
}

/// Which format to open an endpoint with.
#[derive(Debug, Clone, Copy, PartialEq, Eq, Structural)]
pub enum ConfigChoice {
    /// The device's own default.
    Default,
    /// The supported format at this position, at its highest sample rate.
    Supported(usize),
}

/// Why an endpoint has no usable format.
#[derive(Debug, Clone, Copy, PartialEq, Eq, Structural)]
pub enum ConfigError {
    /// An input has neither a default nor any supported format.
    NoInputConfig,
    /// The device cannot be identified, or an output has no format.
    NotFound,
}

impl ConfigError {
    /// The text that describes the failure. `bound` is the name that the bound device reports,
    /// `selected` the name it was selected by.
    pub fn message(&self, bound: &str, selected: &str) -> (r: String)
        ensures
            r@ == match *self {
                ConfigError::NoInputConfig =>
                    "No compatible input configuration found for device: "@ + bound@,
                ConfigError::NotFound =>
                    "Device not found or no compatible configuration available: "@ + selected@,
            },
    {
        match *self {
            ConfigError::NoInputConfig => text::joined(
                "No compatible input configuration found for device: ", bound),
            ConfigError::NotFound => text::joined(
                "Device not found or no compatible configuration available: ", selected),
        }
    }
}

/// The format with which an endpoint is opened. Inputs prefer the device's default, outputs a
/// supported format, since they are opened for loopback. `supported` is missing where the
/// formats could not be listed.
pub fn get_windows_device(
    device_type: DeviceType,
    name_readable: bool,
    has_default: bool,
    supported: &Option<Vec<SupportedConfig>>,
) -> (r: Result<ConfigChoice, ConfigError>)
    ensures
        !name_readable ==> r == Err::<ConfigChoice, ConfigError>(ConfigError::NotFound),
        name_readable && device_type == DeviceType::Input && has_default ==> r == Ok::<
            ConfigChoice,
            ConfigError,
        >(ConfigChoice::Default),
        name_readable && (device_type == DeviceType::Output || !has_default) ==> match *supported {
            Some(configs) if configs@.len() > 0 => r matches Ok(ConfigChoice::Supported(i))
                && i < configs@.len() && is_preferred(configs@, i as int),
            _ => if device_type == DeviceType::Input {
                r == Err::<ConfigChoice, ConfigError>(ConfigError::NoInputConfig)
            } else if has_default {
                r == Ok::<ConfigChoice, ConfigError>(ConfigChoice::Default)
            } else {
                r == Err::<ConfigChoice, ConfigError>(ConfigError::NotFound)
            },
        },
{
    if !name_readable {
        return Err(ConfigError::NotFound);
    }
    if device_type == DeviceType::Input && has_default {
        return Ok(ConfigChoice::Default);
    }
    if let Some(configs) = supported {
        if configs.len() > 0 {
            return Ok(ConfigChoice::Supported(preferred_config(configs)));
        }
    }
    if device_type == DeviceType::Input {
        Err(ConfigError::NoInputConfig)
    } else if has_default {
        Ok(ConfigChoice::Default)
    } else {
        Err(ConfigError::NotFound)
    }
}

/// Law: Windows devices are listed with the identifiers of their endpoints, each in its own
/// direction, in order, and none is left out.
pub proof fn endpoints_are_paired_in_order(
    names: Seq<Result<String, String>>,
    endpoints: Seq<NativeEndpoint>,
    device_type: DeviceType,
    n: nat,
)
    requires
        n <= names.len(),
        n <= endpoints.len(),
    ensures
        paired(names, endpoints, device_type, n) matches Ok(devices) ==> devices == Seq::new(
            n, |i: int| (names[i], endpoints[i])).filter(
            |pair: (Result<String, String>, NativeEndpoint)| pair.1.device_type == device_type,
        ).map_values(
            |pair: (Result<String, String>, NativeEndpoint)| Device {
                name: pair.0->Ok_0@,
                device_type,
                native_id: Some(pair.1.id@),
                default_role: None,
            },
        ),
        (forall|i: int| 0 <= i < n ==> #[trigger] names[i] is Ok) ==> paired(
            names, endpoints, device_type, n) is Ok,
    decreases n,
{
    reveal(Seq::filter);
    let pairs = Seq::new(n, |i: int| (names[i], endpoints[i]));
    let wanted = |pair: (Result<String, String>, NativeEndpoint)| pair.1.device_type
        == device_type;
    let device = |pair: (Result<String, String>, NativeEndpoint)| Device {
        name: pair.0->Ok_0@,
        device_type,
        native_id: Some(pair.1.id@),
        default_role: None,
    };
    if n > 0 {
        endpoints_are_paired_in_order(names, endpoints, device_type, (n - 1) as nat);
        assert(pairs.drop_last() =~= Seq::new(
            (n - 1) as nat, |i: int| (names[i], endpoints[i])));
    }
    if let Ok(devices) = paired(names, endpoints, device_type, n) {
        assert(devices =~= pairs.filter(wanted).map_values(device));
    }
}

/// Law: lists that do not fit together are refused, and so is a machine without any endpoint.
pub proof fn unsafe_mappings_are_refused(
    names: Seq<Result<String, String>>,
    endpoints: Seq<NativeEndpoint>,
)
    ensures
        names.len() != endpoints.len() ==> windows_devices(names, endpoints) == Err::<
            Seq<Device>,
            EndpointFailure,
        >(EndpointFailure::UnsafeMapping { devices: names.len(), endpoints: endpoints.len() }),
        names.len() == 0 && endpoints.len() == 0 ==> windows_devices(names, endpoints) == Err::<
            Seq<Device>,
            EndpointFailure,
        >(EndpointFailure::NoActiveEndpoint),
        windows_devices(names, endpoints) matches Ok(devices) ==> devices.len() > 0,
{
}

/// Law: a stream is opened in two channels of floats where the device can, else in floats, else as
/// the device offers first.
pub proof fn stereo_floats_are_preferred(configs: Seq<SupportedConfig>, i: int, j: int)
    requires
        is_preferred(configs, i),
        0 <= j < configs.len(),
    ensures
        configs[j].encoding == SampleEncoding::F32 && configs[j].channels == 2 ==> {
            &&& 0 <= i <= j && configs[i].encoding == SampleEncoding::F32 && configs[i].channels == 2
        },
        configs[j].encoding == SampleEncoding::F32 ==> 0 <= i < configs.len() && configs[i].encoding
            == SampleEncoding::F32,
        (forall|k: int| 0 <= k < configs.len() ==> (#[trigger] configs[k]).encoding
            != SampleEncoding::F32) ==> i == 0,
{
    let stereo = |c: SupportedConfig| is_stereo_f32(c);
    let float = |c: SupportedConfig| is_f32(c);
    assert(is_stereo_f32(configs[j]) ==> stereo(configs[j]));
    assert(is_f32(configs[j]) ==> float(configs[j]));
    if any(configs, stereo) {
        assert(is_stereo_f32(configs[i]));
    } else if any(configs, float) {
        assert(is_f32(configs[i]));
    }
}

/// Law: the default device is the listed one with the identifier of the default endpoint of that
/// direction, marked as the default for media.
pub proof fn default_devices_are_listed_devices(
    devices: Seq<Device>,
    id: Seq<char>,
    device_type: DeviceType,
    device: Device,
    endpoints: DefaultEndpoints,
)
    requires
        is_default_device(devices, id, device_type, device),
    ensures
        device.native_id == Some(id),
        device.device_type == device_type,
        device.default_role == Some("multimedia"@),
        exists|i: int| 0 <= i < devices.len() && (#[trigger] devices[i]).name == device.name
            && devices[i].native_id == Some(id),
        endpoints.for_type(DeviceType::Input) == endpoints.capture,
        endpoints.for_type(DeviceType::Output) == endpoints.render,
{
    let i = choose|i: int| #[trigger]
        first_identified(devices, id, device_type, i) && device == (Device {
            default_role: Some(multimedia_role()),
            ..devices[i]
        });
    assert(devices[i].name == device.name);
}

/// Law: a device is bound to the endpoint with its identifier and direction, or to none.
pub proof fn devices_are_bound_by_identifier(
    endpoints: Seq<NativeEndpoint>,
    device: Device,
    i: int,
)
    ensures
        any_endpoint_matches(endpoints, device) ==> device.native_id is Some && exists|k: int|
            0 <= k < endpoints.len() && Some((#[trigger] endpoints[k]).id@) == device.native_id
                && endpoints[k].device_type == device.device_type,
        0 <= i < endpoints.len() && Some(endpoints[i].id@) == device.native_id
            && endpoints[i].device_type == device.device_type ==> any_endpoint_matches(
            endpoints, device),
{
    if any_endpoint_matches(endpoints, device) {
        let k = choose|k: int|
            0 <= k < endpoints.len() && endpoint_matches(#[trigger] endpoints[k], device);
        assert(Some(endpoints[k].id@) == device.native_id);
    }
    if 0 <= i < endpoints.len() && Some(endpoints[i].id@) == device.native_id
        && endpoints[i].device_type == device.device_type {
        assert(endpoint_matches(endpoints[i], device));
    }
}

} // verus!
