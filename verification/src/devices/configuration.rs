//! The identity of an audio endpoint.

use vstd::prelude::*;

use crate::text;

verus! {

/// Which way audio flows through an endpoint.
#[derive(Debug, Clone, Copy, PartialEq, Eq, Structural)]
pub enum DeviceType {
    Input,
    Output,
}

/// An audio endpoint as the user sees it and as the host knows it.
#[derive(Debug)]
pub struct AudioDevice {
    pub name: String,
    pub device_type: DeviceType,
    /// The host's own identifier. Two endpoints may share a name, never an identifier.
    pub native_id: Option<String>,
    /// The role for which the host made the endpoint its default.
    pub default_role: Option<String>,
}

/// What an `AudioDevice` stands for.
#[verifier::ext_equal]
pub struct Device {
    pub name: Seq<char>,
    pub device_type: DeviceType,
    pub native_id: Option<Seq<char>>,
    pub default_role: Option<Seq<char>>,
}

/// The characters of a string that may be missing.
pub open spec fn text_of(s: Option<String>) -> Option<Seq<char>> {
    match s {
        Some(s) => Some(s@),
        None => None,
    }
}

/// Copies a string that may be missing.
pub fn clone_text(s: &Option<String>) -> (r: Option<String>)
    ensures
        r == *s,
{
    match s {
        Some(s) => Some(s.clone()),
        None => None,
    }
}

impl View for AudioDevice {
    type V = Device;

    open spec fn view(&self) -> Device {
        Device {
            name: self.name@,
            device_type: self.device_type,
            native_id: text_of(self.native_id),
            default_role: text_of(self.default_role),
        }
    }
}

/// What a list of endpoints stands for.
pub open spec fn device_views(devices: Seq<AudioDevice>) -> Seq<Device> {
    Seq::new(devices.len(), |i: int| devices[i]@)
}

/// Why a selection text does not describe an endpoint.
#[derive(Debug, Clone, Copy, PartialEq, Eq, Structural)]
pub enum DeviceNameError {
    /// The text is blank.
    Empty,
    /// The text does not end in the direction of the endpoint.
    TypeNotSpecified,
}

impl DeviceNameError {
    pub fn message(&self) -> (r: &'static str)
        ensures
            r@ == match *self {
                DeviceNameError::Empty => "Device name cannot be empty"@,
                DeviceNameError::TypeNotSpecified =>
                    "Device type (input/output) not specified in the name"@,
            },
    {
        match *self {
            DeviceNameError::Empty => "Device name cannot be empty",
            DeviceNameError::TypeNotSpecified =>
                "Device type (input/output) not specified in the name",
        }
    }
}

/// A text ends in `suffix`.
pub open spec fn ends_in(s: Seq<char>, suffix: Seq<char>) -> bool {
    suffix.len() <= s.len() && s.skip(s.len() - suffix.len()) == suffix
}

/// A text without its last `n` characters.
pub open spec fn without_last(s: Seq<char>, n: int) -> Seq<char> {
    s.take(s.len() - n)
}

/// The endpoint that a display text such as `Headphones (output)` describes.
pub open spec fn described_device(text: Seq<char>) -> Result<Device, DeviceNameError> {
    if text::blank(text) {
        Err(DeviceNameError::Empty)
    } else if ends_in(text, "(input)"@) {
        Ok(Device {
            name: text::trimmed(without_last(text, "(input)"@.len() as int)),
            device_type: DeviceType::Input,
            native_id: None,
            default_role: None,
        })
    } else if ends_in(text, "(output)"@) {
        Ok(Device {
            name: text::trimmed(without_last(text, "(output)"@.len() as int)),
            device_type: DeviceType::Output,
            native_id: None,
            default_role: None,
        })
    } else {
        Err(DeviceNameError::TypeNotSpecified)
    }
}

/// The text before `suffix`, if the text ends in it.
fn strip_suffix(text: &str, suffix: &str) -> (r: Option<String>)
    ensures
        match r {
            Some(rest) => ends_in(text@, suffix@) && rest@ == without_last(
                text@, suffix@.len() as int),
            None => !ends_in(text@, suffix@),
        },
{
    let chars = text::chars_of(text);
    let ending = text::chars_of(suffix);
    if chars.len() < ending.len() {
        return None;
    }
    let total: usize = chars.len();
    let cut: usize = total - ending.len();
    let mut i: usize = 0;
    while i < ending.len()
        invariant
            cut + ending@.len() == chars@.len(),
            chars@.len() == total,
            chars@ == text@,
            ending@ == suffix@,
            i <= ending@.len(),
            forall|j: int| 0 <= j < i ==> chars@[cut + j] == ending@[j],
        decreases ending@.len() - i,
    {
        if chars[cut + i] != ending[i] {
            assert(text@.skip(cut as int)[i as int] != suffix@[i as int]);
            return None;
        }
        i = i + 1;
    }
    assert(text@.skip(cut as int) =~= suffix@);
    assert(text@.subrange(0, cut as int) =~= text@.take(cut as int));
    Some(text::string_of(&chars, 0, cut))
}

impl AudioDevice {
    pub fn new(name: String, device_type: DeviceType) -> (r: Self)
        ensures
            r@ == (Device { name: name@, device_type, native_id: None, default_role: None }),
    {
        AudioDevice { name, device_type, native_id: None, default_role: None }
    }

    pub fn with_native_id(name: String, device_type: DeviceType, native_id: String) -> (r: Self)
        ensures
            r@ == (Device {
                name: name@,
                device_type,
                native_id: Some(native_id@),
                default_role: None,
            }),
    {
        AudioDevice { name, device_type, native_id: Some(native_id), default_role: None }
    }

    /// The same endpoint, known as the default for `role`.
    pub fn with_default_role(self, role: &str) -> (r: Self)
        ensures
            r@ == (Device { default_role: Some(role@), ..self@ }),
    {
        AudioDevice {
            name: self.name,
            device_type: self.device_type,
            native_id: self.native_id,
            default_role: Some(role.to_owned()),
        }
    }

    /// Reads a display text: the name followed by `(input)` or `(output)`.
    pub fn from_name(name: &str) -> (r: Result<Self, DeviceNameError>)
        ensures
            match r {
                Ok(device) => described_device(name@) == Ok::<Device, DeviceNameError>(device@),
                Err(error) => described_device(name@) == Err::<Device, DeviceNameError>(error),
            },
    {
        if text::is_blank(name) {
            return Err(DeviceNameError::Empty);
        }
        if let Some(rest) = strip_suffix(name, "(input)") {
            return Ok(AudioDevice::new(text::trim(rest.as_str()), DeviceType::Input));
        }
        if let Some(rest) = strip_suffix(name, "(output)") {
            return Ok(AudioDevice::new(text::trim(rest.as_str()), DeviceType::Output));
        }
        Err(DeviceNameError::TypeNotSpecified)
    }
}

impl Clone for AudioDevice {
    fn clone(&self) -> (r: Self)
        ensures
            r == *self,
    {
        AudioDevice {
            name: self.name.clone(),
            device_type: self.device_type,
            native_id: clone_text(&self.native_id),
            default_role: clone_text(&self.default_role),
        }
    }
}

/// Copies an endpoint that may be missing.
pub fn clone_device(device: &Option<AudioDevice>) -> (r: Option<AudioDevice>)
    ensures
        r == *device,
{
    match device {
        Some(device) => Some(device.clone()),
        None => None,
    }
}

/// Law: a device that is described by its name and direction is read back as that device.
pub proof fn described_devices_are_read_back(name: Seq<char>)
    requires
        text::trimmed(name) == name,
        name.len() > 0,
    ensures
        described_device(name + " (input)"@) == Ok::<Device, DeviceNameError>(
            Device {
                name,
                device_type: DeviceType::Input,
                native_id: None,
                default_role: None,
            }),
        described_device(name + " (output)"@) == Ok::<Device, DeviceNameError>(
            Device {
                name,
                device_type: DeviceType::Output,
                native_id: None,
                default_role: None,
            }),
{
    reveal_strlit(" (input)");
    reveal_strlit("(input)");
    reveal_strlit(" (output)");
    reveal_strlit("(output)");
    let input = name + " (input)"@;
    let output = name + " (output)"@;
    assert(input.skip(input.len() - 7) =~= "(input)"@);
    assert(output.skip(output.len() - 8) =~= "(output)"@);
    assert(output.skip(output.len() - 7)[0] == 'o');
    assert("(input)"@[0] == '(');
    assert(!text::white_space(input[input.len() - 1]));
    assert(!text::white_space(output[output.len() - 1]));
    assert(without_last(input, 7) =~= name.push(' '));
    assert(without_last(output, 8) =~= name.push(' '));
    text::one_space_is_trimmed(name);
}

/// Law: a selection without a direction at its end, or of nothing but white space, is no device.
pub proof fn devices_need_a_direction(text: Seq<char>)
    ensures
        text::blank(text) ==> described_device(text) == Err::<Device, DeviceNameError>(
            DeviceNameError::Empty),
        described_device(text) matches Ok(device) ==> (device.device_type == DeviceType::Input
            <==> ends_in(text, "(input)"@)) && (ends_in(text, "(input)"@) || ends_in(
            text, "(output)"@)),
        described_device(text) is Ok <==> !text::blank(text) && (ends_in(text, "(input)"@)
            || ends_in(text, "(output)"@)),
{
}

} // verus!
