//! Resolving a saved or chosen selection to an endpoint that is active now.

use vstd::prelude::*;

use crate::devices::configuration::{
    described_device, device_views, AudioDevice, Device, DeviceNameError, DeviceType,
};
use crate::text;

verus! {

/// Why a selection does not lead to an endpoint.
#[derive(Debug, Clone, Copy, PartialEq, Eq, Structural)]
pub enum DeviceSelectionError {
    /// The selection is no identifier of an active endpoint and no display text either.
    Name(DeviceNameError),
    /// The display text names an endpoint of the other direction.
    WrongType,
    /// No active endpoint has the name.
    NotActive,
    /// Several active endpoints have the name.
    Ambiguous,
}

impl DeviceSelectionError {
    /// The text shown to the user for a failed `selection`.
    pub open spec fn text(self, selection: Seq<char>) -> Seq<char> {
        match self {
            DeviceSelectionError::Name(DeviceNameError::Empty) => "Device name cannot be empty"@,
            DeviceSelectionError::Name(DeviceNameError::TypeNotSpecified) =>
                "Device type (input/output) not specified in the name"@,
            DeviceSelectionError::WrongType =>
                "Audio device selection has the wrong device type: "@ + selection,
            DeviceSelectionError::NotActive => "Audio device is not active: "@ + selection,
            DeviceSelectionError::Ambiguous =>
                "Audio device name is ambiguous; refresh settings and select the endpoint again: "@
                + selection,
        }
    }

    pub fn message(&self, selection: &str) -> (r: String)
        ensures
            r@ == self.text(selection@),
    {
        match *self {
            DeviceSelectionError::Name(error) => error.message().to_owned(),
            DeviceSelectionError::WrongType =>
                text::joined("Audio device selection has the wrong device type: ", selection),
            DeviceSelectionError::NotActive =>
                text::joined("Audio device is not active: ", selection),
            DeviceSelectionError::Ambiguous => text::joined(
                "Audio device name is ambiguous; refresh settings and select the endpoint again: ",
                selection,
            ),
        }
    }
}

/// The endpoint has the identifier `selection` and the wanted direction.
pub open spec fn has_native_id(device: Device, selection: Seq<char>, device_type: DeviceType) -> bool {
    device.device_type == device_type && device.native_id == Some(selection)
}

/// The endpoint has the name `name` and the wanted direction.
pub open spec fn has_name(device: Device, name: Seq<char>, device_type: DeviceType) -> bool {
    device.device_type == device_type && device.name == name
}

/// Position `i` is the only one whose endpoint has the name.
pub open spec fn only_named(
    devices: Seq<Device>,
    name: Seq<char>,
    device_type: DeviceType,
    i: int,
) -> bool {
    &&& 0 <= i < devices.len()
    &&& has_name(devices[i], name, device_type)
    &&& forall|j: int| 0 <= j < devices.len() && j != i ==> !has_name(
        #[trigger] devices[j], name, device_type)
}

/// No endpoint has the name.
pub open spec fn none_named(devices: Seq<Device>, name: Seq<char>, device_type: DeviceType) -> bool {
    forall|j: int| 0 <= j < devices.len() ==> !has_name(#[trigger] devices[j], name, device_type)
}

/// No endpoint has the identifier.
pub open spec fn none_identified(
    devices: Seq<Device>,
    selection: Seq<char>,
    device_type: DeviceType,
) -> bool {
    forall|j: int| 0 <= j < devices.len() ==> !has_native_id(
        #[trigger] devices[j], selection, device_type)
}

/// Position `i` is the first whose endpoint has the identifier.
pub open spec fn first_identified(
    devices: Seq<Device>,
    selection: Seq<char>,
    device_type: DeviceType,
    i: int,
) -> bool {
    &&& 0 <= i < devices.len()
    &&& has_native_id(devices[i], selection, device_type)
    &&& forall|j: int| 0 <= j < i ==> !has_native_id(#[trigger] devices[j], selection, device_type)
}

/// What a selection leads to. An identifier is decisive. A display text counts only when no
/// endpoint has the identifier, and only when exactly one endpoint has the name.
pub open spec fn is_selection(
    devices: Seq<Device>,
    selection: Seq<char>,
    device_type: DeviceType,
    result: Result<Device, DeviceSelectionError>,
) -> bool {
    if exists|i: int| first_identified(devices, selection, device_type, i) {
        exists|i: int| first_identified(devices, selection, device_type, i)
            && result == Ok::<Device, DeviceSelectionError>(devices[i])
    } else {
        match described_device(selection) {
            Err(error) => result == Err::<Device, DeviceSelectionError>(
                DeviceSelectionError::Name(error)),
            Ok(parsed) => if parsed.device_type != device_type {
                result == Err::<Device, DeviceSelectionError>(DeviceSelectionError::WrongType)
            } else if none_named(devices, parsed.name, device_type) {
                result == Err::<Device, DeviceSelectionError>(DeviceSelectionError::NotActive)
            } else if exists|i: int| only_named(devices, parsed.name, device_type, i) {
                exists|i: int| only_named(devices, parsed.name, device_type, i)
                    && result == Ok::<Device, DeviceSelectionError>(devices[i])
            } else {
                result == Err::<Device, DeviceSelectionError>(DeviceSelectionError::Ambiguous)
            },
        }
    }
}

fn same_id(id: &Option<String>, selection: &str) -> (r: bool)
    ensures
        r == (crate::devices::configuration::text_of(*id) == Some(selection@)),
{
    match id {
        Some(id) => text::same(id.as_str(), selection),
        None => false,
    }
}

/// The first endpoint with the identifier `selection`.
pub fn find_native_id(devices: &Vec<AudioDevice>, selection: &str, device_type: DeviceType) -> (r:
    Option<usize>)
    ensures
        match r {
            Some(i) => first_identified(device_views(devices@), selection@, device_type, i as int),
            None => none_identified(device_views(devices@), selection@, device_type),
        },
{
    let ghost views = device_views(devices@);
    let mut i: usize = 0;
    while i < devices.len()
        invariant
            i <= devices@.len(),
            views == device_views(devices@),
            forall|j: int| 0 <= j < i ==> !has_native_id(
                #[trigger] views[j], selection@, device_type),
        decreases devices@.len() - i,
    {
        assert(views[i as int] == devices@[i as int]@);
        if devices[i].device_type == device_type && same_id(&devices[i].native_id, selection) {
            return Some(i);
        }
        i = i + 1;
    }
    None
}

/// Finds the endpoint that `selection` means among `devices`.
#[verifier::loop_isolation(false)]
pub fn select_audio_device(
    devices: Vec<AudioDevice>,
    selection: &str,
    device_type: DeviceType,
) -> (r: Result<AudioDevice, DeviceSelectionError>)
    ensures
        match r {
            Ok(device) => is_selection(
                device_views(devices@), selection@, device_type, Ok(device@)),
            Err(error) => is_selection(
                device_views(devices@), selection@, device_type, Err(error)),
        },
{
    let ghost views = device_views(devices@);
    if let Some(i) = find_native_id(&devices, selection, device_type) {
        assert(views[i as int] == devices@[i as int]@);
        return Ok(devices[i].clone());
    }
    let parsed = match AudioDevice::from_name(selection) {
        Ok(parsed) => parsed,
        Err(error) => {
            return Err(DeviceSelectionError::Name(error));
        },
    };
    if parsed.device_type != device_type {
        return Err(DeviceSelectionError::WrongType);
    }
    let mut matching: Option<usize> = None;
    let mut i: usize = 0;
    while i < devices.len()
        invariant
            i <= devices@.len(),
            views == device_views(devices@),
            match matching {
                None => forall|j: int| 0 <= j < i ==> !has_name(
                    #[trigger] views[j], parsed.name@, device_type),
                Some(m) => m < i && has_name(views[m as int], parsed.name@, device_type)
                    && forall|j: int| 0 <= j < i && j != m ==> !has_name(
                    #[trigger] views[j], parsed.name@, device_type),
            },
        decreases devices@.len() - i,
    {
        assert(views[i as int] == devices@[i as int]@);
        if devices[i].device_type == device_type && devices[i].name == parsed.name {
            match matching {
                None => {
                    matching = Some(i);
                },
                Some(m) => {
                    assert(has_name(views[m as int], parsed.name@, device_type));
                    assert(has_name(views[i as int], parsed.name@, device_type));
                    return Err(DeviceSelectionError::Ambiguous);
                },
            }
        }
        i = i + 1;
    }
    match matching {
        Some(m) => {
            assert(only_named(views, parsed.name@, device_type, m as int));
            Ok(devices[m].clone())
        },
        None => Err(DeviceSelectionError::NotActive),
    }
}

/// `r` is the device that was asked for, or why there is none.
pub open spec fn is_resolved(
    listed: Result<Vec<AudioDevice>, String>,
    selection: Seq<char>,
    device_type: DeviceType,
    r: Result<AudioDevice, String>,
) -> bool {
    match listed {
        Err(error) => r == Err::<AudioDevice, String>(error),
        Ok(devices) => match r {
            Ok(device) => is_selection(
                device_views(devices@),
                selection,
                device_type,
                Ok(device@),
            ),
            Err(message) => exists|e: DeviceSelectionError|
                #![trigger e.text(selection)]
                is_selection(device_views(devices@), selection, device_type, Err(e)) && message@
                    == e.text(selection),
        },
    }
}

/// Finds the device of a direction that was asked for among those that could be listed.
pub fn resolve_audio_device(
    listed: Result<Vec<AudioDevice>, String>,
    selection: &str,
    device_type: DeviceType,
) -> (r: Result<AudioDevice, String>)
    ensures
        is_resolved(listed, selection@, device_type, r),
{
    match listed {
        Ok(devices) => match select_audio_device(devices, selection, device_type) {
            Ok(device) => Ok(device),
            Err(error) => Err(error.message(selection)),
        },
        Err(error) => Err(error),
    }
}

/// Law: an endpoint of the other direction never satisfies a request.
pub proof fn selection_has_the_wanted_direction(
    devices: Seq<Device>,
    selection: Seq<char>,
    device_type: DeviceType,
    device: Device,
)
    requires
        is_selection(devices, selection, device_type, Ok(device)),
    ensures
        device.device_type == device_type,
        devices.contains(device),
{
}

/// Law: where two endpoints share the name that a display text gives, the text selects neither.
pub proof fn shared_name_is_not_guessed(
    devices: Seq<Device>,
    selection: Seq<char>,
    device_type: DeviceType,
    name: Seq<char>,
    i: int,
    j: int,
    result: Result<Device, DeviceSelectionError>,
)
    requires
        0 <= i < j < devices.len(),
        has_name(devices[i], name, device_type),
        has_name(devices[j], name, device_type),
        described_device(selection) matches Ok(parsed) && parsed.name == name
            && parsed.device_type == device_type,
        none_identified(devices, selection, device_type),
        is_selection(devices, selection, device_type, result),
    ensures
        result == Err::<Device, DeviceSelectionError>(DeviceSelectionError::Ambiguous),
{
}

/// The list after the names of further host devices were merged in: each name that no listed
/// endpoint has yet becomes an output.
pub open spec fn merged(devices: Seq<Device>, names: Seq<Seq<char>>) -> Seq<Device>
    decreases names.len(),
{
    if names.len() == 0 {
        devices
    } else {
        let before = merged(devices, names.drop_last());
        if exists|i: int| 0 <= i < before.len() && (#[trigger] before[i]).name == names.last() {
            before
        } else {
            before.push(
                Device {
                    name: names.last(),
                    device_type: DeviceType::Output,
                    native_id: None,
                    default_role: None,
                },
            )
        }
    }
}

/// The characters of each string.
pub open spec fn texts(strings: Seq<String>) -> Seq<Seq<char>> {
    Seq::new(strings.len(), |i: int| strings[i]@)
}

/// Adds the host's other device names to the platform's list.
pub fn merge_host_devices(devices: &mut Vec<AudioDevice>, names: Vec<String>)
    ensures
        device_views(final(devices)@) == merged(device_views(old(devices)@), texts(names@)),
{
    let ghost start = device_views(devices@);
    let ghost all = texts(names@);
    let mut n: usize = 0;
    assert(all.take(0) =~= Seq::empty());
    while n < names.len()
        invariant
            n <= names@.len(),
            all == texts(names@),
            device_views(devices@) == merged(start, all.take(n as int)),
        decreases names@.len() - n,
    {
        let ghost views = device_views(devices@);
        let mut listed = false;
        let mut i: usize = 0;
        while i < devices.len()
            invariant
                i <= devices@.len(),
                n < names@.len(),
                views == device_views(devices@),
                listed == exists|j: int| 0 <= j < i && (#[trigger] views[j]).name
                    == names@[n as int]@,
            decreases devices@.len() - i,
        {
            assert(views[i as int] == devices@[i as int]@);
            if devices[i].name == names[n] {
                listed = true;
            }
            i = i + 1;
        }
        proof {
            assert(all.take(n + 1).drop_last() =~= all.take(n as int));
            assert(all.take(n + 1).last() == names@[n as int]@);
        }
        if !listed {
            let device = AudioDevice::new(names[n].clone(), DeviceType::Output);
            devices.push(device);
            assert(device_views(devices@) =~= views.push(device@));
        }
        n = n + 1;
    }
    assert(all.take(n as int) =~= all);
}

/// Law: the device with the identifier that was selected is taken, the first of its direction,
/// whatever any device is called.
pub proof fn identifiers_decide(
    devices: Seq<Device>,
    selection: Seq<char>,
    device_type: DeviceType,
    i: int,
    result: Result<Device, DeviceSelectionError>,
)
    requires
        is_selection(devices, selection, device_type, result),
        0 <= i < devices.len(),
        devices[i].device_type == device_type,
        devices[i].native_id == Some(selection),
        forall|j: int| 0 <= j < i ==> !((#[trigger] devices[j]).device_type == device_type
            && devices[j].native_id == Some(selection)),
    ensures
        result == Ok::<Device, DeviceSelectionError>(devices[i]),
{
    assert(first_identified(devices, selection, device_type, i));
    let k = choose|k: int| first_identified(devices, selection, device_type, k) && result
        == Ok::<Device, DeviceSelectionError>(devices[k]);
    if k < i {
        assert(!has_native_id(devices[k], selection, device_type));
    } else if i < k {
        assert(!has_native_id(devices[i], selection, device_type));
    }
}

/// Law: a device that is named with its direction is taken where it is the only one of that name
/// and direction; where there is none, it is not active, and a device is never taken for one of
/// the other direction.
pub proof fn names_decide_where_they_are_unique(
    devices: Seq<Device>,
    selection: Seq<char>,
    parsed: Device,
    device_type: DeviceType,
    result: Result<Device, DeviceSelectionError>,
)
    requires
        is_selection(devices, selection, device_type, result),
        described_device(selection) == Ok::<Device, DeviceNameError>(parsed),
        forall|j: int| 0 <= j < devices.len() ==> (#[trigger] devices[j]).native_id != Some(
            selection),
    ensures
        parsed.device_type != device_type ==> result == Err::<Device, DeviceSelectionError>(
            DeviceSelectionError::WrongType),
        result matches Ok(device) ==> device.name == parsed.name && device.device_type
            == device_type,
        parsed.device_type == device_type && (forall|j: int|
            0 <= j < devices.len() ==> (#[trigger] devices[j]).name != parsed.name
                || devices[j].device_type != device_type) ==> result
            == Err::<Device, DeviceSelectionError>(DeviceSelectionError::NotActive),
        forall|i: int|
            parsed.device_type == device_type && 0 <= i < devices.len() && (
            #[trigger] devices[i]).name == parsed.name && devices[i].device_type == device_type && (
            forall|j: int|
                0 <= j < devices.len() && j != i ==> (#[trigger] devices[j]).name != parsed.name
                    || devices[j].device_type != device_type) ==> result
                == Ok::<Device, DeviceSelectionError>(devices[i]),
{
    assert forall|i: int| !first_identified(devices, selection, device_type, i) by {}
    assert forall|i: int|
        parsed.device_type == device_type && 0 <= i < devices.len() && (
        #[trigger] devices[i]).name == parsed.name && devices[i].device_type == device_type && (
        forall|j: int|
            0 <= j < devices.len() && j != i ==> (#[trigger] devices[j]).name != parsed.name
                || devices[j].device_type != device_type) implies result
        == Ok::<Device, DeviceSelectionError>(devices[i]) by {
        assert(has_name(devices[i], parsed.name, device_type));
        assert(only_named(devices, parsed.name, device_type, i));
        let k = choose|k: int| only_named(devices, parsed.name, device_type, k) && result
            == Ok::<Device, DeviceSelectionError>(devices[k]);
        if k != i {
            assert(!has_name(devices[i], parsed.name, device_type));
        }
    }
}

/// Law: devices of another listing are added as outputs behind those that are known, once by name,
/// and none that is known changes.
pub proof fn merging_keeps_every_device(devices: Seq<Device>, names: Seq<Seq<char>>, i: int)
    ensures
        merged(devices, names).len() >= devices.len(),
        0 <= i < devices.len() ==> merged(devices, names)[i] == devices[i],
        devices.len() <= i < merged(devices, names).len() ==> {
            let added = merged(devices, names)[i];
            &&& added.device_type == DeviceType::Output
            &&& added.native_id is None && added.default_role is None
            &&& names.contains(added.name)
        },
        0 <= i < names.len() ==> exists|k: int|
            0 <= k < merged(devices, names).len() && (#[trigger] merged(devices, names)[k]).name
                == names[i],
    decreases names.len(),
{
    let all = merged(devices, names);
    if names.len() > 0 {
        let fewer = names.drop_last();
        let before = merged(devices, fewer);
        merging_keeps_every_device(devices, fewer, i);
        let n = names.len() - 1;
        assert(names[n] == names.last());
        if devices.len() <= i < all.len() {
            if i < before.len() {
                assert(all[i] == before[i]);
                let k = choose|k: int| 0 <= k < fewer.len() && fewer[k] == before[i].name;
                assert(names[k] == all[i].name);
            } else {
                assert(all[i].name == names[n]);
            }
        }
        if 0 <= i < n {
            let k = choose|k: int|
                0 <= k < before.len() && (#[trigger] before[k]).name == fewer[i];
            assert(all[k] == before[k]);
        } else if i == n {
            if exists|k: int| 0 <= k < before.len() && (#[trigger] before[k]).name == names.last() {
                let k = choose|k: int|
                    0 <= k < before.len() && (#[trigger] before[k]).name == names.last();
                assert(all[k].name == names[i]);
            } else {
                assert(all[before.len() as int].name == names[i]);
            }
        }
    }
}

/// Law: where the devices cannot be listed, no device is found, and that failure is passed on.
pub proof fn devices_that_cannot_be_listed_are_not_found(
    error: String,
    selection: Seq<char>,
    device_type: DeviceType,
    r: Result<AudioDevice, String>,
)
    requires
        is_resolved(Err(error), selection, device_type, r),
    ensures
        r == Err::<AudioDevice, String>(error),
{
}

/// Law: a device that is found is one of those listed, of the wanted direction.
pub proof fn found_devices_are_listed(
    devices: Vec<AudioDevice>,
    selection: Seq<char>,
    device_type: DeviceType,
    device: AudioDevice,
)
    requires
        is_resolved(Ok(devices), selection, device_type, Ok(device)),
    ensures
        device_views(devices@).contains(device@),
        device@.device_type == device_type,
{
    selection_has_the_wanted_direction(
        device_views(devices@), selection, device_type, device@);
}

} // verus!
