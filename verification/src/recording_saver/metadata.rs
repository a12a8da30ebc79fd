//! What is saved about a recording beside its audio and its text.

use vstd::prelude::*;

use crate::devices::configuration::{clone_text, text_of, AudioDevice, Device};
use crate::measurement::input::{MeasurementReference, RealtimeMeasurementReference};
use crate::recording_state::evidence::{
    clone_cutovers, clone_epochs, clone_incidents, AudioRouteEvidenceSnapshot, EvidenceSnapshot,
};

verus! {

/// The devices of a recording.
#[derive(Debug)]
pub struct DeviceInfo {
    pub microphone: Option<String>,
    pub system_audio: Option<String>,
    pub microphone_native_id: Option<String>,
    pub system_audio_native_id: Option<String>,
    pub microphone_default_role: Option<String>,
    pub system_audio_default_role: Option<String>,
    pub microphone_device_type: Option<String>,
    pub system_audio_device_type: Option<String>,
    pub recording_mode: Option<String>,
    pub recording_start_device_epoch: Option<u64>,
    pub current_device_epoch: Option<u64>,
}

/// What a `DeviceInfo` stands for.
#[verifier::ext_equal]
pub struct Devices {
    pub microphone: Option<Seq<char>>,
    pub system_audio: Option<Seq<char>>,
    pub microphone_native_id: Option<Seq<char>>,
    pub system_audio_native_id: Option<Seq<char>>,
    pub microphone_default_role: Option<Seq<char>>,
    pub system_audio_default_role: Option<Seq<char>>,
    pub microphone_device_type: Option<Seq<char>>,
    pub system_audio_device_type: Option<Seq<char>>,
    pub recording_mode: Option<Seq<char>>,
    pub recording_start_device_epoch: Option<u64>,
    pub current_device_epoch: Option<u64>,
}

impl View for DeviceInfo {
    type V = Devices;

    open spec fn view(&self) -> Devices {
        Devices {
            microphone: text_of(self.microphone),
            system_audio: text_of(self.system_audio),
            microphone_native_id: text_of(self.microphone_native_id),
            system_audio_native_id: text_of(self.system_audio_native_id),
            microphone_default_role: text_of(self.microphone_default_role),
            system_audio_default_role: text_of(self.system_audio_default_role),
            microphone_device_type: text_of(self.microphone_device_type),
            system_audio_device_type: text_of(self.system_audio_device_type),
            recording_mode: text_of(self.recording_mode),
            recording_start_device_epoch: self.recording_start_device_epoch,
            current_device_epoch: self.current_device_epoch,
        }
    }
}

impl Clone for DeviceInfo {
    fn clone(&self) -> (r: Self)
        ensures
            r == *self,
    {
        DeviceInfo {
            microphone: clone_text(&self.microphone),
            system_audio: clone_text(&self.system_audio),
            microphone_native_id: clone_text(&self.microphone_native_id),
            system_audio_native_id: clone_text(&self.system_audio_native_id),
            microphone_default_role: clone_text(&self.microphone_default_role),
            system_audio_default_role: clone_text(&self.system_audio_default_role),
            microphone_device_type: clone_text(&self.microphone_device_type),
            system_audio_device_type: clone_text(&self.system_audio_device_type),
            recording_mode: clone_text(&self.recording_mode),
            recording_start_device_epoch: self.recording_start_device_epoch,
            current_device_epoch: self.current_device_epoch,
        }
    }
}

impl Devices {
    /// Nothing is known of the devices.
    pub open spec fn unknown() -> Devices {
        Devices {
            microphone: None,
            system_audio: None,
            microphone_native_id: None,
            system_audio_native_id: None,
            microphone_default_role: None,
            system_audio_default_role: None,
            microphone_device_type: None,
            system_audio_device_type: None,
            recording_mode: None,
            recording_start_device_epoch: None,
            current_device_epoch: None,
        }
    }

    /// The devices that are bound from `epoch` on. The epoch in which the recording started is
    /// kept.
    pub open spec fn bound(
        self,
        microphone: Option<Device>,
        system_audio: Option<Device>,
        epoch: u64,
    ) -> Devices {
        Devices {
            microphone: match microphone {
                Some(device) => Some(device.name),
                None => None,
            },
            system_audio: match system_audio {
                Some(device) => Some(device.name),
                None => None,
            },
            microphone_native_id: match microphone {
                Some(device) => device.native_id,
                None => None,
            },
            system_audio_native_id: match system_audio {
                Some(device) => device.native_id,
                None => None,
            },
            microphone_default_role: match microphone {
                Some(device) => device.default_role,
                None => None,
            },
            system_audio_default_role: match system_audio {
                Some(device) => device.default_role,
                None => None,
            },
            microphone_device_type: if microphone is Some { Some("input"@) } else { None },
            system_audio_device_type: if system_audio is Some { Some("output"@) } else { None },
            recording_mode: Some(mode_name(microphone is Some, system_audio is Some)),
            recording_start_device_epoch: match self.recording_start_device_epoch {
                Some(start) => Some(start),
                None => Some(epoch),
            },
            current_device_epoch: Some(epoch),
        }
    }
}

/// The name of a choice of routes.
pub open spec fn mode_name(microphone: bool, system_audio: bool) -> Seq<char> {
    if microphone && system_audio {
        "microphone_and_system"@
    } else if microphone {
        "microphone_only"@
    } else if system_audio {
        "system_only"@
    } else {
        "inactive"@
    }
}

impl Default for DeviceInfo {
    fn default() -> (r: Self)
        ensures
            r@ == Devices::unknown(),
    {
        DeviceInfo {
            microphone: None,
            system_audio: None,
            microphone_native_id: None,
            system_audio_native_id: None,
            microphone_default_role: None,
            system_audio_default_role: None,
            microphone_device_type: None,
            system_audio_device_type: None,
            recording_mode: None,
            recording_start_device_epoch: None,
            current_device_epoch: None,
        }
    }
}

fn name_of(device: &Option<AudioDevice>) -> (r: Option<String>)
    ensures
        match *device {
            Some(d) => r == Some(d.name),
            None => r is None,
        },
{
    match device {
        Some(device) => Some(device.name.clone()),
        None => None,
    }
}

fn id_of(device: &Option<AudioDevice>) -> (r: Option<String>)
    ensures
        match *device {
            Some(d) => r == d.native_id,
            None => r is None,
        },
{
    match device {
        Some(device) => clone_text(&device.native_id),
        None => None,
    }
}

fn role_of(device: &Option<AudioDevice>) -> (r: Option<String>)
    ensures
        match *device {
            Some(d) => r == d.default_role,
            None => r is None,
        },
{
    match device {
        Some(device) => clone_text(&device.default_role),
        None => None,
    }
}

impl DeviceInfo {
    /// The devices that are bound from `epoch` on.
    pub fn bound(
        &self,
        microphone: &Option<AudioDevice>,
        system_audio: &Option<AudioDevice>,
        epoch: u64,
    ) -> (r: DeviceInfo)
        ensures
            r@ == self@.bound(
                crate::recording_state::state::device_of(*microphone),
                crate::recording_state::state::device_of(*system_audio),
                epoch,
            ),
    {
        let has_microphone: bool = microphone.is_some();
        let has_system: bool = system_audio.is_some();
        let mode: &'static str = if has_microphone && has_system {
            "microphone_and_system"
        } else if has_microphone {
            "microphone_only"
        } else if has_system {
            "system_only"
        } else {
            "inactive"
        };
        DeviceInfo {
            microphone: name_of(microphone),
            system_audio: name_of(system_audio),
            microphone_native_id: id_of(microphone),
            system_audio_native_id: id_of(system_audio),
            microphone_default_role: role_of(microphone),
            system_audio_default_role: role_of(system_audio),
            microphone_device_type: if has_microphone { Some("input".to_owned()) } else { None },
            system_audio_device_type: if has_system { Some("output".to_owned()) } else { None },
            recording_mode: Some(mode.to_owned()),
            recording_start_device_epoch: match self.recording_start_device_epoch {
                Some(start) => Some(start),
                None => Some(epoch),
            },
            current_device_epoch: Some(epoch),
        }
    }

    /// The devices with other names.
    pub fn renamed(&self, microphone: Option<String>, system_audio: Option<String>) -> (r:
        DeviceInfo)
        ensures
            r@ == (Devices {
                microphone: text_of(microphone),
                system_audio: text_of(system_audio),
                ..self@
            }),
    {
        let mut r = self.clone();
        r.microphone = microphone;
        r.system_audio = system_audio;
        r
    }
}

/// What is saved about a recording. The template of its summary and the context of its meeting
/// are kept as they were serialized.
#[derive(Debug)]
pub struct MeetingMetadata {
    pub version: String,
    pub meeting_id: Option<String>,
    pub meeting_name: Option<String>,
    pub created_at: String,
    pub completed_at: Option<String>,
    pub duration_ns: Option<u64>,
    pub devices: DeviceInfo,
    pub audio_file: String,
    pub transcript_file: String,
    pub sample_rate: u32,
    pub status: String,
    pub audio_route_evidence: Option<AudioRouteEvidenceSnapshot>,
    pub summary_template: Option<String>,
    pub meeting_context: Option<String>,
    pub realtime_measurement: Option<RealtimeMeasurementReference>,
}

/// What a `MeetingMetadata` stands for.
#[verifier::ext_equal]
pub struct Metadata {
    pub version: Seq<char>,
    pub meeting_id: Option<Seq<char>>,
    pub meeting_name: Option<Seq<char>>,
    pub created_at: Seq<char>,
    pub completed_at: Option<Seq<char>>,
    pub duration_ns: Option<u64>,
    pub devices: Devices,
    pub audio_file: Seq<char>,
    pub transcript_file: Seq<char>,
    pub sample_rate: u32,
    pub status: Seq<char>,
    pub audio_route_evidence: Option<EvidenceSnapshot>,
    pub summary_template: Option<Seq<char>>,
    pub meeting_context: Option<Seq<char>>,
    pub realtime_measurement: Option<MeasurementReference>,
}

impl View for MeetingMetadata {
    type V = Metadata;

    open spec fn view(&self) -> Metadata {
        Metadata {
            version: self.version@,
            meeting_id: text_of(self.meeting_id),
            meeting_name: text_of(self.meeting_name),
            created_at: self.created_at@,
            completed_at: text_of(self.completed_at),
            duration_ns: self.duration_ns,
            devices: self.devices@,
            audio_file: self.audio_file@,
            transcript_file: self.transcript_file@,
            sample_rate: self.sample_rate,
            status: self.status@,
            audio_route_evidence: match self.audio_route_evidence {
                Some(evidence) => Some(evidence@),
                None => None,
            },
            summary_template: text_of(self.summary_template),
            meeting_context: text_of(self.meeting_context),
            realtime_measurement: match self.realtime_measurement {
                Some(reference) => Some(reference@),
                None => None,
            },
        }
    }
}

impl Clone for AudioRouteEvidenceSnapshot {
    fn clone(&self) -> (r: Self)
        ensures
            r@ == self@,
    {
        AudioRouteEvidenceSnapshot {
            schema_version: self.schema_version,
            current_device_epoch: self.current_device_epoch,
            microphone_stream_started_count: self.microphone_stream_started_count,
            epochs: clone_epochs(&self.epochs),
            incidents: clone_incidents(&self.incidents),
            cutovers: clone_cutovers(&self.cutovers),
        }
    }
}

impl Clone for MeetingMetadata {
    fn clone(&self) -> (r: Self)
        ensures
            r@ == self@,
    {
        MeetingMetadata {
            version: self.version.clone(),
            meeting_id: clone_text(&self.meeting_id),
            meeting_name: clone_text(&self.meeting_name),
            created_at: self.created_at.clone(),
            completed_at: clone_text(&self.completed_at),
            duration_ns: self.duration_ns,
            devices: self.devices.clone(),
            audio_file: self.audio_file.clone(),
            transcript_file: self.transcript_file.clone(),
            sample_rate: self.sample_rate,
            status: self.status.clone(),
            audio_route_evidence: match &self.audio_route_evidence {
                Some(evidence) => Some(evidence.clone()),
                None => None,
            },
            summary_template: clone_text(&self.summary_template),
            meeting_context: clone_text(&self.meeting_context),
            realtime_measurement: match &self.realtime_measurement {
                Some(reference) => Some(reference.clone()),
                None => None,
            },
        }
    }
}

/// Law: what is on record of the devices is which microphone and which output were bound, each
/// under its own name, and nothing of a route that is not recorded.
pub proof fn devices_are_recorded_by_route(
    devices: Devices,
    microphone: Device,
    system_audio: Device,
    epoch: u64,
)
    ensures
        ({
            let both = devices.bound(Some(microphone), Some(system_audio), epoch);
            let heard = devices.bound(Some(microphone), None, epoch);
            let played = devices.bound(None, Some(system_audio), epoch);
            let neither = devices.bound(None, None, epoch);
            &&& both.microphone == Some(microphone.name) && both.system_audio == Some(
                system_audio.name)
            &&& both.microphone_native_id == microphone.native_id && both.system_audio_native_id
                == system_audio.native_id
            &&& both.microphone_default_role == microphone.default_role
                && both.system_audio_default_role == system_audio.default_role
            &&& both.microphone_device_type == Some("input"@) && both.system_audio_device_type
                == Some("output"@)
            &&& both.recording_mode == Some("microphone_and_system"@)
            &&& both.current_device_epoch == Some(epoch)
            &&& heard == (Devices {
                system_audio: None,
                system_audio_native_id: None,
                system_audio_default_role: None,
                system_audio_device_type: None,
                recording_mode: Some("microphone_only"@),
                ..both
            })
            &&& played == (Devices {
                microphone: None,
                microphone_native_id: None,
                microphone_default_role: None,
                microphone_device_type: None,
                recording_mode: Some("system_only"@),
                ..both
            })
            &&& neither.microphone is None && neither.system_audio is None
                && neither.recording_mode == Some("inactive"@)
        }),
{
}

} // verus!
