//! The saver of one recording.

use vstd::prelude::*;
use vstd::string::*;

use crate::devices::configuration::{clone_text, text_of, AudioDevice, Device};
use crate::incremental_saver::{Buffered, IncrementalAudioSaver};
use crate::measurement::input::{
    reference_to, InputContract, RealtimeAudioInputContract, RealtimeMeasurementReference,
};
use crate::outside::{is_rfc3339, utc_now_rfc3339};
use crate::recording_saver::metadata::{DeviceInfo, Devices, MeetingMetadata, Metadata};
use crate::recording_saver::transcript::{TranscriptSegment, TranscriptWriter};
use crate::recording_state::evidence::{AudioRouteEvidenceSnapshot, EvidenceSnapshot};
use crate::recording_state::state::device_of;
use crate::text;

verus! {

/// Samples per second of a recording, unless a measurement asks for another rate.
pub const RECORDING_SAMPLE_RATE: u32 = 48_000;

/// Why a saver refuses a request.
#[derive(Debug)]
pub enum SaverError {
    /// The summary template is fixed once a recording is saved.
    TemplateIsFixed,
    /// The meeting context is fixed once a recording is saved.
    ContextIsFixed,
    /// The measurement input is fixed once a recording is saved.
    InputIsFixed,
    /// The meeting context does not hold together, for these reasons.
    InvalidContext(String),
    /// A saver serves one meeting.
    BelongsToMeeting,
    NameRequired,
    FolderUnavailable,
    MetadataUnavailable,
}

/// What a `SaverError` stands for.
pub enum SaverFailure {
    TemplateIsFixed,
    ContextIsFixed,
    InputIsFixed,
    InvalidContext(Seq<char>),
    BelongsToMeeting,
    NameRequired,
    FolderUnavailable,
    MetadataUnavailable,
}

impl View for SaverError {
    type V = SaverFailure;

    open spec fn view(&self) -> SaverFailure {
        match *self {
            SaverError::TemplateIsFixed => SaverFailure::TemplateIsFixed,
            SaverError::ContextIsFixed => SaverFailure::ContextIsFixed,
            SaverError::InputIsFixed => SaverFailure::InputIsFixed,
            SaverError::InvalidContext(issues) => SaverFailure::InvalidContext(issues@),
            SaverError::BelongsToMeeting => SaverFailure::BelongsToMeeting,
            SaverError::NameRequired => SaverFailure::NameRequired,
            SaverError::FolderUnavailable => SaverFailure::FolderUnavailable,
            SaverError::MetadataUnavailable => SaverFailure::MetadataUnavailable,
        }
    }
}

impl SaverFailure {
    /// The text that describes the failure.
    pub open spec fn text(self) -> Seq<char> {
        match self {
            SaverFailure::TemplateIsFixed =>
                "summary template cannot be replaced after recording persistence starts"@,
            SaverFailure::ContextIsFixed =>
                "meeting context cannot be replaced after recording persistence starts"@,
            SaverFailure::InputIsFixed =>
                "real-time input contract cannot be replaced after recording persistence starts"@,
            SaverFailure::InvalidContext(issues) => "invalid meeting context: "@ + issues,
            SaverFailure::BelongsToMeeting =>
                "recording saver already belongs to a meeting; use a new saver for a new recording"@,
            SaverFailure::NameRequired => "meeting name is required before recording starts"@,
            SaverFailure::FolderUnavailable => "meeting folder is unavailable"@,
            SaverFailure::MetadataUnavailable => "meeting metadata is unavailable"@,
        }
    }
}

impl SaverError {
    pub fn message(&self) -> (r: String)
        ensures
            r@ == self@.text(),
    {
        match self {
            SaverError::TemplateIsFixed =>
                "summary template cannot be replaced after recording persistence starts".to_owned(),
            SaverError::ContextIsFixed =>
                "meeting context cannot be replaced after recording persistence starts".to_owned(),
            SaverError::InputIsFixed =>
                "real-time input contract cannot be replaced after recording persistence starts".to_owned(),
            SaverError::InvalidContext(issues) => text::joined(
                "invalid meeting context: ", issues.as_str()),
            SaverError::BelongsToMeeting =>
                "recording saver already belongs to a meeting; use a new saver for a new recording".to_owned(),
            SaverError::NameRequired =>
                "meeting name is required before recording starts".to_owned(),
            SaverError::FolderUnavailable => "meeting folder is unavailable".to_owned(),
            SaverError::MetadataUnavailable => "meeting metadata is unavailable".to_owned(),
        }
    }
}

/// What a `RecordingSaver` stands for, beside the rows of its text.
#[verifier::ext_equal]
pub struct Saver {
    pub meeting_folder: Option<Seq<char>>,
    pub meeting_name: Option<Seq<char>>,
    pub metadata: Option<Metadata>,
    pub pending_devices: Devices,
    pub pending_summary_template: Option<Seq<char>>,
    pub pending_meeting_context: Option<Seq<char>>,
    pub pending_input: Option<InputContract>,
    pub recording_sample_rate: u32,
    /// The audio on its way to disk, where audio is saved.
    pub audio: Option<Buffered>,
    /// What went wrong first when the recording was saved.
    pub save_error: Option<Seq<char>>,
}

/// The saver of one recording. Metadata is changed in memory only once it is written.
pub struct RecordingSaver {
    pub meeting_folder: Option<String>,
    pub meeting_name: Option<String>,
    pub metadata: Option<MeetingMetadata>,
    pub pending_device_info: DeviceInfo,
    pub pending_summary_template: Option<String>,
    pub pending_meeting_context: Option<String>,
    pub pending_realtime_input_contract: Option<RealtimeAudioInputContract>,
    pub recording_sample_rate: u32,
    pub incremental_saver: Option<IncrementalAudioSaver>,
    pub save_error: Option<String>,
    pub writer: TranscriptWriter,
}

/// What metadata that may be missing stands for.
pub open spec fn metadata_of(metadata: Option<MeetingMetadata>) -> Option<Metadata> {
    match metadata {
        Some(metadata) => Some(metadata@),
        None => None,
    }
}

/// What an input that may be missing stands for.
pub open spec fn input_of(contract: Option<RealtimeAudioInputContract>) -> Option<InputContract> {
    match contract {
        Some(contract) => Some(contract@),
        None => None,
    }
}

impl View for RecordingSaver {
    type V = Saver;

    open spec fn view(&self) -> Saver {
        Saver {
            meeting_folder: text_of(self.meeting_folder),
            meeting_name: text_of(self.meeting_name),
            metadata: metadata_of(self.metadata),
            pending_devices: self.pending_device_info@,
            pending_summary_template: text_of(self.pending_summary_template),
            pending_meeting_context: text_of(self.pending_meeting_context),
            pending_input: input_of(self.pending_realtime_input_contract),
            recording_sample_rate: self.recording_sample_rate,
            audio: match self.incremental_saver {
                Some(saver) => Some(saver@),
                None => None,
            },
            save_error: text_of(self.save_error),
        }
    }
}

impl Saver {
    /// Whether the template can be set, and the saver then. It is fixed once there is a folder.
    pub open spec fn template_set(self, preference: Option<Seq<char>>) -> (bool, Saver) {
        if self.meeting_folder is None {
            (true, Saver { pending_summary_template: preference, ..self })
        } else {
            (false, self)
        }
    }

    /// Whether the context can be set, and the saver then. It is fixed once there is a folder, and
    /// one that did not pass its check is `Some(None)`.
    pub open spec fn context_set(self, context: Option<Option<Seq<char>>>) -> (bool, Saver) {
        match context {
            _ if self.meeting_folder is Some => (false, self),
            Some(None) => (false, self),
            Some(Some(checked)) => (true, Saver { pending_meeting_context: Some(checked), ..self }),
            None => (true, Saver { pending_meeting_context: None, ..self }),
        }
    }

    /// Whether the controlled input can be set, and the saver then.
    pub open spec fn input_set(self, contract: InputContract) -> (bool, Saver) {
        if self.meeting_folder is None {
            (
                true,
                Saver {
                    pending_input: Some(contract),
                    recording_sample_rate: contract.canonical_sample_rate_hz,
                    ..self
                },
            )
        } else {
            (false, self)
        }
    }

    /// The name under which the recording can start, if it can: a saver belongs to one meeting.
    pub open spec fn name_to_start_with(self) -> Option<Seq<char>> {
        if self.meeting_folder is None {
            self.meeting_name
        } else {
            None
        }
    }

    /// The first metadata of a recording.
    pub open spec fn initial_metadata(
        self,
        meeting_name: Seq<char>,
        created_at: Seq<char>,
        create_checkpoints: bool,
    ) -> Metadata {
        Metadata {
            version: "1.0"@,
            meeting_id: None,
            meeting_name: Some(meeting_name),
            created_at,
            completed_at: None,
            duration_ns: None,
            devices: self.pending_devices,
            audio_file: if create_checkpoints { "audio.mp4"@ } else { ""@ },
            transcript_file: "transcripts.json"@,
            sample_rate: self.recording_sample_rate,
            status: "recording"@,
            audio_route_evidence: None,
            summary_template: self.pending_summary_template,
            meeting_context: self.pending_meeting_context,
            realtime_measurement: match self.pending_input {
                Some(contract) => Some(reference_to(contract)),
                None => None,
            },
        }
    }

    /// The saver once its folder was made and its first metadata written.
    pub open spec fn initialized(
        self,
        folder: Seq<char>,
        metadata: Metadata,
        create_checkpoints: bool,
    ) -> Saver {
        Saver {
            meeting_folder: Some(folder),
            metadata: Some(metadata),
            audio: if create_checkpoints {
                Some(Buffered::empty(self.recording_sample_rate))
            } else {
                None
            },
            ..self
        }
    }

    /// The metadata with other devices, where there is any.
    pub open spec fn metadata_with_devices(self, devices: Devices) -> Option<Metadata> {
        match self.metadata {
            Some(metadata) => Some(Metadata { devices, ..metadata }),
            None => None,
        }
    }

    /// The saver with other devices.
    pub open spec fn with_devices(self, devices: Devices) -> Saver {
        Saver {
            metadata: self.metadata_with_devices(devices),
            pending_devices: devices,
            ..self
        }
    }

    /// The metadata with evidence of the routes, where there is any.
    pub open spec fn metadata_with_evidence(self, evidence: EvidenceSnapshot) -> Option<Metadata> {
        match self.metadata {
            Some(metadata) => Some(
                Metadata { audio_route_evidence: Some(evidence), ..metadata },
            ),
            None => None,
        }
    }

    /// The metadata of a recording that is complete.
    pub open spec fn completed_metadata(
        self,
        completed_at: Seq<char>,
        duration_ns: Option<u64>,
    ) -> Metadata {
        Metadata {
            status: "completed"@,
            completed_at: Some(completed_at),
            duration_ns,
            ..self.metadata->0
        }
    }

    /// The metadata of a recording whose saving failed.
    pub open spec fn failed_metadata(self) -> Metadata {
        Metadata { status: "error"@, completed_at: None, ..self.metadata->0 }
    }
}

impl RecordingSaver {
    pub fn new() -> (r: Self)
        ensures
            r@ == (Saver {
                meeting_folder: None,
                meeting_name: None,
                metadata: None,
                pending_devices: Devices::unknown(),
                pending_summary_template: None,
                pending_meeting_context: None,
                pending_input: None,
                recording_sample_rate: RECORDING_SAMPLE_RATE,
                audio: None,
                save_error: None,
            }),
            r.writer.segments@.len() == 0,
            r.writer.error is None,
            !r.writer.has_folder,
    {
        RecordingSaver {
            meeting_folder: None,
            meeting_name: None,
            metadata: None,
            pending_device_info: DeviceInfo::default(),
            pending_summary_template: None,
            pending_meeting_context: None,
            pending_realtime_input_contract: None,
            recording_sample_rate: RECORDING_SAMPLE_RATE,
            incremental_saver: None,
            save_error: None,
            writer: TranscriptWriter::new(),
        }
    }

    pub fn set_meeting_name(&mut self, name: Option<String>)
        ensures
            final(self)@ == (Saver { meeting_name: text_of(name), ..old(self)@ }),
            final(self).writer == old(self).writer,
    {
        self.meeting_name = name;
    }

    /// Chooses the template of the summary, until the recording is saved.
    pub fn set_summary_template(&mut self, preference: Option<String>) -> (r: Result<
        (),
        SaverError,
    >)
        ensures
            (r is Ok, final(self)@) == old(self)@.template_set(text_of(preference)),
            r is Ok == old(self)@.meeting_folder is None,
            r matches Err(error) ==> error@ == SaverFailure::TemplateIsFixed,
            final(self)@ == if r is Ok {
                Saver { pending_summary_template: text_of(preference), ..old(self)@ }
            } else {
                old(self)@
            },
            final(self).writer == old(self).writer,
    {
        if self.meeting_folder.is_some() {
            return Err(SaverError::TemplateIsFixed);
        }
        self.pending_summary_template = preference;
        Ok(())
    }

    /// Gives the context of the meeting, until the recording is saved. `context` is the context
    /// once it was checked, or what is wrong with it.
    pub fn set_meeting_context(&mut self, context: Option<Result<String, String>>) -> (r: Result<
        (),
        SaverError,
    >)
        ensures
            (r is Ok, final(self)@) == old(self)@.context_set(
                match context {
                    Some(Ok(checked)) => Some(Some(checked@)),
                    Some(Err(_)) => Some(None),
                    None => None,
                },
            ),
            match r {
                Ok(()) => {
                    &&& old(self)@.meeting_folder is None
                    &&& match context {
                        None => final(self)@ == (Saver {
                            pending_meeting_context: None,
                            ..old(self)@
                        }),
                        Some(Ok(checked)) => final(self)@ == (Saver {
                            pending_meeting_context: Some(checked@),
                            ..old(self)@
                        }),
                        Some(Err(_)) => false,
                    }
                },
                Err(error) => {
                    &&& final(self)@ == old(self)@
                    &&& if old(self)@.meeting_folder is Some {
                        error@ == SaverFailure::ContextIsFixed
                    } else {
                        context matches Some(Err(issues)) && error@
                            == SaverFailure::InvalidContext(issues@)
                    }
                },
            },
            final(self).writer == old(self).writer,
    {
        if self.meeting_folder.is_some() {
            return Err(SaverError::ContextIsFixed);
        }
        match context {
            None => {
                self.pending_meeting_context = None;
            },
            Some(Ok(checked)) => {
                self.pending_meeting_context = Some(checked);
            },
            Some(Err(issues)) => {
                return Err(SaverError::InvalidContext(issues));
            },
        }
        Ok(())
    }

    /// Gives the input of a measurement, until the recording is saved.
    pub fn set_realtime_input_contract(&mut self, contract: RealtimeAudioInputContract) -> (r:
        Result<(), SaverError>)
        ensures
            (r is Ok, final(self)@) == old(self)@.input_set(contract@),
            r is Ok == old(self)@.meeting_folder is None,
            r matches Err(error) ==> error@ == SaverFailure::InputIsFixed,
            final(self)@ == if r is Ok {
                Saver {
                    pending_input: Some(contract@),
                    recording_sample_rate: contract@.canonical_sample_rate_hz,
                    ..old(self)@
                }
            } else {
                old(self)@
            },
            final(self).writer == old(self).writer,
    {
        if self.meeting_folder.is_some() {
            return Err(SaverError::InputIsFixed);
        }
        self.recording_sample_rate = contract.canonical_sample_rate_hz;
        self.pending_realtime_input_contract = Some(contract);
        Ok(())
    }

    /// The devices under other names.
    pub fn set_device_info(&self, microphone: Option<String>, system_audio: Option<String>) -> (r:
        DeviceInfo)
        ensures
            r@ == (Devices {
                microphone: text_of(microphone),
                system_audio: text_of(system_audio),
                ..self@.pending_devices
            }),
    {
        self.pending_device_info.renamed(microphone, system_audio)
    }

    /// The devices that are bound from `device_epoch` on.
    pub fn set_audio_devices(
        &self,
        microphone: &Option<AudioDevice>,
        system_audio: &Option<AudioDevice>,
        device_epoch: u64,
    ) -> (r: DeviceInfo)
        ensures
            r@ == self@.pending_devices.bound(
                device_of(*microphone), device_of(*system_audio), device_epoch),
    {
        self.pending_device_info.bound(microphone, system_audio, device_epoch)
    }

    /// The metadata that has to be written before other devices are taken over.
    pub fn metadata_with_devices(&self, devices: &DeviceInfo) -> (r: Option<MeetingMetadata>)
        ensures
            metadata_of(r) == if self@.meeting_folder is Some {
                self@.metadata_with_devices(devices@)
            } else {
                None
            },
    {
        if self.meeting_folder.is_none() {
            return None;
        }
        match &self.metadata {
            Some(metadata) => {
                let mut updated = metadata.clone();
                updated.devices = devices.clone();
                Some(updated)
            },
            None => None,
        }
    }

    /// Takes over other devices, if their metadata was written or none had to be.
    pub fn apply_device_info(&mut self, devices: DeviceInfo, written: bool)
        ensures
            final(self)@ == if written { old(self)@.with_devices(devices@) } else { old(self)@ },
            final(self).writer == old(self).writer,
    {
        if written {
            if let Some(metadata) = &self.metadata {
                let mut updated = metadata.clone();
                updated.devices = devices.clone();
                self.metadata = Some(updated);
            }
            self.pending_device_info = devices;
        }
    }

    /// The metadata with evidence of the routes, which has to be written before it is taken over.
    pub fn set_audio_route_evidence(&self, evidence: AudioRouteEvidenceSnapshot) -> (r: Option<
        MeetingMetadata,
    >)
        ensures
            metadata_of(r) == self@.metadata_with_evidence(evidence@),
    {
        match &self.metadata {
            Some(metadata) => {
                let mut updated = metadata.clone();
                updated.audio_route_evidence = Some(evidence);
                Some(updated)
            },
            None => None,
        }
    }

    /// Takes over metadata that was written.
    pub fn commit_metadata(&mut self, metadata: MeetingMetadata)
        ensures
            final(self)@ == (Saver { metadata: Some(metadata@), ..old(self)@ }),
            final(self).writer == old(self).writer,
    {
        self.metadata = Some(metadata);
    }

    /// Checks whether a recording can be saved: the saver is new and the meeting has a name, which
    /// is returned.
    pub fn start_accumulation(&self) -> (r: Result<String, SaverError>)
        ensures
            match r {
                Ok(name) => self@.name_to_start_with() == Some(name@),
                Err(_) => self@.name_to_start_with() is None,
            },
            match r {
                Ok(name) => self@.meeting_folder is None && self@.meeting_name == Some(name@),
                Err(error) => if self@.meeting_folder is Some {
                    error@ == SaverFailure::BelongsToMeeting
                } else {
                    self@.meeting_name is None && error@ == SaverFailure::NameRequired
                },
            },
    {
        if self.meeting_folder.is_some() {
            return Err(SaverError::BelongsToMeeting);
        }
        match &self.meeting_name {
            Some(name) => Ok(name.clone()),
            None => Err(SaverError::NameRequired),
        }
    }

    /// The first metadata of a recording that is created at a given time.
    pub fn metadata_created_at(
        &self,
        meeting_name: &str,
        created_at: String,
        create_checkpoints: bool,
    ) -> (r: MeetingMetadata)
        ensures
            r@ == self@.initial_metadata(meeting_name@, created_at@, create_checkpoints),
    {
        let audio_file: &'static str = if create_checkpoints { "audio.mp4" } else { "" };
        MeetingMetadata {
            version: "1.0".to_owned(),
            meeting_id: None,
            meeting_name: Some(meeting_name.to_owned()),
            created_at,
            completed_at: None,
            duration_ns: None,
            devices: self.pending_device_info.clone(),
            audio_file: audio_file.to_owned(),
            transcript_file: "transcripts.json".to_owned(),
            sample_rate: self.recording_sample_rate,
            status: "recording".to_owned(),
            audio_route_evidence: None,
            summary_template: clone_text(&self.pending_summary_template),
            meeting_context: clone_text(&self.pending_meeting_context),
            realtime_measurement: match &self.pending_realtime_input_contract {
                Some(contract) => Some(RealtimeMeasurementReference::from_contract(contract)),
                None => None,
            },
        }
    }

    /// The first metadata of a recording that is created now.
    pub fn initial_metadata(&self, meeting_name: &str, create_checkpoints: bool) -> (r:
        MeetingMetadata)
        ensures
            is_rfc3339(r@.created_at),
            r@ == self@.initial_metadata(meeting_name@, r@.created_at, create_checkpoints),
    {
        let created_at = utc_now_rfc3339();
        self.metadata_created_at(meeting_name, created_at, create_checkpoints)
    }

    /// Takes over a folder that was made and the first metadata that was written in it. Nothing is
    /// taken over of a folder that failed.
    pub fn initialize_meeting_folder_at(
        &mut self,
        folder: String,
        metadata: MeetingMetadata,
        create_checkpoints: bool,
        failure: Option<FolderFailure>,
    ) -> (r: Result<(), String>)
        ensures
            match failure {
                None => {
                    &&& r is Ok
                    &&& final(self)@ == old(self)@.initialized(
                        folder@, metadata@, create_checkpoints)
                    &&& final(self).writer.has_folder
                    &&& final(self).writer.segments == old(self).writer.segments
                    &&& final(self).writer.error == old(self).writer.error
                },
                Some(failure) => {
                    &&& r matches Err(message) && message@ == failure.text(folder@)
                    &&& final(self)@ == old(self)@
                    &&& final(self).writer == old(self).writer
                },
            },
    {
        match failure {
            Some(failure) => Err(failure.message(folder.as_str())),
            None => {
                self.meeting_folder = Some(folder);
                self.metadata = Some(metadata);
                self.incremental_saver = if create_checkpoints {
                    Some(IncrementalAudioSaver::new(self.recording_sample_rate))
                } else {
                    None
                };
                self.writer.has_folder = true;
                Ok(())
            },
        }
    }

    /// The metadata of the recording as complete since `completed_at`. Its length is what the
    /// recording was measured at, or else where its last row ends.
    pub fn metadata_completed_at(
        &self,
        recording_duration_ns: Option<u64>,
        completed_at: String,
    ) -> (r: Result<MeetingMetadata, SaverError>)
        ensures
            match r {
                Ok(metadata) => {
                    &&& self@.meeting_folder is Some
                    &&& self@.metadata is Some
                    &&& metadata@ == self@.completed_metadata(
                        completed_at@,
                        match recording_duration_ns {
                            Some(duration) => Some(duration),
                            None => if self.writer.segments@.len() > 0 {
                                Some(self.writer.segments@.last().audio_end_ns)
                            } else {
                                None
                            },
                        },
                    )
                },
                Err(error) => if self@.meeting_folder is None {
                    error@ == SaverFailure::FolderUnavailable
                } else {
                    self@.metadata is None && error@ == SaverFailure::MetadataUnavailable
                },
            },
    {
        if self.meeting_folder.is_none() {
            return Err(SaverError::FolderUnavailable);
        }
        match &self.metadata {
            None => Err(SaverError::MetadataUnavailable),
            Some(metadata) => {
                let n: usize = self.writer.segments.len();
                let duration_ns: Option<u64> = match recording_duration_ns {
                    Some(duration) => Some(duration),
                    None => if n > 0 {
                        Some(self.writer.segments[n - 1].audio_end_ns)
                    } else {
                        None
                    },
                };
                let mut completed = metadata.clone();
                completed.status = "completed".to_owned();
                completed.completed_at = Some(completed_at);
                completed.duration_ns = duration_ns;
                Ok(completed)
            },
        }
    }

    /// The metadata of the recording as complete now.
    pub fn complete_metadata(&self, recording_duration_ns: Option<u64>) -> (r: Result<
        MeetingMetadata,
        SaverError,
    >)
        ensures
            match r {
                Ok(metadata) => {
                    &&& self@.meeting_folder is Some
                    &&& self@.metadata is Some
                    &&& metadata@.completed_at matches Some(now) && is_rfc3339(now)
                    &&& metadata@ == self@.completed_metadata(
                        metadata@.completed_at->0,
                        match recording_duration_ns {
                            Some(duration) => Some(duration),
                            None => if self.writer.segments@.len() > 0 {
                                Some(self.writer.segments@.last().audio_end_ns)
                            } else {
                                None
                            },
                        },
                    )
                },
                Err(error) => if self@.meeting_folder is None {
                    error@ == SaverFailure::FolderUnavailable
                } else {
                    self@.metadata is None && error@ == SaverFailure::MetadataUnavailable
                },
            },
    {
        let completed_at = utc_now_rfc3339();
        self.metadata_completed_at(recording_duration_ns, completed_at)
    }

    /// The metadata of the recording as failed, where there is any to write.
    pub fn failed_metadata(&self) -> (r: Option<MeetingMetadata>)
        ensures
            metadata_of(r) == if self@.meeting_folder is Some && self@.metadata is Some {
                Some(self@.failed_metadata())
            } else {
                None
            },
    {
        if self.meeting_folder.is_none() {
            return None;
        }
        match &self.metadata {
            Some(metadata) => {
                let mut failed = metadata.clone();
                failed.status = "error".to_owned();
                failed.completed_at = None;
                Some(failed)
            },
            None => None,
        }
    }

    pub fn get_meeting_folder(&self) -> (r: Option<String>)
        ensures
            text_of(r) == self@.meeting_folder,
    {
        clone_text(&self.meeting_folder)
    }

    pub fn get_meeting_name(&self) -> (r: Option<String>)
        ensures
            text_of(r) == self@.meeting_name,
    {
        clone_text(&self.meeting_name)
    }

    /// The rows of the recording's text.
    pub fn get_transcript_segments(&self) -> (r: Vec<TranscriptSegment>)
        ensures
            r@ == self.writer.segments@,
    {
        crate::recording_saver::transcript::clone_segments(&self.writer.segments)
    }

    /// Whether audio is saved beside the text.
    pub fn saves_audio(&self) -> (r: bool)
        ensures
            r == self@.audio is Some,
    {
        self.incremental_saver.is_some()
    }

    /// The number of checkpoints and the sample rate.
    pub fn get_stats(&self) -> (r: (usize, u32))
        ensures
            r.0 == match self@.audio {
                Some(audio) => audio.checkpoint_count as usize,
                None => 0,
            },
            r.1 == self@.recording_sample_rate,
    {
        let count: usize = match &self.incremental_saver {
            Some(saver) => saver.get_checkpoint_count() as usize,
            None => 0,
        };
        (count, self.recording_sample_rate)
    }
}

/// What went wrong when a folder was made.
#[derive(Debug)]
pub struct FolderFailure {
    pub error: String,
    /// The folder was made but could not be removed again.
    pub cleanup_error: Option<String>,
}

impl FolderFailure {
    /// The text that describes the failure.
    pub open spec fn text(self, folder: Seq<char>) -> Seq<char> {
        match self.cleanup_error {
            Some(cleanup_error) => "recording folder initialization failed: "@ + self.error@
                + "; cleanup failed for "@ + folder + ": "@ + cleanup_error@,
            None => self.error@,
        }
    }

    pub fn message(&self, folder: &str) -> (r: String)
        ensures
            r@ == self.text(folder@),
    {
        match &self.cleanup_error {
            Some(cleanup_error) => {
                let mut r = text::joined(
                    "recording folder initialization failed: ", self.error.as_str());
                r.append("; cleanup failed for ");
                r.append(folder);
                r.append(": ");
                r.append(cleanup_error.as_str());
                r
            },
            None => self.error.clone(),
        }
    }
}

/// A row for a text about which nothing else is known, as of a number of milliseconds since 1970.
pub fn text_only_segment(text: String, now_millis: i64) -> (r: TranscriptSegment)
    ensures
        r.text == text,
        r.id@ == "seg_"@ + signed_digits(now_millis as int),
        r.audio_start_ns == 0,
        r.audio_end_ns == 0,
        r.duration_ns == 0,
        r.display_time@ == "[00:00]"@,
        r.confidence_bits == 0x3F80_0000,
        r.sequence_id == 0,
        r.revision == 0,
        !r.is_partial,
{
    let digits = if now_millis < 0 {
        text::joined("-", text::decimal((-(now_millis as i128)) as u64).as_str())
    } else {
        text::decimal(now_millis as u64)
    };
    TranscriptSegment {
        id: text::joined("seg_", digits.as_str()),
        text,
        audio_start_ns: 0,
        audio_end_ns: 0,
        duration_ns: 0,
        display_time: "[00:00]".to_owned(),
        confidence_bits: 0x3F80_0000,
        sequence_id: 0,
        revision: 0,
        is_partial: false,
    }
}

/// The decimal digits of a number, after a minus sign where it is negative.
pub open spec fn signed_digits(n: int) -> Seq<char> {
    if n < 0 {
        "-"@ + text::decimal_digits((-n) as nat)
    } else {
        text::decimal_digits(n as nat)
    }
}

/// A row for a text about which nothing else is known, as of now.
pub fn add_transcript_chunk(text: String) -> (r: TranscriptSegment)
    ensures
        r.text == text,
        exists|millis: i64| r.id@ == "seg_"@ + #[trigger] signed_digits(millis as int),
        r.audio_start_ns == 0,
        r.audio_end_ns == 0,
        r.duration_ns == 0,
        r.display_time@ == "[00:00]"@,
        r.confidence_bits == 0x3F80_0000,
        r.sequence_id == 0,
        r.revision == 0,
        !r.is_partial,
{
    let millis: i64 = crate::outside::utc_timestamp_millis();
    text_only_segment(text, millis)
}

/// Law: what was chosen before a recording was saved is what its metadata says, through every
/// change of devices and to its end.
pub proof fn context_survives_the_recording(
    saver: Saver,
    meeting_name: Seq<char>,
    created_at: Seq<char>,
    create_checkpoints: bool,
    folder: Seq<char>,
    devices: Devices,
    evidence: EvidenceSnapshot,
    completed_at: Seq<char>,
    duration_ns: Option<u64>,
)
    ensures
        ({
            let first = saver.initial_metadata(meeting_name, created_at, create_checkpoints);
            let started = saver.initialized(folder, first, create_checkpoints);
            let rebound = started.with_devices(devices);
            let completed = rebound.completed_metadata(completed_at, duration_ns);
            let failed = rebound.failed_metadata();
            &&& first.meeting_context == saver.pending_meeting_context
            &&& completed.meeting_context == saver.pending_meeting_context
            &&& completed.summary_template == saver.pending_summary_template
            &&& completed.realtime_measurement == first.realtime_measurement
            &&& completed.devices == devices
            &&& completed.created_at == created_at
            &&& failed.meeting_context == saver.pending_meeting_context
            &&& failed.summary_template == saver.pending_summary_template
            &&& (started.metadata_with_evidence(evidence) matches Some(m) && m.meeting_context
                == saver.pending_meeting_context)
        }),
{
}

/// Law: the epoch in which a recording started stays on record through every change of devices.
pub proof fn start_epoch_is_kept(
    devices: Devices,
    microphone: Option<Device>,
    system_audio: Option<Device>,
    first: u64,
    later: u64,
)
    requires
        devices.recording_start_device_epoch is None,
    ensures
        devices.bound(microphone, system_audio, first).bound(
            microphone, system_audio, later).recording_start_device_epoch == Some(first),
        devices.bound(microphone, system_audio, first).bound(
            microphone, system_audio, later).current_device_epoch == Some(later),
{
}

/// Law: a recording goes from recording to completed or to error. It is completed with its end and
/// its length, a failed one has no end, and all else that was on record stays as it was.
pub proof fn metadata_tells_how_a_recording_ended(
    saver: Saver,
    meeting_name: Seq<char>,
    created_at: Seq<char>,
    create_checkpoints: bool,
    folder: Seq<char>,
    completed_at: Seq<char>,
    duration_ns: Option<u64>,
)
    ensures
        ({
            let first = saver.initial_metadata(meeting_name, created_at, create_checkpoints);
            let begun = saver.initialized(folder, first, create_checkpoints);
            let completed = begun.completed_metadata(completed_at, duration_ns);
            let failed = begun.failed_metadata();
            &&& first.status == "recording"@ && completed.status == "completed"@ && failed.status
                == "error"@
            &&& first.completed_at is None && failed.completed_at is None && completed.completed_at
                == Some(completed_at)
            &&& first.duration_ns is None && completed.duration_ns == duration_ns
            &&& first.meeting_name == Some(meeting_name) && first.created_at == created_at
            &&& first.devices == saver.pending_devices
            &&& first.audio_file == if create_checkpoints { "audio.mp4"@ } else { ""@ }
            &&& first.transcript_file == "transcripts.json"@
            &&& completed == (Metadata {
                status: completed.status,
                completed_at: completed.completed_at,
                duration_ns: completed.duration_ns,
                ..first
            })
            &&& failed == (Metadata { status: failed.status, ..first })
            &&& begun.meeting_folder == Some(folder) && begun.metadata == Some(first)
            &&& begun.audio is Some == create_checkpoints
        }),
{
}

/// Law: new devices and new evidence go into the metadata, and leave the rest of it alone.
pub proof fn devices_and_evidence_go_on_record(
    saver: Saver,
    metadata: Metadata,
    devices: Devices,
    evidence: EvidenceSnapshot,
)
    requires
        saver.metadata == Some(metadata),
    ensures
        saver.metadata_with_devices(devices) == Some(Metadata { devices, ..metadata }),
        saver.with_devices(devices).metadata == Some(Metadata { devices, ..metadata }),
        saver.with_devices(devices).pending_devices == devices,
        saver.with_devices(devices).audio == saver.audio,
        saver.metadata_with_evidence(evidence) == Some(
            Metadata { audio_route_evidence: Some(evidence), ..metadata }),
{
}

/// Law: template, context and input of a recording can be set until it has its folder, and never
/// after; a context that did not pass its check is refused, and what is refused changes nothing.
pub proof fn a_recording_keeps_what_it_started_with(
    saver: Saver,
    text: Option<Seq<char>>,
    checked: Seq<char>,
    contract: InputContract,
)
    ensures
        saver.meeting_folder is Some ==> {
            &&& saver.template_set(text) == (false, saver)
            &&& saver.context_set(None) == (false, saver)
            &&& saver.context_set(Some(Some(checked))) == (false, saver)
            &&& saver.input_set(contract) == (false, saver)
            &&& saver.name_to_start_with() is None
        },
        saver.context_set(Some(None)) == (false, saver),
        saver.meeting_folder is None ==> {
            &&& saver.template_set(text).0 && saver.template_set(text).1.pending_summary_template
                == text
            &&& saver.template_set(text).1.pending_meeting_context == saver.pending_meeting_context
            &&& saver.context_set(Some(Some(checked))).0 && saver.context_set(
                Some(Some(checked))).1.pending_meeting_context == Some(checked)
            &&& saver.context_set(None).0 && saver.context_set(None).1.pending_meeting_context
                is None
            &&& saver.input_set(contract).0 && saver.input_set(contract).1.pending_input == Some(
                contract)
            &&& saver.input_set(contract).1.recording_sample_rate
                == contract.canonical_sample_rate_hz
            &&& saver.name_to_start_with() == saver.meeting_name
        },
{
}

/// Law: the digits of a time before 1970 have a sign, and no two times have the same.
pub proof fn signed_digits_are_faithful(a: int, b: int)
    requires
        signed_digits(a) == signed_digits(b),
        a >= 0,
        b >= 0,
    ensures
        a == b,
{
    text::decimal_digits_are_faithful(a as nat, b as nat);
}

} // verus!
