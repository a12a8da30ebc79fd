//! How and where the user wants recordings to be made.

use vstd::prelude::*;
use vstd::string::*;

use crate::devices::configuration::text_of;
use crate::outside::{
    audio_directory, document_directory, is_file_stamp, is_uuid, random_uuid, utc_file_timestamp,
    video_directory,
};
use crate::text;

verus! {

/// The file in which preferences are kept.
pub const RECORDING_PREFERENCES_STORE: &'static str = "recording_preferences.json";

/// The operating system.
#[derive(Debug, Clone, Copy, PartialEq, Eq, Structural)]
pub enum Platform {
    Windows,
    MacOs,
    Other,
}

/// Which routes are recorded.
#[derive(Debug, Clone, Copy, PartialEq, Eq, Structural)]
pub enum RecordingMode {
    MicrophoneAndSystem,
    MicrophoneOnly,
    SystemOnly,
}

impl Default for RecordingMode {
    fn default() -> (r: Self)
        ensures
            r == RecordingMode::MicrophoneAndSystem,
    {
        RecordingMode::MicrophoneAndSystem
    }
}

impl RecordingMode {
    pub open spec fn has_microphone(self) -> bool {
        self != RecordingMode::SystemOnly
    }

    pub open spec fn has_system_audio(self) -> bool {
        self != RecordingMode::MicrophoneOnly
    }

    pub fn uses_microphone(self) -> (r: bool)
        ensures
            r == self.has_microphone(),
    {
        matches!(self, RecordingMode::MicrophoneAndSystem | RecordingMode::MicrophoneOnly)
    }

    pub fn uses_system_audio(self) -> (r: bool)
        ensures
            r == self.has_system_audio(),
    {
        matches!(self, RecordingMode::MicrophoneAndSystem | RecordingMode::SystemOnly)
    }
}

/// Law: every mode records something.
pub proof fn every_mode_records_something(mode: RecordingMode)
    ensures
        mode.has_microphone() || mode.has_system_audio(),
{
}

/// How and where the user wants recordings to be made.
#[derive(Debug)]
pub struct RecordingPreferences {
    pub save_folder: std::path::PathBuf,
    pub auto_save: bool,
    pub file_format: String,
    pub preferred_mic_device: Option<String>,
    pub preferred_system_device: Option<String>,
    pub recording_mode: RecordingMode,
    /// How macOS captures the sound of the system.
    pub system_audio_backend: Option<String>,
}

/// What a `RecordingPreferences` stands for.
#[verifier::ext_equal]
pub struct Preferences {
    pub save_folder: std::path::PathBuf,
    pub auto_save: bool,
    pub file_format: Seq<char>,
    pub preferred_mic_device: Option<Seq<char>>,
    pub preferred_system_device: Option<Seq<char>>,
    pub recording_mode: RecordingMode,
    pub system_audio_backend: Option<Seq<char>>,
}

impl View for RecordingPreferences {
    type V = Preferences;

    open spec fn view(&self) -> Preferences {
        Preferences {
            save_folder: self.save_folder,
            auto_save: self.auto_save,
            file_format: self.file_format@,
            preferred_mic_device: text_of(self.preferred_mic_device),
            preferred_system_device: text_of(self.preferred_system_device),
            recording_mode: self.recording_mode,
            system_audio_backend: text_of(self.system_audio_backend),
        }
    }
}

/// What is preferred where the user said nothing.
pub open spec fn default_preferences(
    platform: Platform,
    save_folder: std::path::PathBuf,
) -> Preferences {
    Preferences {
        save_folder,
        auto_save: true,
        file_format: "mp4"@,
        preferred_mic_device: None,
        preferred_system_device: None,
        recording_mode: RecordingMode::MicrophoneAndSystem,
        system_audio_backend: if platform == Platform::MacOs { Some("coreaudio"@) } else { None },
    }
}

impl RecordingPreferences {
    /// What is preferred where the user said nothing.
    pub fn defaults(platform: Platform, save_folder: std::path::PathBuf) -> (r: Self)
        ensures
            r@ == default_preferences(platform, save_folder),
    {
        RecordingPreferences {
            save_folder,
            auto_save: true,
            file_format: "mp4".to_owned(),
            preferred_mic_device: None,
            preferred_system_device: None,
            recording_mode: RecordingMode::MicrophoneAndSystem,
            system_audio_backend: match platform {
                Platform::MacOs => Some("coreaudio".to_owned()),
                Platform::Windows | Platform::Other => None,
            },
        }
    }
}

/// The name of the folder for recordings.
pub const RECORDINGS_FOLDER_NAME: &'static str = "meetily-recordings";

/// The directory that a folder lies in.
#[derive(Debug)]
pub enum FolderParent<P> {
    Directory(P),
    /// The present directory.
    Here,
}

/// A folder, as the directory it lies in and its name.
#[derive(Debug)]
pub struct RecordingsFolder<P> {
    pub parent: FolderParent<P>,
    pub name: &'static str,
}

/// A directory, or the present one where there is none.
pub open spec fn or_here<P>(directory: Option<P>) -> FolderParent<P> {
    match directory {
        Some(directory) => FolderParent::Directory(directory),
        None => FolderParent::Here,
    }
}

/// The directory for recordings: Music on Windows and Movies on macOS, where there is one, else
/// Documents, else the present directory.
pub open spec fn recordings_parent<P>(
    platform: Platform,
    audio: Option<P>,
    video: Option<P>,
    documents: Option<P>,
) -> FolderParent<P> {
    match platform {
        Platform::Windows => match audio {
            Some(audio) => FolderParent::Directory(audio),
            None => or_here(documents),
        },
        Platform::MacOs => match video {
            Some(video) => FolderParent::Directory(video),
            None => or_here(documents),
        },
        Platform::Other => or_here(documents),
    }
}

/// The folder for recordings, given the user's directories. Their paths are kept as they are.
pub fn recordings_folder<P>(
    platform: Platform,
    audio: Option<P>,
    video: Option<P>,
    documents: Option<P>,
) -> (r: RecordingsFolder<P>)
    ensures
        r.parent == recordings_parent(platform, audio, video, documents),
        r.name@ == RECORDINGS_FOLDER_NAME@,
{
    let preferred = match platform {
        Platform::Windows => audio,
        Platform::MacOs => video,
        Platform::Other => None,
    };
    let parent = match (preferred, documents) {
        (Some(directory), _) => FolderParent::Directory(directory),
        (None, Some(directory)) => FolderParent::Directory(directory),
        (None, None) => FolderParent::Here,
    };
    RecordingsFolder { parent, name: RECORDINGS_FOLDER_NAME }
}

/// The folder for recordings in the user's directories.
pub fn get_default_recordings_folder(platform: Platform) -> (r: RecordingsFolder<
    std::path::PathBuf,
>)
    ensures
        r.name@ == RECORDINGS_FOLDER_NAME@,
        exists|
            audio: Option<std::path::PathBuf>,
            video: Option<std::path::PathBuf>,
            documents: Option<std::path::PathBuf>,
        |
            r.parent == #[trigger] recordings_parent(platform, audio, video, documents),
{
    let audio = audio_directory();
    let video = video_directory();
    let documents = document_directory();
    recordings_folder(platform, audio, video, documents)
}

/// Why a folder cannot take recordings.
#[derive(Debug)]
pub enum DirectoryError {
    NotAbsolute,
    NotCreated(String),
    NotADirectory,
    NotWritable(String),
    /// The file that was written as a test is still there.
    ProbeNotRemoved { probe_path: String, error: String },
}

/// What a `DirectoryError` stands for.
pub enum DirectoryFailure {
    NotAbsolute,
    NotCreated(Seq<char>),
    NotADirectory,
    NotWritable(Seq<char>),
    ProbeNotRemoved { probe_path: Seq<char>, error: Seq<char> },
}

impl View for DirectoryError {
    type V = DirectoryFailure;

    open spec fn view(&self) -> DirectoryFailure {
        match *self {
            DirectoryError::NotAbsolute => DirectoryFailure::NotAbsolute,
            DirectoryError::NotCreated(error) => DirectoryFailure::NotCreated(error@),
            DirectoryError::NotADirectory => DirectoryFailure::NotADirectory,
            DirectoryError::NotWritable(error) => DirectoryFailure::NotWritable(error@),
            DirectoryError::ProbeNotRemoved { probe_path, error } =>
                DirectoryFailure::ProbeNotRemoved { probe_path: probe_path@, error: error@ },
        }
    }
}

impl DirectoryFailure {
    /// The text that describes the failure.
    pub open spec fn text(self, path: Seq<char>) -> Seq<char> {
        match self {
            DirectoryFailure::NotAbsolute =>
                "recording save folder must be an absolute path: "@ + path,
            DirectoryFailure::NotCreated(error) => "failed to create recording save folder "@ + path
                + ": "@ + error,
            DirectoryFailure::NotADirectory => "recording save folder is not a directory: "@ + path,
            DirectoryFailure::NotWritable(error) => "recording save folder is not writable "@ + path
                + ": "@ + error,
            DirectoryFailure::ProbeNotRemoved { probe_path, error } =>
                "failed to clean recording save-folder write probe "@ + probe_path + ": "@ + error,
        }
    }
}

fn three_parts(head: &str, subject: &str, error: &str) -> (r: String)
    ensures
        r@ == head@ + subject@ + ": "@ + error@,
{
    let mut r = text::joined(head, subject);
    r.append(": ");
    r.append(error);
    r
}

impl DirectoryError {
    pub fn message(&self, path: &str) -> (r: String)
        ensures
            r@ == self@.text(path@),
    {
        match self {
            DirectoryError::NotAbsolute => text::joined(
                "recording save folder must be an absolute path: ", path),
            DirectoryError::NotCreated(error) => three_parts(
                "failed to create recording save folder ", path, error.as_str()),
            DirectoryError::NotADirectory => text::joined(
                "recording save folder is not a directory: ", path),
            DirectoryError::NotWritable(error) => three_parts(
                "recording save folder is not writable ", path, error.as_str()),
            DirectoryError::ProbeNotRemoved { probe_path, error } => three_parts(
                "failed to clean recording save-folder write probe ",
                probe_path.as_str(),
                error.as_str(),
            ),
        }
    }
}

/// What was tried on a folder. Later steps are only tried when the earlier ones went well.
#[derive(Debug)]
pub struct DirectoryReport {
    pub is_absolute: bool,
    pub created: Result<(), String>,
    pub is_directory: bool,
    pub written: Result<(), String>,
    pub removed: Result<(), String>,
    pub probe_path: String,
}

/// The first thing that is wrong with a folder.
pub open spec fn directory_failure(report: DirectoryReport) -> Option<DirectoryFailure> {
    if !report.is_absolute {
        Some(DirectoryFailure::NotAbsolute)
    } else if let Err(error) = report.created {
        Some(DirectoryFailure::NotCreated(error@))
    } else if !report.is_directory {
        Some(DirectoryFailure::NotADirectory)
    } else if let Err(error) = report.written {
        Some(DirectoryFailure::NotWritable(error@))
    } else if let Err(error) = report.removed {
        Some(
            DirectoryFailure::ProbeNotRemoved {
                probe_path: report.probe_path@,
                error: error@,
            },
        )
    } else {
        None
    }
}

/// Accepts a folder for recordings when everything that was tried on it went well: that it exists
/// does not prove that a recording can be written there.
pub fn validate_recordings_directory(path: std::path::PathBuf, report: DirectoryReport) -> (r:
    Result<std::path::PathBuf, DirectoryError>)
    ensures
        match r {
            Ok(accepted) => directory_failure(report) is None && accepted == path,
            Err(error) => directory_failure(report) == Some(error@),
        },
{
    if !report.is_absolute {
        return Err(DirectoryError::NotAbsolute);
    }
    if let Err(error) = report.created {
        return Err(DirectoryError::NotCreated(error));
    }
    if !report.is_directory {
        return Err(DirectoryError::NotADirectory);
    }
    if let Err(error) = report.written {
        return Err(DirectoryError::NotWritable(error));
    }
    if let Err(error) = report.removed {
        return Err(DirectoryError::ProbeNotRemoved { probe_path: report.probe_path, error });
    }
    Ok(path)
}

/// Checks a folder for recordings.
pub fn ensure_recordings_directory(path: std::path::PathBuf, report: DirectoryReport) -> (r: Result<
    (),
    DirectoryError,
>)
    ensures
        match r {
            Ok(()) => directory_failure(report) is None,
            Err(error) => directory_failure(report) == Some(error@),
        },
{
    match validate_recordings_directory(path, report) {
        Ok(_) => Ok(()),
        Err(error) => Err(error),
    }
}

/// The name of the file that is written as a test.
pub open spec fn probe_name(process_id: nat, uuid: Seq<char>) -> Seq<char> {
    ".meetily-write-probe-"@ + text::decimal_digits(process_id) + "-"@ + uuid
}

/// The name of the file that is written as a test, under a given identifier.
pub fn probe_file_name_for(process_id: u32, uuid: &str) -> (r: String)
    ensures
        r@ == probe_name(process_id as nat, uuid@),
{
    let mut r = text::joined(".meetily-write-probe-", text::decimal(process_id as u64).as_str());
    r.append("-");
    r.append(uuid);
    r
}

/// A new name for the file that is written as a test.
pub fn probe_file_name(process_id: u32) -> (r: String)
    ensures
        exists|uuid: Seq<char>|
            is_uuid(uuid) && r@ == #[trigger] probe_name(process_id as nat, uuid),
{
    let uuid = random_uuid();
    probe_file_name_for(process_id, uuid.as_str())
}

/// The file name of a recording of a given time.
pub open spec fn recording_name(timestamp: Seq<char>, format: Seq<char>) -> Seq<char> {
    "recording_"@ + timestamp + "."@ + format
}

/// The file name of a recording of a given time.
pub fn recording_filename(timestamp: &str, format: &str) -> (r: String)
    ensures
        r@ == recording_name(timestamp@, format@),
{
    let mut r = text::joined("recording_", timestamp);
    r.append(".");
    r.append(format);
    r
}

/// The file name of a recording that is made now.
pub fn generate_recording_filename(format: &str) -> (r: String)
    ensures
        exists|timestamp: Seq<char>|
            is_file_stamp(timestamp) && r@ == #[trigger] recording_name(timestamp, format@),
{
    let timestamp = utc_file_timestamp();
    recording_filename(timestamp.as_str(), format)
}

/// Why preferences cannot be read.
#[derive(Debug)]
pub enum PreferencesError {
    /// They cannot be understood, for this reason.
    Malformed(String),
    /// The file is there but holds none.
    Missing,
}

impl PreferencesError {
    /// The text that describes the failure.
    pub open spec fn text(self) -> Seq<char> {
        match self {
            PreferencesError::Malformed(error) =>
                "failed to deserialize saved recording preferences: "@ + error@,
            PreferencesError::Missing =>
                "recording preferences store exists but has no readable preferences; refusing default-folder fallback"@,
        }
    }

    pub fn message(&self) -> (r: String)
        ensures
            r@ == self.text(),
    {
        match self {
            PreferencesError::Malformed(error) => text::joined(
                "failed to deserialize saved recording preferences: ", error.as_str()),
            PreferencesError::Missing =>
                "recording preferences store exists but has no readable preferences; refusing default-folder fallback".to_owned(),
        }
    }
}

/// The preferences of the user. `stored` is what was read of them, if anything was. The defaults
/// are used only when no preferences were ever stored.
pub fn decode_recording_preferences(
    stored: Option<Result<RecordingPreferences, String>>,
    persisted_store_exists: bool,
    defaults: RecordingPreferences,
) -> (r: Result<RecordingPreferences, PreferencesError>)
    ensures
        r == decoded_preferences(stored, persisted_store_exists, defaults),
        match stored {
            Some(Ok(preferences)) => r == Ok::<RecordingPreferences, PreferencesError>(preferences),
            Some(Err(error)) => r == Err::<RecordingPreferences, PreferencesError>(
                PreferencesError::Malformed(error)),
            None => if persisted_store_exists {
                r == Err::<RecordingPreferences, PreferencesError>(PreferencesError::Missing)
            } else {
                r == Ok::<RecordingPreferences, PreferencesError>(defaults)
            },
        },
{
    match stored {
        Some(Ok(preferences)) => Ok(preferences),
        Some(Err(error)) => Err(PreferencesError::Malformed(error)),
        None => if persisted_store_exists {
            Err(PreferencesError::Missing)
        } else {
            Ok(defaults)
        },
    }
}

/// The preferences for one recording: those of the user, with the folder that was checked.
pub fn resolve_recording_session_preferences(
    preferences: RecordingPreferences,
    report: DirectoryReport,
) -> (r: Result<RecordingPreferences, DirectoryError>)
    ensures
        match r {
            Ok(resolved) => directory_failure(report) is None && resolved@ == preferences@,
            Err(error) => directory_failure(report) == Some(error@),
        },
{
    match validate_recordings_directory(preferences.save_folder, report) {
        Ok(save_folder) => Ok(
            RecordingPreferences {
                save_folder,
                auto_save: preferences.auto_save,
                file_format: preferences.file_format,
                preferred_mic_device: preferences.preferred_mic_device,
                preferred_system_device: preferences.preferred_system_device,
                recording_mode: preferences.recording_mode,
                system_audio_backend: preferences.system_audio_backend,
            },
        ),
        Err(error) => Err(error),
    }
}

/// What a store of preferences is set back to when it could not be written.
#[derive(Debug)]
pub enum StoreRollback<V> {
    Restore(V),
    Delete,
}

/// What a store is set back to when it could not be written: what it held before, or nothing.
pub fn save_rollback<V>(previous: Option<V>) -> (r: StoreRollback<V>)
    ensures
        match previous {
            Some(value) => r == StoreRollback::Restore(value),
            None => r == StoreRollback::<V>::Delete,
        },
{
    match previous {
        Some(value) => StoreRollback::Restore(value),
        None => StoreRollback::Delete,
    }
}

/// A way to capture the sound of the system.
#[derive(Debug)]
pub struct BackendInfo {
    pub id: String,
    pub name: String,
    pub description: String,
}

/// The ways to capture the sound of the system. `host` are those that macOS offers.
pub fn get_available_audio_backends(platform: Platform, host: Vec<String>) -> (r: Vec<String>)
    ensures
        match platform {
            Platform::MacOs => r@ == host@,
            _ => r@.len() == 1 && r@[0]@ == "screencapturekit"@,
        },
{
    match platform {
        Platform::MacOs => host,
        Platform::Windows | Platform::Other => {
            let mut r: Vec<String> = Vec::new();
            r.push("screencapturekit".to_owned());
            r
        },
    }
}

/// The way in which the sound of the system is captured. `host` is the one that macOS uses.
pub fn get_current_audio_backend(platform: Platform, host: String) -> (r: String)
    ensures
        match platform {
            Platform::MacOs => r == host,
            _ => r@ == "screencapturekit"@,
        },
{
    match platform {
        Platform::MacOs => host,
        Platform::Windows | Platform::Other => "screencapturekit".to_owned(),
    }
}

/// Why a way to capture sound cannot be chosen.
#[derive(Debug)]
pub enum BackendError {
    NotAvailable(String),
    Invalid(String),
    PermissionRequired,
}

/// The ways to capture sound that macOS has.
#[derive(Debug, Clone, Copy, PartialEq, Eq, Structural)]
pub enum MacBackend {
    ScreenCaptureKit,
    CoreAudio,
}

/// Chooses a way to capture sound. On macOS `known` is what the name means there, and Core Audio
/// needs a permission; elsewhere there is only one.
pub fn set_audio_backend(
    platform: Platform,
    backend: String,
    known: Option<MacBackend>,
    permitted: bool,
) -> (r: Result<Option<MacBackend>, BackendError>)
    ensures
        r == backend_set(platform, backend, known, permitted),
        match platform {
            Platform::MacOs => match known {
                None => r == Err::<Option<MacBackend>, BackendError>(
                    BackendError::Invalid(backend)),
                Some(chosen) => if chosen == MacBackend::CoreAudio && !permitted {
                    r == Err::<Option<MacBackend>, BackendError>(BackendError::PermissionRequired)
                } else {
                    r == Ok::<Option<MacBackend>, BackendError>(Some(chosen))
                },
            },
            _ => if backend@ == "screencapturekit"@ {
                r == Ok::<Option<MacBackend>, BackendError>(None)
            } else {
                r == Err::<Option<MacBackend>, BackendError>(BackendError::NotAvailable(backend))
            },
        },
{
    match platform {
        Platform::MacOs => match known {
            None => Err(BackendError::Invalid(backend)),
            Some(chosen) => if chosen == MacBackend::CoreAudio && !permitted {
                Err(BackendError::PermissionRequired)
            } else {
                Ok(Some(chosen))
            },
        },
        Platform::Windows | Platform::Other => if text::same(backend.as_str(), "screencapturekit") {
            Ok(None)
        } else {
            Err(BackendError::NotAvailable(backend))
        },
    }
}

impl BackendError {
    /// The text that describes the failure.
    pub open spec fn text(self) -> Seq<char> {
        match self {
            BackendError::NotAvailable(backend) => "Backend "@ + backend@
                + " not available on this platform"@,
            BackendError::Invalid(backend) => "Invalid backend: "@ + backend@,
            BackendError::PermissionRequired =>
                "Core Audio requires Audio Capture permission. The permission dialog will appear when you start recording. If already denied, enable it in System Settings \u{2192} Privacy & Security \u{2192} Audio Capture, then restart the app."@,
        }
    }

    pub fn message(&self) -> (r: String)
        ensures
            r@ == self.text(),
    {
        match self {
            BackendError::NotAvailable(backend) => {
                let mut r = text::joined("Backend ", backend.as_str());
                r.append(" not available on this platform");
                r
            },
            BackendError::Invalid(backend) => text::joined("Invalid backend: ", backend.as_str()),
            BackendError::PermissionRequired =>
                "Core Audio requires Audio Capture permission. The permission dialog will appear when you start recording. If already denied, enable it in System Settings \u{2192} Privacy & Security \u{2192} Audio Capture, then restart the app.".to_owned(),
        }
    }
}

/// What is known of the ways to capture sound. `host` is what macOS says of its own.
pub fn get_audio_backend_info(platform: Platform, host: Vec<BackendInfo>) -> (r: Vec<BackendInfo>)
    ensures
        match platform {
            Platform::MacOs => r@ == host@,
            _ => r@.len() == 1 && r@[0].id@ == "screencapturekit"@ && r@[0].name@
                == "ScreenCaptureKit"@ && r@[0].description@ == "Default system audio capture"@,
        },
{
    match platform {
        Platform::MacOs => host,
        Platform::Windows | Platform::Other => {
            let mut r: Vec<BackendInfo> = Vec::new();
            r.push(
                BackendInfo {
                    id: "screencapturekit".to_owned(),
                    name: "ScreenCaptureKit".to_owned(),
                    description: "Default system audio capture".to_owned(),
                },
            );
            r
        },
    }
}

/// Law: a folder for recordings can be used exactly when its path is absolute, it is there or could
/// be made, it is a directory, and a file could be written into it and removed again. What is told
/// is the first of these that fails.
pub proof fn only_a_writable_folder_is_used(report: DirectoryReport)
    ensures
        directory_failure(report) is None <==> report.is_absolute && report.created is Ok
            && report.is_directory && report.written is Ok && report.removed is Ok,
        !report.is_absolute ==> directory_failure(report) == Some(DirectoryFailure::NotAbsolute),
        directory_failure(report) matches Some(DirectoryFailure::NotWritable(error))
            ==> report.written matches Err(cause) && error == cause@ && report.created is Ok
            && report.is_directory,
        directory_failure(report) matches Some(DirectoryFailure::NotCreated(error))
            ==> report.created matches Err(cause) && error == cause@,
{
}

/// Law: each mode records what its name says: one route alone, or both.
pub proof fn modes_record_what_they_say()
    ensures
        RecordingMode::MicrophoneOnly.has_microphone(),
        !RecordingMode::MicrophoneOnly.has_system_audio(),
        RecordingMode::SystemOnly.has_system_audio(),
        !RecordingMode::SystemOnly.has_microphone(),
        RecordingMode::MicrophoneAndSystem.has_microphone(),
        RecordingMode::MicrophoneAndSystem.has_system_audio(),
{
}

/// Law: recordings go where the platform keeps its media, or else its documents, and never where
/// another platform keeps its media.
pub proof fn recordings_go_to_the_media_of_the_platform<P>(
    audio: Option<P>,
    video: Option<P>,
    documents: Option<P>,
    other: Option<P>,
)
    ensures
        audio matches Some(directory) ==> recordings_parent(
            Platform::Windows, audio, video, documents) == FolderParent::Directory(directory),
        video matches Some(directory) ==> recordings_parent(
            Platform::MacOs, audio, video, documents) == FolderParent::Directory(directory),
        recordings_parent(Platform::Windows, audio, video, documents) == recordings_parent(
            Platform::Windows, audio, other, documents),
        recordings_parent(Platform::MacOs, audio, video, documents) == recordings_parent(
            Platform::MacOs, other, video, documents),
        recordings_parent(Platform::Other, audio, video, documents) == recordings_parent(
            Platform::Windows, None, other, documents),
        recordings_parent(Platform::Other, audio, video, documents) == recordings_parent(
            Platform::MacOs, other, None, documents),
        documents matches Some(directory) ==> recordings_parent(
            Platform::Other, audio, video, documents) == FolderParent::Directory(directory),
        recordings_parent(Platform::Other, audio, video, None) == FolderParent::<P>::Here,
{
}

/// The preferences that were stored, or the defaults where nothing ever was.
pub open spec fn decoded_preferences(
    stored: Option<Result<RecordingPreferences, String>>,
    persisted_store_exists: bool,
    defaults: RecordingPreferences,
) -> Result<RecordingPreferences, PreferencesError> {
    match stored {
        Some(Ok(preferences)) => Ok(preferences),
        Some(Err(error)) => Err(PreferencesError::Malformed(error)),
        None => if persisted_store_exists {
            Err(PreferencesError::Missing)
        } else {
            Ok(defaults)
        },
    }
}

/// Law: preferences that were stored are the ones that count, and ones that cannot be read are
/// never replaced by the defaults, which would move the recordings to another folder.
pub proof fn stored_preferences_are_not_replaced(
    preferences: RecordingPreferences,
    error: String,
    store_exists: bool,
    defaults: RecordingPreferences,
)
    ensures
        decoded_preferences(Some(Ok(preferences)), store_exists, defaults) == Ok::<
            RecordingPreferences,
            PreferencesError,
        >(preferences),
        decoded_preferences(Some(Err(error)), store_exists, defaults) is Err,
        decoded_preferences(None, true, defaults) is Err,
        decoded_preferences(None, false, defaults) == Ok::<RecordingPreferences, PreferencesError>(
            defaults),
{
}

/// Law: unless the user says otherwise, both routes are recorded and saved as mp4.
pub proof fn both_routes_are_recorded_by_default(
    platform: Platform,
    save_folder: std::path::PathBuf,
)
    ensures
        ({
            let defaults = default_preferences(platform, save_folder);
            &&& defaults.save_folder == save_folder
            &&& defaults.auto_save
            &&& defaults.file_format == "mp4"@
            &&& defaults.recording_mode.has_microphone() && defaults.recording_mode.has_system_audio()
            &&& defaults.preferred_mic_device is None && defaults.preferred_system_device is None
            &&& defaults.system_audio_backend is Some <==> platform == Platform::MacOs
        }),
{
}

/// Law: the name of a recording holds its time and ends in its format.
pub proof fn recording_names_hold_the_time(timestamp: Seq<char>, format: Seq<char>)
    ensures
        ({
            let name = recording_name(timestamp, format);
            let start = "recording_"@.len() as int;
            &&& name.take(start) == "recording_"@
            &&& name.subrange(start, start + timestamp.len()) == timestamp
            &&& name.skip(name.len() - format.len()) == format
        }),
{
    let name = recording_name(timestamp, format);
    let start = "recording_"@.len() as int;
    assert(name.take(start) =~= "recording_"@);
    assert(name.subrange(start, start + timestamp.len()) =~= timestamp);
    assert(name.skip(name.len() - format.len()) =~= format);
}

/// The backend that is used from now on, where it can be.
pub open spec fn backend_set(
    platform: Platform,
    backend: String,
    known: Option<MacBackend>,
    permitted: bool,
) -> Result<Option<MacBackend>, BackendError> {
    match platform {
        Platform::MacOs => match known {
            None => Err(BackendError::Invalid(backend)),
            Some(chosen) => if chosen == MacBackend::CoreAudio && !permitted {
                Err(BackendError::PermissionRequired)
            } else {
                Ok(Some(chosen))
            },
        },
        _ => if backend@ == "screencapturekit"@ {
            Ok(None)
        } else {
            Err(BackendError::NotAvailable(backend))
        },
    }
}

/// Law: Core Audio needs a permission, no other backend does, and a backend can only be chosen
/// where there is more than one.
pub proof fn backends_need_permission_and_platform(
    platform: Platform,
    backend: String,
    chosen: MacBackend,
    known: Option<MacBackend>,
    permitted: bool,
)
    ensures
        backend_set(Platform::MacOs, backend, Some(MacBackend::CoreAudio), false) is Err,
        backend_set(Platform::MacOs, backend, Some(chosen), true) == Ok::<
            Option<MacBackend>,
            BackendError,
        >(Some(chosen)),
        chosen != MacBackend::CoreAudio ==> backend_set(
            Platform::MacOs, backend, Some(chosen), permitted) is Ok,
        backend_set(Platform::MacOs, backend, None, permitted) is Err,
        platform != Platform::MacOs ==> (backend_set(platform, backend, known, permitted) is Ok
            <==> backend@ == "screencapturekit"@),
{
}

} // verus!
