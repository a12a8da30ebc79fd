use std::path::PathBuf;

use meetily_audio::recording_preferences::{
    decode_recording_preferences, ensure_recordings_directory, generate_recording_filename,
    get_audio_backend_info, get_available_audio_backends, get_current_audio_backend,
    get_default_recordings_folder, probe_file_name,
    probe_file_name_for, recording_filename, recordings_folder,
    resolve_recording_session_preferences, save_rollback, set_audio_backend,
    validate_recordings_directory, BackendError, DirectoryError, DirectoryReport, FolderParent,
    MacBackend,
    Platform, RecordingMode, RecordingPreferences, StoreRollback,
};

fn defaults() -> RecordingPreferences {
    RecordingPreferences::defaults(Platform::Windows, PathBuf::from("/default"))
}

fn good_report() -> DirectoryReport {
    DirectoryReport {
        is_absolute: true,
        created: Ok(()),
        is_directory: true,
        written: Ok(()),
        removed: Ok(()),
        probe_path: "/r/.probe".to_string(),
    }
}

#[test]
fn missing_store_uses_default_but_unreadable_store_does_not() {
    assert!(decode_recording_preferences(None, false, defaults()).is_ok());
    assert!(decode_recording_preferences(None, true, defaults())
        .unwrap_err()
        .message()
        .contains("refusing default-folder fallback"));
    assert!(decode_recording_preferences(
        Some(Err("invalid type: integer `7`".to_string())),
        true,
        defaults()
    )
    .is_err());
}

#[test]
fn relative_saved_folder_is_rejected() {
    let mut report = good_report();
    report.is_absolute = false;
    let error =
        validate_recordings_directory(PathBuf::from("relative/recordings"), report).unwrap_err();
    assert!(error
        .message("relative/recordings")
        .contains("must be an absolute path"));
}

#[test]
fn unwritable_saved_folder_fails_without_default_fallback() {
    let mut report = good_report();
    report.created = Err("a file is in the way".to_string());
    let error = validate_recordings_directory(PathBuf::from("/sel"), report).unwrap_err();
    assert!(!error.message("/sel").is_empty());
    assert!(matches!(error, DirectoryError::NotCreated(_)));
    let mut report = good_report();
    report.is_directory = false;
    assert!(matches!(
        validate_recordings_directory(PathBuf::from("/sel"), report),
        Err(DirectoryError::NotADirectory)
    ));
    let mut report = good_report();
    report.written = Err("read-only".to_string());
    assert!(matches!(
        ensure_recordings_directory(PathBuf::from("/sel"), report),
        Err(DirectoryError::NotWritable(_))
    ));
    let mut report = good_report();
    report.removed = Err("busy".to_string());
    assert!(matches!(
        ensure_recordings_directory(PathBuf::from("/sel"), report),
        Err(DirectoryError::ProbeNotRemoved { .. })
    ));
}

#[test]
fn saved_folder_survives_restart() {
    let mut saved = defaults();
    saved.save_folder = PathBuf::from("/selected");
    saved.auto_save = false;
    saved.preferred_mic_device = Some("Test mic".to_string());
    saved.recording_mode = RecordingMode::MicrophoneOnly;
    let loaded = decode_recording_preferences(Some(Ok(saved)), true, defaults()).unwrap();
    assert_eq!(loaded.save_folder, PathBuf::from("/selected"));
    assert!(!loaded.auto_save);
    assert_eq!(loaded.preferred_mic_device.as_deref(), Some("Test mic"));
    let session = resolve_recording_session_preferences(loaded, good_report()).unwrap();
    assert_eq!(session.save_folder, PathBuf::from("/selected"));
}

#[test]
fn modes_say_what_is_recorded() {
    assert!(RecordingMode::MicrophoneAndSystem.uses_microphone());
    assert!(RecordingMode::MicrophoneAndSystem.uses_system_audio());
    assert!(!RecordingMode::MicrophoneOnly.uses_system_audio());
    assert!(!RecordingMode::SystemOnly.uses_microphone());
}

#[test]
fn folders_are_looked_for_by_platform() {
    let folder = recordings_folder(
        Platform::Windows,
        Some("/music".to_string()),
        Some("/movies".to_string()),
        Some("/docs".to_string()),
    );
    assert!(matches!(folder.parent, FolderParent::Directory(path) if path == "/music"));
    assert_eq!(folder.name, "meetily-recordings");
    let mac = recordings_folder(
        Platform::MacOs,
        Some("/music".to_string()),
        Some("/movies".to_string()),
        None,
    );
    assert!(matches!(mac.parent, FolderParent::Directory(path) if path == "/movies"));
    let nowhere: Option<String> = None;
    let here = recordings_folder(Platform::Windows, nowhere, Some("/movies".to_string()), None);
    assert!(matches!(here.parent, FolderParent::Here));
    let other =
        recordings_folder(Platform::Other, Some("/music".to_string()), None, Some("/docs".to_string()));
    assert!(matches!(other.parent, FolderParent::Directory(path) if path == "/docs"));
    let default = get_default_recordings_folder(Platform::Other);
    assert_eq!(default.name, "meetily-recordings");
    if let FolderParent::Directory(path) = default.parent {
        assert!(!path.as_os_str().is_empty());
    }
}

fn digits_as_zero(text: &str) -> String {
    text.chars().map(|c| if c.is_ascii_digit() { '0' } else { c }).collect()
}

#[test]
fn file_names_carry_the_time_or_a_random_identifier() {
    assert_eq!(recording_filename("20260101_101112", "mp4"), "recording_20260101_101112.mp4");
    let now = generate_recording_filename("mp4");
    assert_eq!(digits_as_zero(&now), "recording_00000000_000000.mp0");
    let first = probe_file_name(7);
    let second = probe_file_name(7);
    assert_ne!(first, second);
    assert!(probe_file_name_for(7, "abc").contains("abc"));
}

#[test]
fn a_failed_save_puts_the_old_value_back() {
    assert!(matches!(save_rollback(Some(3)), StoreRollback::Restore(3)));
    assert!(matches!(save_rollback::<u32>(None), StoreRollback::Delete));
}

#[test]
fn only_macos_has_a_choice_of_backends() {
    let host = vec!["screencapturekit".to_string(), "coreaudio".to_string()];
    assert_eq!(get_available_audio_backends(Platform::MacOs, host).len(), 2);
    assert_eq!(get_available_audio_backends(Platform::Windows, vec![]).len(), 1);
    assert!(matches!(
        set_audio_backend(Platform::MacOs, "x".to_string(), None, true),
        Err(BackendError::Invalid(_))
    ));
    assert!(matches!(
        set_audio_backend(
            Platform::MacOs,
            "coreaudio".to_string(),
            Some(MacBackend::CoreAudio),
            false
        ),
        Err(BackendError::PermissionRequired)
    ));
}

#[test]
fn backends_are_described() {
    assert_eq!(
        get_current_audio_backend(Platform::Windows, "coreaudio".to_string()),
        "screencapturekit"
    );
    assert_eq!(
        get_current_audio_backend(Platform::MacOs, "coreaudio".to_string()),
        "coreaudio"
    );
    let info = get_audio_backend_info(Platform::Other, vec![]);
    assert_eq!(info.len(), 1);
    assert_eq!(info[0].name, "ScreenCaptureKit");
}
