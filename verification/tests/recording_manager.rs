use meetily_audio::devices::configuration::{AudioDevice, DeviceType as Direction};
use meetily_audio::recording_manager::begin::{
    start_recording, SessionAction, SessionOutcomes, SessionRun, SessionSource, SessionStep,
};
use meetily_audio::recording_manager::rebind::{
    rebind_without_clock, DrainStep, RebindError, StreamRebind,
};
use meetily_audio::recording_manager::reconnect::{
    begin_resume, binding_persisted, check_microphone_route, check_system_route, default_rebound,
    find_reconnect_device, handle_device_disconnect, handle_device_reconnect, release_route,
    resume_reconnected, streams_restarted, DeviceMonitorType, ReconnectError, ResumeError,
    ResumeStart, SystemRoute,
};
use meetily_audio::recording_manager::replace::{
    replace_device, ReplaceAction, ReplaceOutcomes, ReplaceRun, ReplaceStart,
};
use meetily_audio::recording_manager::resume::{ResumeAction, ResumeRun};
use meetily_audio::recording_manager::session::{
    default_devices, device_label, evidence_is_due, evidence_saved, save_recording_only,
    saved_duration, stop_streams_and_force_flush,
};
use meetily_audio::recording_preferences::{MacBackend, Platform};
use meetily_audio::recording_state::{AudioError, DeviceType, RecordingState};
use meetily_audio::stream::{
    capture_qpc_ns, choose_backend, first_callback_missing, first_callback_seen,
    is_supported_format, requires_first_callback, stop_streams, stop_streams_with_timeout,
    AudioStreamManager, FrameChunker, MicrophoneWatchdog, OpenedStream, SampleFormat,
    StreamBackend, StreamError, StreamsEnd, WatchdogStep,
};

fn microphone(id: &str) -> AudioDevice {
    AudioDevice::with_native_id("Mic".to_string(), Direction::Input, id.to_string())
}

fn speakers(id: &str) -> AudioDevice {
    AudioDevice::with_native_id("Speakers".to_string(), Direction::Output, id.to_string())
}

fn recording() -> RecordingState {
    let mut state = RecordingState::new();
    state.start_recording(0);
    state.mark_routes_ready();
    state.set_microphone_device(microphone("m-1"));
    state.set_system_device(speakers("s-1"));
    state
}

#[test]
fn a_rebind_waits_for_callbacks_and_takes_over() {
    let mut state = recording();
    let guard = state.begin_audio_callback(0, Some(900), 10).unwrap();
    let rebind = StreamRebind::begin(&mut state, 1_000);
    assert_eq!(rebind.deadline_qpc_ns, 2_000_001_000);
    rebind.time_to_stop(&mut state, Ok(1_500)).unwrap();
    rebind.streams_stopped(&mut state, Ok(())).unwrap();
    assert!(matches!(rebind.drain(&mut state, Ok(2_000)), Ok(DrainStep::Wait { .. })));
    state.end_audio_callback(guard);
    assert!(matches!(rebind.drain(&mut state, Ok(2_100)), Ok(DrainStep::Drained)));
    let epoch = rebind.complete(&mut state, Ok(2_200)).unwrap();
    assert_eq!(epoch, 1);
    release_route(&mut state, DeviceMonitorType::Microphone);
    streams_restarted(&mut state, DeviceMonitorType::Microphone, microphone("m-2"), epoch, true);
    assert_eq!(
        state.get_microphone_device().unwrap().native_id.as_deref(),
        Some("m-2")
    );
    let evidence = state.audio_route_evidence_snapshot();
    assert_eq!(evidence.cutovers[0].terminal_result, "rebound");
    binding_persisted(&mut state, epoch, false);
    let evidence = state.audio_route_evidence_snapshot();
    assert_eq!(
        evidence.cutovers[0].error.as_deref(),
        Some("route_metadata_persist_failed")
    );
}

#[test]
fn a_rebind_that_takes_too_long_is_abandoned_on_record() {
    let mut state = recording();
    let _guard = state.begin_audio_callback(0, Some(900), 10).unwrap();
    let rebind = StreamRebind::begin(&mut state, 1_000);
    let error = rebind.drain(&mut state, Ok(2_000_001_000)).unwrap_err();
    assert!(matches!(error, RebindError::DrainTimedOut { in_flight: 1 }));
    let evidence = state.audio_route_evidence_snapshot();
    assert_eq!(evidence.cutovers[0].terminal_result, "failed");
    assert_eq!(state.get_device_epoch(), 1);
}

#[test]
fn without_a_clock_the_epoch_still_advances() {
    let mut state = recording();
    assert_eq!(rebind_without_clock(&mut state, Ok(())).unwrap(), 1);
    assert!(rebind_without_clock(&mut state, Err("busy".to_string())).is_err());
}

#[test]
fn a_lost_device_is_waited_for() {
    let mut state = recording();
    state.set_error_callback();
    let notice = handle_device_disconnect(&mut state, DeviceMonitorType::Microphone);
    assert_eq!(notice, Some(AudioError::DeviceDisconnected));
    assert!(state.is_reconnecting());
    assert!(state.is_recording());
    let refused = handle_device_reconnect(&mut state, Ok(false)).unwrap_err();
    assert!(matches!(refused, ReconnectError::NotAvailable));
    assert_eq!(refused.message(), "Device not available");
    assert!(state.is_reconnecting());
    handle_device_reconnect(&mut state, Ok(true)).unwrap();
    assert!(!state.is_reconnecting());
}

#[test]
fn a_device_of_the_same_name_is_no_replacement() {
    let bound = Some(microphone("m-1"));
    let available = vec![microphone("m-2")];
    assert!(find_reconnect_device(
        Platform::Windows,
        &bound,
        &available,
        None,
        "Mic",
        DeviceMonitorType::Microphone
    )
    .is_none());
    let available = vec![microphone("m-2"), microphone("m-1")];
    let found = find_reconnect_device(
        Platform::Windows,
        &bound,
        &available,
        None,
        "Mic",
        DeviceMonitorType::Microphone,
    );
    assert_eq!(found.unwrap().native_id.as_deref(), Some("m-1"));
    let unnamed = Some(AudioDevice::new("Mic".to_string(), Direction::Input));
    assert!(find_reconnect_device(
        Platform::MacOs,
        &unnamed,
        &available,
        None,
        "Mic",
        DeviceMonitorType::Microphone
    )
    .is_some());
}

#[test]
fn the_default_output_follows_the_system() {
    let bound = Some(speakers("s-1").with_default_role("multimedia"));
    let found = find_reconnect_device(
        Platform::Windows,
        &bound,
        &vec![],
        Some(speakers("s-2")),
        "Speakers",
        DeviceMonitorType::SystemAudio,
    );
    assert_eq!(found.unwrap().native_id.as_deref(), Some("s-2"));
}

#[test]
fn resuming_needs_a_paused_recording() {
    let state = RecordingState::new();
    let error = begin_resume(&state, Platform::Windows).unwrap_err();
    assert_eq!(error.message(), "Cannot resume when not recording");
    let mut state = recording();
    let error = begin_resume(&state, Platform::Windows).unwrap_err();
    assert_eq!(error.message(), "Recording is not paused");
    state.pause_recording(5).unwrap();
    assert!(matches!(
        begin_resume(&state, Platform::Windows),
        Ok(ResumeStart::CheckDevices)
    ));
    handle_device_disconnect(&mut state, DeviceMonitorType::SystemAudio);
    assert!(matches!(
        begin_resume(&state, Platform::Windows),
        Ok(ResumeStart::Reconnect { device_type: DeviceMonitorType::SystemAudio, .. })
    ));
    assert!(resume_reconnected(&mut state, false).is_err());
    resume_reconnected(&mut state, true).unwrap();
    assert!(!state.is_reconnecting());
}

#[test]
fn resuming_checks_that_the_devices_are_there() {
    let mut state = recording();
    state.set_error_callback();
    let (found, notice) = check_microphone_route(&mut state, &vec![microphone("m-1")]);
    assert!(found.is_ok() && notice.is_none());
    let (lost, notice) = check_microphone_route(&mut state, &vec![]);
    assert!(matches!(lost, Err(ResumeError::MicrophoneUnavailable(id)) if id == "m-1"));
    assert_eq!(notice, Some(AudioError::DeviceDisconnected));
    assert!(state.is_reconnecting());
    let mut state = recording();
    state.set_error_callback();
    let (ready, notice) =
        check_system_route(&mut state, &vec![speakers("s-1")], Err("x".to_string()));
    assert_eq!(ready.unwrap(), SystemRoute::Ready);
    assert!(notice.is_none());
    state.set_system_device(speakers("s-1").with_default_role("multimedia"));
    let (rebind, notice) = check_system_route(&mut state, &vec![], Ok("s-2".to_string()));
    assert_eq!(rebind.unwrap(), SystemRoute::Rebind);
    assert_eq!(notice, Some(AudioError::DeviceDisconnected));
    assert!(default_rebound(&mut state, false).is_err());
    assert!(default_rebound(&mut state, true).is_ok());
}

fn good_session() -> SessionOutcomes {
    SessionOutcomes {
        devices: Ok(()),
        saving: Ok(()),
        pipeline: Ok(()),
        streams: Ok(()),
        watch: Ok(()),
    }
}

#[test]
fn a_start_that_failed_leaves_nothing_running() {
    let mut state = RecordingState::new();
    let mut outcomes = good_session();
    outcomes.streams = Err("no stream".to_string());
    assert_eq!(start_recording(&mut state, 5, outcomes).unwrap_err(), "no stream");
    assert!(!state.is_recording());
    assert!(state.get_microphone_device().is_none());
    assert!(state.begin_audio_callback(0, Some(1), 1).is_none());
    let mut state = RecordingState::new();
    let mut outcomes = good_session();
    outcomes.watch = Err("denied".to_string());
    assert_eq!(
        start_recording(&mut state, 5, outcomes).unwrap_err(),
        "Required audio device monitoring failed to start: denied"
    );
    let mut state = RecordingState::new();
    assert!(start_recording(&mut state, 5, good_session()).is_ok());
    assert!(state.is_recording());
    assert!(state.accepts_audio_timeline());
}

#[test]
fn metadata_that_cannot_be_written_keeps_a_recording_from_starting() {
    let mut state = RecordingState::new();
    let mut outcomes = good_session();
    outcomes.saving = Err("read-only".to_string());
    assert_eq!(start_recording(&mut state, 5, outcomes).unwrap_err(), "read-only");
    assert!(!state.is_recording());
    assert_eq!(state.get_device_epoch(), 0);
    assert_eq!(state.get_recording_duration(9), None);
}

#[test]
fn controlled_input_needs_no_streams() {
    let mut state = RecordingState::new();
    let (mut run, first) = SessionRun::start(SessionSource::Controlled);
    assert!(matches!(first, SessionAction::Perform(SessionStep::NoteDevices)));
    assert!(matches!(
        run.advance(&mut state, 1, Ok(())),
        SessionAction::Perform(SessionStep::StartSaving)
    ));
    assert!(!state.is_recording());
    assert!(matches!(
        run.advance(&mut state, 1, Ok(())),
        SessionAction::Perform(SessionStep::StartPipeline)
    ));
    assert!(state.is_recording());
    assert!(matches!(run.advance(&mut state, 1, Ok(())), SessionAction::Ready));
    assert!(state.accepts_audio_timeline());
}

#[test]
fn a_device_takes_over_once_its_streams_run_and_it_is_saved() {
    let mut state = recording();
    let run = ReplaceRun::start(
        &state,
        Platform::Windows,
        Ok(vec![microphone("m-1")]),
        None,
        "Mic",
        DeviceMonitorType::Microphone,
    );
    let mut run = match run {
        Ok(run) => run,
        Err(refusal) => panic!("{refusal:?}"),
    };
    match run.rebound(&mut state, Ok(1)) {
        ReplaceAction::RestartStreams { microphone, system, epoch } => {
            assert_eq!(microphone.unwrap().native_id.as_deref(), Some("m-1"));
            assert_eq!(system.unwrap().native_id.as_deref(), Some("s-1"));
            assert_eq!(epoch, 1);
        }
        other => panic!("{other:?}"),
    }
    assert!(state.get_microphone_device().is_none());
    assert!(matches!(
        run.restarted(&mut state, Ok(())),
        ReplaceAction::Persist { epoch: 1 }
    ));
    assert!(state.get_microphone_device().is_some());
    assert!(matches!(
        run.persisted(&mut state, Ok(())),
        ReplaceAction::Finish { result: Ok(true), .. }
    ));
}

#[test]
fn a_device_whose_streams_fail_is_not_bound() {
    let mut state = recording();
    let run = ReplaceRun::start(
        &state,
        Platform::Windows,
        Ok(vec![speakers("s-1")]),
        None,
        "Speakers",
        DeviceMonitorType::SystemAudio,
    );
    let outcomes = ReplaceOutcomes {
        rebound: Ok(1),
        restarted: Err("no stream".to_string()),
        persisted: Ok(()),
    };
    let result = match run {
        Ok(run) => replace_device(run, &mut state, outcomes),
        Err(refusal) => panic!("{refusal:?}"),
    };
    assert_eq!(result.unwrap_err(), "no stream");
    assert!(state.get_system_device().is_none());
    let gone = ReplaceRun::start(
        &state,
        Platform::Windows,
        Ok(vec![]),
        None,
        "Mic",
        DeviceMonitorType::Microphone,
    );
    assert!(matches!(gone, Err(ReplaceStart::NotAvailable)));
    let unlisted = ReplaceRun::start(
        &state,
        Platform::Windows,
        Err("host".to_string()),
        None,
        "Mic",
        DeviceMonitorType::Microphone,
    );
    assert!(matches!(unlisted, Err(ReplaceStart::Failed(error)) if error == "host"));
}

#[test]
fn a_pause_is_taken_back_once_the_devices_were_looked_at() {
    let mut state = recording();
    state.pause_recording(10).unwrap();
    let (mut run, first) = ResumeRun::start(&mut state, Platform::Windows, 20);
    assert!(matches!(first, ResumeAction::ListDevices));
    assert!(state.is_paused());
    let listed = vec![microphone("m-1"), speakers("s-1")];
    let (last, notice) =
        run.devices_listed(&mut state, Ok(listed), Err("unused".to_string()), 30);
    assert!(matches!(last, ResumeAction::Finish(Ok(()))));
    assert!(notice.is_none());
    assert!(!state.is_paused());
    assert_eq!(state.get_total_pause_duration(), 20);
    let mut state = recording();
    state.pause_recording(10).unwrap();
    let (_, elsewhere) = ResumeRun::start(&mut state, Platform::MacOs, 20);
    assert!(matches!(elsewhere, ResumeAction::Finish(Ok(()))));
}

#[test]
fn a_pause_stays_where_a_device_is_gone() {
    let mut state = recording();
    state.pause_recording(10).unwrap();
    let (mut run, _) = ResumeRun::start(&mut state, Platform::Windows, 20);
    state.set_error_callback();
    let (gone, notice) =
        run.devices_listed(&mut state, Ok(vec![]), Err("unused".to_string()), 30);
    assert_eq!(notice, Some(AudioError::DeviceDisconnected));
    match gone {
        ResumeAction::Finish(Err(error)) => assert_eq!(
            error.message(),
            "Microphone endpoint is unavailable; recording cannot resume: m-1"
        ),
        other => panic!("{other:?}"),
    }
    assert!(state.is_paused());
    let (mut run, next) = ResumeRun::start(&mut state, Platform::Windows, 40);
    assert!(matches!(
        next,
        ResumeAction::Reconnect { device_type: DeviceMonitorType::Microphone, .. }
    ));
    match run.reconnected(&mut state, Ok(false)) {
        ResumeAction::Finish(Err(error)) => assert_eq!(
            error.message(),
            "Audio route is unavailable; recording cannot resume"
        ),
        other => panic!("{other:?}"),
    }
}

#[test]
fn a_new_default_output_is_bound_before_the_pause_is_taken_back() {
    let mut state = recording();
    state.set_system_device(speakers("s-1").with_default_role("multimedia"));
    state.pause_recording(10).unwrap();
    let (mut run, _) = ResumeRun::start(&mut state, Platform::Windows, 20);
    let (next, notice) =
        run.devices_listed(&mut state, Ok(vec![microphone("m-1")]), Ok("s-2".to_string()), 30);
    assert!(notice.is_none());
    assert!(
        matches!(next, ResumeAction::BindDefault { device_name } if device_name == "Speakers")
    );
    assert!(state.is_paused());
    let last = run.default_bound(&mut state, Ok(true), 40);
    assert!(matches!(last, ResumeAction::Finish(Ok(()))));
    assert!(!state.is_paused() && !state.is_reconnecting());
}

#[test]
fn evidence_is_saved_when_it_changed() {
    let mut state = recording();
    state.record_device_fallback("system");
    assert!(evidence_is_due(&mut state, false));
    assert!(!evidence_is_due(&mut state, false));
    assert!(evidence_is_due(&mut state, true));
    evidence_saved(&mut state, false);
    assert!(evidence_is_due(&mut state, false));
}

#[test]
fn a_recording_needs_a_microphone_by_default() {
    let missing = default_devices(None, Some(speakers("s"))).unwrap_err();
    assert_eq!(missing.message(Platform::Windows), "No microphone device available");
    let (mic, system) = default_devices(Some(microphone("m")), None).unwrap();
    assert_eq!(device_label(&Some(mic), "none"), "Mic");
    assert_eq!(device_label(&system, "No System Audio"), "No System Audio");
}

#[test]
fn the_length_of_a_recording_is_taken_before_its_end() {
    let state = recording();
    assert_eq!(saved_duration(Some(5), &state, 9), Some(5));
    assert_eq!(saved_duration(None, &state, 9), Some(9));
}

#[test]
fn missing_evidence_is_a_failure_of_saving() {
    assert!(save_recording_only(Ok(None), None).is_ok());
    assert_eq!(save_recording_only(Err("x".to_string()), None).unwrap_err(), "x");
    assert!(save_recording_only(Ok(None), Some("y".to_string()))
        .unwrap_err()
        .ends_with("was not persisted: y"));
}

#[test]
fn silence_of_the_microphone_is_reported_once() {
    let mut state = recording();
    let mut watchdog = MicrophoneWatchdog::new();
    state.set_error_callback();
    assert_eq!(watchdog.look(&mut state, Some(1_000)), (WatchdogStep::Continue, None));
    assert_eq!(
        watchdog.look(&mut state, Some(2_000_001_000)),
        (WatchdogStep::Continue, Some(AudioError::MicrophoneNoSignal))
    );
    assert_eq!(watchdog.look(&mut state, Some(2_100_001_000)), (WatchdogStep::Continue, None));
    assert_eq!(state.microphone_route_health().4, 1);
    assert_eq!(watchdog.look(&mut state, None).0, WatchdogStep::Stop);
    assert!(state.route_failed(&DeviceType::Microphone));
    assert!(MicrophoneWatchdog::is_wanted(&state, 0, false));
    assert!(!MicrophoneWatchdog::is_wanted(&state, 1, false));
}

#[test]
fn counter_readings_become_nanoseconds() {
    assert_eq!(capture_qpc_ns(10_000_000, 10_000_000, 0), Some(1_000_000_000));
    assert_eq!(capture_qpc_ns(10_000_000, 10_000_000, 400), Some(999_999_600));
    assert_eq!(capture_qpc_ns(5, 0, 0), None);
    assert_eq!(capture_qpc_ns(-1, 10, 0), None);
}

#[test]
fn backends_are_chosen_by_platform_and_route() {
    assert_eq!(
        choose_backend(Platform::Windows, DeviceType::System, MacBackend::CoreAudio),
        StreamBackend::WindowsLoopback
    );
    assert_eq!(
        choose_backend(Platform::Windows, DeviceType::Microphone, MacBackend::CoreAudio),
        StreamBackend::Cpal
    );
    assert!(requires_first_callback(Platform::Windows, DeviceType::Microphone));
    assert!(is_supported_format(SampleFormat::I16));
    assert!(!is_supported_format(SampleFormat::Other));
}

#[test]
fn a_stream_without_a_first_callback_is_a_failure() {
    let mut state = recording();
    let (error, _notice) = first_callback_missing(
        &mut state,
        Platform::Windows,
        DeviceType::Microphone,
        &microphone("m-1"),
        Some(10),
        3_000_000_000,
    );
    assert!(matches!(error, StreamError::NoCallback { .. }));
    let (unknown, notice) = first_callback_seen(&mut state, &microphone("m-1"), None);
    assert!(matches!(unknown, Err(StreamError::StartNotRecorded)) && notice.is_none());
}

#[test]
fn a_listener_is_told_of_a_late_first_callback() {
    let mut state = recording();
    state.set_error_callback();
    state.record_microphone_callback_qpc(Some(2_500_000_000), 2_500_000_000);
    let (late, notice) = first_callback_seen(&mut state, &microphone("m-1"), Some(10));
    assert!(matches!(late, Err(StreamError::FirstCallbackLate { .. })));
    assert_eq!(notice, Some(AudioError::MicrophoneNoSignal));
    let (early, notice) =
        first_callback_seen(&mut state, &microphone("m-1"), Some(2_400_000_000));
    assert!(early.is_ok() && notice.is_none());
}

#[test]
fn streams_are_kept_for_their_routes() {
    let mut state = RecordingState::new();
    state.start_recording(0);
    let mut manager: AudioStreamManager<u32> = AudioStreamManager::new();
    assert!(matches!(
        manager.start_streams(&mut state, None, None),
        Err(StreamError::NoStreams)
    ));
    let opened = |device, stream| Some(OpenedStream { device, stream });
    let failed = manager.start_streams(
        &mut state,
        opened(microphone("m"), Err("busy".to_string())),
        opened(speakers("s"), Ok(2)),
    );
    assert!(matches!(failed, Err(StreamError::Failed(error)) if error == "busy"));
    assert!(!manager.has_active_streams());
    assert!(state.get_system_device().is_none());
    let halved = manager.start_streams(
        &mut state,
        opened(microphone("m"), Ok(1)),
        opened(speakers("s"), Err("gone".to_string())),
    );
    assert_eq!(
        halved.unwrap_err().message(),
        "Requested system audio stream failed to start: gone"
    );
    assert!(state.get_microphone_device().is_some());
    assert!(state.get_system_device().is_none());
    assert_eq!(manager.active_stream_count(), 1);
    assert!(manager.has_active_streams());
    assert!(manager.require_stream().is_ok());
    assert_eq!(manager.take_streams(), (Some(1), None));
    assert!(!manager.has_active_streams());
}

#[test]
fn frames_are_chunked_and_none_is_lost() {
    let mut chunker: FrameChunker<u32> = FrameChunker::new();
    let mut got: Vec<u32> = Vec::new();
    for sample in 0..2_500 {
        if let Some(chunk) = chunker.push(sample) {
            assert_eq!(chunk.len(), 1_024);
            got.extend(chunk);
        }
    }
    got.extend(chunker.finish().unwrap());
    assert_eq!(got, (0..2_500).collect::<Vec<u32>>());
}

#[test]
fn a_stream_that_cannot_be_stopped_is_reported() {
    let both = StreamsEnd::Stopped {
        microphone: Err("mic".to_string()),
        system: Err("system".to_string()),
    };
    assert_eq!(stop_streams_with_timeout(both).unwrap_err(), "mic");
    let fine = StreamsEnd::Stopped { microphone: Ok(()), system: Ok(()) };
    assert!(stop_streams_with_timeout(fine).is_ok());
    assert_eq!(
        stop_streams_with_timeout(StreamsEnd::TaskFailed("panicked".to_string())).unwrap_err(),
        "Audio stream stop task failed: panicked"
    );
    assert_eq!(
        stop_streams_with_timeout(StreamsEnd::TimedOut).unwrap_err(),
        "Audio stream callback drain exceeded its fixed deadline"
    );
}

#[test]
fn a_recording_that_ended_holds_nothing() {
    let mut state = recording();
    stop_streams_and_force_flush(&mut state);
    assert!(!state.is_recording());
    assert!(state.get_microphone_device().is_none());
    assert!(state.get_system_device().is_none());
    assert!(!state.is_reconnecting());
}

#[test]
fn both_streams_that_cannot_be_stopped_are_reported() {
    assert!(stop_streams(Some(Ok(())), None).is_ok());
    assert_eq!(
        stop_streams(Some(Err("a".to_string())), Some(Err("b".to_string()))).unwrap_err(),
        "Failed to stop some streams: [a, b]"
    );
    assert_eq!(
        stop_streams(Some(Ok(())), Some(Err("b".to_string()))).unwrap_err(),
        "Failed to stop some streams: [b]"
    );
}
