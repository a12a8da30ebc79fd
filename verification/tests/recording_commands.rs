use meetily_audio::devices::configuration::{AudioDevice, DeviceType as Direction};
use meetily_audio::recording_commands::control::{
    get_transcription_status, is_recording_paused, pause_recording, resume_failed, CommandError,
};
use meetily_audio::recording_commands::events::{
    attempt_device_reconnect, get_reconnection_status, handle_device_event, reconnect_ended,
    DeviceEvent, DeviceEventResponse, EventAction, ReconnectRefusal,
};
use meetily_audio::recording_commands::meeting::{
    classify_device_type, kind_of_lowered, meeting_ended, recording_stopped, ModelChoice,
};
use meetily_audio::recording_preferences::RecordingMode;
use meetily_audio::recording_commands::replay::{ReplayAction, ReplayPhase, ReplayRun};
use meetily_audio::recording_commands::report::{get_idle_state, get_recording_state};
use meetily_audio::recording_commands::routes::{
    choose_route_device, wished_device, DeviceWish, RequestedDevice, RouteError,
};
use meetily_audio::recording_commands::start::{
    announce_start, controlled_meeting_name, describe_failure, effective_meeting_name,
    meeting_name_or, record_fallbacks, start_plan, start_recording, RecordingFlags, StartAction,
    StartOrigin, StartRun, StartStep,
};
use meetily_audio::recording_commands::stop::{
    stop_recording, CaptureError, SaveEnd, Saving, StopAction, StopEvent, StopOutcomes, StopPhase,
    StopRun, TaskEnd,
};
use meetily_audio::incremental_saver::MergeEnd;
use meetily_audio::recording_saver::finish::SaveEnds;
use meetily_audio::recording_saver::saver::RecordingSaver;
use meetily_audio::recording_manager::reconnect::DeviceMonitorType;
use meetily_audio::recording_preferences::Platform;
use meetily_audio::recording_state::{AudioError, DeviceType, RecordingState};
use meetily_audio::transcription::chunk_queue::ChunkQueue;
use meetily_audio::transcription::worker::TranscriptionActivity;

fn microphone(id: &str) -> AudioDevice {
    AudioDevice::with_native_id("Mic".to_string(), Direction::Input, id.to_string())
}

fn recording() -> RecordingState {
    let mut state = RecordingState::new();
    state.start_recording(1_000);
    state.mark_routes_ready();
    state.set_microphone_device(microphone("m-1"));
    state
}

fn wished(found: Result<AudioDevice, String>) -> Option<RequestedDevice> {
    Some(RequestedDevice { name: "wanted".to_string(), found })
}

#[test]
fn a_route_that_is_not_recorded_needs_no_device() {
    let wished = |wish, mode, direction| {
        wished_device(
            wish,
            mode,
            direction,
            Some("preferred".to_string()),
            Some("selected".to_string()),
        )
    };
    assert_eq!(
        wished(DeviceWish::Preferred, RecordingMode::MicrophoneAndSystem, Direction::Input),
        (true, Some("preferred".to_string()))
    );
    assert_eq!(
        wished(DeviceWish::Selected, RecordingMode::SystemOnly, Direction::Output),
        (true, Some("selected".to_string()))
    );
    assert_eq!(
        wished(DeviceWish::Selected, RecordingMode::SystemOnly, Direction::Input),
        (false, None)
    );
    assert_eq!(
        wished_device(
            DeviceWish::Preferred,
            RecordingMode::MicrophoneOnly,
            Direction::Input,
            None,
            Some("selected".to_string())
        ),
        (true, None)
    );
}

#[test]
fn a_requested_device_is_used() {
    let choice = choose_route_device(
        true,
        Direction::Input,
        wished(Ok(microphone("m-1"))),
        Ok(microphone("default")),
    )
    .unwrap();
    assert_eq!(choice.device.unwrap().native_id.as_deref(), Some("m-1"));
    assert!(choice.fallback.is_none());
}

#[test]
fn an_unavailable_device_falls_back_to_the_default() {
    let choice = choose_route_device(
        true,
        Direction::Input,
        wished(Err("unplugged".to_string())),
        Ok(microphone("default")),
    )
    .unwrap();
    assert_eq!(choice.device.unwrap().native_id.as_deref(), Some("default"));
    let fallback = choice.fallback.unwrap();
    assert_eq!(fallback.route, "microphone");
    assert_eq!(fallback.requested, "wanted");
    assert_eq!(fallback.used, "Mic");
    assert_eq!(fallback.reason, "unplugged");
    let mut state = recording();
    record_fallbacks(&mut state, &vec![fallback]);
    let evidence = state.audio_route_evidence_snapshot();
    assert_eq!(evidence.incidents[0].code, "preferred_device_fallback");
}

#[test]
fn a_route_without_any_device_is_an_error() {
    let error = choose_route_device(
        true,
        Direction::Input,
        wished(Err("unplugged".to_string())),
        Err("none".to_string()),
    )
    .unwrap_err();
    assert_eq!(
        error.message(DeviceWish::Preferred, Direction::Input),
        "Preferred microphone is unavailable ('wanted': unplugged) and no default microphone could be used: none"
    );
    assert_eq!(
        error.message(DeviceWish::Selected, Direction::Output),
        "Invalid system device 'wanted': unplugged; no default output device could be used either: none"
    );
    let error =
        choose_route_device(true, Direction::Output, None, Err("none".to_string())).unwrap_err();
    assert!(matches!(error, RouteError::NoDefault(_)));
    assert_eq!(
        error.message(DeviceWish::Preferred, Direction::Output),
        "No default system audio available: none"
    );
    let unused =
        choose_route_device(false, Direction::Output, None, Err("none".to_string())).unwrap();
    assert!(unused.device.is_none());
}

#[test]
fn a_recording_is_under_way_before_it_is_announced() {
    let mut flags = RecordingFlags::new();
    let (mut run, first) = StartRun::start(StartOrigin::Preferences);
    assert!(matches!(first, StartAction::Perform(StartStep::Activity)));
    let steps = start_plan(StartOrigin::Preferences);
    for step in &steps[1..] {
        assert!(!flags.is_recording());
        let action = run.advance(&mut flags, Ok(()));
        assert!(matches!(action, StartAction::Perform(next) if next == *step));
    }
    assert!(flags.is_recording());
    assert!(matches!(run.advance(&mut flags, Ok(())), StartAction::Started));
}

#[test]
fn the_first_step_that_fails_decides() {
    let mut flags = RecordingFlags::new();
    let mut outcomes: Vec<Result<(), String>> =
        start_plan(StartOrigin::Selection).iter().map(|_| Ok(())).collect();
    outcomes[6] = Err("read-only".to_string());
    outcomes[10] = Err("never reached".to_string());
    assert_eq!(
        start_recording(StartOrigin::Selection, &mut flags, outcomes).unwrap_err(),
        "Recording save folder is unavailable: read-only"
    );
    assert!(!flags.is_recording());
}

#[test]
fn only_one_recording_can_be_started() {
    let mut flags = RecordingFlags { recording: true, replay_cancelled: false };
    let outcomes: Vec<Result<(), String>> =
        start_plan(StartOrigin::Controlled).iter().map(|_| Ok(())).collect();
    assert_eq!(
        start_recording(StartOrigin::Controlled, &mut flags, outcomes).unwrap_err(),
        "Recording already in progress"
    );
}

#[test]
fn a_model_that_is_not_ready_is_announced() {
    let mut flags = RecordingFlags::new();
    let (mut run, _) = StartRun::start(StartOrigin::Preferences);
    for _ in 0..3 {
        run.advance(&mut flags, Ok(()));
    }
    match run.advance(&mut flags, Err("downloading".to_string())) {
        StartAction::Refused { message, notice } => {
            assert_eq!(message, "downloading");
            assert!(notice.unwrap().contains("still downloading"));
        }
        _ => panic!("the start must be refused"),
    }
}

#[test]
fn failures_are_described_by_step_and_origin() {
    assert_eq!(
        describe_failure(StartOrigin::Preferences, StartStep::Capture, "x"),
        "Failed to start recording: x"
    );
    assert_eq!(
        describe_failure(StartOrigin::Controlled, StartStep::Capture, "x"),
        "failed to start controlled real-time pipeline: x"
    );
    assert_eq!(
        describe_failure(StartOrigin::Controlled, StartStep::Recorder, "x"),
        "controlled measurement recorder was not initialized"
    );
    assert_eq!(describe_failure(StartOrigin::Preferences, StartStep::Engine, "x"), "x");
}

#[test]
fn meetings_without_a_name_are_named_by_the_time() {
    assert_eq!(meeting_name_or(None, "2025-10-03_08-25-23"), "Meeting 2025-10-03_08-25-23");
    assert_eq!(meeting_name_or(Some("Weekly".to_string()), "x"), "Weekly");
    let now = effective_meeting_name(None);
    let shape: String =
        now.chars().map(|c| if c.is_ascii_digit() { '0' } else { c }).collect();
    assert_eq!(shape, "Meeting 0000-00-00_00-00-00");
    assert_eq!(effective_meeting_name(Some("Weekly".to_string())), "Weekly");
    assert_eq!(controlled_meeting_name(None, "base"), "D11 base");
}

#[test]
fn only_chosen_devices_are_announced_by_name() {
    let chosen = announce_start(
        StartOrigin::Selection,
        Some("My Mic".to_string()),
        None,
        Some("ctx".to_string()),
    );
    assert_eq!(chosen.microphone, "My Mic");
    assert_eq!(chosen.system_audio, "Default System Audio");
    assert!(chosen.recognition_context_enabled);
    assert_eq!(chosen.workers, 3);
    let preferred =
        announce_start(StartOrigin::Preferences, Some("My Mic".to_string()), None, None);
    assert_eq!(preferred.microphone, "Default Microphone");
    assert!(!preferred.recognition_context_enabled);
}

fn good_save() -> SaveEnds {
    SaveEnds {
        writer: Ok(()),
        last_checkpoint: Ok(()),
        merge: MergeEnd::Merged,
        separator: '/',
        text: Ok(()),
        metadata: Ok(()),
        failure_persisted: Ok(()),
        announced: Ok(()),
    }
}

fn good_stop() -> StopOutcomes {
    StopOutcomes {
        replay: None,
        capture: Ok(()),
        transcription: Some(TaskEnd::Finished),
        duration_ns: Some(1_000_000_000),
        saving: Saving::Ended(good_save()),
        evidence_error: None,
        announce: Ok(()),
        closing: Ok(()),
    }
}

fn text_saver() -> Option<RecordingSaver> {
    let mut saver = RecordingSaver::new();
    saver.set_meeting_name(Some("Meeting".to_string()));
    let name = saver.start_accumulation().unwrap();
    let metadata = saver.initial_metadata(&name, false);
    saver
        .initialize_meeting_folder_at("/rec/m".to_string(), metadata, false, None)
        .unwrap();
    Some(saver)
}

fn status_of(saver: &Option<RecordingSaver>) -> String {
    saver.as_ref().unwrap().metadata.as_ref().unwrap().status.clone()
}

fn active() -> RecordingFlags {
    RecordingFlags { recording: true, replay_cancelled: false }
}

#[test]
fn stopping_without_a_recording_does_nothing() {
    let mut flags = RecordingFlags::new();
    let mut outcomes = good_stop();
    outcomes.saving = Saving::TimedOut;
    let mut saver = text_saver();
    let mut saved = None;
    let mut events = Vec::new();
    assert!(stop_recording(&mut flags, false, &mut saver, outcomes, &mut saved, &mut events).is_ok());
    assert_eq!(flags, RecordingFlags::new());
    assert!(events.is_empty());
    assert!(saved.is_none());
    assert_eq!(status_of(&saver), "recording");
}

#[test]
fn a_recording_is_over_once_it_was_saved_or_not() {
    let mut flags = active();
    let mut saver = text_saver();
    let mut saved = None;
    let mut events = Vec::new();
    assert!(stop_recording(&mut flags, true, &mut saver, good_stop(), &mut saved, &mut events).is_ok());
    assert!(!flags.is_recording());
    assert!(flags.replay_cancelled);
    assert!(matches!(events[..], [StopEvent::Stopped]));
    assert_eq!(status_of(&saved), "completed");
    assert!(saver.is_none());

    let mut flags = active();
    let mut saver = text_saver();
    let mut saved = None;
    let mut events = Vec::new();
    let mut ends = good_save();
    ends.text = Err("disk full".to_string());
    let mut outcomes = good_stop();
    outcomes.saving = Saving::Ended(ends);
    outcomes.closing = Err("also full".to_string());
    assert_eq!(
        stop_recording(&mut flags, true, &mut saver, outcomes, &mut saved, &mut events).unwrap_err(),
        "Failed to save recording data: Failed to save transcripts: disk full; D-11 evidence finalization also failed: also full"
    );
    assert!(!flags.is_recording());
    assert_eq!(status_of(&saved), "error");
    match &events[..] {
        [StopEvent::Error(error)] => assert_eq!(
            error,
            "Failed to save recording data: Failed to save transcripts: disk full"
        ),
        other => panic!("the user is told of the failure alone: {other:?}"),
    }

    let mut flags = active();
    let mut saver = text_saver();
    let mut saved = None;
    let mut outcomes = good_stop();
    outcomes.saving = Saving::TimedOut;
    assert_eq!(
        stop_recording(&mut flags, false, &mut saver, outcomes, &mut saved, &mut Vec::new()).unwrap_err(),
        "Timed out while saving recording data"
    );
}

#[test]
fn a_lost_transcription_makes_the_stop_fail() {
    for (end, expected) in [
        (
            TaskEnd::Failed("panicked".to_string()),
            "Failed to save recording data: Transcription failed: panicked",
        ),
        (
            TaskEnd::TimedOut,
            "Failed to save recording data: Transcription failed: Transcription queue drain timed out",
        ),
    ] {
        let mut flags = active();
        let mut saver = text_saver();
        let mut saved = None;
        let mut events = Vec::new();
        let mut outcomes = good_stop();
        outcomes.transcription = Some(end);
        assert_eq!(
            stop_recording(&mut flags, false, &mut saver, outcomes, &mut saved, &mut events).unwrap_err(),
            expected
        );
        assert!(!flags.is_recording());
        assert!(matches!(events[..], [StopEvent::Error(_)]));
        assert_eq!(status_of(&saved), "error");
    }
}

#[test]
fn a_recording_without_its_last_evidence_is_not_reported_as_saved() {
    let mut flags = active();
    let mut saver = text_saver();
    let mut saved = None;
    let mut outcomes = good_stop();
    outcomes.evidence_error = Some("locked".to_string());
    assert!(stop_recording(&mut flags, false, &mut saver, outcomes, &mut saved, &mut Vec::new())
        .unwrap_err()
        .ends_with("was not persisted: locked"));
}

#[test]
fn audio_that_cannot_be_stopped_keeps_the_recording_going() {
    let mut flags = active();
    let mut saver = text_saver();
    let mut saved = None;
    let mut events = Vec::new();
    let mut outcomes = good_stop();
    outcomes.capture =
        Err(CaptureError { brief: "busy".to_string(), full: "busy: device".to_string() });
    assert_eq!(
        stop_recording(&mut flags, false, &mut saver, outcomes, &mut saved, &mut events).unwrap_err(),
        "Failed to stop audio streams: busy"
    );
    assert!(flags.is_recording());
    assert!(events.is_empty());
    assert!(saver.is_none());
    assert!(saved.is_none());
}

#[test]
fn the_writer_is_told_of_a_lost_transcription() {
    let mut flags = active();
    let (mut run, first) = StopRun::start(&mut flags, true);
    assert_eq!(first.progress.unwrap().progress, 20);
    let replay = run.replay_ended(Some(TaskEnd::TimedOut));
    assert_eq!(replay.error.as_deref(), Some("controlled input task stop timed out"));
    let stopped = run.capture_stopped(Ok(()), true);
    assert_eq!(stopped.stages[1].stage, "queue_drain_started");
    let drained = run.transcription_ended(Some(TaskEnd::TimedOut));
    assert_eq!(
        drained.writer_error.as_deref(),
        Some("Transcription queue drain timed out")
    );
    assert_eq!(drained.stages[0].result, "timeout");
    assert!(matches!(run.meeting_reported().action, StopAction::Save));
    assert!(matches!(run.saved(&mut flags, SaveEnd::Saved).action, StopAction::Announce));
    let announced = run.announced(Err("no window".to_string()));
    assert!(matches!(announced.action, StopAction::CloseMeasurement));
    let last = run.measurement_closed(Ok(()));
    assert!(matches!(last.action, StopAction::Finish(Err(error)) if error == "no window"));
    assert_eq!(run.phase, StopPhase::Finished);
}

#[test]
fn devices_are_classified_without_their_names() {
    assert_eq!(classify_device_type("AirPods Pro"), "Bluetooth");
    assert_eq!(classify_device_type("WIRELESS Headset"), "Bluetooth");
    assert_eq!(classify_device_type("USB Microphone"), "Wired");
    assert_eq!(kind_of_lowered("bt speaker"), "Bluetooth");
    assert_eq!(kind_of_lowered("btspeaker"), "Wired");
}

#[test]
fn a_meeting_that_ended_is_summed_up() {
    let mut state = recording();
    state.set_microphone_device(AudioDevice::new("Bluetooth Mic".to_string(), Direction::Input));
    let ended = meeting_ended(
        &state,
        5_000,
        3,
        Some(ModelChoice { provider: "whisper".to_string(), model: "base".to_string() }),
        None,
    );
    assert_eq!(ended.transcription_model, "base");
    assert_eq!(ended.summary_provider, "unknown");
    assert_eq!(ended.total_duration_ns, Some(4_000));
    assert_eq!(ended.active_duration_ns, 4_000);
    assert_eq!(ended.microphone_device_type, "Bluetooth");
    assert_eq!(ended.system_audio_device_type, "Unknown");
    assert_eq!(ended.transcript_segments_count, 3);
    assert!(!ended.had_fatal_error);
}

#[test]
fn a_recording_is_found_by_folder_and_name_or_not_at_all() {
    let both = recording_stopped(Some("/f".to_string()), Some("n".to_string()));
    assert_eq!(both.folder_path.as_deref(), Some("/f"));
    assert_eq!(both.meeting_name.as_deref(), Some("n"));
    let one = recording_stopped(Some("/f".to_string()), None);
    assert!(one.folder_path.is_none());
    assert!(one.meeting_name.is_none());
}

#[test]
fn the_state_of_a_recording_is_shown() {
    let mut state = recording();
    state.report_error(AudioError::StreamFailed);
    state.record_route_callback(&DeviceType::Microphone, 480, 1, 0.5f32.to_bits(), 1.0f32.to_bits());
    let report = get_recording_state(true, &state, 3_000);
    assert!(report.is_recording && report.is_active && !report.is_paused);
    assert_eq!(report.recording_mode, "microphone_only");
    assert_eq!(report.last_error, Some("StreamFailed"));
    assert_eq!(report.microphone_route.native_id.as_deref(), Some("m-1"));
    assert_eq!(report.microphone_route.sample_count, 480);
    assert_eq!(report.microphone_route.rms_bits, 0.5f32.to_bits());
    assert!(!report.system_route.active);
    assert_eq!(report.recording_duration_ns, Some(2_000));
    assert_eq!(report.cutover.watermark_qpc_ns, None);
    let idle = get_idle_state(false);
    assert_eq!(idle.recording_mode, "inactive");
    assert!(idle.recording_duration_ns.is_none());
    assert!(idle.system_details.format.is_none());
}

#[test]
fn controlled_input_is_replayed_at_its_pace() {
    let pcm: Vec<f32> = (0..3_500).map(|i| i as f32).collect();
    let mut run = ReplayRun::new(pcm.clone());
    let mut got: Vec<f32> = Vec::new();
    let mut times = Vec::new();
    loop {
        match run.next(false) {
            ReplayAction::WaitUntil(ns) => times.push(ns),
            ReplayAction::Finish => break,
            _ => panic!("nothing else can come"),
        }
        match run.due(false) {
            ReplayAction::Send(chunk) => {
                assert_eq!(chunk.chunk_id as usize, times.len() - 1);
                assert_eq!(chunk.timestamp_ns, times[times.len() - 1]);
                got.extend(chunk.data);
            }
            _ => panic!("the frame is due"),
        }
        assert!(matches!(run.sent(Ok(())), ReplayAction::Continue));
    }
    assert_eq!(times, vec![0, 100_000_000, 200_000_000]);
    assert_eq!(got, pcm);
    assert!(run.is_complete(3_500));
    assert!(!run.is_complete(3_501));
}

#[test]
fn a_replay_can_be_called_off_or_fail() {
    let mut run = ReplayRun::new(vec![0u8; 10]);
    assert!(matches!(run.next(true), ReplayAction::Cancel));
    assert_eq!(run.phase, ReplayPhase::Abandoned);
    let mut run = ReplayRun::new(vec![0u8; 10]);
    run.next(false);
    assert!(matches!(run.due(true), ReplayAction::Cancel));
    let mut run = ReplayRun::new(vec![0u8; 10]);
    run.next(false);
    run.due(false);
    match run.sent(Err("closed".to_string())) {
        ReplayAction::Fail(message) => {
            assert_eq!(message, "controlled input send failed at frame 0: closed")
        }
        _ => panic!("a frame that is not sent ends the replay"),
    }
    assert!(!run.is_complete(10));
}

#[test]
fn events_of_a_replaced_endpoint_are_ignored() {
    let mut current = Some(recording());
    let stale = DeviceEvent::DeviceDisconnected {
        device_name: "Mic".to_string(),
        native_id: Some("m-0".to_string()),
        device_type: DeviceMonitorType::Microphone,
    };
    assert!(matches!(
        handle_device_event(&mut current, Platform::Windows, stale),
        EventAction::Ignore
    ));
    assert!(!current.as_ref().unwrap().is_reconnecting());
    let lost = DeviceEvent::DeviceDisconnected {
        device_name: "Mic".to_string(),
        native_id: Some("m-1".to_string()),
        device_type: DeviceMonitorType::Microphone,
    };
    match DeviceEventResponse::from_event(&lost) {
        DeviceEventResponse::DeviceDisconnected { device_type, native_id, .. } => {
            assert_eq!(device_type, "Microphone");
            assert_eq!(native_id.as_deref(), Some("m-1"));
        }
        _ => panic!("the response tells of the loss"),
    }
    assert!(matches!(
        handle_device_event(&mut current, Platform::Windows, lost),
        EventAction::Lost(None)
    ));
    let status = get_reconnection_status(&current);
    assert!(status.is_reconnecting);
    let info = status.disconnected_device.unwrap();
    assert_eq!((info.name.as_str(), info.device_type.as_str()), ("Mic", "Microphone"));
    let back = DeviceEvent::DeviceReconnected {
        device_name: "Mic".to_string(),
        native_id: None,
        device_type: DeviceMonitorType::Microphone,
    };
    assert!(matches!(
        handle_device_event(&mut current, Platform::Windows, back),
        EventAction::Reconnect { .. }
    ));
    let state = current.as_mut().unwrap();
    reconnect_ended(state, Ok(false));
    assert_eq!(state.get_last_error(), Some(AudioError::StreamFailed));
    reconnect_ended(state, Ok(true));
    assert!(!state.is_reconnecting());
}

#[test]
fn without_identifiers_names_count_off_windows() {
    let mut current = Some(recording());
    let lost = || DeviceEvent::DeviceDisconnected {
        device_name: "Mic".to_string(),
        native_id: None,
        device_type: DeviceMonitorType::Microphone,
    };
    assert!(matches!(
        handle_device_event(&mut current, Platform::Windows, lost()),
        EventAction::Ignore
    ));
    assert!(matches!(
        handle_device_event(&mut current, Platform::MacOs, lost()),
        EventAction::Lost(_)
    ));
}

#[test]
fn reconnecting_by_hand_needs_a_kind_and_a_recording() {
    assert_eq!(
        attempt_device_reconnect("SystemAudio".to_string(), true).unwrap(),
        DeviceMonitorType::SystemAudio
    );
    let error = attempt_device_reconnect("Camera".to_string(), true).unwrap_err();
    assert_eq!(error.message(), "Invalid device type: Camera");
    assert!(matches!(
        attempt_device_reconnect("Microphone".to_string(), false),
        Err(ReconnectRefusal::NotActive)
    ));
}

#[test]
fn pausing_needs_a_recording() {
    let mut none = None;
    let flags = RecordingFlags::new();
    assert_eq!(pause_recording(&flags, &mut none, 1), Err(CommandError::NotRecording));
    assert_eq!(pause_recording(&active(), &mut none, 1), Err(CommandError::NoManager));
    let mut current = Some(recording());
    assert_eq!(pause_recording(&active(), &mut current, 2_000), Ok(()));
    assert!(is_recording_paused(&current));
    let error = pause_recording(&active(), &mut current, 2_000).unwrap_err();
    assert_eq!(error.message(), "Recording is already paused");
    assert!(resume_failed(&mut current).is_none());
    assert_eq!(
        current.as_ref().unwrap().get_last_error(),
        Some(AudioError::StreamFailed)
    );
    assert!(!is_recording_paused(&none));
}

#[test]
fn the_transcription_says_how_far_it_is() {
    let queue: ChunkQueue<f32> = ChunkQueue::new();
    let activity =
        TranscriptionActivity { active: true, speech_detected: false, next_sequence: 0 };
    let status = get_transcription_status(&queue, &activity);
    assert_eq!(status.chunks_in_queue, 0);
    assert!(status.is_processing);
    assert_eq!(status.last_activity_ms, 0);
}
