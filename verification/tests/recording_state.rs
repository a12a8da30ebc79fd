use meetily_audio::devices::configuration::{AudioDevice, DeviceType as Direction};
use meetily_audio::recording_state::model::AUDIO_CALLBACK_DEADLINE_NS;
use meetily_audio::recording_state::state::SendDecision;
use meetily_audio::recording_state::{
    AudioError, DeviceType, RecordingState, SystemAudioFormat,
};

fn microphone(id: &str) -> AudioDevice {
    AudioDevice::with_native_id("Mic".to_string(), Direction::Input, id.to_string())
}

fn levels(samples: &[f32]) -> (u32, u32) {
    let sum: f32 = samples.iter().map(|s| s * s).sum();
    let peak = samples.iter().fold(0.0f32, |peak, s| peak.max(s.abs()));
    ((sum / samples.len() as f32).sqrt().to_bits(), peak.to_bits())
}

fn deliver(state: &mut RecordingState, device_type: DeviceType, samples: &[f32], channels: u16) {
    let (rms, peak) = levels(samples);
    state.record_route_callback(&device_type, samples.len(), channels, rms, peak);
}

#[test]
fn route_counters_are_independent_and_reset_on_start() {
    let mut state = RecordingState::new();
    deliver(&mut state, DeviceType::Microphone, &vec![0.5; 480], 1);
    deliver(&mut state, DeviceType::System, &vec![0.25; 960], 2);
    deliver(&mut state, DeviceType::System, &vec![0.25; 480], 2);
    assert_eq!(state.route_callback_counts(&DeviceType::Microphone), (1, 480));
    assert_eq!(state.microphone_frame_count(), 480);
    assert_eq!(state.route_callback_counts(&DeviceType::System), (2, 1440));
    assert_eq!(
        state.route_audio_levels(&DeviceType::Microphone),
        (0.5f32.to_bits(), 0.5f32.to_bits())
    );
    assert_eq!(
        state.route_audio_levels(&DeviceType::System),
        (0.25f32.to_bits(), 0.25f32.to_bits())
    );

    state.start_recording(1);
    assert_eq!(state.route_callback_counts(&DeviceType::Microphone), (0, 0));
    assert_eq!(state.microphone_frame_count(), 0);
    assert_eq!(state.route_callback_counts(&DeviceType::System), (0, 0));
}

#[test]
fn muted_driver_branches_remain_distinct() {
    let mut state = RecordingState::new();
    state.start_recording(0);

    state.record_system_callback_qpc(1, 10, 480, true, 480, true);
    assert_eq!(state.system_mute_state(), (true, false, Some("silent_frames")));
    state.record_system_callback_qpc(2, 2_000_000_010, 480, true, 480, true);
    assert_eq!(state.system_mute_state(), (true, true, Some("silent_frames")));
    assert!(!state.system_route_health().3);

    state.advance_device_epoch();
    state.record_system_callback_qpc(3, 3_000_000_000, 480, false, 0, true);
    state.record_system_callback_qpc(4, 5_500_000_000, 480, true, 480, true);
    assert_eq!(state.system_mute_state(), (true, false, Some("audible_frames")));

    state.advance_device_epoch();
    state.report_system_no_signal(2_000_000_000, true);
    assert_eq!(state.system_mute_state(), (true, false, Some("no_callback")));
    assert!(state.system_route_health().3);
}

#[test]
fn recoverable_system_silence_keeps_pipeline_input_open() {
    let mut state = RecordingState::new();
    state.start_recording(0);
    state.mark_routes_ready();
    state.set_audio_sender();
    state.record_system_callback_qpc(1, 10, 480, true, 480, true);
    state.record_system_callback_qpc(2, 2_000_000_010, 480, true, 480, true);
    assert!(state.system_mute_state().1);

    assert_eq!(state.send_audio_chunk(), SendDecision::Deliver);
    assert!(state.finish_audio_send(true, 5).is_ok());
    assert_eq!(state.get_stats().chunks_processed, 1);
}

#[test]
fn recoverable_system_no_callback_keeps_timeline_padding_open() {
    let mut state = RecordingState::new();
    state.start_recording(0);
    state.mark_routes_ready();
    state.report_system_no_signal(AUDIO_CALLBACK_DEADLINE_NS, true);

    assert!(state.begin_timeline_padding(0).is_some());
}

#[test]
fn endpoint_epoch_resets_system_route_health() {
    let mut state = RecordingState::new();
    assert_eq!(state.get_device_epoch(), 0);
    assert_eq!(state.advance_device_epoch(), 1);
    assert_eq!(state.get_device_epoch(), 1);

    state.mark_system_stream_started(123);
    state.mark_system_stream_started(456);
    assert_eq!(state.system_stream_started_qpc_ns(), Some(123));
    state.record_system_callback_qpc(125, 130, 480, true, 480, false);
    state.report_system_no_signal(2_000_000_000, false);
    assert_eq!(
        state.system_route_health(),
        (Some(125), Some(130), 2_000_000_000, true, 1)
    );

    assert_eq!(state.advance_device_epoch(), 2);
    assert_eq!(state.system_stream_started_qpc_ns(), None);
    assert_eq!(state.system_route_health(), (None, None, 0, false, 0));
    assert_eq!(state.system_native_frame_counts(), (0, 0, 0));
}

#[test]
fn cutover_accepts_old_frames_through_watermark_and_drops_later_frames() {
    let mut state = RecordingState::new();
    state.start_recording(0);
    assert_eq!(state.begin_device_cutover(1_000), 2_000_001_000);
    let guard = state.begin_audio_callback(0, Some(1_000), 480);
    assert!(guard.is_some());
    assert_eq!(state.callback_drain_state().0, 1);
    state.end_audio_callback(guard.unwrap());
    assert_eq!(state.callback_drain_state().0, 0);
    assert!(state.begin_audio_callback(0, Some(1_001), 240).is_none());
    assert_eq!(state.cutover_state(), (Some(1_000), Some(1_000), None, 240, 0));

    let epoch = state.advance_device_epoch();
    state.finish_device_cutover(epoch);
    let guard = state.begin_audio_callback(epoch, Some(1_100), 480);
    assert!(guard.is_some());
    state.end_audio_callback(guard.unwrap());
    assert_eq!(
        state.cutover_state(),
        (Some(1_000), Some(1_000), Some(1_100), 240, 0)
    );

    let evidence = state.audio_route_evidence_snapshot();
    assert_eq!(evidence.epochs.len(), 2);
    assert_eq!(evidence.cutovers.len(), 1);
    assert_eq!(evidence.cutovers[0].terminal_result, "rebound");
    assert_eq!(evidence.cutovers[0].old_device_epoch, 0);
    assert_eq!(evidence.cutovers[0].new_device_epoch, Some(1));
    assert_eq!(evidence.cutovers[0].late_callback_dropped_frames, 240);
    assert_eq!(evidence.cutovers[0].new_epoch_first_capture_qpc_ns, Some(1_100));
}

#[test]
fn route_evidence_preserves_completed_epoch_and_no_signal_interval() {
    let mut state = RecordingState::new();
    state.start_recording(0);
    state.mark_microphone_stream_started(100);
    state.record_microphone_callback_qpc(Some(110), 120);
    deliver(&mut state, DeviceType::Microphone, &[0.25; 480], 1);
    state.report_microphone_no_signal(2_000_000_000);
    state.record_microphone_callback_qpc(Some(130), 2_000_000_130);
    assert_eq!(state.advance_device_epoch(), 1);

    let evidence = state.audio_route_evidence_snapshot();
    assert_eq!(evidence.schema_version, 1);
    assert_eq!(evidence.current_device_epoch, 1);
    assert_eq!(evidence.epochs.len(), 2);
    assert_eq!(evidence.epochs[0].device_epoch, 0);
    assert_eq!(evidence.epochs[0].microphone_callback_count, 1);
    assert_eq!(evidence.epochs[0].microphone_frame_count, 480);
    assert_eq!(evidence.epochs[0].microphone_no_signal_count, 1);
    assert_eq!(evidence.incidents.len(), 1);
    assert_eq!(evidence.incidents[0].route, "microphone");
    assert_eq!(evidence.incidents[0].code, "no_signal");
    assert_eq!(evidence.incidents[0].started_qpc_ns, Some(120));
    assert_eq!(evidence.incidents[0].recovered_qpc_ns, Some(2_000_000_130));
}

#[test]
fn preferred_device_fallback_is_recorded_once_per_route() {
    let mut state = RecordingState::new();
    state.start_recording(0);
    state.record_device_fallback("microphone");
    state.record_device_fallback("system");
    state.record_device_fallback("microphone");

    let evidence = state.audio_route_evidence_snapshot();
    assert_eq!(evidence.incidents.len(), 2);
    assert_eq!(evidence.incidents[0].route, "microphone");
    assert_eq!(evidence.incidents[0].code, "preferred_device_fallback");
    assert_eq!(evidence.incidents[1].route, "system");
    assert_eq!(evidence.incidents[1].code, "preferred_device_fallback");
    assert!(evidence
        .incidents
        .iter()
        .all(|incident| incident.started_qpc_ns.is_none()));
}

#[test]
fn failed_cutover_has_one_explicit_terminal_result() {
    let mut state = RecordingState::new();
    state.start_recording(0);
    state.begin_device_cutover(10_000);
    assert_eq!(state.abort_device_cutover("callback_drain_timeout"), 1);

    let evidence = state.audio_route_evidence_snapshot();
    assert_eq!(evidence.cutovers.len(), 1);
    assert_eq!(evidence.cutovers[0].terminal_result, "failed");
    assert_eq!(
        evidence.cutovers[0].error.as_deref(),
        Some("callback_drain_timeout")
    );
}

#[test]
fn pauses_do_not_count_as_recorded_time() {
    let mut state = RecordingState::new();
    assert!(state.pause_recording(0).is_err());
    state.start_recording(1_000);
    state.pause_recording(4_000).unwrap();
    assert!(state.pause_recording(4_500).is_err());
    assert_eq!(state.get_current_pause_duration(6_000), Some(2_000));
    state.resume_recording(7_000).unwrap();
    assert!(state.resume_recording(7_000).is_err());
    assert_eq!(state.get_total_pause_duration(), 3_000);
    assert_eq!(state.get_recording_duration(11_000), Some(10_000));
    assert_eq!(state.get_active_recording_duration(11_000), Some(7_000));
}

#[test]
fn ten_recoverable_errors_end_a_recording() {
    let mut state = RecordingState::new();
    state.start_recording(0);
    for _ in 0..9 {
        state.report_error(AudioError::StreamFailed);
    }
    assert!(state.is_recording());
    state.report_error(AudioError::StreamFailed);
    assert!(!state.is_recording());
}

#[test]
fn an_error_that_cannot_be_recovered_is_fatal() {
    let mut state = RecordingState::new();
    state.start_recording(0);
    assert!(!state.has_fatal_error());
    state.report_error(AudioError::PermissionDenied);
    assert!(state.has_fatal_error());
    assert!(!state.is_recording());
    assert_eq!(state.get_last_error(), Some(AudioError::PermissionDenied));
    assert_eq!(AudioError::PermissionDenied.user_message(), "Microphone permission denied");
    assert_eq!(AudioError::PermissionDenied.code(), "PermissionDenied");
}

#[test]
fn a_device_that_is_waited_for_closes_the_timeline() {
    let mut state = RecordingState::new();
    state.start_recording(0);
    state.mark_routes_ready();
    state.set_microphone_device(microphone("m-1"));
    state.set_audio_sender();
    assert!(state.accepts_audio_timeline());
    state.start_reconnecting(microphone("m-1"), DeviceType::Microphone);
    assert!(!state.accepts_audio_timeline());
    assert_eq!(state.send_audio_chunk(), SendDecision::Ignore);
    assert_eq!(
        state.get_disconnected_device().unwrap().0.native_id.as_deref(),
        Some("m-1")
    );
    state.stop_reconnecting();
    assert!(state.accepts_audio_timeline());
    state.stop_recording();
    assert!(state.get_microphone_device().is_none());
}

#[test]
fn audio_of_a_past_epoch_is_refused() {
    let mut state = RecordingState::new();
    state.start_recording(0);
    state.mark_routes_ready();
    state.advance_device_epoch();
    assert!(state.begin_audio_callback(0, Some(5), 10).is_none());
    assert!(state.begin_audio_callback(1, Some(5), 10).is_some());
}

#[test]
fn a_recording_without_a_pipeline_is_not_ready() {
    let mut state = RecordingState::new();
    assert_eq!(state.send_audio_chunk(), SendDecision::Ignore);
    state.start_recording(0);
    state.mark_routes_ready();
    assert_eq!(state.send_audio_chunk(), SendDecision::PipelineNotReady);
}

#[test]
fn errors_are_counted_by_kind() {
    let mut state = RecordingState::new();
    state.start_recording(0);
    state.report_error(AudioError::StreamFailed);
    state.report_error(AudioError::BufferOverflow);
    assert_eq!(state.get_error_count(), 2);
    assert_eq!(state.get_recoverable_error_count(), 2);
}

#[test]
fn the_format_of_the_system_route_belongs_to_its_epoch() {
    let mut state = RecordingState::new();
    state.set_system_audio_format(SystemAudioFormat {
        sample_rate: 48_000,
        channels: 2,
        bits_per_sample: 32,
        block_align: 8,
        sample_format: "f32".to_string(),
    });
    assert_eq!(state.system_audio_format().unwrap().channels, 2);
    state.advance_device_epoch();
    assert!(state.system_audio_format().is_none());
}
