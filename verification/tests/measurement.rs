use meetily_audio::measurement::input::{
    admit_realtime_audio_input, check_isolation_marker, deterministic_input_id, ensure_not_formal_app_data, pcm_f32le_bytes,
    prepare_realtime_audio_input, sha256_bytes, validate_expected_digest, validate_identifier,
    validate_paths, validate_request, verify_input_bytes, InputError, IsolationMarker,
    MarkerReading, PathReadings, RealtimeAudioInputAccepted, RealtimeAudioInputContract, RealtimeAudioInputRequest,
    RealtimeMeasurementReference, ResolvedPaths, CAPTURE_PCM_FILE,
};
use meetily_audio::measurement::recorder::{
    file_record, jsonl_bytes, D11MeasurementRecorder, FinalizeError, LoadReading,
};

fn request() -> RealtimeAudioInputRequest {
    RealtimeAudioInputRequest {
        input_path: "/in/controlled.wav".to_owned(),
        controlled_input_root: "/in".to_owned(),
        isolated_output_root: "/out".to_owned(),
        isolated_data_identity: "d11-test".to_owned(),
        baseline_snapshot_id: "baseline-test".to_owned(),
        expected_input_file_sha256: "0".repeat(64),
        meeting_name: None,
    }
}

fn paths() -> ResolvedPaths {
    ResolvedPaths {
        input_path: "/in/controlled.wav".to_owned(),
        controlled_input_root: "/in".to_owned(),
        isolated_output_root: "/out".to_owned(),
        input_is_inside_root: true,
    }
}

fn readings() -> PathReadings {
    PathReadings {
        input_path: Ok("/in/controlled.wav".to_owned()),
        controlled_input_root: Ok("/in".to_owned()),
        isolated_output_root: Ok("/out".to_owned()),
        input_is_inside_root: true,
    }
}

fn marker() -> MarkerReading {
    MarkerReading::Found(IsolationMarker {
        schema_version: 1,
        purpose: "D11_REALTIME_BASELINE".to_owned(),
        isolated_data_identity: "d11-test".to_owned(),
    })
}

fn missing_marker() -> MarkerReading {
    MarkerReading::Missing {
        path: "/out/.meetily-d11-isolated.json".to_owned(),
        error: "No such file or directory".to_owned(),
    }
}

fn request_for(bytes: &[u8]) -> RealtimeAudioInputRequest {
    let mut request = request();
    request.expected_input_file_sha256 = sha256_bytes(bytes);
    request
}

fn contract() -> RealtimeAudioInputContract {
    RealtimeAudioInputContract {
        schema_version: 1,
        audio_input_path_id: "audio_input_v1_test".to_owned(),
        input_path: "controlled.wav".to_owned(),
        controlled_input_root: "/in".to_owned(),
        isolated_output_root: "/out".to_owned(),
        isolated_data_identity: "d11-test".to_owned(),
        baseline_snapshot_id: "baseline-test".to_owned(),
        input_file_sha256: "A".repeat(64),
        canonical_pcm_sha256: "B".repeat(64),
        canonical_sample_rate_hz: 16_000,
        canonical_channels: 1,
        canonical_sample_format: "f32le".to_owned(),
        canonical_sample_count: 4,
        duration_ns: 250_000,
        frame_samples: 1_600,
        pacing: "monotonic_realtime".to_owned(),
        injection_point: "post_capture_post_mix_pre_vad".to_owned(),
    }
}

#[test]
fn deterministic_audio_input_path_id_depends_on_bytes_and_format() {
    let first = deterministic_input_id(&"A".repeat(64), &"B".repeat(64), 16_000);
    let second = deterministic_input_id(&"A".repeat(64), &"B".repeat(64), 16_000);
    let changed = deterministic_input_id(&"A".repeat(64), &"B".repeat(64), 16_001);
    assert_eq!(first, second);
    assert_ne!(first, changed);
    assert!(first.starts_with("audio_input_v1_"));
    assert_eq!(first.len(), "audio_input_v1_".len() + 64);
    assert!(first["audio_input_v1_".len()..]
        .chars()
        .all(|c| c.is_ascii_digit() || ('a'..='f').contains(&c)));
}

#[test]
fn controlled_input_fails_closed_without_both_isolation_markers() {
    let bytes = b"not decoded because output marker is absent".to_vec();
    let error = prepare_realtime_audio_input(
        request_for(&bytes),
        readings(),
        marker(),
        missing_marker(),
        Ok(bytes.clone()),
        Ok(vec![1]),
    )
    .unwrap_err();
    assert!(error.message().contains("missing isolation marker"));
    let error = prepare_realtime_audio_input(
        request_for(&bytes),
        readings(),
        missing_marker(),
        marker(),
        Ok(bytes),
        Ok(vec![1]),
    )
    .unwrap_err();
    assert!(error.message().contains("missing isolation marker"));
}

#[test]
fn controlled_input_rejects_formal_application_data_paths_before_decode() {
    let mut formal = readings();
    formal.controlled_input_root = Ok("/tmp/com.meetily.ai/input".to_owned());
    formal.input_path = Ok("/tmp/com.meetily.ai/input/controlled.wav".to_owned());
    let bytes = b"not decoded because this root is forbidden".to_vec();
    let error = prepare_realtime_audio_input(
        request_for(&bytes),
        formal,
        missing_marker(),
        missing_marker(),
        Ok(bytes),
        Err("not decoded".to_owned()),
    )
    .unwrap_err();
    assert!(error.message().contains("refusing formal application data root"));
    assert!(ensure_not_formal_app_data("/tmp/other").is_ok());
}

#[test]
fn every_check_of_controlled_input_is_made() {
    let bytes = b"abc".to_vec();
    let prepare = |request: RealtimeAudioInputRequest, paths: PathReadings, decoded| {
        prepare_realtime_audio_input(
            request,
            paths,
            marker(),
            marker(),
            Ok(b"abc".to_vec()),
            decoded,
        )
    };
    let mut unnamed = request_for(&bytes);
    unnamed.isolated_data_identity = "a/b".to_owned();
    assert!(matches!(
        prepare(unnamed, readings(), Ok(vec![1])),
        Err(InputError::InvalidIdentifier("isolated_data_identity"))
    ));
    let mut lost = readings();
    lost.isolated_output_root = Err("no such directory".to_owned());
    assert_eq!(
        prepare(request_for(&bytes), lost, Ok(vec![1])).unwrap_err().message(),
        "isolated output root is unavailable: no such directory"
    );
    let mut outside = readings();
    outside.input_is_inside_root = false;
    assert!(matches!(
        prepare(request_for(&bytes), outside, Ok(vec![1])),
        Err(InputError::OutsideControlledRoot)
    ));
    assert!(matches!(
        prepare(request_for(b"other"), readings(), Ok(vec![1])),
        Err(InputError::DigestMismatch { .. })
    ));
    assert_eq!(
        prepare(request_for(&bytes), readings(), Err("bad header".to_owned()))
            .unwrap_err()
            .message(),
        "failed to decode controlled input: bad header"
    );
    assert!(matches!(
        prepare(request_for(&bytes), readings(), Ok(vec![])),
        Err(InputError::EmptyPcm)
    ));
    let invalid = MarkerReading::Invalid("expected value".to_owned());
    assert_eq!(
        admit_realtime_audio_input(
            &request_for(&bytes),
            readings(),
            &invalid,
            &marker(),
            &Ok(bytes.clone())
        )
        .unwrap_err()
        .message(),
        "invalid D-11 isolation marker JSON: expected value"
    );
    assert_eq!(
        admit_realtime_audio_input(
            &request_for(&bytes),
            readings(),
            &marker(),
            &marker(),
            &Err("denied".to_owned())
        )
        .unwrap_err()
        .message(),
        "failed to read controlled input /in/controlled.wav: denied"
    );
}

#[test]
fn known_digests_are_computed() {
    assert_eq!(
        sha256_bytes(b"abc"),
        "ba7816bf8f01cfea414140de5dae2223b00361a396177a9cb410ff61f20015ad".to_uppercase()
    );
    assert_eq!(
        sha256_bytes(b""),
        "e3b0c44298fc1c149afbf4c8996fb92427ae41e4649b934ca495991b7852b855".to_uppercase()
    );
}

#[test]
fn samples_are_written_with_their_least_significant_byte_first() {
    let samples = [0.25f32.to_bits(), (-0.5f32).to_bits()];
    let mut expected = 0.25f32.to_le_bytes().to_vec();
    expected.extend_from_slice(&(-0.5f32).to_le_bytes());
    assert_eq!(pcm_f32le_bytes(&samples), expected);
}

#[test]
fn identifiers_have_plain_characters() {
    assert!(validate_identifier("d11-test_1.a", "identity").is_ok());
    let error = validate_identifier("a b", "identity").unwrap_err();
    assert_eq!(
        error.message(),
        "identity must contain only ASCII letters, digits, dash, underscore, or dot"
    );
    assert!(validate_identifier("", "identity").is_err());
    assert!(validate_identifier(&"a".repeat(129), "identity").is_err());
    assert!(validate_identifier(&"a".repeat(128), "identity").is_ok());
}

#[test]
fn requests_need_identifiers() {
    assert!(validate_request(&request()).is_ok());
    let mut bad = request();
    bad.baseline_snapshot_id = "a/b".to_owned();
    assert!(matches!(validate_request(&bad), Err(InputError::InvalidIdentifier(_))));
}

#[test]
fn markers_have_to_match() {
    let mut marker = IsolationMarker {
        schema_version: 1,
        purpose: "D11_REALTIME_BASELINE".to_owned(),
        isolated_data_identity: "d11-test".to_owned(),
    };
    assert!(check_isolation_marker(&marker, "d11-test").is_ok());
    marker.isolated_data_identity = "other".to_owned();
    let refused = check_isolation_marker(&marker, "d11-test");
    assert!(matches!(refused, Err(InputError::MarkerMismatch)));
}

#[test]
fn input_outside_its_root_is_refused() {
    let mut outside = paths();
    outside.input_is_inside_root = false;
    let refused = validate_paths(&outside).unwrap_err();
    assert!(matches!(refused, InputError::OutsideControlledRoot));
    assert_eq!(
        refused.message(),
        "controlled input must be inside controlled_input_root: prefix not found"
    );
    assert!(validate_paths(&paths()).is_ok());
}

#[test]
fn input_has_the_expected_digest() {
    let mut short = request();
    short.expected_input_file_sha256 = "0".repeat(63);
    assert!(matches!(validate_expected_digest(&short), Err(InputError::MalformedDigest)));
    let expected = validate_expected_digest(&request()).unwrap();
    assert!(matches!(
        verify_input_bytes(expected, b"abc"),
        Err(InputError::DigestMismatch { .. })
    ));
    let mut good = request();
    good.expected_input_file_sha256 =
        "ba7816bf8f01cfea414140de5dae2223b00361a396177a9cb410ff61f20015ad".to_owned();
    let expected = validate_expected_digest(&good).unwrap();
    assert!(verify_input_bytes(expected, b"abc").is_ok());
}

#[test]
fn prepared_input_is_described_by_its_contract() {
    let pcm = [0.25f32.to_bits(), 0.5f32.to_bits()];
    let bytes = b"abc".to_vec();
    let (prepared, samples) = prepare_realtime_audio_input(
        request_for(&bytes),
        readings(),
        marker(),
        marker(),
        Ok(bytes.clone()),
        Ok(pcm.to_vec()),
    )
    .unwrap();
    assert_eq!(samples, pcm.to_vec());
    assert_eq!(prepared.input_file_sha256, sha256_bytes(&bytes));
    assert_eq!(prepared.canonical_sample_count, 2);
    assert_eq!(prepared.canonical_sample_rate_hz, 16_000);
    assert_eq!(prepared.duration_ns, 125_000);
    assert_eq!(prepared.canonical_pcm_sha256, sha256_bytes(&pcm_f32le_bytes(&pcm)));
    assert_eq!(
        prepared.audio_input_path_id,
        deterministic_input_id(&prepared.input_file_sha256, &prepared.canonical_pcm_sha256, 2)
    );
    let accepted = RealtimeAudioInputAccepted::from_contract(&prepared);
    assert_eq!(accepted.audio_input_path_id, prepared.audio_input_path_id);
    let reference = RealtimeMeasurementReference::from_contract(&prepared);
    assert_eq!(reference.capture_pcm_file, CAPTURE_PCM_FILE);
}

#[test]
fn recorder_persists_hashes_chunk_trace_load_and_stop_timeline() {
    let mut recorder = D11MeasurementRecorder::new("recording-test".to_owned(), contract());
    recorder.record_load_sample(
        LoadReading {
            system_cpu_percent_bits: Some(1.5f32.to_bits()),
            system_memory_used_bytes: 1,
            system_memory_total_bytes: 2,
            process: None,
        },
        1,
    );
    recorder.record_engine_identity("whisper", "test-model");
    recorder.record_vad_chunk(7, 10, 14, 16_000, "speech_emitted", None);
    recorder.record_enqueued(7, 2);
    recorder.record_dequeued(7, 3);
    let samples: Vec<u32> = [0.25f32, -0.25, 0.5, -0.5].iter().map(|s| s.to_bits()).collect();
    recorder.record_inference_started(
        &[7],
        &samples,
        16_000,
        Some("zh"),
        true,
        Some("ctx-v1"),
        Some(&"C".repeat(64)),
        "whisper",
        "test-model",
        4,
    );
    recorder.record_text(&[7], "before", "after", "after-context", "captured_whisper_engine");
    recorder.record_inference_finished(&[7], None, 5);
    recorder.record_final_writeback(&[7], Ok(()), 6);
    recorder.record_stop_stage("stop_requested", "started", None, 7);
    recorder.close_timeline(8).unwrap();

    let chunk = recorder.chunks().get(&7).unwrap();
    assert_eq!(chunk.text_after_dedup.as_deref(), Some("after"));
    assert_eq!(chunk.inference_started_at_monotonic_ns, Some(4));
    assert_eq!(recorder.stop_save_timeline().len(), 2);
    assert_eq!(recorder.stop_save_timeline()[1].stage, "measurement_finalized");

    let summary = recorder.finalize(b"trace", b"load", b"stop", Ok(()), 9).unwrap();
    assert!(matches!(
        recorder.finalize(b"trace", b"load", b"stop", Ok(()), 10),
        Err(FinalizeError::AlreadyFinalized)
    ));
    assert!(matches!(recorder.close_timeline(11), Err(FinalizeError::AlreadyFinalized)));
    assert_eq!(summary.chunk_count, 1);
    assert!(summary.load_sample_count >= 1);
    assert_eq!(summary.capture_pcm_sample_count, 4);
    assert_eq!(summary.capture_pcm_sha256.len(), 64);
    assert_eq!(summary.capture_pcm.bytes, 16);
    assert_eq!(summary.capture_pcm.sha256, summary.capture_pcm_sha256);
    assert_eq!(summary.capture_pcm_sha256, sha256_bytes(&pcm_f32le_bytes(&samples)));
    assert_eq!(summary.load_timeline_sha256.len(), 64);
    assert_eq!(summary.load_timeline_sha256, sha256_bytes(b"load"));
    let engine = summary.transcription_engine.unwrap();
    assert_eq!(engine.provider, "whisper");
    assert_eq!(engine.model, "test-model");
}

#[test]
fn a_summary_counts_every_sample_and_each_chunk_once() {
    let mut recorder = D11MeasurementRecorder::new("r".to_owned(), contract());
    recorder.record_vad_window(0, 4, "speech", None, vec![90, 91], 1);
    recorder.record_enqueued(1, 2);
    recorder.record_enqueued(2, 3);
    recorder.record_overlap(1, 2, 2);
    for ids in [&[1, 2][..], &[3][..], &[1][..]] {
        recorder.record_inference_started(
            ids, &[1, 2, 3], 16_000, None, false, None, None, "p", "m", 4,
        );
    }
    recorder.record_final_writeback(&[4], Err("full".to_owned()), 5);
    let summary = recorder.finalize(b"", b"", b"", Ok(()), 6).unwrap();
    assert_eq!(summary.capture_pcm_sample_count, 9);
    assert_eq!(summary.capture_pcm.bytes, 36);
    assert_eq!(summary.chunk_count, 4);
}

#[test]
fn joined_chunks_are_traced_on_both_sides() {
    let mut recorder = D11MeasurementRecorder::new("r".to_owned(), contract());
    recorder.record_vad_chunk(1, 0, 4, 16_000, "speech_emitted", None);
    recorder.record_vad_chunk(2, 2, 6, 16_000, "speech_emitted", None);
    recorder.record_overlap(1, 2, 2);
    assert_eq!(recorder.chunks().get(&2).unwrap().coalesced_into_chunk_id, Some(1));
    assert!(recorder.chunks().get(&1).unwrap().source_chunk_ids.contains(&2));
}

#[test]
fn rows_are_written_one_to_a_line() {
    let bytes = jsonl_bytes(&vec![b"{}".to_vec(), b"[]".to_vec()]);
    assert_eq!(bytes, b"{}\n[]\n".to_vec());
    let record = file_record("a.jsonl", &bytes);
    assert_eq!(record.path, "a.jsonl");
    assert_eq!(record.bytes, 6);
    assert_eq!(record.sha256, sha256_bytes(b"{}\n[]\n"));
}

#[test]
fn windows_of_speech_detection_are_kept_in_order() {
    let mut recorder = D11MeasurementRecorder::new("r".to_owned(), contract());
    recorder.record_vad_window(0, 480, "silence", Some("below_threshold"), vec![], 5);
    recorder.record_vad_window(480, 960, "speech", None, vec![1], 6);
    let windows = recorder.vad_windows();
    assert_eq!(windows.len(), 2);
    assert_eq!(windows[0].vad_exclusion_reason.as_deref(), Some("below_threshold"));
    assert_eq!(windows[1].emitted_chunk_ids, vec![1]);
    assert!(windows[0].sequence < windows[1].sequence);
}

#[test]
fn a_measurement_that_cannot_be_written_is_finalized_all_the_same() {
    let mut recorder = D11MeasurementRecorder::new("r".to_owned(), contract());
    let error = recorder.finalize(b"", b"", b"", Err("disk full".to_owned()), 1).unwrap_err();
    assert_eq!(error.message(), "disk full");
    let again = recorder.finalize(b"", b"", b"", Ok(()), 2).unwrap_err();
    assert_eq!(again.message(), "D-11 measurement was already finalized");
}
