use meetily_audio::audio_chunk::AudioChunk;
use meetily_audio::gap_audio::GapAudio;
use meetily_audio::incremental_saver::{
    checkpoint_file_name, cleanup_checkpoints, concat_list, has_audio_checkpoints,
    audio_file_path, merge_checkpoints, plan_recovery, recover_audio_from_checkpoints,
    AudioWriter, FinalizeError, IncrementalAudioSaver, MergeEnd, MergeOutcome, RecoveryPlan,
};
use meetily_audio::recording_state::DeviceType;
use meetily_audio::segmentation::{
    find_sustained_silence, split_segment_at_silence, SILENCE_RMS_THRESHOLD_BITS,
};

const TEST_RATE: usize = 16_000;

fn rms_bits(samples: &[f32]) -> u32 {
    let sum: f32 = samples.iter().map(|s| s * s).sum();
    (sum / samples.len() as f32).sqrt().to_bits()
}

#[test]
fn sustained_silence_prefers_a_real_pause_over_a_dip_inside_a_word() {
    let mut samples = vec![0.2f32; TEST_RATE * 30];
    for sample in &mut samples[5 * TEST_RATE..5 * TEST_RATE + TEST_RATE / 10] {
        *sample = 0.001;
    }
    for sample in &mut samples[10 * TEST_RATE..10 * TEST_RATE + TEST_RATE * 4 / 10] {
        *sample = 0.001;
    }

    let measure = |start: usize| rms_bits(&samples[start..start + TEST_RATE / 10]);
    let found = find_sustained_silence(
        samples.len(),
        &measure,
        4 * TEST_RATE,
        12 * TEST_RATE,
        TEST_RATE / 10,
        0.02f32.to_bits(),
        TEST_RATE / 100,
    )
    .expect("a real pause must qualify");

    let expected = 10 * TEST_RATE + TEST_RATE / 10;
    assert!(
        found.0.abs_diff(expected) < TEST_RATE / 2,
        "split landed at sample {} (expected around {})",
        found.0,
        expected
    );
}

#[test]
fn a_lone_dip_does_not_qualify_as_a_pause() {
    let mut samples = vec![0.2f32; TEST_RATE * 10];
    for sample in &mut samples[5 * TEST_RATE..5 * TEST_RATE + TEST_RATE / 10] {
        *sample = 0.001;
    }
    let measure = |start: usize| rms_bits(&samples[start..start + TEST_RATE / 10]);
    assert!(find_sustained_silence(
        samples.len(),
        &measure,
        TEST_RATE,
        6 * TEST_RATE,
        TEST_RATE / 10,
        0.02f32.to_bits(),
        TEST_RATE / 100,
    )
    .is_none());
}

#[test]
fn threshold_bits_are_those_of_two_hundredths() {
    assert_eq!(SILENCE_RMS_THRESHOLD_BITS, 0.02f32.to_bits());
}

#[test]
fn parts_of_a_long_segment_rejoin_to_it() {
    let mut samples: Vec<f32> = (0..TEST_RATE * 60).map(|i| 0.2 + (i % 7) as f32 * 0.01).collect();
    for sample in &mut samples[24 * TEST_RATE..24 * TEST_RATE + TEST_RATE / 2] {
        *sample = 0.0001;
    }
    let measure = |start: usize| rms_bits(&samples[start..start + 1_600]);
    let parts = split_segment_at_silence(&samples, &measure, 25 * TEST_RATE, 0);
    assert!(parts.len() >= 3);
    assert_eq!(parts[0].start, 0);
    assert_eq!(parts[parts.len() - 1].end, samples.len());
    let first_cut = parts[0].end;
    assert!((24 * TEST_RATE..25 * TEST_RATE).contains(&first_cut));
    for part in &parts {
        assert!(part.end - part.start <= 25 * TEST_RATE + 8 * TEST_RATE + TEST_RATE);
    }
    let times: Vec<(u64, u64)> = parts
        .iter()
        .map(|part| part.times_ns(7_000_000_000, 67_000_000_000, samples.len()))
        .collect();
    assert_eq!(times[0].0, 7_000_000_000);
    assert_eq!(times[0].1, 7_000_000_000 + first_cut as u64 * 62_500);
    assert_eq!(times[times.len() - 1].1, 67_000_000_000);
    for pair in times.windows(2) {
        assert_eq!(pair[0].1, pair[1].0);
    }
}

#[test]
fn a_short_segment_is_one_part() {
    let samples = vec![0.5f32; 3_200];
    let measure = |start: usize| rms_bits(&samples[start..start + 1_600]);
    let parts = split_segment_at_silence(&samples, &measure, 400_000, 12_800);
    assert_eq!(parts.len(), 1);
    assert_eq!(parts[0].samples, samples);
    assert_eq!((parts[0].start, parts[0].end), (0, 3_200));
    assert_eq!(parts[0].times_ns(5, 11, 3_200), (5, 11));
}

#[test]
fn uses_exact_gap_samples_once_and_preserves_end_position() {
    let mut history = GapAudio::new(32, 3);
    let pcm: Vec<_> = (0..20).map(|x| x as f32).collect();
    history.append(0, &pcm);
    let mut first = pcm[2..6].to_vec();
    assert_eq!(history.prepend_gap(2, &mut first), 2);
    let mut second = pcm[8..12].to_vec();
    assert_eq!(history.prepend_gap(8, &mut second), 6);
    assert_eq!(second, pcm[6..12]);
    let mut third = pcm[12..16].to_vec();
    assert_eq!(history.prepend_gap(12, &mut third), 12);
    assert_eq!(third, pcm[12..16]);
}

#[test]
fn missing_old_audio_and_long_gaps_never_create_silence() {
    let mut history = GapAudio::new(8, 3);
    history.append(0, &[1.0; 20]);
    assert_eq!(history.samples.len(), 8);
    history.prepend_gap(3, &mut vec![2.0; 3]);
    let mut next = vec![3.0; 2];
    assert_eq!(history.prepend_gap(8, &mut next), 8);
    assert_eq!(next, vec![3.0; 2]);
    assert_eq!(history.prepend_gap(15, &mut next), 15);
}

#[test]
fn discontinuous_input_resets_context() {
    let mut history = GapAudio::new(32, 3);
    history.append(0, &[1.0; 10]);
    history.prepend_gap(2, &mut vec![1.0; 3]);
    history.append(100, &[2.0; 10]);
    let mut next = vec![2.0; 3];
    assert_eq!(history.prepend_gap(102, &mut next), 102);
    assert_eq!(next.len(), 3);
}

fn half_second(id: u64, sample: f32) -> AudioChunk<u32> {
    AudioChunk {
        data: vec![sample.to_bits(); 24_000],
        sample_rate: 48_000,
        timestamp_ns: id * 500_000_000,
        chunk_id: id,
        device_type: DeviceType::Microphone,
        device_epoch: 0,
        capture_qpc_ns: None,
    }
}

#[test]
fn test_checkpoint_creation() {
    let mut saver = IncrementalAudioSaver::new(48_000);
    let mut saved = Vec::new();
    for i in 0..120 {
        if saver.add_chunk(half_second(i, 0.5)) {
            let checkpoint = saver.save_checkpoint().unwrap();
            assert_eq!(checkpoint.pcm.len(), 30 * 48_000 * 4);
            saved.push(checkpoint.file_name);
            saver.checkpoint_saved(true);
        }
    }
    assert_eq!(saver.checkpoint_count, 2);
    assert_eq!(saver.get_checkpoint_count(), 2);
    assert_eq!(saved, vec!["audio_chunk_000.mp4", "audio_chunk_001.mp4"]);
    assert_eq!(saver.files_to_merge(Ok(())).unwrap(), saved);
    assert_eq!(saver.finalize("/m", '/', Ok(()), MergeEnd::Merged).unwrap(), "/m/audio.mp4");
    assert_eq!(saver.checkpoint_count, 2);

    let status = recover_audio_from_checkpoints(2, "/m", '/', MergeOutcome::Merged);
    assert_eq!(status.status, "success");
    assert_eq!(status.chunk_count, 2);
    assert_eq!(status.estimated_duration_seconds, 60);
    assert_eq!(status.audio_file_path.as_deref(), Some("/m/audio.mp4"));
}

#[test]
fn test_empty_recording() {
    let mut saver = IncrementalAudioSaver::new(48_000);
    assert!(saver.save_checkpoint().is_none());
    let result = saver.finalize("/m", '/', Ok(()), MergeEnd::Merged);
    assert!(result.is_err());
    assert!(result.unwrap_err().message().contains("No audio checkpoints"));
}

#[test]
fn checkpoint_bytes_are_those_of_the_samples() {
    let mut saver = IncrementalAudioSaver::new(48_000);
    let mut chunk = half_second(0, 0.25);
    chunk.data = vec![0.25f32.to_bits(), (-0.5f32).to_bits()];
    saver.add_chunk(chunk);
    let pcm = saver.save_checkpoint().unwrap().pcm;
    let mut expected = 0.25f32.to_ne_bytes().to_vec();
    expected.extend_from_slice(&(-0.5f32).to_ne_bytes());
    assert_eq!(pcm, expected);
}

#[test]
fn a_checkpoint_that_was_not_encoded_is_kept_for_the_next_attempt() {
    let mut saver = IncrementalAudioSaver::new(48_000);
    saver.add_chunk(half_second(0, 0.5));
    saver.checkpoint_saved(false);
    assert_eq!(saver.checkpoint_count, 0);
    assert_eq!(saver.buffer.len(), 24_000);
}

#[test]
fn legacy_aac_checkpoints_remain_recoverable() {
    let names = vec![
        "audio_chunk_001.mp4".to_string(),
        "notes.txt".to_string(),
        "audio_chunk_000.mp4".to_string(),
    ];
    match plan_recovery(Some(names)) {
        RecoveryPlan::Merge { files, chunk_count } => {
            assert_eq!(files, vec!["audio_chunk_000.mp4", "audio_chunk_001.mp4"]);
            assert_eq!(chunk_count, 2);
        }
        RecoveryPlan::Nothing(status) => panic!("nothing to recover: {:?}", status),
    }
}

#[test]
fn failed_recovery_preserves_checkpoint_bytes() {
    let status = recover_audio_from_checkpoints(
        1,
        "/m",
        '/',
        MergeOutcome::Failed("invalid data".to_string()),
    );
    assert_eq!(status.status, "failed");
    assert!(status.audio_file_path.is_none());
}

#[test]
fn cleanup_refuses_unverified_checkpoint_deletion() {
    assert!(cleanup_checkpoints(true).is_err(), "caller success is not native verification");
    assert!(cleanup_checkpoints(false).is_ok());
}

#[test]
fn checkpoints_are_numbered_with_three_digits() {
    assert_eq!(checkpoint_file_name(7), "audio_chunk_007.mp4");
    assert_eq!(checkpoint_file_name(1_234), "audio_chunk_1234.mp4");
}

#[test]
fn a_folder_without_checkpoints_has_nothing_to_recover() {
    assert!(!has_audio_checkpoints(&None));
    assert!(!has_audio_checkpoints(&Some(vec!["notes.txt".to_string()])));
    assert!(has_audio_checkpoints(&Some(vec!["audio_chunk_000.mp4".to_string()])));
    assert!(matches!(plan_recovery(None), RecoveryPlan::Nothing(_)));
}

#[test]
fn concat_lists_name_each_file_on_its_own_line() {
    let list = concat_list(&vec!["/a/b.mp4".to_string(), "/c/d.mp4".to_string()]);
    let lines: Vec<&str> = list.lines().collect();
    assert_eq!(lines.len(), 2);
    assert!(lines[0].contains("/a/b.mp4"));
    assert!(lines[1].contains("/c/d.mp4"));
}

#[test]
fn finalizing_saves_the_audio_that_is_left() {
    let mut saver = IncrementalAudioSaver::new(48_000);
    saver.add_chunk(half_second(0, 0.5));
    let unencoded = Err("encoder is gone".to_string());
    let error = saver.finalize("/m", '/', unencoded, MergeEnd::Merged).unwrap_err();
    assert!(matches!(error, FinalizeError::NotEncoded(_)));
    assert_eq!(error.message(), "encoder is gone");
    assert_eq!(saver.buffer.len(), 24_000);
    assert_eq!(saver.files_to_merge(Ok(())).unwrap(), vec!["audio_chunk_000.mp4"]);
    assert!(saver.buffer.is_empty());
    assert_eq!(saver.files_to_merge(Ok(())).unwrap(), vec!["audio_chunk_000.mp4"]);
    let failed = saver.finalize("/m", '/', Ok(()), MergeEnd::NotCreated).unwrap_err();
    assert_eq!(failed.message(), "Merged audio file was not created: /m/audio.mp4");
    assert_eq!(saver.finalize("/m", '/', Ok(()), MergeEnd::Merged).unwrap(), "/m/audio.mp4");
}

#[test]
fn the_audio_of_a_meeting_lies_in_its_folder() {
    assert_eq!(audio_file_path("/rec/meeting", '/'), "/rec/meeting/audio.mp4");
    assert_eq!(audio_file_path("/rec/meeting/", '/'), "/rec/meeting/audio.mp4");
    assert_eq!(audio_file_path("C:\\rec\\meeting", '\\'), "C:\\rec\\meeting\\audio.mp4");
    assert_eq!(audio_file_path("", '/'), "audio.mp4");
}

#[test]
fn a_merge_that_fails_is_described() {
    let merged = |end: MergeEnd| merge_checkpoints(end, "/m", '/');
    assert_eq!(
        merged(MergeEnd::CheckpointMissing("/m/c.mp4".to_string())).unwrap_err().message(),
        "Checkpoint file missing: /m/c.mp4"
    );
    assert_eq!(
        merged(MergeEnd::MergerMissing).unwrap_err().message(),
        "FFmpeg not found. Please install FFmpeg to finalize recordings."
    );
    assert_eq!(
        merged(MergeEnd::Failed("bad".to_string())).unwrap_err().message(),
        "FFmpeg concat failed: bad"
    );
    assert_eq!(
        merged(MergeEnd::NotCreated).unwrap_err().message(),
        "Merged audio file was not created: /m/audio.mp4"
    );
    assert_eq!(merged(MergeEnd::NotRun("x".to_string())).unwrap_err().message(), "x");
}

#[test]
fn the_first_write_error_is_kept() {
    let mut writer = AudioWriter::new();
    writer.chunk_written(Ok(()));
    writer.chunk_written(Err("one".to_string()));
    writer.chunk_written(Err("two".to_string()));
    assert_eq!(writer.end().unwrap_err(), "Failed to write audio chunk: one");
    assert!(AudioWriter::new().end().is_ok());
}

#[test]
fn parts_but_the_last_are_a_second_long_at_least() {
    let samples: Vec<f32> = (0..TEST_RATE * 90).map(|i| 0.2 + (i % 5) as f32 * 0.01).collect();
    let measure = |start: usize| rms_bits(&samples[start..start + 1_600]);
    let parts = split_segment_at_silence(&samples, &measure, 25 * TEST_RATE, 12_800);
    for part in &parts[..parts.len() - 1] {
        assert!(part.end - part.start >= TEST_RATE);
    }
}
