use meetily_audio::audio_chunk::AudioChunk;
use meetily_audio::incremental_saver::MergeEnd;
use meetily_audio::recording_saver::finish::SaveEnds;
use meetily_audio::recording_saver::saver::{
    add_transcript_chunk, text_only_segment, FolderFailure, RecordingSaver, SaverError,
};
use meetily_audio::recording_saver::stop::{
    stop_and_save, SaveAction, SaveOutcomes, SavePhase, SaveRun, TextOutcome,
};
use meetily_audio::recording_state::DeviceType;
use meetily_audio::recording_saver::transcript::{
    read_completed_transcript_snapshot, SnapshotError, TranscriptSegment, TranscriptWriter,
};

fn final_segment(text: &str) -> TranscriptSegment {
    TranscriptSegment {
        id: "seg_1".to_owned(),
        text: text.to_owned(),
        sequence_id: 1,
        revision: 0,
        is_partial: false,
        audio_start_ns: 1_000_000_000,
        audio_end_ns: 2_000_000_000,
        duration_ns: 1_000_000_000,
        display_time: "[00:01]".to_owned(),
        confidence_bits: 1.0f32.to_bits(),
    }
}

fn started(name: &str, audio: bool) -> RecordingSaver {
    let mut saver = RecordingSaver::new();
    saver.set_meeting_name(Some(name.to_owned()));
    let meeting_name = saver.start_accumulation().unwrap();
    let metadata = saver.initial_metadata(&meeting_name, audio);
    saver
        .initialize_meeting_folder_at("/rec/meeting".to_owned(), metadata, audio, None)
        .unwrap();
    saver
}

fn good_ends() -> SaveEnds {
    SaveEnds {
        writer: Ok(()),
        last_checkpoint: Ok(()),
        merge: MergeEnd::Merged,
        separator: '/',
        text: Ok(()),
        metadata: Ok(()),
        failure_persisted: Ok(()),
        announced: Ok(()),
    }
}

fn audio_chunk(id: u64, samples: usize) -> AudioChunk<u32> {
    AudioChunk {
        data: vec![0.2f32.to_bits(); samples],
        sample_rate: 48_000,
        timestamp_ns: 0,
        chunk_id: id,
        device_type: DeviceType::Microphone,
        device_epoch: 0,
        capture_qpc_ns: None,
    }
}

fn status_of(saver: &RecordingSaver) -> &str {
    saver.metadata.as_ref().unwrap().status.as_str()
}

fn good_outcomes() -> SaveOutcomes {
    SaveOutcomes {
        writer: Ok(()),
        merge: Ok("/rec/meeting/audio.mp4".to_owned()),
        text: TextOutcome::Written,
        rows: None,
        metadata: Ok(()),
        failure_persisted: Ok(()),
        announced: Ok(()),
    }
}

#[test]
fn context_cannot_be_replaced_after_persistence_starts() {
    let mut saver = RecordingSaver::new();
    saver.meeting_folder = Some("/rec".to_owned());
    let error = saver
        .set_meeting_context(Some(Ok("{}".to_owned())))
        .unwrap_err();
    assert!(error
        .message()
        .contains("cannot be replaced after recording persistence starts"));
}

#[test]
fn invalid_context_is_rejected_before_persistence() {
    let mut saver = RecordingSaver::new();
    let error = saver
        .set_meeting_context(Some(Err("CONTEXT_HASH_MISMATCH".to_owned())))
        .unwrap_err();
    assert!(error.message().contains("CONTEXT_HASH_MISMATCH"));
    assert!(saver.pending_meeting_context.is_none());
}

#[test]
fn missing_meeting_name_fails_before_channel_initialization() {
    let saver = RecordingSaver::new();
    let error = saver.start_accumulation().unwrap_err();
    assert!(error.message().contains("meeting name is required"));
    assert!(saver.meeting_folder.is_none());
    assert!(saver.metadata.is_none());
}

#[test]
fn starting_again_cannot_replace_an_unfinished_recording() {
    let saver = started("03A start twice", false);
    assert!(matches!(saver.start_accumulation(), Err(SaverError::BelongsToMeeting)));
    assert_eq!(saver.get_meeting_folder().as_deref(), Some("/rec/meeting"));
}

#[test]
fn folder_initialization_failure_leaves_no_persisted_state() {
    let mut saver = RecordingSaver::new();
    saver.set_meeting_context(Some(Ok("{}".to_owned()))).unwrap();
    let metadata = saver.initial_metadata("Must fail", false);
    let failure = FolderFailure {
        error: "file blocks directory creation".to_owned(),
        cleanup_error: Some("busy".to_owned()),
    };
    let error = saver
        .initialize_meeting_folder_at("/rec/x".to_owned(), metadata, false, Some(failure))
        .unwrap_err();
    assert_eq!(
        error,
        "recording folder initialization failed: file blocks directory creation; cleanup failed for /rec/x: busy"
    );
    assert!(saver.meeting_folder.is_none());
    assert!(saver.metadata.is_none());
}

#[test]
fn device_metadata_write_failure_bubbles_without_in_memory_commit() {
    let mut saver = started("Devices", false);
    let devices = saver.set_device_info(Some("New mic".to_owned()), None);
    assert!(saver.metadata_with_devices(&devices).is_some());
    saver.apply_device_info(devices, false);
    assert_eq!(saver.metadata.as_ref().unwrap().devices.microphone.as_deref(), None);
}

#[test]
fn initialization_device_update_and_completion_preserve_context() {
    let mut saver = RecordingSaver::new();
    saver.set_meeting_context(Some(Ok("{\"id\":1}".to_owned()))).unwrap();
    saver.set_summary_template(Some("{\"t\":3}".to_owned())).unwrap();
    let devices = saver.set_device_info(Some("Mic A".to_owned()), Some("System A".to_owned()));
    saver.apply_device_info(devices, true);
    let metadata = saver.initial_metadata("Context lifecycle", false);
    saver
        .initialize_meeting_folder_at("/rec/m".to_owned(), metadata, false, None)
        .unwrap();
    let devices = saver.set_device_info(Some("Mic B".to_owned()), Some("System B".to_owned()));
    saver.apply_device_info(devices, true);
    let stored = saver.complete_metadata(Some(42_500_000_000)).unwrap();

    assert_eq!(stored.meeting_context.as_deref(), Some("{\"id\":1}"));
    assert_eq!(stored.summary_template.as_deref(), Some("{\"t\":3}"));
    assert_eq!(stored.devices.microphone.as_deref(), Some("Mic B"));
    assert_eq!(stored.devices.system_audio.as_deref(), Some("System B"));
    assert_eq!(stored.status, "completed");
    assert_eq!(stored.duration_ns, Some(42_500_000_000));
    assert!(stored.completed_at.is_some());
}

#[test]
fn a_recording_with_audio_names_its_file() {
    let saver = started("Saved folder test", true);
    assert_eq!(saver.metadata.as_ref().unwrap().audio_file, "audio.mp4");
    assert!(saver.saves_audio());
    let failed = saver.failed_metadata().unwrap();
    assert_eq!(failed.status, "error");
}

#[test]
fn failed_audio_write_is_not_hidden_by_a_later_successful_finalize() {
    let mut saver = started("03A write failure", true);
    saver.incremental_saver.as_mut().unwrap().add_chunk(audio_chunk(0, 4_800));
    let mut ends = good_ends();
    ends.writer = Err("Failed to write audio chunk: blocked".to_owned());
    assert!(saver.stop_and_save(ends, Some(30_000_000_000)).is_err());
    assert_eq!(status_of(&saver), "error");
    assert_eq!(
        saver.stop_and_save(good_ends(), Some(30_000_000_000)).unwrap_err(),
        "Failed to write audio chunk: blocked"
    );
    assert_eq!(status_of(&saver), "error");
}

#[test]
fn earlier_write_error_cannot_be_hidden_by_a_later_successful_merge() {
    let mut saver = started("Earlier error", true);
    saver.incremental_saver.as_mut().unwrap().add_chunk(audio_chunk(0, 4_800));
    let mut ends = good_ends();
    ends.last_checkpoint = Err("encoder failed".to_owned());
    assert_eq!(
        saver.stop_and_save(ends, None).unwrap_err(),
        "Failed to finalize audio: encoder failed"
    );
    assert_eq!(saver.incremental_saver.as_ref().unwrap().buffer.len(), 4_800);
    assert!(saver.stop_and_save(good_ends(), None).is_err());
}

#[test]
fn transcripts_only_shutdown_creates_no_audio_or_checkpoints() {
    let mut saver = started("Text only", false);
    let mut ends = good_ends();
    ends.merge = MergeEnd::MergerMissing;
    assert_eq!(saver.stop_and_save(ends, None).unwrap(), None);
    assert_eq!(status_of(&saver), "completed");
    assert!(saver.incremental_saver.is_none());
    let (mut run, _) = SaveRun::start(false, None);
    assert!(matches!(run.writer_ended(Ok(())).action, SaveAction::WriteText));
}

#[test]
fn repeated_successful_stop_preserves_saved_transcripts() {
    let mut saver = started("03A repeated stop", true);
    saver.incremental_saver.as_mut().unwrap().add_chunk(audio_chunk(0, 4_800));
    saver.writer.write(final_segment("末尾文字必须保留")).unwrap();
    let first = saver.stop_and_save(good_ends(), Some(100_000_000)).unwrap();
    assert_eq!(first.as_deref(), Some("/rec/meeting/audio.mp4"));
    assert_eq!(saver.get_stats(), (1, 48_000));
    let rows = saver.get_transcript_segments().len();
    let second = saver.stop_and_save(good_ends(), Some(100_000_000)).unwrap();
    assert_eq!(first, second);
    assert_eq!(rows, 1);
    assert_eq!(saver.get_transcript_segments().len(), 1);
    assert_eq!(saver.get_stats(), (1, 48_000));
    assert_eq!(status_of(&saver), "completed");
}

#[test]
fn aborted_writer_is_reported_as_failure_and_preserves_transcripts() {
    let mut saver = started("03A aborted writer", false);
    saver.writer.write(final_segment("x")).unwrap();
    let mut ends = good_ends();
    ends.writer = Err("Audio writer task failed: cancelled".to_owned());
    let error = saver.stop_and_save(ends, Some(100_000_000)).unwrap_err();
    assert!(error.contains("Audio writer task failed"), "{error}");
    assert_eq!(status_of(&saver), "error");
    assert_eq!(saver.get_transcript_segments().len(), 1);
    assert!(saver.stop_and_save(good_ends(), Some(100_000_000)).is_err());
}

#[test]
fn a_recording_without_audio_cannot_be_saved_with_audio() {
    let mut saver = started("Empty", true);
    assert_eq!(
        saver.stop_and_save(good_ends(), None).unwrap_err(),
        "Failed to finalize audio: No audio checkpoints to merge - recording may have failed"
    );
}

#[test]
fn a_failure_that_cannot_be_put_on_record_is_reported_too() {
    let mut saver = started("Both fail", false);
    let mut ends = good_ends();
    ends.metadata = Err("disk full".to_owned());
    ends.failure_persisted = Err("still full".to_owned());
    assert_eq!(
        saver.stop_and_save(ends, None).unwrap_err(),
        "Failed to update metadata: disk full; failed to persist error metadata: still full"
    );
    assert_eq!(status_of(&saver), "recording");
}

#[test]
fn every_failure_of_saving_is_reported() {
    let mut merging = good_outcomes();
    merging.merge = Err("disk full".to_owned());
    assert_eq!(
        stop_and_save(true, None, merging).unwrap_err(),
        "Failed to finalize audio: disk full"
    );
    let mut writing = good_outcomes();
    writing.text = TextOutcome::Failed("disk full".to_owned());
    assert_eq!(
        stop_and_save(true, None, writing).unwrap_err(),
        "Failed to save transcripts: disk full"
    );
    let mut homeless = good_outcomes();
    homeless.text = TextOutcome::FolderUnavailable;
    assert_eq!(
        stop_and_save(true, None, homeless).unwrap_err(),
        "Meeting folder is unavailable"
    );
    let mut completing = good_outcomes();
    completing.metadata = Err("disk full".to_owned());
    completing.failure_persisted = Err("still full".to_owned());
    assert_eq!(
        stop_and_save(true, None, completing).unwrap_err(),
        "Failed to update metadata: disk full; failed to persist error metadata: still full"
    );
}

#[test]
fn saving_goes_step_by_step() {
    let (mut run, first) = SaveRun::start(true, None);
    assert_eq!(first.stages[0].stage, "final_save_started");
    assert!(matches!(run.writer_ended(Ok(())).action, SaveAction::MergeAudio));
    let merged = run.audio_merged(Ok("/a.mp4".to_owned()));
    assert!(matches!(merged.action, SaveAction::WriteText));
    let written = run.text_written(TextOutcome::Written, None);
    assert!(matches!(written.action, SaveAction::CompleteMetadata));
    assert!(matches!(run.metadata_completed(Ok(())).action, SaveAction::Announce));
    let last = run.announced(Err("no listener".to_owned()));
    assert!(matches!(last.action, SaveAction::Finish(Ok(Some(path))) if path == "/a.mp4"));
    assert_eq!(last.stages[0].error.as_deref(), Some("no listener"));
    assert_eq!(run.phase, SavePhase::Finished);
}

#[test]
fn completed_snapshot_preserves_final_rows_and_rejects_unfinished_recording() {
    let row = final_segment("可以可以。");
    assert!(matches!(
        read_completed_transcript_snapshot("recording", vec![final_segment("可以可以。")]),
        Err(SnapshotError::NotCompleted)
    ));
    assert_eq!(
        read_completed_transcript_snapshot("completed", vec![row]).unwrap()[0].text,
        "可以可以。"
    );
    let mut pending = final_segment("可以可以。");
    pending.is_partial = true;
    assert!(matches!(
        read_completed_transcript_snapshot("completed", vec![pending]),
        Err(SnapshotError::UnfinishedOrDuplicate)
    ));
}

#[test]
fn boundary_revision_snapshot_rejects_stale_partial_and_preserves_repeated_rows() {
    let mut saver = started("SenseVoice revision regression", false);
    let mut final_row = final_segment("可以可以。");
    final_row.revision = 2;
    let mut following = final_segment("可以可以。");
    following.id = "seg_2".to_owned();
    following.sequence_id = 2;
    following.revision = 1;
    following.is_partial = true;
    following.audio_start_ns = 2_000_000_000;
    following.audio_end_ns = 3_000_000_000;
    saver.writer.write_batch(vec![final_row, following]).unwrap();
    let mut late = final_segment("旧的半句话");
    late.revision = 1;
    late.is_partial = true;
    saver.writer.write(late).unwrap();
    let stored = saver.get_transcript_segments();
    assert_eq!(stored.len(), 2);
    assert_eq!(stored[0].text, "可以可以。");
    assert!(!stored[0].is_partial);
    assert_eq!(stored[1].text, "可以可以。");
    assert!(stored[1].is_partial);
    assert_eq!(saver.get_transcript_segments()[0].revision, 2);
}

#[test]
fn owned_transcript_writer_survives_saver_move_and_upserts_the_tail() {
    let mut saver = started("03B moved saver", false);
    saver.writer.write(final_segment("第一版")).unwrap();
    saver.writer.write(final_segment("停止后识别出的最后一句")).unwrap();
    let stored = saver.get_transcript_segments();
    assert_eq!(stored.len(), 1);
    assert_eq!(stored[0].text, "停止后识别出的最后一句");
}

#[test]
fn transcript_writer_is_bound_to_its_original_meeting() {
    let mut first = started("03B first", false);
    let mut second = started("03B second", false);
    second.writer.write(final_segment("第二场")).unwrap();
    first.writer.write(final_segment("第一场晚到的末句")).unwrap();
    assert_eq!(first.get_transcript_segments()[0].text, "第一场晚到的末句");
    assert_eq!(second.get_transcript_segments()[0].text, "第二场");
}

#[test]
fn transcript_write_failure_is_not_hidden_by_successful_final_save() {
    let mut saver = started("03B failed text write", false);
    saver.writer.write(final_segment("写盘失败也不能假装成功")).unwrap();
    saver.writer.finish_write(Some("blocked".to_owned()));
    assert!(saver.stop_and_save(good_ends(), Some(2_000_000_000)).is_err());
    assert_eq!(status_of(&saver), "error");
    assert_eq!(saver.get_transcript_segments().len(), 1);
}

#[test]
fn a_writer_without_a_folder_refuses_rows() {
    let mut writer = TranscriptWriter::new();
    assert!(writer.write(final_segment("x")).is_err());
    assert_eq!(
        writer.first_error().unwrap(),
        "Transcript write failed: Transcript meeting folder is unavailable"
    );
    assert_eq!(writer.segments.len(), 1);
    let mut late = TranscriptWriter::new();
    late.report_transcription_error("queue timed out");
    assert!(late.first_error().unwrap().contains("queue timed out"));
}

#[test]
fn plain_text_becomes_a_row_of_its_own() {
    let row = text_only_segment("hello".to_owned(), 1_700_000_000_123);
    assert_eq!(row.text, "hello");
    assert!(row.id.contains("1700000000123"));
    let now = add_transcript_chunk("hello".to_owned());
    assert_eq!(now.text, "hello");
    assert_ne!(now.id, row.id);
}

#[test]
fn a_recording_that_has_no_folder_cannot_be_completed() {
    let saver = RecordingSaver::new();
    assert!(matches!(
        saver.complete_metadata(None),
        Err(SaverError::FolderUnavailable) | Err(SaverError::MetadataUnavailable)
    ));
    assert!(saver.failed_metadata().is_none());
}
