use meetily_audio::audio_chunk::AudioChunk;
use meetily_audio::recording_state::DeviceType;
use meetily_audio::transcription::chunk_queue::{
    pending_chunk_count, try_merge_transcription_chunk, ChunkQueue, IdleAction, Verification,
};
use meetily_audio::transcription::parakeet_provider::{
    validate_parakeet_language, ParakeetProvider,
};
use meetily_audio::transcription::provider::TranscriptionError;
use meetily_audio::transcription::sensevoice_live_worker::{
    LiveError, SenseVoiceLiveWorker, TranscriptDraft,
};
use meetily_audio::transcription::sensevoice_provider::{
    validate_sensevoice_language, SenseVoiceProvider,
};
use meetily_audio::transcription::notice::Trouble;
use meetily_audio::transcription::task::{TaskAction, TaskPhase, TaskStart, TranscriptionTask};
use meetily_audio::transcription::worker::{
    compose_update, conclude_reply, current_transcription_queue_status, failure_is_reported, failure_notice,
    format_current_timestamp, format_recording_time, format_timestamp, judge_transcript,
    live_progress_percentage, plan_inference, reset_speech_detected_flag, settle_batch,
    transcribe_chunk_with_provider, BatchResult, EngineKind, EngineReply, TranscriptionActivity,
    Verdict, CONFIDENCE_THRESHOLD_BITS, DEFAULT_CONFIDENCE_BITS,
};

#[test]
fn accepts_only_automatic_detection() {
    assert!(validate_parakeet_language(None).is_ok());
    assert!(validate_parakeet_language(Some("")).is_ok());
    assert!(validate_parakeet_language(Some("auto")).is_ok());
    assert!(validate_parakeet_language(Some(" AUTO ")).is_ok());
}

#[test]
fn rejects_manual_chinese_instead_of_silently_ignoring_it() {
    assert!(matches!(
        validate_parakeet_language(Some("zh")),
        Err(TranscriptionError::UnsupportedLanguage(language)) if language == "zh"
    ));
}

#[test]
fn parakeet_provider_rejects_whisper_translation_mode() {
    assert!(matches!(
        validate_parakeet_language(Some("auto-translate")),
        Err(TranscriptionError::UnsupportedLanguage(language))
            if language == "auto-translate"
    ));
}

#[test]
fn accepts_supported_languages_and_auto() {
    assert!(validate_sensevoice_language(None).is_ok());
    assert!(validate_sensevoice_language(Some("auto")).is_ok());
    assert!(validate_sensevoice_language(Some("zh")).is_ok());
    assert!(validate_sensevoice_language(Some(" EN ")).is_ok());
    assert!(validate_sensevoice_language(Some("yue")).is_ok());
}

#[test]
fn sensevoice_provider_rejects_whisper_translation_mode() {
    assert!(matches!(
        validate_sensevoice_language(Some("auto-translate")),
        Err(TranscriptionError::UnsupportedLanguage(language)) if language == "auto-translate"
    ));
}

#[test]
fn rejects_unsupported_language() {
    assert!(matches!(
        validate_sensevoice_language(Some("de")),
        Err(TranscriptionError::UnsupportedLanguage(language)) if language == "de"
    ));
}

#[test]
fn pending_queue_count_never_underflows_and_reaches_zero_only_when_drained() {
    assert_eq!(pending_chunk_count(5, 2), 3);
    assert_eq!(pending_chunk_count(5, 5), 0);
    assert_eq!(pending_chunk_count(5, 6), 0);
}

fn chunk(id: u64, timestamp: f64, samples: usize, sample_rate: u32) -> AudioChunk<f32> {
    AudioChunk {
        data: vec![id as f32 + 1.0; samples],
        sample_rate,
        timestamp_ns: (timestamp * 1e9) as u64,
        chunk_id: id,
        device_type: DeviceType::Microphone,
        device_epoch: 0,
        capture_qpc_ns: None,
    }
}

#[test]
fn coalescing_inserts_short_silence_without_losing_source_audio() {
    let mut current = chunk(1, 0.0, 10, 10);
    let next = chunk(2, 1.5, 10, 10);

    try_merge_transcription_chunk(&mut current, next, 0.0).unwrap();

    assert_eq!(current.data.len(), 25);
    assert!(current.data[10..15].iter().all(|sample| *sample == 0.0));
    assert!(current.data[15..].iter().all(|sample| *sample == 3.0));
}

#[test]
fn coalescing_rejects_large_gaps_and_keeps_current_unchanged() {
    let mut current = chunk(1, 0.0, 10, 10);
    let original = current.data.clone();
    let next = chunk(2, 4.0, 10, 10);

    let returned = try_merge_transcription_chunk(&mut current, next, 0.0).unwrap_err();

    assert_eq!(current.data, original);
    assert_eq!(returned.chunk_id, 2);
}

#[test]
fn coalescing_trims_overlap_instead_of_duplicating_audio() {
    let mut current = chunk(1, 0.0, 10, 10);
    let next = chunk(2, 0.5, 10, 10);

    try_merge_transcription_chunk(&mut current, next, 0.0).unwrap();

    assert_eq!(current.data.len(), 15);
    assert!(current.data[10..].iter().all(|sample| *sample == 3.0));
}

#[test]
fn coalescing_never_discards_an_out_of_order_source_chunk() {
    let mut current = chunk(2, 10.0, 10, 10);
    let original = current.data.clone();
    let earlier = chunk(1, 4.0, 10, 10);

    let returned = try_merge_transcription_chunk(&mut current, earlier, 0.0).unwrap_err();

    assert_eq!(current.data, original);
    assert_eq!(returned.chunk_id, 1);
    assert_eq!(returned.timestamp_ns, 4_000_000_000);
}

#[test]
fn coalescing_respects_whisper_context_bound() {
    let mut current = chunk(1, 0.0, 90, 10);
    let original_len = current.data.len();
    let next = chunk(2, 9.0, 20, 10);

    let returned = try_merge_transcription_chunk(&mut current, next, 0.0).unwrap_err();

    assert_eq!(current.data.len(), original_len);
    assert_eq!(returned.chunk_id, 2);
}

#[test]
fn coalescing_rejects_a_realistic_batch_that_would_exceed_nine_seconds() {
    let mut current = chunk(1, 0.0, 49, 10);
    let original_len = current.data.len();
    let next = chunk(2, 4.9, 49, 10);

    let returned = try_merge_transcription_chunk(&mut current, next, 0.0).unwrap_err();

    assert_eq!(current.data.len(), original_len);
    assert_eq!(returned.chunk_id, 2);
}

#[test]
fn a_queue_hands_out_what_it_was_given_and_ends_empty() {
    let mut queue: ChunkQueue<f32> = ChunkQueue::new();
    queue.enqueue(chunk(1, 0.0, 10, 10));
    queue.enqueue(chunk(2, 1.0, 10, 10));
    queue.enqueue(chunk(3, 30.0, 10, 10));
    let first = queue.next_batch(true, 0.0).unwrap();
    assert_eq!(first.source_chunk_ids, vec![1, 2]);
    assert_eq!(first.chunk.data.len(), 20);
    queue.mark_chunks_completed(2);
    let second = queue.next_batch(false, 0.0).unwrap();
    assert_eq!(second.source_chunk_ids, vec![3]);
    assert!(queue.next_batch(true, 0.0).is_none());
    assert!(matches!(queue.idle_action(), IdleAction::Wait { .. }));
    queue.finish_input();
    queue.mark_chunks_completed(1);
    assert!(matches!(queue.idle_action(), IdleAction::Finish));
    assert!(matches!(queue.verify(0), Verification::Complete));
}

#[test]
fn chunks_that_are_not_done_are_looked_for_again() {
    let mut queue: ChunkQueue<f32> = ChunkQueue::new();
    queue.enqueue(chunk(1, 0.0, 10, 10));
    queue.finish_input();
    assert!(matches!(queue.verify(0), Verification::Retry { .. }));
    assert!(matches!(queue.verify(10), Verification::ChunksLost { lost: 1 }));
}

#[test]
fn confidence_decides_only_where_there_is_one() {
    assert_eq!(judge_transcript(EngineKind::Whisper, "hello", None), Verdict::Publish);
    assert_eq!(
        judge_transcript(EngineKind::Whisper, "hello", Some(0.9f32.to_bits())),
        Verdict::Publish
    );
    assert_eq!(
        judge_transcript(EngineKind::Whisper, "hello", Some(0.1f32.to_bits())),
        Verdict::BelowThreshold
    );
    assert_eq!(judge_transcript(EngineKind::Whisper, "  ", None), Verdict::Empty);
    assert_eq!(CONFIDENCE_THRESHOLD_BITS, 0.3f32.to_bits());
    assert_eq!(DEFAULT_CONFIDENCE_BITS, 0.85f32.to_bits());
}

#[test]
fn providers_pass_on_what_their_engines_say() {
    let parakeet = ParakeetProvider::new(());
    let result = parakeet.transcribe(None, Ok(" hello ".to_string())).unwrap();
    assert_eq!(result.text, "hello");
    assert!(result.confidence_bits.is_none());
    assert!(parakeet.transcribe(Some("zh"), Ok("x".to_string())).is_err());
    let sensevoice = SenseVoiceProvider::new(());
    assert!(matches!(
        sensevoice.transcribe(Some("zh"), Err("broken".to_string())),
        Err(TranscriptionError::EngineFailed(error)) if error == "broken"
    ));
    assert_eq!(parakeet.provider_name(), "Parakeet");
    assert_eq!(sensevoice.provider_name(), "SenseVoice");
}

#[test]
fn speech_is_announced_once_for_a_session() {
    let mut activity =
        TranscriptionActivity { active: false, speech_detected: false, next_sequence: 0 };
    activity.begin();
    assert!(activity.note_speech());
    assert!(!activity.note_speech());
    reset_speech_detected_flag(&mut activity);
    assert!(activity.note_speech());
    let queue: ChunkQueue<f32> = ChunkQueue::new();
    assert_eq!(current_transcription_queue_status(&queue, &activity), (0, true));
    activity.end();
    assert_eq!(current_transcription_queue_status(&queue, &activity), (0, false));
}

#[test]
fn live_progress_is_a_whole_percentage() {
    assert_eq!(live_progress_percentage(1, 3), 33);
    assert_eq!(live_progress_percentage(29, 100), 29);
    assert_eq!(live_progress_percentage(3, 3), 100);
    assert_eq!(live_progress_percentage(0, 0), 0);
}

#[test]
fn updates_carry_the_times_of_their_audio() {
    let update = compose_update(
        vec![7, 8],
        2_000_000_000,
        16_000,
        16_000,
        "hello".to_string(),
        "12:00:00".to_string(),
        None,
        false,
        3,
    );
    assert_eq!(update.audio_start_ns, 2_000_000_000);
    assert_eq!(update.audio_end_ns, 3_000_000_000);
    assert_eq!(update.duration_ns, 1_000_000_000);
    assert_eq!(update.sequence_id, 3);
    assert_eq!(update.confidence_bits, 0.85f32.to_bits());
    let segment = update.segment();
    assert_eq!(segment.text, "hello");
    assert_eq!(segment.sequence_id, 3);
}

#[test]
fn without_audio_nothing_is_transcribed() {
    assert!(matches!(
        plan_inference(EngineKind::Whisper, 0, None),
        Err(TranscriptionError::AudioTooShort { samples: 0, minimum: 1_600 })
    ));
    let whisper = plan_inference(EngineKind::Whisper, 1_600, Some("zh")).unwrap();
    assert_eq!(whisper.language.as_deref(), Some("zh"));
    assert!(whisper.applied_to_provider);
    let parakeet = plan_inference(EngineKind::Parakeet, 1_600, Some("zh")).unwrap();
    assert!(parakeet.language.is_none());
    assert!(!parakeet.applied_to_provider);
}

#[test]
fn engine_replies_keep_their_texts() {
    let whisper = conclude_reply(EngineReply::Whisper {
        text_before_dedup: "a a".to_string(),
        text_after_dedup: "a".to_string(),
        confidence_bits: 0.5f32.to_bits(),
        is_partial: false,
    })
    .unwrap();
    assert_eq!(whisper.text_before_dedup, "a a");
    assert_eq!(whisper.text_after_dedup, "a");
    assert!(conclude_reply(EngineReply::EngineFailed("x".to_string())).is_err());
}

#[test]
fn an_engine_is_only_asked_where_it_can_answer() {
    let said = || EngineReply::Parakeet { text: " hello ".to_string() };
    let silent = transcribe_chunk_with_provider(EngineKind::Parakeet, 0, Some("zh"), said());
    assert!(silent.begun.is_none() && !silent.asked);
    assert!(matches!(silent.result, Err(TranscriptionError::AudioTooShort { samples: 0, .. })));
    let refused = transcribe_chunk_with_provider(EngineKind::Parakeet, 1_600, Some("zh"), said());
    assert!(refused.begun.is_some() && !refused.asked);
    assert!(matches!(refused.result, Err(TranscriptionError::UnsupportedLanguage(_))));
    let session = transcribe_chunk_with_provider(EngineKind::SenseVoice, 1_600, None, said());
    assert!(!session.asked);
    assert!(matches!(
        session.result,
        Err(TranscriptionError::EngineFailed(error))
            if error == "SenseVoice live session is unavailable"
    ));
    let heard = transcribe_chunk_with_provider(EngineKind::Parakeet, 1_600, None, said());
    assert!(heard.asked && heard.begun.unwrap().language.is_none());
    assert_eq!(heard.result.unwrap().text, "hello");
    let failed = transcribe_chunk_with_provider(
        EngineKind::Whisper,
        1_600,
        Some("zh"),
        EngineReply::EngineFailed("x".to_string()),
    );
    assert_eq!(failed.begun.unwrap().language.as_deref(), Some("zh"));
    assert!(matches!(failed.result, Err(TranscriptionError::EngineFailed(error)) if error == "x"));
}

#[test]
fn failures_are_announced_by_engine() {
    let language = TranscriptionError::UnsupportedLanguage("zh".to_string());
    let notice = failure_notice(EngineKind::Parakeet, false, &language, "zh").unwrap();
    assert!(notice.actionable);
    assert_eq!(
        notice.user_message,
        "Transcription failed: zh. Select automatic detection or use Whisper for Chinese/manual language selection."
    );
    assert!(failure_notice(EngineKind::SenseVoice, false, &language, "zh").is_none());
    let model = failure_notice(EngineKind::Whisper, true, &TranscriptionError::ModelNotLoaded, "model");
    assert!(!model.unwrap().actionable);
    let empty = TranscriptionError::AudioTooShort { samples: 0, minimum: 1_600 };
    assert!(failure_notice(EngineKind::Provider, false, &empty, "empty").is_none());
    let replied = failure_notice(EngineKind::Provider, true, &empty, "empty").unwrap();
    assert_eq!(replied.user_message, "Transcription failed: empty");
    assert!(!replied.actionable);
    let brief = TranscriptionError::AudioTooShort { samples: 7, minimum: 1_600 };
    assert!(failure_notice(EngineKind::Provider, true, &brief, "brief").is_some());
    let short = TranscriptionError::AudioTooShort { samples: 1, minimum: 1_600 };
    assert!(!failure_is_reported(&short));
    assert!(failure_is_reported(&TranscriptionError::EngineFailed("x".to_string())));
}

#[test]
fn a_settled_batch_counts_as_done() {
    let mut queue: ChunkQueue<f32> = ChunkQueue::new();
    let mut activity =
        TranscriptionActivity { active: true, speech_detected: false, next_sequence: 0 };
    queue.enqueue(chunk(1, 0.0, 1_600, 16_000));
    let batch = queue.next_batch(false, 0.0).unwrap();
    let report = settle_batch(
        &mut queue,
        &mut activity,
        EngineKind::Whisper,
        batch.source_chunk_ids,
        0,
        1_600,
        16_000,
        BatchResult::Transcribed {
            transcript: "hello".to_string(),
            confidence_bits: None,
            is_partial: false,
        },
        "00:00:00".to_string(),
    );
    assert!(report.announce_speech);
    assert_eq!(report.update.unwrap().text, "hello");
    assert_eq!(queue.completed, 1);
}

#[test]
fn chunks_without_a_model_still_count() {
    let mut queue: ChunkQueue<f32> = ChunkQueue::new();
    let mut activity =
        TranscriptionActivity { active: true, speech_detected: false, next_sequence: 0 };
    queue.enqueue(chunk(1, 0.0, 1_600, 16_000));
    let batch = queue.next_batch(false, 0.0).unwrap();
    let report = settle_batch(
        &mut queue,
        &mut activity,
        EngineKind::Whisper,
        batch.source_chunk_ids,
        0,
        1_600,
        16_000,
        BatchResult::ModelUnloaded,
        "00:00:00".to_string(),
    );
    assert!(report.update.is_none());
    assert_eq!(report.terminal_reason, Some("model_unloaded"));
    assert_eq!(
        report.writer_error,
        Some("The transcription model was unloaded before queued audio was processed")
    );
    assert_eq!(queue.completed, 1);
}

#[test]
fn clock_texts_have_two_digits_for_each_part() {
    assert_eq!(format_timestamp(0), "00:00:00");
    assert_eq!(format_timestamp(86_399), "23:59:59");
    let now = format_current_timestamp();
    assert_eq!(now.len(), 8);
    assert_eq!(&now[2..3], ":");
    assert_eq!(format_recording_time(65), "[01:05]");
}

#[test]
fn live_rows_keep_their_numbers() {
    let mut worker = SenseVoiceLiveWorker::new();
    let mut activity =
        TranscriptionActivity { active: true, speech_detected: false, next_sequence: 5 };
    worker.push(1, 0, 16_000);
    let draft = TranscriptDraft {
        row_id: 9,
        text: "hel".to_string(),
        audio_start_ns: 0,
        audio_end_ns: 500_000_000,
        is_partial: true,
        revision: 0,
    };
    let first = worker.persist(&vec![draft], &mut activity);
    let done = TranscriptDraft {
        row_id: 9,
        text: "hello".to_string(),
        audio_start_ns: 0,
        audio_end_ns: 1_000_000_000,
        is_partial: false,
        revision: 1,
    };
    let second = worker.persist(&vec![done], &mut activity);
    assert_eq!(second.updates[0].timestamp.len(), 8);
    assert_eq!(&second.updates[0].timestamp[5..6], ":");
    assert_eq!(first.updates[0].sequence_id, second.updates[0].sequence_id);
    assert!(worker.has_text());
    let settled = worker.settle(second.finalized_end_ns, true);
    assert_eq!(settled, vec![1]);
}

#[test]
fn live_audio_needs_a_rate_and_a_language_of_the_engine() {
    let worker = SenseVoiceLiveWorker::new();
    assert!(worker.check_chunk(None, 48_000).is_ok());
    assert!(matches!(worker.check_chunk(None, 0), Err(LiveError::InvalidSampleRate)));
    assert!(matches!(
        worker.check_chunk(Some("de"), 16_000),
        Err(LiveError::UnsupportedLanguage(language)) if language == "de"
    ));
}

fn silent_start() -> TranscriptionActivity {
    TranscriptionActivity { active: false, speech_detected: false, next_sequence: 4 }
}

#[test]
fn a_task_deals_with_all_audio_and_ends() {
    let mut task: TranscriptionTask<f32> =
        TranscriptionTask::begin(EngineKind::Whisper, false, silent_start());
    assert!(task.activity.active);
    assert!(matches!(task.next(0.0), TaskAction::AwaitChunk));
    task.chunk_arrived(chunk(1, 0.0, 16_000, 16_000));
    task.chunk_arrived(chunk(2, 1.0, 16_000, 16_000));
    match task.next(0.0) {
        TaskAction::Transcribe(batch) => assert_eq!(batch.source_chunk_ids, vec![1, 2]),
        _ => panic!("a batch is waiting"),
    }
    task.chunk_arrived(chunk(3, 30.0, 16_000, 16_000));
    assert!(task.can_be_told());
    let report = task.batch_settled(
        BatchResult::Transcribed {
            transcript: "hello".to_string(),
            confidence_bits: None,
            is_partial: false,
        },
        "00:00:00".to_string(),
    );
    let update = report.update.unwrap();
    assert_eq!(update.sequence_id, 4);
    assert_eq!(update.source_chunk_ids, vec![1, 2]);
    assert_eq!(update.audio_end_ns, 2_000_000_000);
    task.input_ended();
    assert!(matches!(task.next(0.0), TaskAction::Transcribe(_)));
    let failed = task.batch_settled(
        BatchResult::Failed(TranscriptionError::EngineFailed("x".to_string())),
        "00:00:01".to_string(),
    );
    assert_eq!(failed.terminal_reason, Some("transcription_failed"));
    assert!(failed.warn);
    assert!(matches!(task.next(0.0), TaskAction::Compare));
    assert!(matches!(task.compare(), TaskAction::Finish));
    assert_eq!(task.phase, TaskPhase::Done);
    assert!(!task.activity.active);
}

#[test]
fn a_live_session_is_asked_for_its_last_rows() {
    let mut task: TranscriptionTask<f32> =
        TranscriptionTask::begin(EngineKind::SenseVoice, true, silent_start());
    task.input_ended();
    assert!(matches!(task.next(0.0), TaskAction::FinishLive));
    let (next, notice) = task.live_finished(Err("lost".to_string()));
    assert!(matches!(next, TaskAction::Compare));
    let notice = notice.unwrap();
    assert_eq!(notice.trouble, Trouble::SessionNotFinished);
    assert_eq!(notice.user_message(), "最后一段转写未能保存，请保留原录音。");
    assert_eq!(notice.writer_error().as_deref(), Some("lost"));
    assert!(notice.measurement_error().is_none() && notice.chunk_error().is_none());
    assert!(matches!(task.compare(), TaskAction::Finish));
}

#[test]
fn a_task_without_an_engine_does_not_start() {
    let start: TaskStart<f32> = TranscriptionTask::start_transcription_task(
        Err("no model".to_string()),
        Ok(()),
        TranscriptionActivity { active: true, speech_detected: true, next_sequence: 4 },
    );
    match start {
        TaskStart::NotStarted { activity, notice } => {
            assert!(!activity.active);
            assert_eq!(activity.next_sequence, 4);
            assert_eq!(notice.error, "no model");
            assert!(notice.user_message().starts_with("Recording failed: Unable to initialize"));
            assert!(notice.writer_error().is_none());
            assert_eq!(
                notice.measurement_error().as_deref(),
                Some("failed to initialize transcription engine: no model")
            );
        }
        TaskStart::Started { .. } => panic!("there is no engine"),
    }
}

#[test]
fn a_session_that_cannot_be_opened_is_told_of() {
    for (kind, session, live, told) in [
        (EngineKind::SenseVoice, Ok(()), true, None),
        (EngineKind::SenseVoice, Err("busy".to_string()), false, Some("busy".to_string())),
        (EngineKind::Whisper, Err("none".to_string()), false, None),
    ] {
        let start: TaskStart<f32> =
            TranscriptionTask::start_transcription_task(Ok(kind), session, silent_start());
        match start {
            TaskStart::Started { task, notice } => {
                assert_eq!(task.kind, kind);
                assert_eq!(task.live, live);
                assert!(task.activity.active);
                if let Some(notice) = &notice {
                    assert_eq!(notice.trouble, Trouble::SessionNotOpened);
                    assert_eq!(notice.user_message(), "SenseVoice 初始化失败，请重新开始录音。");
                }
                assert_eq!(notice.and_then(|notice| notice.writer_error()), told);
            }
            TaskStart::NotStarted { .. } => panic!("there is an engine"),
        }
    }
}

#[test]
fn audio_without_a_rate_is_counted_when_a_session_refuses_it() {
    let mut task: TranscriptionTask<f32> =
        TranscriptionTask::begin(EngineKind::SenseVoice, true, silent_start());
    task.chunk_arrived(chunk(1, 0.0, 160, 0));
    assert!(matches!(task.next(0.0), TaskAction::Transcribe(_)));
    assert!(!task.can_be_told());
    let report = task.batch_settled(
        BatchResult::TakenLive {
            taken: Err("Invalid audio sample rate".to_string()),
            has_text: false,
        },
        "00:00:00".to_string(),
    );
    assert_eq!(task.queue.completed, 1);
    assert!(report.report_progress && report.update.is_none());
    let notice = report.notice.unwrap();
    assert_eq!(notice.trouble, Trouble::ChunkNotTaken);
    assert_eq!(notice.user_message(), "部分录音转写失败，原录音已保留。");
    assert_eq!(notice.chunk_error().as_deref(), Some("Invalid audio sample rate"));
    assert_eq!(notice.writer_error().as_deref(), Some("Invalid audio sample rate"));
}

#[test]
fn what_a_failed_worker_left_is_reported() {
    let mut task: TranscriptionTask<f32> =
        TranscriptionTask::begin(EngineKind::Parakeet, false, silent_start());
    task.chunk_arrived(chunk(1, 0.0, 16_000, 16_000));
    task.chunk_arrived(chunk(2, 1.0, 16_000, 16_000));
    task.next(0.0);
    assert_eq!(task.worker_failed("panicked"), "Transcription worker failed: panicked");
    for _ in 0..10 {
        assert!(matches!(task.compare(), TaskAction::Wait { millis: 100 }));
    }
    match task.compare() {
        TaskAction::ReportLoss { lost, writer_error } => {
            assert_eq!(lost, 2);
            assert_eq!(
                writer_error,
                "Transcription queue did not finish processing all accepted audio"
            );
        }
        _ => panic!("two chunks are missing"),
    }
}
