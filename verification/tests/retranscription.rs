use meetily_audio::retranscription::flow::{
    describe_segment_failure, normalize_requested_language, recognition_prompt_status, requested_engine,
    retranscription_edits, unload_engine_after_batch, vad_progress, validate_language,
    write_retranscription_metadata, BatchEngine, MetadataEdit, ProgressNote, RetranscriptionRun,
    RunAction, RunFailure, RunPhase, TimedText, LEAD_IN_SAMPLES, MAX_SEGMENT_SAMPLES,
    VAD_REDEMPTION_TIME_MS,
};
use meetily_audio::retranscription::overlap::dedupe_leading_overlap;
use meetily_audio::retranscription::run::{
    run_retranscription, PartOutcome, RecognitionContextId, RunError, RunOutcomes, RunRequest,
    WorkOutcomes,
};
use meetily_audio::retranscription::source::{
    audio_candidates, audio_extension, find_audio_file, get_configured_parakeet_model,
    get_configured_whisper_model, model_loaded, needs_load, plan_model, AudioFile, ModelError,
};
use meetily_audio::retranscription::speech::{processable_segments, DetectedSpeech};
use meetily_audio::retranscription::status::{
    begin_retranscription, cancel_retranscription, cancel_retranscription_command,
    is_retranscription_in_progress,
    start_retranscription_command, RetranscriptionControl, RetranscriptionGuard, RunState,
    StartRefusal, StatusBoard,
};
use meetily_audio::segmentation::FALLBACK_OVERLAP;
use meetily_audio::transcripts::{
    create_transcript_segments, transcript_document, write_transcripts_json,
    StoredTranscriptSegment,
};

fn said(text: &str, start_ms: u64, end_ms: u64) -> TimedText {
    TimedText {
        text: text.to_string(),
        start_ns: start_ms * 1_000_000,
        end_ns: end_ms * 1_000_000,
    }
}

#[test]
fn test_create_transcript_segments_empty() {
    let segments = create_transcript_segments(&vec![]);
    assert!(segments.is_empty());
}

#[test]
fn dedupe_leading_overlap_removes_the_repeated_lead_in() {
    assert_eq!(
        dedupe_leading_overlap("……普拉提斯", "普拉提斯，他也没有做过电商"),
        "，他也没有做过电商"
    );
    assert_eq!(
        dedupe_leading_overlap(
            "那么比V4 Flash的话是高了将近20分了",
            "高了将近20分了，这个提升是非常大的"
        ),
        "，这个提升是非常大的"
    );
}

#[test]
fn dedupe_leading_overlap_keeps_unrelated_text() {
    assert_eq!(
        dedupe_leading_overlap("我们讨论了供应链", "他也没有做过电商"),
        "他也没有做过电商"
    );
    assert_eq!(dedupe_leading_overlap("分数是12", "12分。一毛"), "12分。一毛");
}

#[test]
fn dedupe_ignores_punctuation_between_repeated_characters() {
    assert_eq!(dedupe_leading_overlap("one two.three", "two, three four"), " four");
}

#[test]
fn retranscription_metadata_replaces_stale_duration_with_decoded_audio_duration() {
    let edits = write_retranscription_metadata(
        true,
        "meeting-duration-test",
        67_820_000_000,
        "audio.mp4",
        None,
        None,
    );
    let text_of = |wanted: &str| -> Option<String> {
        edits.iter().find_map(|edit| match edit {
            MetadataEdit::Text { key, value } if *key == wanted => Some(value.clone()),
            _ => None,
        })
    };
    assert!(edits.iter().any(|edit| matches!(
        edit,
        MetadataEdit::Duration { key, duration_ns }
            if *key == "duration_seconds" && *duration_ns == 67_820_000_000
    )));
    assert_eq!(text_of("audio_file").as_deref(), Some("audio.mp4"));
    assert_eq!(text_of("status").as_deref(), Some("completed"));
    assert!(text_of("retranscribed_at").is_some());
    assert!(text_of("custom_field").is_none());
}

#[test]
fn metadata_edits_name_the_model_and_the_time() {
    let edits = retranscription_edits(
        true,
        "m",
        1,
        "audio.mp4",
        Some("parakeet"),
        Some("model-x"),
        "2026-01-01T00:00:00Z",
    );
    let values: Vec<&str> = edits
        .iter()
        .filter_map(|edit| match edit {
            MetadataEdit::Text { value, .. } => Some(value.as_str()),
            _ => None,
        })
        .collect();
    assert!(values.contains(&"parakeet"));
    assert!(values.contains(&"model-x"));
    assert!(values.contains(&"2026-01-01T00:00:00Z"));
}

#[test]
fn test_create_transcript_segments_single() {
    let segments = create_transcript_segments(&vec![said("Hello world", 0, 1_500)]);

    assert_eq!(segments.len(), 1);
    assert_eq!(segments[0].text, "Hello world");
    assert_eq!(segments[0].audio_start_ns, 0);
    assert_eq!(segments[0].audio_end_ns, 1_500_000_000);
    assert_eq!(segments[0].duration_ns, 1_500_000_000);
}

#[test]
fn test_create_transcript_segments_multiple() {
    let segments = create_transcript_segments(&vec![
        said("First segment", 0, 2_000),
        said("Second segment", 3_000, 5_000),
        said("Third segment", 6_500, 8_000),
    ]);

    assert_eq!(segments.len(), 3);

    assert_eq!(segments[0].text, "First segment");
    assert_eq!(segments[0].audio_start_ns, 0);
    assert_eq!(segments[0].audio_end_ns, 2_000_000_000);
    assert_eq!(segments[0].duration_ns, 2_000_000_000);

    assert_eq!(segments[1].text, "Second segment");
    assert_eq!(segments[1].audio_start_ns, 3_000_000_000);
    assert_eq!(segments[1].audio_end_ns, 5_000_000_000);
    assert_eq!(segments[1].duration_ns, 2_000_000_000);

    assert_eq!(segments[2].text, "Third segment");
    assert_eq!(segments[2].audio_start_ns, 6_500_000_000);
    assert_eq!(segments[2].audio_end_ns, 8_000_000_000);
    assert_eq!(segments[2].duration_ns, 1_500_000_000);
}

#[test]
fn test_create_transcript_segments_trims_whitespace() {
    let segments = create_transcript_segments(&vec![said("  Hello with spaces  ", 0, 1_000)]);

    assert_eq!(segments.len(), 1);
    assert_eq!(segments[0].text, "Hello with spaces");
}

#[test]
fn test_create_transcript_segments_generates_unique_ids() {
    let segments = create_transcript_segments(&vec![
        said("Segment one", 0, 1_000),
        said("Segment two", 1_000, 2_000),
    ]);

    assert_eq!(segments.len(), 2);
    assert_ne!(segments[0].id, segments[1].id);
    assert!(segments[0].id.starts_with("transcript-"));
    assert!(segments[1].id.starts_with("transcript-"));
}

#[test]
fn segment_times_are_written_in_universal_time() {
    let segments = create_transcript_segments(&vec![said("x", 0, 1)]);
    assert!(segments[0].timestamp.contains('T'));
    assert!(segments[0].timestamp.len() >= 20);
}

#[test]
fn test_cancellation_flag() {
    let mut control = RetranscriptionControl { in_progress: false, cancelled: false };

    assert!(!is_retranscription_in_progress(&control));

    cancel_retranscription(&mut control);
    assert!(control.cancelled);
}

#[test]
fn only_one_meeting_is_transcribed_again_at_a_time() {
    let mut control = RetranscriptionControl { in_progress: false, cancelled: true };
    let guard = begin_retranscription(&mut control).unwrap();
    assert!(!control.cancelled);
    assert!(is_retranscription_in_progress(&control));
    assert!(RetranscriptionGuard::acquire(&mut control).is_err());
    assert!(cancel_retranscription_command(&mut control).is_ok());
    guard.release(&mut control);
    assert!(!is_retranscription_in_progress(&control));
    assert!(cancel_retranscription_command(&mut control).is_err());
    assert!(RetranscriptionGuard::acquire(&mut control).is_ok());
    assert!(control.cancelled);
}

#[test]
fn test_normalize_requested_language_keeps_explicit_chinese() {
    assert_eq!(
        normalize_requested_language(Some("zh".to_string())),
        Some("zh".to_string())
    );
}

#[test]
fn test_normalize_requested_language_maps_automatic_modes_to_none() {
    assert_eq!(normalize_requested_language(Some("auto".to_string())), None);
    assert_eq!(
        normalize_requested_language(Some("auto-translate".to_string())),
        None
    );
    assert_eq!(normalize_requested_language(Some(String::new())), None);
    assert_eq!(normalize_requested_language(None), None);
}

#[test]
fn test_vad_redemption_time_constant() {
    assert_eq!(VAD_REDEMPTION_TIME_MS, 2000);
}

fn look_for_audio(entries: &[&str]) -> Option<String> {
    let candidates = audio_candidates();
    let present: Vec<bool> = candidates
        .iter()
        .map(|name| entries.contains(name))
        .collect();
    let listed: Vec<String> = entries.iter().map(|name| name.to_string()).collect();
    match find_audio_file(&present, &listed) {
        Ok(AudioFile::Candidate(i)) => Some(candidates[i].to_string()),
        Ok(AudioFile::Entry(i)) => Some(listed[i].clone()),
        Err(_) => None,
    }
}

#[test]
fn test_find_audio_file_common_candidates() {
    assert!(look_for_audio(&[]).is_none());
    assert_eq!(look_for_audio(&["audio.mp4"]).unwrap(), "audio.mp4");
}

#[test]
fn test_find_audio_file_non_mp4_extensions() {
    assert_eq!(look_for_audio(&["audio.wav"]).unwrap(), "audio.wav");
}

#[test]
fn test_find_audio_file_fallback_scan() {
    assert_eq!(
        look_for_audio(&["my_recording.flac", "notes.txt"]).unwrap(),
        "my_recording.flac"
    );
    assert_eq!(look_for_audio(&["notes.txt", "LOUD.FLAC"]).unwrap(), "LOUD.FLAC");
}

#[test]
fn test_find_audio_file_priority_order() {
    assert_eq!(look_for_audio(&["audio.m4a", "audio.mp4"]).unwrap(), "audio.mp4");
}

#[test]
fn test_find_audio_file_empty_folder() {
    let none = vec![false; audio_candidates().len()];
    let result = find_audio_file(&none, &vec![]);
    assert!(result.is_err());
    assert!(result.unwrap_err().message("/folder").contains("No audio file found"));
}

#[test]
fn test_find_audio_file_nonexistent_folder() {
    let none = vec![false; audio_candidates().len()];
    assert!(find_audio_file(&none, &vec![]).is_err());
}

#[test]
fn test_audio_extensions_constant() {
    assert!(audio_extension("mp4"));
    assert!(audio_extension("m4a"));
    assert!(audio_extension("wav"));
    assert!(audio_extension("mp3"));
    assert!(audio_extension("flac"));
    assert!(audio_extension("ogg"));
    assert!(audio_extension("aac"));
    assert!(audio_extension("mkv"));
    assert!(audio_extension("webm"));
    assert!(audio_extension("wma"));
    assert!(!audio_extension("txt"));
    assert!(!audio_extension("pdf"));
}

#[test]
fn engines_are_chosen_by_their_provider() {
    assert_eq!(requested_engine(Some("parakeet")), BatchEngine::Parakeet);
    assert_eq!(requested_engine(Some("sensevoice")), BatchEngine::SenseVoice);
    assert_eq!(requested_engine(None), BatchEngine::Whisper);
    assert!(validate_language(BatchEngine::Parakeet, Some("zh")).is_err());
    assert!(validate_language(BatchEngine::Whisper, Some("zh")).is_ok());
}

#[test]
fn an_engine_in_use_by_a_recording_stays_loaded() {
    assert_eq!(unload_engine_after_batch(BatchEngine::Whisper, true), None);
    assert_eq!(
        unload_engine_after_batch(BatchEngine::Whisper, false),
        Some(BatchEngine::Whisper)
    );
}

#[test]
fn prompts_are_reported_by_engine() {
    assert_ne!(
        recognition_prompt_status(BatchEngine::Whisper, true),
        recognition_prompt_status(BatchEngine::Whisper, false)
    );
}

#[test]
fn models_are_loaded_when_another_one_is() {
    assert!(needs_load(&None, "large"));
    assert!(needs_load(&Some("small".to_string()), "large"));
    assert!(!needs_load(&Some("large".to_string()), "large"));
}

#[test]
fn configured_models_fall_back_to_the_default() {
    assert_eq!(get_configured_whisper_model(None, "base").unwrap(), "base");
    let other = Some(("parakeet".to_string(), "p1".to_string()));
    let error = get_configured_whisper_model(other, "base").unwrap_err();
    assert!(error.message().contains("parakeet"));
    let whisper = Some(("localWhisper".to_string(), "medium".to_string()));
    assert_eq!(get_configured_whisper_model(whisper, "base").unwrap(), "medium");
    assert_eq!(get_configured_parakeet_model(None, "p0"), "p0");
    assert_eq!(
        get_configured_parakeet_model(Some(("parakeet".to_string(), "p1".to_string())), "p0"),
        "p1"
    );
}

#[test]
fn a_run_decodes_detects_transcribes_and_saves() {
    let (mut run, first) = RetranscriptionRun::start(BatchEngine::Whisper, false);
    assert!(matches!(first.action, RunAction::Decode));
    assert!(matches!(run.decoded(Ok(()), false).unwrap().action, RunAction::Convert));
    assert!(matches!(run.converted(Ok(()), false).unwrap().action, RunAction::DetectSpeech));
    assert!(matches!(run.speech_detected(Ok(2)).unwrap().action, RunAction::LoadEngine));
    assert!(matches!(run.engine_loaded(Ok(()), 2, false).unwrap().action, RunAction::Transcribe(0)));
    let next = run
        .segment_transcribed(Ok("hello there".to_string()), 0, 1_000, false)
        .unwrap();
    assert!(matches!(next.action, RunAction::Transcribe(1)));
    assert!(matches!(run.segment_skipped(false).action, RunAction::BackUp));
    assert!(matches!(run.backed_up(Ok(())).unwrap().action, RunAction::Save));
    assert_eq!(run.texts.len(), 1);
    assert!(matches!(run.saved(Ok(())).unwrap().action, RunAction::Finish));
    assert_eq!(run.phase, RunPhase::Done);
}

#[test]
fn a_cancelled_run_stops_at_the_next_step() {
    let (run, first) = RetranscriptionRun::start(BatchEngine::Whisper, true);
    assert!(matches!(first.action, RunAction::Stop(RunFailure::Cancelled)));
    assert_eq!(run.phase, RunPhase::Stopped);
    let (mut run, _) = RetranscriptionRun::start(BatchEngine::Whisper, false);
    let step = run.decoded(Ok(()), true).unwrap();
    assert!(matches!(step.action, RunAction::Stop(RunFailure::Cancelled)));
}

#[test]
fn a_recording_without_speech_cannot_be_transcribed() {
    let (mut run, _) = RetranscriptionRun::start(BatchEngine::Whisper, false);
    run.decoded(Ok(()), false).unwrap();
    run.converted(Ok(()), false).unwrap();
    let step = run.speech_detected(Ok(0)).unwrap();
    assert!(matches!(step.action, RunAction::Stop(RunFailure::NoSpeech)));
}

#[test]
fn progress_grows_with_the_steps() {
    let decoding = ProgressNote::Decoding.report("m").progress_percentage;
    let saving = ProgressNote::Saving.report("m").progress_percentage;
    let complete = ProgressNote::Complete.report("m");
    assert!(decoding < saving);
    assert_eq!(complete.progress_percentage, 100);
    assert_eq!(complete.meeting_id, "m");
    assert!(vad_progress("m", 100, 4).progress_percentage <= saving);
}

#[test]
fn finished_meetings_are_remembered() {
    let mut board = StatusBoard::new();
    board.begin("m-1".to_string()).unwrap();
    assert!(board.begin("m-1".to_string()).is_err());
    assert_eq!(board.get_retranscription_status_command("m-1").state, RunState::Running);
    board.finish("m-1".to_string(), None);
    assert_eq!(board.get_retranscription_status_command("m-1").state, RunState::Failed);
    assert_eq!(board.get_retranscription_status_command("m-2").state, RunState::Unknown);
}

#[test]
fn requests_are_accepted_once_and_with_a_language_of_the_engine() {
    let control = RetranscriptionControl { in_progress: false, cancelled: false };
    let mut board = StatusBoard::new();
    let refused = start_retranscription_command(
        &control,
        &mut board,
        "m".to_string(),
        Some("parakeet"),
        Some("zh"),
    );
    assert!(matches!(refused, Err(StartRefusal::Language(_))));
    let started =
        start_retranscription_command(&control, &mut board, "m".to_string(), None, Some("zh"));
    assert_eq!(started.unwrap().message, "Retranscription started");
    let again = start_retranscription_command(&control, &mut board, "m".to_string(), None, None);
    assert!(matches!(again, Err(StartRefusal::AlreadyInProgress)));
    let busy = RetranscriptionControl { in_progress: true, cancelled: false };
    let other = start_retranscription_command(&busy, &mut board, "n".to_string(), None, None);
    assert!(matches!(other, Err(StartRefusal::AlreadyInProgress)));
}

#[test]
fn the_requested_model_is_loaded_where_it_is_not() {
    let plan = plan_model(true, Some("large".to_string()), Err("x".to_string()), &None).unwrap();
    assert!(plan.load);
    let error = model_loaded(plan, Err("no memory".to_string())).unwrap_err();
    assert_eq!(error.message("Whisper"), "Failed to load Whisper model 'large': no memory");
    let current = Some("base".to_string());
    let plan = plan_model(true, None, Ok("base".to_string()), &current).unwrap();
    assert!(!plan.load);
    assert_eq!(model_loaded(plan, Ok(())).unwrap(), "base");
    assert!(matches!(
        plan_model(true, None, Err("x".to_string()), &None),
        Err(ModelError::NotConfigured(_))
    ));
    let missing = plan_model(false, None, Ok("base".to_string()), &None).unwrap_err();
    assert_eq!(missing.message("Parakeet"), "Parakeet engine not initialized");
}

fn is_utc_time(text: &str) -> bool {
    let shape: String =
        text.chars().map(|c| if c.is_ascii_digit() { '0' } else { c }).collect();
    let fractions = ["", ".000", ".000000", ".000000000"];
    fractions.iter().any(|fraction| shape == format!("0000-00-00T00:00:00{fraction}+00:00"))
        && text.ends_with("+00:00")
}

#[test]
fn the_rows_of_a_text_file_are_numbered_in_their_order() {
    let rows = create_transcript_segments(&vec![said("one", 0, 1), said("two", 1, 2)]);
    let document = transcript_document(rows, "2026-01-01T00:00:00Z".to_string());
    assert_eq!(document.version, "1.0");
    assert_eq!(document.total_segments, 2);
    assert_eq!(document.last_updated, "2026-01-01T00:00:00Z");
    assert_eq!(document.segments[1].segment.text, "two");
    assert_eq!(document.segments[1].sequence_id, 1);
    let now = write_transcripts_json(vec![]);
    assert_eq!(now.total_segments, 0);
    assert!(is_utc_time(&now.last_updated));
    let rows = create_transcript_segments(&vec![said("one", 0, 1)]);
    assert!(is_utc_time(&rows[0].timestamp));
}

#[test]
fn a_segment_that_fails_is_named() {
    assert_eq!(
        describe_segment_failure(BatchEngine::Parakeet, 12, "no memory"),
        "Parakeet transcription failed on segment 12: no memory"
    );
}

#[test]
fn texts_that_cannot_be_put_aside_are_not_replaced() {
    let (mut run, _) = RetranscriptionRun::start(BatchEngine::Whisper, false);
    run.decoded(Ok(()), false).unwrap();
    run.converted(Ok(()), false).unwrap();
    run.speech_detected(Ok(1)).unwrap();
    let step = run.engine_loaded(Ok(()), 0, false).unwrap();
    assert!(matches!(step.action, RunAction::BackUp));
    assert_eq!(run.backed_up(Err("disk full".to_string())).unwrap_err(), "disk full");
    assert_eq!(run.phase, RunPhase::Stopped);
}

type Speech = DetectedSpeech<f32, fn(usize) -> u32>;
type Run = RunOutcomes<f32, fn(usize) -> u32>;

fn as_loud_everywhere(_start: usize) -> u32 {
    1.0f32.to_bits()
}

fn speech(samples: usize, start_ms: u64, end_ms: u64) -> Speech {
    DetectedSpeech {
        start_ns: start_ms * 1_000_000,
        end_ns: end_ms * 1_000_000,
        samples: vec![0.5; samples],
        measure: as_loud_everywhere,
    }
}

fn said_outcome(text: &str) -> PartOutcome {
    PartOutcome { cancelled: false, said: Ok(text.to_string()) }
}

fn heard(text: &str, start_ms: u64, end_ms: u64) -> (Speech, PartOutcome) {
    (speech(16_000, start_ms, end_ms), said_outcome(text))
}

fn good_run(heard: Vec<(Speech, PartOutcome)>) -> Run {
    let (speech, parts): (Vec<Speech>, Vec<PartOutcome>) = heard.into_iter().unzip();
    RunOutcomes {
        audio: Ok(()),
        context: Ok(None),
        work: WorkOutcomes {
            cancelled_before_decoding: false,
            decoded: Ok(67_820_000_000),
            cancelled_before_converting: false,
            converted: Ok(()),
            cancelled_before_detecting: false,
            speech: Ok(speech),
            engine: Ok(()),
            parts,
            cancelled_before_saving: false,
            backup: Ok("transcripts.backup.json".to_string()),
        },
        replaced: Ok(()),
        file_sync_pending: false,
    }
}

fn ask(provider: Option<&str>, language: Option<&str>) -> RunRequest {
    RunRequest {
        meeting_id: "m".to_string(),
        language: language.map(|l| l.to_string()),
        provider: provider.map(|p| p.to_string()),
    }
}

fn old_rows() -> Vec<StoredTranscriptSegment> {
    create_transcript_segments(&vec![said("old text", 0, 1_000)])
}

#[test]
fn a_meeting_is_transcribed_again_into_new_rows() {
    let mut stored = old_rows();
    let mut brief = heard("not looked at", 3_000, 3_050);
    brief.0.samples.truncate(800);
    let segments = vec![
        heard(" one two three ", 0, 1_000),
        heard("   ", 1_000, 2_000),
        brief,
        heard("two three four", 4_000, 5_000),
    ];
    let mut outcomes = good_run(segments);
    outcomes.context = Ok(Some(RecognitionContextId {
        context_id: "ctx".to_string(),
        context_sha256: "c".repeat(64),
    }));
    let result = run_retranscription(&mut stored, ask(None, Some("en")), outcomes).unwrap();
    assert_eq!(result.segments_count, 2);
    assert_eq!(result.duration_ns, 67_820_000_000);
    assert_eq!(result.backup_file.as_deref(), Some("transcripts.backup.json"));
    assert_eq!(result.recognition_context_id.as_deref(), Some("ctx"));
    assert_eq!(result.recognition_prompt_status, "disabled_pending_safety_gate");
    assert_eq!(stored.len(), 2);
    assert_eq!(stored[0].text, "one two three");
    assert_eq!(stored[1].text, "four");
    assert_eq!(stored[1].audio_start_ns, 4_000_000_000);
}

#[test]
fn without_old_rows_there_is_no_backup() {
    let mut stored = Vec::new();
    let mut outcomes = good_run(vec![heard("hello", 0, 1_000)]);
    outcomes.work.backup = Err("never asked for".to_string());
    let result = run_retranscription(&mut stored, ask(None, None), outcomes).unwrap();
    assert!(result.backup_file.is_none());
    assert_eq!(stored.len(), 1);
}

#[test]
fn every_failure_leaves_the_stored_rows() {
    let mut cases: Vec<(Run, &str)> = Vec::new();
    let fresh = || good_run(vec![heard("hello", 0, 1_000)]);
    let mut case = fresh();
    case.audio = Err("No audio file found in: /m".to_string());
    cases.push((case, "No audio file found in: /m"));
    let mut case = fresh();
    case.context = Err("bad context".to_string());
    cases.push((case, "bad context"));
    let mut case = fresh();
    case.work.cancelled_before_decoding = true;
    cases.push((case, "Retranscription cancelled"));
    let mut case = fresh();
    case.work.decoded = Err("broken file".to_string());
    cases.push((case, "broken file"));
    let mut case = fresh();
    case.work.cancelled_before_converting = true;
    cases.push((case, "Retranscription cancelled"));
    let mut case = fresh();
    case.work.converted = Err("panicked".to_string());
    cases.push((case, "panicked"));
    let mut case = fresh();
    case.work.cancelled_before_detecting = true;
    cases.push((case, "Retranscription cancelled"));
    let mut case = fresh();
    case.work.speech = Err("no model".to_string());
    cases.push((case, "VAD processing failed: no model"));
    let mut case = fresh();
    case.work.speech = Ok(Vec::new());
    cases.push((case, "No speech detected in audio file"));
    let mut case = fresh();
    case.work.engine = Err("Whisper engine not initialized".to_string());
    cases.push((case, "Whisper engine not initialized"));
    let mut case = fresh();
    case.work.parts[0].cancelled = true;
    cases.push((case, "Retranscription cancelled"));
    let mut case = fresh();
    case.work.parts[0].said = Err("no memory".to_string());
    cases.push((case, "Whisper transcription failed on segment 0: no memory"));
    let mut case = fresh();
    case.work.cancelled_before_saving = true;
    cases.push((case, "Retranscription cancelled"));
    let mut case = fresh();
    case.work.backup = Err("disk full".to_string());
    cases.push((case, "disk full"));
    let mut case = fresh();
    case.replaced = Err("Failed to commit transaction: locked".to_string());
    cases.push((case, "Failed to commit transaction: locked"));
    for (outcomes, expected) in cases {
        let mut stored = old_rows();
        match run_retranscription(&mut stored, ask(None, None), outcomes) {
            Err(RunError::Failed(message)) => assert_eq!(message, expected),
            other => panic!("{expected}: {other:?}"),
        }
        assert_eq!(stored.len(), 1);
        assert_eq!(stored[0].text, "old text");
    }
}

#[test]
fn speech_that_nothing_came_of_leaves_the_stored_rows() {
    let mut stored = old_rows();
    let mut outcomes = good_run(vec![
        heard("one", 0, 1_000),
        heard("two", 1_000, 2_000),
        heard("three", 2_000, 3_000),
    ]);
    outcomes.work.parts.clear();
    match run_retranscription(&mut stored, ask(None, None), outcomes) {
        Err(RunError::Failed(message)) => assert_eq!(message, "Retranscription cancelled"),
        other => panic!("{other:?}"),
    }
    assert_eq!(stored[0].text, "old text");
}

#[test]
fn long_speech_is_transcribed_in_parts() {
    let long = || {
        let mut outcomes = good_run(vec![(speech(480_000, 0, 30_000), said_outcome("one two"))]);
        outcomes.work.parts.push(said_outcome("three"));
        outcomes
    };
    let mut stored = old_rows();
    run_retranscription(&mut stored, ask(None, None), long()).unwrap();
    assert_eq!(stored.len(), 2);
    assert_eq!(stored[0].text, "one two");
    assert_eq!(stored[0].audio_start_ns, 0);
    assert_eq!(stored[1].text, "three");
    assert_eq!(stored[0].audio_end_ns, stored[1].audio_start_ns);
    assert_eq!(stored[1].audio_end_ns, 30_000_000_000);

    let mut stored = old_rows();
    let mut outcomes = long();
    outcomes.work.parts.pop();
    assert!(run_retranscription(&mut stored, ask(None, None), outcomes).is_err());
    assert_eq!(stored[0].text, "old text");
}

#[test]
fn parts_join_to_all_speech() {
    let numbered = |count: usize, from: usize| DetectedSpeech {
        start_ns: 0,
        end_ns: count as u64 * 62_500,
        samples: (from..from + count).collect::<Vec<usize>>(),
        measure: as_loud_everywhere as fn(usize) -> u32,
    };
    let speech = vec![numbered(1_000, 0), numbered(900_000, 1_000), numbered(5, 901_000)];
    let parts = processable_segments(&speech);
    assert!(parts.len() > 4);
    assert_eq!(parts[0].samples, speech[0].samples);
    assert_eq!(parts.last().unwrap().samples, speech[2].samples);
    let mut joined: Vec<usize> = Vec::new();
    for part in &parts {
        let next = joined.len();
        joined.extend(part.samples.iter().filter(|sample| **sample >= next));
    }
    assert_eq!(joined, (0..901_005).collect::<Vec<usize>>());
    for part in &parts[2..parts.len() - 1] {
        assert!(part.samples.len() <= MAX_SEGMENT_SAMPLES + FALLBACK_OVERLAP + LEAD_IN_SAMPLES);
    }
}

#[test]
fn a_language_that_the_engine_does_not_take_leaves_the_stored_rows() {
    let mut stored = old_rows();
    let outcomes = good_run(vec![heard("hello", 0, 1_000)]);
    let refused = run_retranscription(&mut stored, ask(Some("parakeet"), Some("zh")), outcomes);
    assert!(matches!(refused, Err(RunError::Language(_))));
    assert_eq!(stored[0].text, "old text");
}
