//! Ending and saving a recording, step by step.
//!
//! Audio is salvaged after a write error and text after a failure to merge audio, but no failure
//! is hidden: the first one decides the outcome.

use vstd::prelude::*;
use vstd::string::*;

use crate::devices::configuration::{clone_text, text_of};
use crate::text;

verus! {

/// A step of ending and saving, for the timeline of a measurement.
#[derive(Debug)]
pub struct StageNote {
    pub stage: &'static str,
    pub result: &'static str,
    pub error: Option<String>,
}

/// What a `StageNote` stands for.
#[verifier::ext_equal]
pub struct Stage {
    pub stage: Seq<char>,
    pub result: Seq<char>,
    pub error: Option<Seq<char>>,
}

impl View for StageNote {
    type V = Stage;

    open spec fn view(&self) -> Stage {
        Stage { stage: self.stage@, result: self.result@, error: text_of(self.error) }
    }
}

/// What a list of steps stands for.
pub open spec fn stage_texts(notes: Seq<StageNote>) -> Seq<Stage> {
    Seq::new(notes.len(), |i: int| notes[i]@)
}

/// A step that went well, or began.
pub open spec fn plain(stage: Seq<char>, result: Seq<char>) -> Stage {
    Stage { stage, result, error: None }
}

pub(crate) fn note(stage: &'static str, result: &'static str) -> (r: StageNote)
    ensures
        r@ == plain(stage@, result@),
{
    StageNote { stage, result, error: None }
}

pub(crate) fn failed_note(stage: &'static str, error: &str) -> (r: StageNote)
    ensures
        r@ == (Stage { stage: stage@, result: "failed"@, error: Some(error@) }),
{
    StageNote { stage, result: "failed", error: Some(error.to_owned()) }
}

/// Where the saving of a recording stands.
#[derive(Debug, Clone, Copy, PartialEq, Eq, Structural)]
pub enum SavePhase {
    /// The writer of audio works off what it was given.
    Draining,
    /// The checkpoints are merged.
    Merging,
    /// The text is written.
    WritingText,
    /// The metadata says that the recording is complete.
    CompletingMetadata,
    /// The metadata says that the saving failed.
    PersistingFailure,
    /// The saved recording is announced.
    Announcing,
    Finished,
}

/// What is to be done next.
#[derive(Debug)]
pub enum SaveAction {
    AwaitWriter,
    MergeAudio,
    WriteText,
    CompleteMetadata,
    PersistFailure,
    Announce,
    /// The outcome: the path of the audio file, if audio is saved, or what went wrong first.
    Finish(Result<Option<String>, String>),
}

/// The saving of a recording.
pub struct SaveRun {
    pub phase: SavePhase,
    pub saves_audio: bool,
    pub save_error: Option<String>,
    pub audio_path: String,
}

/// What is to be done next, and which steps are put on record.
pub struct SaveStep {
    pub stages: Vec<StageNote>,
    pub action: SaveAction,
}

/// How the writing of the text went.
#[derive(Debug)]
pub enum TextOutcome {
    Written,
    FolderUnavailable,
    Failed(String),
}

impl TextOutcome {
    /// The failure, if it is one.
    pub open spec fn failure(self) -> Option<Seq<char>> {
        match self {
            TextOutcome::Written => None,
            TextOutcome::FolderUnavailable => Some("Meeting folder is unavailable"@),
            TextOutcome::Failed(error) => Some("Failed to save transcripts: "@ + error@),
        }
    }
}

/// The first of two failures.
pub open spec fn first_failure(earlier: Option<Seq<char>>, later: Option<Seq<char>>) -> Option<
    Seq<char>,
> {
    if earlier is Some {
        earlier
    } else {
        later
    }
}

/// What an outcome that may be a failure says.
pub open spec fn failure_of(outcome: Result<(), String>) -> Option<Seq<char>> {
    match outcome {
        Ok(_) => None,
        Err(error) => Some(error@),
    }
}

/// The step that records how something ended.
pub open spec fn ended(stage: Seq<char>, failure: Option<Seq<char>>) -> Stage {
    Stage {
        stage,
        result: if failure is Some { "failed"@ } else { "completed"@ },
        error: failure,
    }
}

pub(crate) fn ended_note(stage: &'static str, failure: &Option<String>) -> (r: StageNote)
    ensures
        r@ == ended(stage@, text_of(*failure)),
{
    StageNote {
        stage,
        result: if failure.is_some() { "failed" } else { "completed" },
        error: clone_text(failure),
    }
}

impl SaveRun {
    /// What was the first failure.
    pub open spec fn failure(&self) -> Option<Seq<char>> {
        text_of(self.save_error)
    }

    /// Begins to save. `save_error` is what went wrong in an earlier attempt.
    pub fn start(saves_audio: bool, save_error: Option<String>) -> (r: (SaveRun, SaveStep))
        ensures
            r.0.phase == SavePhase::Draining,
            r.0.saves_audio == saves_audio,
            r.0.save_error == save_error,
            r.0.audio_path@ == ""@,
            r.1.action is AwaitWriter,
            stage_texts(r.1.stages@) == seq![
                plain("final_save_started"@, "started"@),
                plain("tail_wait_started"@, "started"@),
            ],
    {
        let mut stages: Vec<StageNote> = Vec::new();
        stages.push(note("final_save_started", "started"));
        stages.push(note("tail_wait_started", "started"));
        assert(stage_texts(stages@) =~= seq![
            plain("final_save_started"@, "started"@),
            plain("tail_wait_started"@, "started"@),
        ]);
        proof {
            reveal_strlit("");
            assert(Seq::<char>::empty() =~= ""@);
        }
        (
            SaveRun {
                phase: SavePhase::Draining,
                saves_audio,
                save_error,
                audio_path: String::new(),
            },
            SaveStep { stages, action: SaveAction::AwaitWriter },
        )
    }

    fn note_failure(&mut self, error: String)
        ensures
            final(self).phase == old(self).phase,
            final(self).saves_audio == old(self).saves_audio,
            final(self).audio_path == old(self).audio_path,
            final(self).failure() == first_failure(old(self).failure(), Some(error@)),
    {
        if self.save_error.is_none() {
            self.save_error = Some(error);
        }
    }

    /// The writer of audio has ended.
    pub fn writer_ended(&mut self, outcome: Result<(), String>) -> (r: SaveStep)
        requires
            old(self).phase == SavePhase::Draining,
        ensures
            final(self).saves_audio == old(self).saves_audio,
            final(self).audio_path == old(self).audio_path,
            final(self).failure() == first_failure(old(self).failure(), failure_of(outcome)),
            old(self).saves_audio ==> final(self).phase == SavePhase::Merging
                && r.action is MergeAudio && stage_texts(r.stages@) == seq![
                ended("accumulation_stopped"@, final(self).failure()),
                ended("tail_wait_finished"@, final(self).failure()),
                plain("checkpoint_merge_started"@, "started"@),
            ],
            !old(self).saves_audio ==> final(self).phase == SavePhase::WritingText
                && r.action is WriteText && stage_texts(r.stages@) == seq![
                ended("accumulation_stopped"@, final(self).failure()),
                ended("tail_wait_finished"@, final(self).failure()),
                plain("checkpoint_merge_finished"@, "not_applicable"@),
                plain("final_transcript_write_started"@, "started"@),
            ],
    {
        if let Err(error) = outcome {
            self.note_failure(error);
        }
        let mut stages: Vec<StageNote> = Vec::new();
        stages.push(ended_note("accumulation_stopped", &self.save_error));
        stages.push(ended_note("tail_wait_finished", &self.save_error));
        if self.saves_audio {
            stages.push(note("checkpoint_merge_started", "started"));
            self.phase = SavePhase::Merging;
            assert(stage_texts(stages@) =~= seq![
                ended("accumulation_stopped"@, self.failure()),
                ended("tail_wait_finished"@, self.failure()),
                plain("checkpoint_merge_started"@, "started"@),
            ]);
            SaveStep { stages, action: SaveAction::MergeAudio }
        } else {
            stages.push(note("checkpoint_merge_finished", "not_applicable"));
            stages.push(note("final_transcript_write_started", "started"));
            self.phase = SavePhase::WritingText;
            assert(stage_texts(stages@) =~= seq![
                ended("accumulation_stopped"@, self.failure()),
                ended("tail_wait_finished"@, self.failure()),
                plain("checkpoint_merge_finished"@, "not_applicable"@),
                plain("final_transcript_write_started"@, "started"@),
            ]);
            SaveStep { stages, action: SaveAction::WriteText }
        }
    }

    /// The checkpoints were merged into a file, or not.
    pub fn audio_merged(&mut self, outcome: Result<String, String>) -> (r: SaveStep)
        requires
            old(self).phase == SavePhase::Merging,
        ensures
            final(self).phase == SavePhase::WritingText,
            final(self).saves_audio == old(self).saves_audio,
            r.action is WriteText,
            match outcome {
                Ok(path) => {
                    &&& final(self).audio_path == path
                    &&& final(self).failure() == old(self).failure()
                    &&& stage_texts(r.stages@) == seq![
                        plain("checkpoint_merge_finished"@, "completed"@),
                        plain("final_transcript_write_started"@, "started"@),
                    ]
                },
                Err(error) => {
                    &&& final(self).audio_path == old(self).audio_path
                    &&& final(self).failure() == first_failure(
                        old(self).failure(), Some("Failed to finalize audio: "@ + error@))
                    &&& stage_texts(r.stages@) == seq![
                        ended("checkpoint_merge_finished"@, Some(error@)),
                        plain("final_transcript_write_started"@, "started"@),
                    ]
                },
            },
    {
        let mut stages: Vec<StageNote> = Vec::new();
        self.phase = SavePhase::WritingText;
        match outcome {
            Ok(path) => {
                self.audio_path = path;
                stages.push(note("checkpoint_merge_finished", "completed"));
                stages.push(note("final_transcript_write_started", "started"));
                assert(stage_texts(stages@) =~= seq![
                    plain("checkpoint_merge_finished"@, "completed"@),
                    plain("final_transcript_write_started"@, "started"@),
                ]);
            },
            Err(error) => {
                stages.push(failed_note("checkpoint_merge_finished", error.as_str()));
                self.note_failure(text::joined("Failed to finalize audio: ", error.as_str()));
                stages.push(note("final_transcript_write_started", "started"));
                assert(stage_texts(stages@) =~= seq![
                    ended("checkpoint_merge_finished"@, Some(error@)),
                    plain("final_transcript_write_started"@, "started"@),
                ]);
            },
        }
        SaveStep { stages, action: SaveAction::WriteText }
    }

    /// The text was written, or not. `writer_error` is what went wrong with rows before.
    pub fn text_written(&mut self, outcome: TextOutcome, writer_error: Option<String>) -> (r:
        SaveStep)
        requires
            old(self).phase == SavePhase::WritingText,
        ensures
            final(self).saves_audio == old(self).saves_audio,
            final(self).audio_path == old(self).audio_path,
            final(self).failure() == first_failure(
                first_failure(old(self).failure(), outcome.failure()), text_of(writer_error)),
            final(self).failure() is Some ==> final(self).phase == SavePhase::PersistingFailure
                && r.action is PersistFailure && stage_texts(r.stages@) == seq![
                ended("final_transcript_write_finished"@, outcome.failure()),
            ],
            final(self).failure() is None ==> final(self).phase == SavePhase::CompletingMetadata
                && r.action is CompleteMetadata && stage_texts(r.stages@) == seq![
                ended("final_transcript_write_finished"@, outcome.failure()),
                plain("metadata_completion_started"@, "started"@),
            ],
    {
        let failure: Option<String> = match outcome {
            TextOutcome::Written => None,
            TextOutcome::FolderUnavailable => Some("Meeting folder is unavailable".to_owned()),
            TextOutcome::Failed(error) => Some(
                text::joined("Failed to save transcripts: ", error.as_str()),
            ),
        };
        let mut stages: Vec<StageNote> = Vec::new();
        stages.push(ended_note("final_transcript_write_finished", &failure));
        if let Some(failure) = failure {
            self.note_failure(failure);
        }
        if let Some(writer_error) = writer_error {
            self.note_failure(writer_error);
        }
        if self.save_error.is_some() {
            self.phase = SavePhase::PersistingFailure;
            assert(stage_texts(stages@) =~= seq![
                ended("final_transcript_write_finished"@, outcome.failure()),
            ]);
            return SaveStep { stages, action: SaveAction::PersistFailure };
        }
        stages.push(note("metadata_completion_started", "started"));
        self.phase = SavePhase::CompletingMetadata;
        assert(stage_texts(stages@) =~= seq![
            ended("final_transcript_write_finished"@, outcome.failure()),
            plain("metadata_completion_started"@, "started"@),
        ]);
        SaveStep { stages, action: SaveAction::CompleteMetadata }
    }

    /// The metadata was written as complete, or not.
    pub fn metadata_completed(&mut self, outcome: Result<(), String>) -> (r: SaveStep)
        requires
            old(self).phase == SavePhase::CompletingMetadata,
        ensures
            final(self).saves_audio == old(self).saves_audio,
            final(self).audio_path == old(self).audio_path,
            match outcome {
                Err(error) => {
                    &&& final(self).phase == SavePhase::PersistingFailure
                    &&& final(self).failure() == first_failure(
                        old(self).failure(), Some("Failed to update metadata: "@ + error@))
                    &&& r.action is PersistFailure
                    &&& r.stages@.len() == 0
                },
                Ok(_) => {
                    &&& final(self).failure() == old(self).failure()
                    &&& if old(self).saves_audio {
                        &&& final(self).phase == SavePhase::Announcing
                        &&& r.action is Announce
                        &&& stage_texts(r.stages@) == seq![
                            plain("metadata_completed"@, "completed"@),
                        ]
                    } else {
                        &&& final(self).phase == SavePhase::Finished
                        &&& r.action == SaveAction::Finish(Ok(None))
                        &&& stage_texts(r.stages@) == seq![
                            plain("metadata_completed"@, "completed"@),
                            plain("final_save_finished"@, "completed"@),
                        ]
                    }
                },
            },
    {
        let mut stages: Vec<StageNote> = Vec::new();
        if let Err(error) = outcome {
            self.note_failure(text::joined("Failed to update metadata: ", error.as_str()));
            self.phase = SavePhase::PersistingFailure;
            return SaveStep { stages, action: SaveAction::PersistFailure };
        }
        stages.push(note("metadata_completed", "completed"));
        if self.saves_audio {
            self.phase = SavePhase::Announcing;
            assert(stage_texts(stages@) =~= seq![plain("metadata_completed"@, "completed"@)]);
            return SaveStep { stages, action: SaveAction::Announce };
        }
        stages.push(note("final_save_finished", "completed"));
        self.phase = SavePhase::Finished;
        assert(stage_texts(stages@) =~= seq![
            plain("metadata_completed"@, "completed"@),
            plain("final_save_finished"@, "completed"@),
        ]);
        SaveStep { stages, action: SaveAction::Finish(Ok(None)) }
    }

    /// The metadata was written as failed, or that failed too.
    pub fn failure_persisted(&mut self, outcome: Result<(), String>) -> (r: SaveStep)
        requires
            old(self).phase == SavePhase::PersistingFailure,
            old(self).failure() is Some,
        ensures
            final(self).phase == SavePhase::Finished,
            final(self).saves_audio == old(self).saves_audio,
            final(self).audio_path == old(self).audio_path,
            final(self).save_error == old(self).save_error,
            ({
                let message = failure_message(old(self).failure()->0, failure_of(outcome));
                &&& (r.action matches SaveAction::Finish(Err(m)) && m@ == message)
                &&& stage_texts(r.stages@) == seq![
                    ended("metadata_completed"@, Some(message)),
                    ended("final_save_finished"@, Some(message)),
                ]
            }),
    {
        let mut message = match &self.save_error {
            Some(error) => error.clone(),
            None => String::new(),
        };
        let ghost first = message@;
        if let Err(error) = &outcome {
            message.append("; failed to persist error metadata: ");
            message.append(error.as_str());
        }
        assert(message@ == failure_message(first, failure_of(outcome)));
        let mut stages: Vec<StageNote> = Vec::new();
        stages.push(failed_note("metadata_completed", message.as_str()));
        stages.push(failed_note("final_save_finished", message.as_str()));
        self.phase = SavePhase::Finished;
        assert(stage_texts(stages@) =~= seq![
            ended("metadata_completed"@, Some(message@)),
            ended("final_save_finished"@, Some(message@)),
        ]);
        SaveStep { stages, action: SaveAction::Finish(Err(message)) }
    }

    /// The saved recording was announced, or not; it is saved either way.
    pub fn announced(&mut self, outcome: Result<(), String>) -> (r: SaveStep)
        requires
            old(self).phase == SavePhase::Announcing,
        ensures
            final(self).phase == SavePhase::Finished,
            final(self).saves_audio == old(self).saves_audio,
            final(self).audio_path == old(self).audio_path,
            final(self).save_error == old(self).save_error,
            r.action matches SaveAction::Finish(Ok(Some(path))) && path@ == old(self).audio_path@,
            stage_texts(r.stages@) == seq![
                ended("recording_saved_event_emitted"@, failure_of(outcome)),
                plain("final_save_finished"@, "completed"@),
            ],
    {
        let mut stages: Vec<StageNote> = Vec::new();
        match &outcome {
            Ok(_) => {
                stages.push(note("recording_saved_event_emitted", "completed"));
            },
            Err(error) => {
                stages.push(failed_note("recording_saved_event_emitted", error.as_str()));
            },
        }
        stages.push(note("final_save_finished", "completed"));
        self.phase = SavePhase::Finished;
        assert(stage_texts(stages@) =~= seq![
            ended("recording_saved_event_emitted"@, failure_of(outcome)),
            plain("final_save_finished"@, "completed"@),
        ]);
        SaveStep { stages, action: SaveAction::Finish(Ok(Some(self.audio_path.clone()))) }
    }
}

/// What is reported of a failure, when it could not be persisted either.
pub open spec fn failure_message(first: Seq<char>, persisting: Option<Seq<char>>) -> Seq<char> {
    match persisting {
        Some(error) => first + "; failed to persist error metadata: "@ + error,
        None => first,
    }
}

/// The first thing that goes wrong when a recording is saved, if anything does.
pub open spec fn save_failure(
    earlier: Option<Seq<char>>,
    writer: Option<Seq<char>>,
    merging: Option<Seq<char>>,
    text_failure: Option<Seq<char>>,
    rows: Option<Seq<char>>,
    metadata: Option<Seq<char>>,
) -> Option<Seq<char>> {
    first_failure(
        first_failure(
            first_failure(first_failure(first_failure(earlier, writer), merging), text_failure),
            rows,
        ),
        metadata,
    )
}

/// How each thing that is done to save a recording ends.
#[derive(Debug)]
pub struct SaveOutcomes {
    pub writer: Result<(), String>,
    pub merge: Result<String, String>,
    pub text: TextOutcome,
    pub rows: Option<String>,
    pub metadata: Result<(), String>,
    pub failure_persisted: Result<(), String>,
    pub announced: Result<(), String>,
}

impl SaveOutcomes {
    /// What goes wrong first. Without audio there is nothing to merge, and the metadata is only
    /// completed when all went well before.
    pub open spec fn failure(self, saves_audio: bool, earlier: Option<Seq<char>>) -> Option<
        Seq<char>,
    > {
        save_failure(
            earlier,
            failure_of(self.writer),
            match self.merge {
                Err(error) if saves_audio => Some("Failed to finalize audio: "@ + error@),
                _ => None,
            },
            self.text.failure(),
            text_of(self.rows),
            match self.metadata {
                Err(error) => Some("Failed to update metadata: "@ + error@),
                Ok(_) => None,
            },
        )
    }
}

/// Saves a recording, given how each thing that is done for it ends. It is saved exactly when
/// nothing goes wrong; otherwise what went wrong first is reported, and with it a failure to
/// put that on record.
pub fn stop_and_save(
    saves_audio: bool,
    save_error: Option<String>,
    outcomes: SaveOutcomes,
) -> (r: Result<Option<String>, String>)
    ensures
        match r {
            Ok(path) => {
                &&& outcomes.failure(saves_audio, text_of(save_error)) is None
                &&& text_of(path) == if saves_audio { Some(outcomes.merge->Ok_0@) } else { None }
            },
            Err(message) => {
                &&& outcomes.failure(saves_audio, text_of(save_error)) is Some
                &&& message@ == failure_message(
                    outcomes.failure(saves_audio, text_of(save_error))->0,
                    failure_of(outcomes.failure_persisted),
                )
            },
        },
{
    let (mut run, _begun) = SaveRun::start(saves_audio, save_error);
    let _drained = run.writer_ended(outcomes.writer);
    if saves_audio {
        let _merged = run.audio_merged(outcomes.merge);
    }
    let written = run.text_written(outcomes.text, outcomes.rows);
    let mut last = written;
    if let SaveAction::CompleteMetadata = last.action {
        last = run.metadata_completed(outcomes.metadata);
    }
    if let SaveAction::PersistFailure = last.action {
        last = run.failure_persisted(outcomes.failure_persisted);
    } else if let SaveAction::Announce = last.action {
        last = run.announced(outcomes.announced);
    }
    match last.action {
        SaveAction::Finish(result) => result,
        _ => Ok(None),
    }
}

/// Law: saving succeeds exactly when nothing went wrong, and what is reported otherwise is the
/// first thing that did.
pub proof fn saving_hides_no_failure(
    earlier: Option<Seq<char>>,
    writer: Option<Seq<char>>,
    merging: Option<Seq<char>>,
    text_failure: Option<Seq<char>>,
    rows: Option<Seq<char>>,
    metadata: Option<Seq<char>>,
)
    ensures
        save_failure(earlier, writer, merging, text_failure, rows, metadata) is None <==> earlier
            is None && writer is None && merging is None && text_failure is None && rows is None
            && metadata is None,
        earlier is Some ==> save_failure(earlier, writer, merging, text_failure, rows, metadata)
            == earlier,
        earlier is None && writer is Some ==> save_failure(
            earlier, writer, merging, text_failure, rows, metadata) == writer,
        earlier is None && writer is None && merging is Some ==> save_failure(
            earlier, writer, merging, text_failure, rows, metadata) == merging,
{
}

/// Law: each step of saving is on record as completed or as failed, and a failure with its reason.
pub proof fn stages_tell_how_they_ended(stage: Seq<char>, failure: Option<Seq<char>>)
    ensures
        ended(stage, failure).stage == stage,
        ended(stage, failure).error == failure,
        failure is Some ==> ended(stage, failure).result == "failed"@,
        failure is None ==> ended(stage, failure).result == "completed"@,
        plain(stage, "started"@).stage == stage && plain(stage, "started"@).error is None
            && plain(stage, "started"@).result == "started"@,
{
}

/// Law: of two failures the earlier one is kept, and what failed to be put on record is told too.
pub proof fn the_earlier_failure_is_kept(
    earlier: Option<Seq<char>>,
    later: Option<Seq<char>>,
    first: Seq<char>,
    persisting: Seq<char>,
)
    ensures
        earlier is Some ==> first_failure(earlier, later) == earlier,
        earlier is None ==> first_failure(earlier, later) == later,
        failure_message(first, None) == first,
        failure_message(first, Some(persisting)).take(first.len() as int) == first,
        failure_message(first, Some(persisting)).skip(
            failure_message(first, Some(persisting)).len() - persisting.len()) == persisting,
{
    let message = failure_message(first, Some(persisting));
    assert(message.take(first.len() as int) =~= first);
    assert(message.skip(message.len() - persisting.len()) =~= persisting);
}

/// Law: each thing that goes wrong when a recording is saved makes it fail, but for a merge where
/// no audio is saved; and where nothing goes wrong, nothing is reported.
pub proof fn every_failure_fails_the_save(
    outcomes: SaveOutcomes,
    saves_audio: bool,
    earlier: Option<Seq<char>>,
)
    ensures
        outcomes.failure(saves_audio, earlier) is None <==> earlier is None && outcomes.writer is Ok
            && (saves_audio ==> outcomes.merge is Ok) && outcomes.text is Written && outcomes.rows
            is None && outcomes.metadata is Ok,
        outcomes.text.failure() is None <==> outcomes.text is Written,
        earlier is Some ==> outcomes.failure(saves_audio, earlier) == earlier,
        earlier is None && outcomes.writer is Err ==> outcomes.failure(saves_audio, earlier) == Some(
            outcomes.writer->Err_0@),
        earlier is None && outcomes.writer is Ok && saves_audio && outcomes.merge is Err
            ==> outcomes.failure(saves_audio, earlier) == Some(
            "Failed to finalize audio: "@ + outcomes.merge->Err_0@),
{
}

} // verus!
