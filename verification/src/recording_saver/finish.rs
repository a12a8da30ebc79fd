//! Ending a recording as a whole: its audio, its rows and its metadata, and what is remembered of
//! an attempt that failed.

use vstd::prelude::*;
use vstd::string::*;

use crate::devices::configuration::{clone_text, text_of};
use crate::incremental_saver::{
    audio_path, merge_failure, Buffered, FinalizeError, MergeEnd,
};
use crate::outside::is_rfc3339;
use crate::recording_saver::metadata::MeetingMetadata;
use crate::recording_saver::saver::{RecordingSaver, Saver};
use crate::recording_saver::stop::{
    failure_message, failure_of, save_failure, stop_and_save, SaveOutcomes, SaveRun, SaveStep,
    TextOutcome,
};
use crate::recording_saver::transcript::TranscriptSegment;

verus! {

/// How each thing that is done to save a recording ends. What is not needed is not looked at.
#[derive(Debug)]
pub struct SaveEnds {
    /// The task that takes in audio.
    pub writer: Result<(), String>,
    /// The encoding of the audio that is left.
    pub last_checkpoint: Result<(), String>,
    /// The merge of the checkpoints into one file.
    pub merge: MergeEnd,
    /// What stands between the parts of a path.
    pub separator: char,
    /// The writing of the rows.
    pub text: Result<(), String>,
    /// The writing of the completed metadata.
    pub metadata: Result<(), String>,
    /// The writing of the metadata of a failure.
    pub failure_persisted: Result<(), String>,
    pub announced: Result<(), String>,
}

/// Where the audio of a recording goes: into its folder.
pub open spec fn saved_audio_path(saver: Saver, separator: char) -> Seq<char> {
    audio_path(
        match saver.meeting_folder {
            Some(folder) => folder,
            None => ""@,
        },
        separator,
    )
}

/// Why the audio of a recording cannot be made one file at `output`, if it cannot.
pub open spec fn audio_failure(audio: Buffered, output: Seq<char>, ends: SaveEnds) -> Option<
    Seq<char>,
> {
    if audio.buffer.len() > 0 && ends.last_checkpoint is Err {
        Some(FinalizeError::NotEncoded(ends.last_checkpoint->Err_0).text())
    } else if audio.buffer.len() == 0 && audio.checkpoint_count == 0 {
        Some(FinalizeError::NoCheckpoints.text())
    } else {
        merge_failure(ends.merge, output)
    }
}

/// Why the metadata of a recording cannot be completed, if it cannot.
pub open spec fn completion_failure(saver: Saver, ends: SaveEnds) -> Option<Seq<char>> {
    if saver.meeting_folder is None {
        Some("meeting folder is unavailable"@)
    } else if saver.metadata is None {
        Some("meeting metadata is unavailable"@)
    } else {
        failure_of(ends.metadata)
    }
}

/// What goes wrong first when a recording is saved, if anything does. An earlier attempt that
/// failed, and rows that could not be written, count too.
pub open spec fn first_save_failure(
    saver: Saver,
    row_error: Option<Seq<char>>,
    ends: SaveEnds,
) -> Option<Seq<char>> {
    save_failure(
        saver.save_error,
        failure_of(ends.writer),
        match saver.audio {
            Some(audio) => match audio_failure(audio, saved_audio_path(saver, ends.separator), ends) {
                Some(error) => Some("Failed to finalize audio: "@ + error),
                None => None,
            },
            None => None,
        },
        if saver.meeting_folder is None {
            Some("Meeting folder is unavailable"@)
        } else {
            match ends.text {
                Ok(_) => None,
                Err(error) => Some("Failed to save transcripts: "@ + error@),
            }
        },
        row_error,
        match completion_failure(saver, ends) {
            Some(error) => Some("Failed to update metadata: "@ + error),
            None => None,
        },
    )
}

/// Whether the failure itself could be put on record. Without metadata there is none to write.
pub open spec fn persisting_failure(saver: Saver, ends: SaveEnds) -> Option<Seq<char>> {
    if saver.meeting_folder is Some && saver.metadata is Some {
        failure_of(ends.failure_persisted)
    } else {
        None
    }
}

/// What an outcome stands for.
pub open spec fn outcome_text(r: Result<Option<String>, String>) -> Result<
    Option<Seq<char>>,
    Seq<char>,
> {
    match r {
        Ok(path) => Ok(text_of(path)),
        Err(message) => Err(message@),
    }
}

/// The outcome of saving: the path of the audio, where audio is saved, or what is reported.
pub open spec fn save_outcome(
    saver: Saver,
    row_error: Option<Seq<char>>,
    ends: SaveEnds,
) -> Result<Option<Seq<char>>, Seq<char>> {
    match first_save_failure(saver, row_error, ends) {
        None => Ok(
            if saver.audio is Some {
                Some(saved_audio_path(saver, ends.separator))
            } else {
                None
            },
        ),
        Some(failure) => Err(failure_message(failure, persisting_failure(saver, ends))),
    }
}

/// The length of a recording: as it was measured, or else where its last row ends.
pub open spec fn saved_length(
    measured_ns: Option<u64>,
    segments: Seq<TranscriptSegment>,
) -> Option<u64> {
    match measured_ns {
        Some(duration) => Some(duration),
        None => if segments.len() > 0 {
            Some(segments.last().audio_end_ns)
        } else {
            None
        },
    }
}

/// `r` is the outcome of saving, and `after` is what is left of the saver. Only a recording that
/// is saved in full is complete, and then all its audio is in its checkpoints. A failure stays on
/// record, in memory and, where it can be, in the metadata.
pub open spec fn is_save(
    saver: Saver,
    row_error: Option<Seq<char>>,
    length_ns: Option<u64>,
    ends: SaveEnds,
    r: Result<Option<Seq<char>>, Seq<char>>,
    after: Saver,
) -> bool {
    let failure = first_save_failure(saver, row_error, ends);
    &&& r == save_outcome(saver, row_error, ends)
    &&& after.audio == match saver.audio {
        Some(audio) => Some(audio.flushed(ends.last_checkpoint is Ok)),
        None => None,
    }
    &&& after.save_error == failure
    &&& after == (Saver {
        audio: after.audio,
        save_error: after.save_error,
        metadata: after.metadata,
        ..saver
    })
    &&& match failure {
        None => {
            &&& after.metadata matches Some(metadata) && metadata.completed_at is Some && is_rfc3339(
                metadata.completed_at->0,
            ) && metadata == saver.completed_metadata(metadata.completed_at->0, length_ns)
            &&& after.audio matches Some(audio) ==> audio.buffer.len() == 0
        },
        Some(failure) => {
            &&& after.metadata == if saver.meeting_folder is Some && saver.metadata is Some
                && ends.failure_persisted is Ok {
                Some(saver.failed_metadata())
            } else {
                saver.metadata
            }
        },
    }
}

impl RecordingSaver {
    /// The rows of the text could not all be written, or not all audio could be transcribed.
    pub open spec fn row_error(&self) -> Option<Seq<char>> {
        text_of(self.writer.error)
    }

    /// Begins to save. What went wrong in an earlier attempt is not forgotten.
    pub fn begin_save(&self) -> (r: (SaveRun, SaveStep))
        ensures
            r.0.phase == crate::recording_saver::stop::SavePhase::Draining,
            r.0.saves_audio == self@.audio is Some,
            r.0.failure() == self@.save_error,
            r.0.audio_path@ == ""@,
            r.1.action is AwaitWriter,
    {
        SaveRun::start(self.incremental_saver.is_some(), clone_text(&self.save_error))
    }

    /// The audio that is left becomes the last checkpoint. Returns the files to merge.
    pub fn finalize_audio(&mut self, encoded: Result<(), String>) -> (r: Result<
        Vec<String>,
        FinalizeError,
    >)
        requires
            old(self)@.audio matches Some(audio) ==> audio.has_room(),
        ensures
            final(self)@ == (Saver {
                audio: match old(self)@.audio {
                    Some(audio) => Some(audio.flushed(encoded is Ok)),
                    None => None,
                },
                ..old(self)@
            }),
            final(self).writer == old(self).writer,
            match (old(self)@.audio, r) {
                (None, r) => r == Err::<Vec<String>, FinalizeError>(FinalizeError::NoCheckpoints),
                (Some(audio), Ok(names)) => {
                    let after = audio.flushed(encoded is Ok);
                    &&& after.buffer.len() == 0
                    &&& 0 < after.checkpoint_count == names@.len()
                    &&& forall|i: int| 0 <= i < names@.len() ==> (#[trigger] names@[i])@
                        == crate::incremental_saver::checkpoint_name(i as nat)
                },
                (Some(audio), Err(error)) => if audio.buffer.len() > 0 {
                    encoded matches Err(cause) && error == FinalizeError::NotEncoded(cause)
                } else {
                    audio.checkpoint_count == 0 && error == FinalizeError::NoCheckpoints
                },
            },
    {
        match &mut self.incremental_saver {
            Some(saver) => saver.files_to_merge(encoded),
            None => Err(FinalizeError::NoCheckpoints),
        }
    }

    /// An attempt to save ended: what went wrong stays on record, and so does the metadata that
    /// was written.
    pub fn conclude_save(&mut self, save_error: Option<String>, written: Option<MeetingMetadata>)
        ensures
            final(self)@ == (Saver {
                save_error: text_of(save_error),
                metadata: match written {
                    Some(metadata) => Some(metadata@),
                    None => old(self)@.metadata,
                },
                ..old(self)@
            }),
            final(self).writer == old(self).writer,
    {
        self.save_error = save_error;
        if let Some(metadata) = written {
            self.metadata = Some(metadata);
        }
    }

    /// Ends the recording and saves it, given how each thing that is done for it ends.
    pub fn stop_and_save(&mut self, ends: SaveEnds, recording_duration_ns: Option<u64>) -> (r:
        Result<Option<String>, String>)
        requires
            old(self)@.audio matches Some(audio) ==> audio.has_room(),
        ensures
            is_save(
                old(self)@,
                old(self).row_error(),
                saved_length(recording_duration_ns, old(self).writer.segments@),
                ends,
                outcome_text(r),
                final(self)@,
            ),
            final(self).writer == old(self).writer,
    {
        let ghost before = self@;
        let saves_audio: bool = self.incremental_saver.is_some();
        let folder = match &self.meeting_folder {
            Some(folder) => folder.clone(),
            None => "".to_owned(),
        };
        let merge: Result<String, String> = match &mut self.incremental_saver {
            Some(saver) => {
                let encoded = clone_outcome(&ends.last_checkpoint);
                match saver.finalize(folder.as_str(), ends.separator, encoded, ends.merge) {
                    Ok(path) => Ok(path),
                    Err(error) => Err(error.message()),
                }
            },
            None => Ok(String::new()),
        };
        let completed = self.complete_metadata(recording_duration_ns);
        let failed = self.failed_metadata();
        let metadata: Result<(), String> = match &completed {
            Ok(_) => clone_outcome(&ends.metadata),
            Err(error) => Err(error.message()),
        };
        let failure_persisted: Result<(), String> = match &failed {
            Some(_) => clone_outcome(&ends.failure_persisted),
            None => Ok(()),
        };
        let text: TextOutcome = if self.meeting_folder.is_none() {
            TextOutcome::FolderUnavailable
        } else {
            match ends.text {
                Ok(_) => TextOutcome::Written,
                Err(error) => TextOutcome::Failed(error),
            }
        };
        let outcomes = SaveOutcomes {
            writer: clone_outcome(&ends.writer),
            merge,
            text,
            rows: self.writer.first_error(),
            metadata,
            failure_persisted,
            announced: clone_outcome(&ends.announced),
        };
        let first = first_error(saves_audio, &self.save_error, &outcomes);
        assert(text_of(first) == first_save_failure(before, self.row_error(), ends));
        let r = stop_and_save(saves_audio, clone_text(&self.save_error), outcomes);
        let written: Option<MeetingMetadata> = if first.is_none() {
            match completed {
                Ok(metadata) => Some(metadata),
                Err(_) => None,
            }
        } else if ends.failure_persisted.is_ok() {
            failed
        } else {
            None
        };
        self.conclude_save(first, written);
        r
    }
}

fn clone_outcome(outcome: &Result<(), String>) -> (r: Result<(), String>)
    ensures
        r == *outcome,
{
    match outcome {
        Ok(done) => Ok(*done),
        Err(error) => Err(error.clone()),
    }
}

/// What goes wrong first, in words.
fn first_error(saves_audio: bool, earlier: &Option<String>, outcomes: &SaveOutcomes) -> (r: Option<
    String,
>)
    ensures
        text_of(r) == outcomes.failure(saves_audio, text_of(*earlier)),
{
    if earlier.is_some() {
        return clone_text(earlier);
    }
    if let Err(error) = &outcomes.writer {
        return Some(error.clone());
    }
    if saves_audio {
        if let Err(error) = &outcomes.merge {
            return Some(crate::text::joined("Failed to finalize audio: ", error.as_str()));
        }
    }
    match &outcomes.text {
        TextOutcome::Written => {},
        TextOutcome::FolderUnavailable => {
            return Some("Meeting folder is unavailable".to_owned());
        },
        TextOutcome::Failed(error) => {
            return Some(crate::text::joined("Failed to save transcripts: ", error.as_str()));
        },
    }
    if outcomes.rows.is_some() {
        return clone_text(&outcomes.rows);
    }
    match &outcomes.metadata {
        Ok(_) => None,
        Err(error) => Some(
            crate::text::joined("Failed to update metadata: ", error.as_str()),
        ),
    }
}

/// Law: a save that failed stays failed. However well everything goes the next time, the first
/// failure is reported again.
pub proof fn a_failed_save_stays_failed(
    saver: Saver,
    row_error: Option<Seq<char>>,
    length_ns: Option<u64>,
    ends: SaveEnds,
    r: Result<Option<Seq<char>>, Seq<char>>,
    after: Saver,
    later_row_error: Option<Seq<char>>,
    later_length_ns: Option<u64>,
    later_ends: SaveEnds,
    later_r: Result<Option<Seq<char>>, Seq<char>>,
    later: Saver,
)
    requires
        is_save(saver, row_error, length_ns, ends, r, after),
        r is Err,
        is_save(after, later_row_error, later_length_ns, later_ends, later_r, later),
    ensures
        later_r is Err,
        later.save_error == after.save_error,
        later.save_error == first_save_failure(saver, row_error, ends),
{
}

/// Law: a recording that was saved is saved again with the same outcome, if nothing fails then,
/// and it stays complete.
pub proof fn a_save_can_be_repeated(
    saver: Saver,
    row_error: Option<Seq<char>>,
    length_ns: Option<u64>,
    ends: SaveEnds,
    r: Result<Option<Seq<char>>, Seq<char>>,
    after: Saver,
    later_ends: SaveEnds,
    later_r: Result<Option<Seq<char>>, Seq<char>>,
    later: Saver,
)
    requires
        saver.audio matches Some(audio) ==> audio.has_room(),
        is_save(saver, row_error, length_ns, ends, r, after),
        r is Ok,
        is_save(after, row_error, length_ns, later_ends, later_r, later),
        later_ends.writer is Ok,
        later_ends.merge is Merged,
        later_ends.separator == ends.separator,
        later_ends.text is Ok,
        later_ends.metadata is Ok,
    ensures
        later_r == r,
        later.metadata matches Some(metadata) && metadata.status == "completed"@,
        later.audio == after.audio,
{
}

/// Law: a write that failed earlier is not hidden by a save that works.
pub proof fn earlier_write_failures_are_not_hidden(
    saver: Saver,
    row_error: Option<Seq<char>>,
    length_ns: Option<u64>,
    ends: SaveEnds,
    r: Result<Option<Seq<char>>, Seq<char>>,
    after: Saver,
)
    requires
        is_save(saver, row_error, length_ns, ends, r, after),
        ends.writer is Err || row_error is Some || saver.save_error is Some,
    ensures
        r is Err,
{
}

/// Law: a recording is only reported as saved when everything that was done for it went well; then
/// its metadata says that it is complete, all its audio is in its checkpoints, and the path that is
/// given is that of `audio.mp4` in its folder, or none where no audio is saved.
pub proof fn a_saved_recording_is_complete(
    saver: Saver,
    row_error: Option<Seq<char>>,
    length_ns: Option<u64>,
    ends: SaveEnds,
    r: Result<Option<Seq<char>>, Seq<char>>,
    after: Saver,
)
    requires
        is_save(saver, row_error, length_ns, ends, r, after),
    ensures
        r is Ok ==> {
            &&& saver.save_error is None && row_error is None
            &&& ends.writer is Ok && ends.text is Ok && ends.metadata is Ok
            &&& saver.meeting_folder is Some && saver.metadata is Some
            &&& after.save_error is None
            &&& after.metadata matches Some(metadata) && metadata.status == "completed"@
                && metadata.duration_ns == length_ns && metadata.completed_at is Some
            &&& r->Ok_0 is Some <==> saver.audio is Some
            &&& saver.audio matches Some(audio) ==> {
                &&& ends.merge is Merged
                &&& audio.buffer.len() > 0 ==> ends.last_checkpoint is Ok
                &&& audio.buffer.len() > 0 || audio.checkpoint_count > 0
                &&& after.audio matches Some(left) && left.buffer.len() == 0
                &&& r->Ok_0 == Some(audio_path(saver.meeting_folder->0, ends.separator))
            }
        },
        r is Err ==> {
            &&& after.save_error is Some
            &&& after.metadata matches Some(metadata) ==> metadata.status == "error"@
                || Some(metadata) == saver.metadata
        },
        ends.writer is Ok && row_error is None && saver.save_error is None && ends.text is Ok
            && ends.metadata is Ok && saver.meeting_folder is Some && saver.metadata is Some && (
        saver.audio is None || (ends.merge is Merged && ends.last_checkpoint is Ok && (
        saver.audio->0.buffer.len() > 0 || saver.audio->0.checkpoint_count > 0))) ==> r is Ok,
        ends.writer matches Err(error) && saver.save_error is None ==> after.save_error == Some(
            ends.writer->Err_0@),
{
}

/// Law: a recording is as long as it was measured, or else as its last row.
pub proof fn recordings_end_with_their_last_row(
    measured_ns: Option<u64>,
    segments: Seq<TranscriptSegment>,
)
    ensures
        measured_ns is Some ==> saved_length(measured_ns, segments) == measured_ns,
        measured_ns is None && segments.len() > 0 ==> saved_length(measured_ns, segments) == Some(
            segments[segments.len() - 1].audio_end_ns),
        measured_ns is None && segments.len() == 0 ==> saved_length(measured_ns, segments) is None,
{
}

/// Law: what is reported of a recording that could not be saved begins with what went wrong first,
/// which stays on record.
pub proof fn the_first_save_failure_is_reported(
    saver: Saver,
    row_error: Option<Seq<char>>,
    length_ns: Option<u64>,
    ends: SaveEnds,
    r: Result<Option<Seq<char>>, Seq<char>>,
    after: Saver,
)
    requires
        is_save(saver, row_error, length_ns, ends, r, after),
        r is Err,
    ensures
        ({
            let first = after.save_error->0;
            let told = r->Err_0;
            &&& told.len() >= first.len() && told.take(first.len() as int) == first
            &&& ends.failure_persisted is Ok ==> told == first
            &&& ends.failure_persisted is Ok && saver.meeting_folder is Some && saver.metadata
                is Some ==> (after.metadata matches Some(metadata) && metadata.status == "error"@
                && metadata.completed_at is None)
            &&& saver.save_error matches Some(earlier) ==> first == earlier
            &&& saver.save_error is None && ends.writer is Ok && (saver.audio matches Some(audio)
                && ends.merge matches MergeEnd::MergerMissing && audio.checkpoint_count > 0
                && audio.buffer.len() == 0) ==> first
                == "Failed to finalize audio: FFmpeg not found. Please install FFmpeg to finalize recordings."@
        }),
{
    let first = after.save_error->0;
    let told = r->Err_0;
    assert(told.take(first.len() as int) =~= first);
    assert("Failed to finalize audio: "@ + FinalizeError::MergerMissing.text()
        =~= "Failed to finalize audio: FFmpeg not found. Please install FFmpeg to finalize recordings."@)
        by {
        reveal_strlit("Failed to finalize audio: ");
        reveal_strlit("FFmpeg not found. Please install FFmpeg to finalize recordings.");
        reveal_strlit(
            "Failed to finalize audio: FFmpeg not found. Please install FFmpeg to finalize recordings.",
        );
    }
}

} // verus!
