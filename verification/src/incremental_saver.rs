//! Saving audio in checkpoints of thirty seconds, so that little is lost in a crash.
//!
//! A sample is the bit pattern of a 32-bit float.

use vstd::prelude::*;
use vstd::string::*;

use crate::audio_chunk::AudioChunk;
use crate::devices::configuration::ends_in;
use crate::outside::{big_endian, little_endian, memory_bytes};
use crate::text;

verus! {

/// Length of a checkpoint.
pub const CHECKPOINT_SECONDS: u64 = 30;

/// The name of the file that holds all audio of a meeting.
pub const AUDIO_FILE_NAME: &'static str = "audio.mp4";

/// The path of a file in a folder. A folder that ends in the separator gets no second one.
pub open spec fn path_in(folder: Seq<char>, separator: char, name: Seq<char>) -> Seq<char> {
    if folder.len() == 0 || folder.last() == separator {
        folder + name
    } else {
        folder.push(separator) + name
    }
}

/// The path of the audio of the meeting in a folder.
pub open spec fn audio_path(folder: Seq<char>, separator: char) -> Seq<char> {
    path_in(folder, separator, AUDIO_FILE_NAME@)
}

/// The path of the audio of the meeting in a folder. `separator` stands between the parts of a
/// path.
pub fn audio_file_path(folder: &str, separator: char) -> (r: String)
    ensures
        r@ == audio_path(folder@, separator),
{
    let mut r = folder.to_owned();
    let len: usize = folder.unicode_len();
    if len > 0 && folder.get_char(len - 1) != separator {
        r.push(separator);
    }
    r.append(AUDIO_FILE_NAME);
    r
}

/// The audio that is not in a checkpoint yet, and how many checkpoints there are.
pub struct IncrementalAudioSaver {
    pub buffer: Vec<u32>,
    pub checkpoint_count: u32,
    pub sample_rate: u32,
}

/// What an `IncrementalAudioSaver` stands for.
#[verifier::ext_equal]
pub struct Buffered {
    pub buffer: Seq<u32>,
    pub checkpoint_count: u32,
    pub sample_rate: u32,
}

impl View for IncrementalAudioSaver {
    type V = Buffered;

    open spec fn view(&self) -> Buffered {
        Buffered {
            buffer: self.buffer@,
            checkpoint_count: self.checkpoint_count,
            sample_rate: self.sample_rate,
        }
    }
}

impl Buffered {
    /// Nothing came in yet.
    pub open spec fn empty(sample_rate: u32) -> Buffered {
        Buffered { buffer: Seq::empty(), checkpoint_count: 0, sample_rate }
    }

    /// The audio that is left can be one more checkpoint.
    pub open spec fn has_room(self) -> bool {
        self.buffer.len() > 0 ==> self.checkpoint_count < u32::MAX
    }

    /// The saver once the audio that was left became a checkpoint, or not.
    pub open spec fn flushed(self, encoded: bool) -> Buffered {
        if self.buffer.len() > 0 && encoded {
            Buffered {
                buffer: Seq::empty(),
                checkpoint_count: (self.checkpoint_count + 1) as u32,
                ..self
            }
        } else {
            self
        }
    }
}

/// What can happen to a saver: a chunk comes in, or a checkpoint is encoded or not.
pub enum SaverStep {
    Chunk(Seq<u32>),
    Checkpoint { encoded: bool },
}

/// The buffer after a step.
pub open spec fn buffer_after(buffer: Seq<u32>, step: SaverStep) -> Seq<u32> {
    match step {
        SaverStep::Chunk(samples) => buffer + samples,
        SaverStep::Checkpoint { encoded } => if encoded {
            Seq::empty()
        } else {
            buffer
        },
    }
}

/// A checkpoint to be encoded.
pub struct Checkpoint {
    pub file_name: String,
    /// The samples as they lie in memory.
    pub pcm: Vec<u8>,
}

/// The file name of checkpoint number `index`.
pub open spec fn checkpoint_name(index: nat) -> Seq<char> {
    "audio_chunk_"@ + text::zero_padded(text::decimal_digits(index), 3) + ".mp4"@
}

/// The file name of checkpoint number `index`.
pub fn checkpoint_file_name(index: u32) -> (r: String)
    ensures
        r@ == checkpoint_name(index as nat),
{
    let mut r = text::joined("audio_chunk_", text::padded_decimal(index as u64, 3).as_str());
    r.append(".mp4");
    r
}

/// Why no audio file is made of the checkpoints.
#[derive(Debug)]
pub enum FinalizeError {
    /// The audio that was left could not be saved as a checkpoint.
    NotEncoded(String),
    /// There is not a single checkpoint.
    NoCheckpoints,
    /// The checkpoint at this path is gone.
    CheckpointMissing(String),
    /// There is no program to merge with.
    MergerMissing,
    /// The merge could not be run.
    NotRun(String),
    /// The merge failed, with this output.
    MergeFailed(String),
    /// The merge ended well, but its file is not at this path.
    NotCreated(String),
}

impl FinalizeError {
    /// The text that describes the failure.
    pub open spec fn text(self) -> Seq<char> {
        match self {
            FinalizeError::NotEncoded(error) => error@,
            FinalizeError::NoCheckpoints =>
                "No audio checkpoints to merge - recording may have failed"@,
            FinalizeError::CheckpointMissing(path) => "Checkpoint file missing: "@ + path@,
            FinalizeError::MergerMissing =>
                "FFmpeg not found. Please install FFmpeg to finalize recordings."@,
            FinalizeError::NotRun(error) => error@,
            FinalizeError::MergeFailed(output) => "FFmpeg concat failed: "@ + output@,
            FinalizeError::NotCreated(path) => "Merged audio file was not created: "@ + path@,
        }
    }

    pub fn message(&self) -> (r: String)
        ensures
            r@ == self.text(),
    {
        match self {
            FinalizeError::NotEncoded(error) => error.clone(),
            FinalizeError::NoCheckpoints =>
                "No audio checkpoints to merge - recording may have failed".to_owned(),
            FinalizeError::CheckpointMissing(path) => text::joined(
                "Checkpoint file missing: ", path.as_str()),
            FinalizeError::MergerMissing =>
                "FFmpeg not found. Please install FFmpeg to finalize recordings.".to_owned(),
            FinalizeError::NotRun(error) => error.clone(),
            FinalizeError::MergeFailed(output) => text::joined(
                "FFmpeg concat failed: ", output.as_str()),
            FinalizeError::NotCreated(path) => text::joined(
                "Merged audio file was not created: ", path.as_str()),
        }
    }
}

/// How the merge of checkpoints into one file ended.
#[derive(Debug)]
pub enum MergeEnd {
    CheckpointMissing(String),
    MergerMissing,
    NotRun(String),
    Failed(String),
    NotCreated,
    Merged,
}

/// The path of the merged file, or why there is none.
pub open spec fn merge_result(end: MergeEnd, output: String) -> Result<String, FinalizeError> {
    match end {
        MergeEnd::CheckpointMissing(path) => Err(FinalizeError::CheckpointMissing(path)),
        MergeEnd::MergerMissing => Err(FinalizeError::MergerMissing),
        MergeEnd::NotRun(error) => Err(FinalizeError::NotRun(error)),
        MergeEnd::Failed(stderr) => Err(FinalizeError::MergeFailed(stderr)),
        MergeEnd::NotCreated => Err(FinalizeError::NotCreated(output)),
        MergeEnd::Merged => Ok(output),
    }
}

/// Why there is no merged file at `output`, if there is none.
pub open spec fn merge_failure(end: MergeEnd, output: Seq<char>) -> Option<Seq<char>> {
    match end {
        MergeEnd::CheckpointMissing(path) => Some("Checkpoint file missing: "@ + path@),
        MergeEnd::MergerMissing => Some(FinalizeError::MergerMissing.text()),
        MergeEnd::NotRun(error) => Some(error@),
        MergeEnd::Failed(stderr) => Some("FFmpeg concat failed: "@ + stderr@),
        MergeEnd::NotCreated => Some("Merged audio file was not created: "@ + output),
        MergeEnd::Merged => None,
    }
}

/// The path of the file that the checkpoints of a meeting were merged into, or why there is none.
pub fn merge_checkpoints(end: MergeEnd, folder: &str, separator: char) -> (r: Result<
    String,
    FinalizeError,
>)
    ensures
        exists|output: String|
            output@ == audio_path(folder@, separator) && r == #[trigger] merge_result(end, output),
{
    let output = audio_file_path(folder, separator);
    let ghost result = merge_result(end, output);
    let r = match end {
        MergeEnd::CheckpointMissing(path) => Err(FinalizeError::CheckpointMissing(path)),
        MergeEnd::MergerMissing => Err(FinalizeError::MergerMissing),
        MergeEnd::NotRun(error) => Err(FinalizeError::NotRun(error)),
        MergeEnd::Failed(stderr) => Err(FinalizeError::MergeFailed(stderr)),
        MergeEnd::NotCreated => Err(FinalizeError::NotCreated(output)),
        MergeEnd::Merged => Ok(output),
    };
    assert(r == result);
    r
}

impl IncrementalAudioSaver {
    /// The buffer is long enough for a checkpoint.
    pub open spec fn is_due(&self) -> bool {
        self.buffer@.len() >= CHECKPOINT_SECONDS * self.sample_rate
    }

    pub fn new(sample_rate: u32) -> (r: Self)
        ensures
            r@ == Buffered::empty(sample_rate),
    {
        let r = IncrementalAudioSaver { buffer: Vec::new(), checkpoint_count: 0, sample_rate };
        assert(r@ =~= Buffered::empty(sample_rate));
        r
    }

    /// Takes a chunk in. Returns whether a checkpoint is due.
    pub fn add_chunk(&mut self, chunk: AudioChunk<u32>) -> (due: bool)
        ensures
            final(self).buffer@ == buffer_after(old(self).buffer@, SaverStep::Chunk(chunk.data@)),
            final(self).checkpoint_count == old(self).checkpoint_count,
            final(self).sample_rate == old(self).sample_rate,
            due == final(self).is_due(),
    {
        let mut data = chunk.data;
        self.buffer.append(&mut data);
        self.buffer.len() as u128 >= CHECKPOINT_SECONDS as u128 * self.sample_rate as u128
    }

    /// The buffer as the next checkpoint; an empty one makes none.
    pub fn save_checkpoint(&self) -> (r: Option<Checkpoint>)
        ensures
            match r {
                Some(checkpoint) => {
                    &&& self.buffer@.len() > 0
                    &&& checkpoint.file_name@ == checkpoint_name(self.checkpoint_count as nat)
                    &&& checkpoint.pcm@ == little_endian(self.buffer@) || checkpoint.pcm@
                        == big_endian(self.buffer@)
                },
                None => self.buffer@.len() == 0,
            },
    {
        if self.buffer.len() == 0 {
            return None;
        }
        Some(
            Checkpoint {
                file_name: checkpoint_file_name(self.checkpoint_count),
                pcm: memory_bytes(self.buffer.as_slice()),
            },
        )
    }

    /// Takes in whether the checkpoint was encoded. Only then is its audio let go.
    pub fn checkpoint_saved(&mut self, encoded: bool)
        requires
            old(self).checkpoint_count < u32::MAX,
        ensures
            final(self).sample_rate == old(self).sample_rate,
            final(self).buffer@ == buffer_after(
                old(self).buffer@, SaverStep::Checkpoint { encoded }),
            final(self).checkpoint_count == old(self).checkpoint_count + if encoded && old(
                self).buffer@.len() > 0 {
                1int
            } else {
                0
            },
    {
        if encoded {
            if self.buffer.len() > 0 {
                self.checkpoint_count = self.checkpoint_count + 1;
            }
            self.buffer = Vec::new();
        }
    }

    /// Finishes the recording: the audio that is left becomes the last checkpoint, and the files
    /// to merge are named in order. `encoded` says whether that checkpoint could be encoded; it is
    /// only looked at where audio is left.
    pub fn files_to_merge(&mut self, encoded: Result<(), String>) -> (r: Result<
        Vec<String>,
        FinalizeError,
    >)
        requires
            old(self)@.has_room(),
        ensures
            final(self)@ == old(self)@.flushed(encoded is Ok),
            match r {
                Ok(names) => {
                    &&& final(self).buffer@.len() == 0
                    &&& final(self).checkpoint_count > 0
                    &&& names@.len() == final(self).checkpoint_count
                    &&& forall|i: int| 0 <= i < names@.len() ==> (#[trigger] names@[i])@
                        == checkpoint_name(i as nat)
                },
                Err(error) => if old(self).buffer@.len() > 0 {
                    encoded matches Err(cause) && error == FinalizeError::NotEncoded(cause)
                } else {
                    old(self).checkpoint_count == 0 && error == FinalizeError::NoCheckpoints
                },
            },
    {
        if self.buffer.len() > 0 {
            match encoded {
                Ok(_) => {
                    self.checkpoint_saved(true);
                },
                Err(error) => {
                    return Err(FinalizeError::NotEncoded(error));
                },
            }
        }
        assert(self@ =~= old(self)@.flushed(encoded is Ok));
        if self.checkpoint_count == 0 {
            return Err(FinalizeError::NoCheckpoints);
        }
        Ok(checkpoint_names(self.checkpoint_count))
    }

    /// Makes one file of all audio, in the folder of the meeting, given how the last checkpoint was
    /// encoded and how the checkpoints were merged.
    pub fn finalize(
        &mut self,
        folder: &str,
        separator: char,
        encoded: Result<(), String>,
        merge: MergeEnd,
    ) -> (r: Result<String, FinalizeError>)
        requires
            old(self)@.has_room(),
        ensures
            final(self)@ == old(self)@.flushed(encoded is Ok),
            match r {
                Ok(_) => finalize_failure(
                    old(self)@, encoded, merge, audio_path(folder@, separator)) is None,
                Err(error) => finalize_failure(
                    old(self)@, encoded, merge, audio_path(folder@, separator)) == Some(
                    error.text()),
            },
            match r {
                Ok(path) => {
                    &&& path@ == audio_path(folder@, separator)
                    &&& merge is Merged
                    &&& final(self).buffer@.len() == 0
                    &&& final(self).checkpoint_count > 0
                },
                Err(error) => if old(self).buffer@.len() > 0 && encoded is Err {
                    error == FinalizeError::NotEncoded(encoded->Err_0)
                } else if old(self).buffer@.len() == 0 && old(self).checkpoint_count == 0 {
                    error == FinalizeError::NoCheckpoints
                } else {
                    Some(error.text()) == merge_failure(
                        merge, audio_path(folder@, separator))
                },
            },
    {
        match self.files_to_merge(encoded) {
            Err(error) => Err(error),
            Ok(_) => merge_checkpoints(merge, folder, separator),
        }
    }

    pub fn get_checkpoint_count(&self) -> (r: u32)
        ensures
            r == self.checkpoint_count,
    {
        self.checkpoint_count
    }
}

fn checkpoint_names(count: u32) -> (names: Vec<String>)
    ensures
        names@.len() == count,
        forall|i: int| 0 <= i < names@.len() ==> (#[trigger] names@[i])@ == checkpoint_name(
            i as nat),
{
    let mut names: Vec<String> = Vec::new();
    let mut i: u32 = 0;
    while i < count
        invariant
            i <= count,
            names@.len() == i,
            forall|j: int| 0 <= j < i ==> (#[trigger] names@[j])@ == checkpoint_name(j as nat),
        decreases count - i,
    {
        names.push(checkpoint_file_name(i));
        i = i + 1;
    }
    names
}

/// The list from which files are merged: one quoted path per line.
pub open spec fn concat_text(paths: Seq<Seq<char>>) -> Seq<char>
    decreases paths.len(),
{
    if paths.len() == 0 {
        Seq::empty()
    } else {
        concat_text(paths.drop_last()) + "file '"@ + paths.last() + "'\n"@
    }
}

/// Writes the list from which files are merged.
pub fn concat_list(paths: &Vec<String>) -> (r: String)
    ensures
        r@ == concat_text(text::views(paths@)),
{
    let ghost all = text::views(paths@);
    let mut r = String::new();
    let mut i: usize = 0;
    assert(all.take(0) =~= Seq::empty());
    while i < paths.len()
        invariant
            i <= paths@.len(),
            all == text::views(paths@),
            r@ == concat_text(all.take(i as int)),
        decreases paths@.len() - i,
    {
        assert(all.take(i + 1).drop_last() =~= all.take(i as int));
        assert(all.take(i + 1).last() == paths@[i as int]@);
        r.append("file '");
        r.append(paths[i].as_str());
        r.append("'\n");
        i = i + 1;
    }
    assert(all.take(i as int) =~= all);
    r
}

/// How the recovery of audio went.
#[derive(Debug)]
pub struct AudioRecoveryStatus {
    pub status: String,
    pub chunk_count: u32,
    pub estimated_duration_seconds: u64,
    pub audio_file_path: Option<String>,
    pub message: String,
}

/// What an `AudioRecoveryStatus` stands for.
#[verifier::ext_equal]
pub struct Recovery {
    pub status: Seq<char>,
    pub chunk_count: u32,
    pub estimated_duration_seconds: u64,
    pub audio_file_path: Option<Seq<char>>,
    pub message: Seq<char>,
}

impl View for AudioRecoveryStatus {
    type V = Recovery;

    open spec fn view(&self) -> Recovery {
        Recovery {
            status: self.status@,
            chunk_count: self.chunk_count,
            estimated_duration_seconds: self.estimated_duration_seconds,
            audio_file_path: crate::devices::configuration::text_of(self.audio_file_path),
            message: self.message@,
        }
    }
}

/// A file name with the extension of a checkpoint.
pub open spec fn is_checkpoint_file(name: Seq<char>) -> bool {
    name.len() > 4 && ends_in(name, ".mp4"@)
}

fn has_checkpoint_extension(name: &str) -> (r: bool)
    ensures
        r == is_checkpoint_file(name@),
{
    proof {
        reveal_strlit(".mp4");
    }
    let chars = text::chars_of(name);
    let n: usize = chars.len();
    if n <= 4 {
        return false;
    }
    let r: bool = chars[n - 4] == '.' && chars[n - 3] == 'm' && chars[n - 2] == 'p' && chars[n - 1]
        == '4';
    proof {
        let tail = name@.skip(n - 4);
        assert(tail[0] == chars@[n - 4] && tail[1] == chars@[n - 3] && tail[2] == chars@[n - 2]
            && tail[3] == chars@[n - 1]);
        if r {
            assert(tail =~= ".mp4"@);
        } else {
            assert(".mp4"@[0] == '.' && ".mp4"@[1] == 'm' && ".mp4"@[2] == 'p' && ".mp4"@[3]
                == '4');
        }
    }
    r
}

/// The checkpoint files among file names, in their order.
pub open spec fn checkpoint_files(names: Seq<String>) -> Seq<String> {
    names.filter(|name: String| is_checkpoint_file(name@))
}

fn keep_checkpoint_files(names: &Vec<String>) -> (r: Vec<String>)
    ensures
        r@ == checkpoint_files(names@),
{
    let ghost wanted = |name: String| is_checkpoint_file(name@);
    let mut r: Vec<String> = Vec::new();
    let mut i: usize = 0;
    assert(names@.take(0).filter(wanted) =~= Seq::empty()) by {
        reveal(Seq::filter);
    }
    while i < names.len()
        invariant
            i <= names@.len(),
            wanted == (|name: String| is_checkpoint_file(name@)),
            r@ == names@.take(i as int).filter(wanted),
        decreases names@.len() - i,
    {
        proof {
            assert(names@.take(i + 1).drop_last() =~= names@.take(i as int));
            reveal(Seq::filter);
        }
        if has_checkpoint_extension(names[i].as_str()) {
            r.push(names[i].clone());
        }
        i = i + 1;
    }
    assert(names@.take(i as int) =~= names@);
    r
}

/// What is to be done to recover audio.
pub enum RecoveryPlan {
    /// There is nothing to recover.
    Nothing(AudioRecoveryStatus),
    /// These files are to be merged.
    Merge { files: Vec<String>, chunk_count: u32 },
}

/// Plans the recovery of audio from the files of a checkpoint directory; `names` is missing where
/// there is no such directory.
pub fn plan_recovery(names: Option<Vec<String>>) -> (r: RecoveryPlan)
    ensures
        match r {
            RecoveryPlan::Nothing(_) => names_to_recover(names).len() == 0,
            RecoveryPlan::Merge { files, .. } => is_recovery(files@, names_to_recover(names)),
        },
        match names {
            None => r matches RecoveryPlan::Nothing(status) && status@ == (Recovery {
                status: "none"@,
                chunk_count: 0,
                estimated_duration_seconds: 0,
                audio_file_path: None,
                message: "No audio checkpoints found"@,
            }),
            Some(names) => if checkpoint_files(names@).len() == 0 {
                r matches RecoveryPlan::Nothing(status) && status@ == (Recovery {
                    status: "none"@,
                    chunk_count: 0,
                    estimated_duration_seconds: 0,
                    audio_file_path: None,
                    message: "No audio checkpoint files found"@,
                })
            } else {
                r matches RecoveryPlan::Merge { files, chunk_count } && text::in_order(files@)
                    && files@.to_multiset() == checkpoint_files(names@).to_multiset()
                    && chunk_count == files@.len() as u32
            },
        },
{
    let names = match names {
        Some(names) => names,
        None => {
            return RecoveryPlan::Nothing(
                AudioRecoveryStatus {
                    status: "none".to_owned(),
                    chunk_count: 0,
                    estimated_duration_seconds: 0,
                    audio_file_path: None,
                    message: "No audio checkpoints found".to_owned(),
                },
            );
        },
    };
    let files = keep_checkpoint_files(&names);
    if files.len() == 0 {
        return RecoveryPlan::Nothing(
            AudioRecoveryStatus {
                status: "none".to_owned(),
                chunk_count: 0,
                estimated_duration_seconds: 0,
                audio_file_path: None,
                message: "No audio checkpoint files found".to_owned(),
            },
        );
    }
    let files = text::sort_strings(files);
    let chunk_count: u32 = files.len() as u32;
    RecoveryPlan::Merge { files, chunk_count }
}

/// How the merging of files ended.
pub enum MergeOutcome {
    Merged,
    /// The program failed with this output.
    Failed(String),
    /// The program could not be run.
    NotRun(String),
}

/// The status of a recovery after the files were merged, or not.
pub open spec fn recovered(
    chunk_count: u32,
    output: Seq<char>,
    outcome: MergeOutcome,
) -> Recovery {
    Recovery {
        status: if outcome is Merged { "success"@ } else { "failed"@ },
        chunk_count,
        estimated_duration_seconds: (chunk_count * CHECKPOINT_SECONDS) as u64,
        audio_file_path: if outcome is Merged { Some(output) } else { None },
        message: match outcome {
            MergeOutcome::Merged => "Successfully recovered "@ + text::decimal_digits(
                chunk_count as nat) + " audio chunks"@,
            MergeOutcome::Failed(error) => "FFmpeg failed: "@ + error@,
            MergeOutcome::NotRun(error) => "Failed to run FFmpeg: "@ + error@,
        },
    }
}

/// Sums up a recovery after the files were merged into the audio of the meeting in a folder, or not.
pub fn recover_audio_from_checkpoints(
    chunk_count: u32,
    folder: &str,
    separator: char,
    outcome: MergeOutcome,
) -> (r: AudioRecoveryStatus)
    ensures
        r@ == recovered(chunk_count, audio_path(folder@, separator), outcome),
{
    let estimated_duration_seconds: u64 = chunk_count as u64 * CHECKPOINT_SECONDS;
    match outcome {
        MergeOutcome::Merged => {
            let mut message = text::joined(
                "Successfully recovered ", text::decimal(chunk_count as u64).as_str());
            message.append(" audio chunks");
            AudioRecoveryStatus {
                status: "success".to_owned(),
                chunk_count,
                estimated_duration_seconds,
                audio_file_path: Some(audio_file_path(folder, separator)),
                message,
            }
        },
        MergeOutcome::Failed(error) => AudioRecoveryStatus {
            status: "failed".to_owned(),
            chunk_count,
            estimated_duration_seconds,
            audio_file_path: None,
            message: text::joined("FFmpeg failed: ", error.as_str()),
        },
        MergeOutcome::NotRun(error) => AudioRecoveryStatus {
            status: "failed".to_owned(),
            chunk_count,
            estimated_duration_seconds,
            audio_file_path: None,
            message: text::joined("Failed to run FFmpeg: ", error.as_str()),
        },
    }
}

/// Checkpoints are kept until audio and text are known to be saved.
#[derive(Debug, Clone, Copy, PartialEq, Eq, Structural)]
pub struct CheckpointsRetained;

impl CheckpointsRetained {
    pub fn message(&self) -> (r: &'static str)
        ensures
            r@
                == "Checkpoints retained: complete audio and transcript persistence has not been verified"@,
    {
        "Checkpoints retained: complete audio and transcript persistence has not been verified"
    }
}

/// Whether the checkpoints of a meeting are cleaned up: never while there are any.
pub fn cleanup_checkpoints(directory_exists: bool) -> (r: Result<(), CheckpointsRetained>)
    ensures
        r is Ok == !directory_exists,
{
    if directory_exists {
        Err(CheckpointsRetained)
    } else {
        Ok(())
    }
}

/// Whether a checkpoint directory holds a checkpoint; `names` is missing where there is none.
#[verifier::loop_isolation(false)]
pub fn has_audio_checkpoints(names: &Option<Vec<String>>) -> (r: bool)
    ensures
        r == match *names {
            Some(names) => exists|i: int| 0 <= i < names@.len() && is_checkpoint_file(
                (#[trigger] names@[i])@),
            None => false,
        },
{
    let names = match names {
        Some(names) => names,
        None => {
            return false;
        },
    };
    let mut i: usize = 0;
    while i < names.len()
        invariant
            i <= names@.len(),
            forall|j: int| 0 <= j < i ==> !is_checkpoint_file((#[trigger] names@[j])@),
        decreases names@.len() - i,
    {
        if has_checkpoint_extension(names[i].as_str()) {
            return true;
        }
        i = i + 1;
    }
    false
}

/// What the checkpoints hold, one after the other, after a sequence of steps.
pub open spec fn saved_audio(steps: Seq<SaverStep>) -> Seq<u32>
    decreases steps.len(),
{
    if steps.len() == 0 {
        Seq::empty()
    } else {
        match steps.last() {
            SaverStep::Checkpoint { encoded: true } => saved_audio(steps.drop_last())
                + buffered_audio(steps.drop_last()),
            _ => saved_audio(steps.drop_last()),
        }
    }
}

/// What is buffered after a sequence of steps.
pub open spec fn buffered_audio(steps: Seq<SaverStep>) -> Seq<u32>
    decreases steps.len(),
{
    if steps.len() == 0 {
        Seq::empty()
    } else {
        buffer_after(buffered_audio(steps.drop_last()), steps.last())
    }
}

/// All audio that came in over a sequence of steps.
pub open spec fn audio_in(steps: Seq<SaverStep>) -> Seq<u32>
    decreases steps.len(),
{
    if steps.len() == 0 {
        Seq::empty()
    } else {
        match steps.last() {
            SaverStep::Chunk(samples) => audio_in(steps.drop_last()) + samples,
            _ => audio_in(steps.drop_last()),
        }
    }
}

/// Law: no sample is lost or saved twice, whichever checkpoints fail.
pub proof fn checkpoints_keep_all_audio(steps: Seq<SaverStep>)
    ensures
        saved_audio(steps) + buffered_audio(steps) == audio_in(steps),
    decreases steps.len(),
{
    if steps.len() > 0 {
        checkpoints_keep_all_audio(steps.drop_last());
    }
    assert(saved_audio(steps) + buffered_audio(steps) =~= audio_in(steps));
}

/// Law: once nothing is buffered any more, the checkpoints hold all audio that came in.
pub proof fn flushed_checkpoints_hold_everything(steps: Seq<SaverStep>)
    requires
        buffered_audio(steps).len() == 0,
    ensures
        saved_audio(steps) == audio_in(steps),
{
    checkpoints_keep_all_audio(steps);
    assert(saved_audio(steps) + buffered_audio(steps) =~= saved_audio(steps));
}

/// The writer of a recording's audio: what went wrong first.
pub struct AudioWriter {
    pub first_error: Option<String>,
}

impl AudioWriter {
    pub fn new() -> (r: Self)
        ensures
            r.first_error is None,
    {
        AudioWriter { first_error: None }
    }

    /// A chunk was taken in, and a checkpoint that was due was saved, or not. The writer goes on
    /// either way.
    pub fn chunk_written(&mut self, outcome: Result<(), String>)
        ensures
            crate::devices::configuration::text_of(final(self).first_error) == first_write_error(
                crate::devices::configuration::text_of(old(self).first_error), outcome),
            crate::devices::configuration::text_of(final(self).first_error) == match (
                old(self).first_error,
                outcome,
            ) {
                (Some(first), _) => Some(first@),
                (None, Err(error)) => Some("Failed to write audio chunk: "@ + error@),
                (None, Ok(_)) => None,
            },
    {
        if let Err(error) = outcome {
            if self.first_error.is_none() {
                self.first_error = Some(
                    text::joined("Failed to write audio chunk: ", error.as_str()),
                );
            }
        }
    }

    /// How the writer ended.
    pub fn end(self) -> (r: Result<(), String>)
        ensures
            r == match self.first_error {
                Some(error) => Err::<(), String>(error),
                None => Ok::<(), String>(()),
            },
    {
        match self.first_error {
            Some(error) => Err(error),
            None => Ok(()),
        }
    }
}

/// Law: a checkpoint is due once thirty seconds of audio are buffered, and not before.
pub proof fn checkpoints_are_thirty_seconds_long(saver: IncrementalAudioSaver)
    ensures
        saver.is_due() <==> 30 * saver.sample_rate <= saver.buffer@.len(),
{
}

/// Law: flushing makes one checkpoint of what is buffered where that could be encoded, and else
/// keeps it; nothing buffered makes none.
pub proof fn flushing_makes_one_checkpoint(audio: Buffered)
    requires
        audio.has_room(),
    ensures
        audio.flushed(false) == audio,
        audio.buffer.len() == 0 ==> audio.flushed(true) == audio,
        audio.flushed(true).buffer.len() == 0,
        audio.buffer.len() > 0 ==> audio.flushed(true).checkpoint_count == audio.checkpoint_count
            + 1,
        audio.flushed(true).sample_rate == audio.sample_rate,
        audio.flushed(true).flushed(true) == audio.flushed(true),
{
}

/// Law: a chunk is buffered behind what is there, and a checkpoint empties the buffer only where
/// it was encoded.
pub proof fn chunks_are_buffered_in_order(buffer: Seq<u32>, samples: Seq<u32>)
    ensures
        buffer_after(buffer, SaverStep::Chunk(samples)).len() == buffer.len() + samples.len(),
        buffer_after(buffer, SaverStep::Chunk(samples)).take(buffer.len() as int) == buffer,
        buffer_after(buffer, SaverStep::Chunk(samples)).skip(buffer.len() as int) == samples,
        buffer_after(buffer, SaverStep::Checkpoint { encoded: false }) == buffer,
        buffer_after(buffer, SaverStep::Checkpoint { encoded: true }).len() == 0,
{
    let after = buffer_after(buffer, SaverStep::Chunk(samples));
    assert(after.take(buffer.len() as int) =~= buffer);
    assert(after.skip(buffer.len() as int) =~= samples);
}

/// Law: the audio of a meeting is the file `audio.mp4` right in its folder, with one separator
/// between them.
pub proof fn the_audio_lies_in_the_folder(folder: Seq<char>, separator: char)
    ensures
        ({
            let path = audio_path(folder, separator);
            let name = "audio.mp4"@;
            &&& path.skip(path.len() - name.len()) == name
            &&& path.take(folder.len() as int) == folder
            &&& folder.len() > 0 ==> path[path.len() - name.len() - 1] == separator
            &&& path.len() <= folder.len() + 1 + name.len()
            &&& folder.len() > 0 && folder.last() == separator ==> path.len() == folder.len()
                + name.len()
        }),
{
    let path = audio_path(folder, separator);
    let name = "audio.mp4"@;
    assert(path.skip(path.len() - name.len()) =~= name);
    assert(path.take(folder.len() as int) =~= folder);
}

/// Law: a merge succeeds only where the merged file is there; every other end of it is a failure
/// that says which.
pub proof fn only_a_merged_file_counts(end: MergeEnd, output: String, path: Seq<char>)
    ensures
        merge_result(end, output) is Ok <==> end is Merged,
        merge_result(end, output) matches Ok(file) ==> file == output,
        merge_failure(end, path) is None <==> end is Merged,
        merge_result(end, output) matches Err(error) ==> merge_failure(end, output@) == Some(
            error.text()),
        end matches MergeEnd::Failed(stderr) ==> merge_failure(end, path) == Some(
            "FFmpeg concat failed: "@ + stderr@),
        end matches MergeEnd::NotRun(error) ==> merge_failure(end, path) == Some(error@),
{
}

/// Law: recovered audio is told of with its path only where the files were merged, and a checkpoint
/// counts for thirty seconds.
pub proof fn recovery_tells_what_was_merged(chunk_count: u32, output: Seq<char>, error: String)
    ensures
        ({
            let done = recovered(chunk_count, output, MergeOutcome::Merged);
            let failed = recovered(chunk_count, output, MergeOutcome::Failed(error));
            let not_run = recovered(chunk_count, output, MergeOutcome::NotRun(error));
            &&& done.status == "success"@ && done.audio_file_path == Some(output)
            &&& failed.status == "failed"@ && failed.audio_file_path is None
            &&& not_run.status == "failed"@ && not_run.audio_file_path is None
            &&& done.estimated_duration_seconds == 30 * chunk_count
            &&& failed.estimated_duration_seconds == done.estimated_duration_seconds
            &&& done.chunk_count == chunk_count && failed.chunk_count == chunk_count
        }),
{
}

/// Law: no two checkpoints have the same name.
pub proof fn checkpoints_have_their_own_names(a: nat, b: nat)
    requires
        checkpoint_name(a) == checkpoint_name(b),
    ensures
        a == b,
{
    let x = text::zero_padded(text::decimal_digits(a), 3);
    let y = text::zero_padded(text::decimal_digits(b), 3);
    let n = "audio_chunk_"@.len() as int;
    let m = ".mp4"@.len() as int;
    assert(checkpoint_name(a).skip(n).take(checkpoint_name(a).len() - n - m) =~= x);
    assert(checkpoint_name(b).skip(n).take(checkpoint_name(b).len() - n - m) =~= y);
    text::padded_digits_are_faithful(a, b, 3);
}

/// Law: the list of files to merge names each of them on a line of its own, in order.
pub proof fn every_file_gets_its_line(paths: Seq<Seq<char>>, path: Seq<char>)
    ensures
        concat_text(paths.push(path)) == concat_text(paths) + ("file '"@ + path + "'\n"@),
        concat_text(Seq::empty()).len() == 0,
{
    assert(paths.push(path).drop_last() =~= paths);
    assert(concat_text(paths.push(path)) =~= concat_text(paths) + ("file '"@ + path + "'\n"@));
}

/// Why buffered audio and its checkpoints cannot be made one file at `output`, if they cannot.
pub open spec fn finalize_failure(
    audio: Buffered,
    encoded: Result<(), String>,
    merge: MergeEnd,
    output: Seq<char>,
) -> Option<Seq<char>> {
    if audio.buffer.len() > 0 && encoded is Err {
        Some(FinalizeError::NotEncoded(encoded->Err_0).text())
    } else if audio.buffer.len() == 0 && audio.checkpoint_count == 0 {
        Some(FinalizeError::NoCheckpoints.text())
    } else {
        merge_failure(merge, output)
    }
}

/// Law: audio becomes one file exactly when there is any, what was left of it could be encoded, and
/// the checkpoints were merged; then nothing is buffered any more.
pub proof fn all_audio_becomes_one_file(
    audio: Buffered,
    encoded: Result<(), String>,
    merge: MergeEnd,
    output: Seq<char>,
)
    ensures
        finalize_failure(audio, encoded, merge, output) is None <==> (audio.buffer.len() > 0
            || audio.checkpoint_count > 0) && (audio.buffer.len() > 0 ==> encoded is Ok)
            && merge is Merged,
        finalize_failure(audio, encoded, merge, output) is None ==> audio.flushed(
            encoded is Ok).buffer.len() == 0,
        audio.buffer.len() > 0 ==> (encoded matches Err(error) ==> finalize_failure(
            audio, encoded, merge, output) == Some(encoded->Err_0@)),
{
}

/// Law: checkpoints are known by their extension, unless that is all there is of a name.
pub proof fn checkpoints_are_known_by_their_extension(stem: Seq<char>)
    ensures
        stem.len() > 0 ==> is_checkpoint_file(stem + ".mp4"@),
        !is_checkpoint_file(".mp4"@),
        is_checkpoint_file(stem) ==> stem.len() > 4 && stem.skip(stem.len() - 4) == ".mp4"@,
{
    reveal_strlit(".mp4");
    let file = stem + ".mp4"@;
    assert(file.skip(file.len() - 4) =~= ".mp4"@);
}

/// The files among these that audio can be recovered from.
pub open spec fn names_to_recover(names: Option<Vec<String>>) -> Seq<String> {
    match names {
        Some(names) => checkpoint_files(names@),
        None => Seq::empty(),
    }
}

/// These are all of the files, in the order in which they were recorded.
pub open spec fn is_recovery(files: Seq<String>, wanted: Seq<String>) -> bool {
    wanted.len() > 0 && text::in_order(files) && files.to_multiset() == wanted.to_multiset()
}

/// Law: audio is recovered from every checkpoint, each once, and in order of their names.
pub proof fn every_checkpoint_is_recovered(
    files: Seq<String>,
    wanted: Seq<String>,
    i: int,
    j: int,
)
    requires
        is_recovery(files, wanted),
    ensures
        files.len() == wanted.len(),
        0 <= i < wanted.len() ==> files.contains(wanted[i]),
        0 <= i < files.len() ==> wanted.contains(files[i]),
        0 <= i < j < files.len() ==> text::precedes(files[i]@, files[j]@),
{
    broadcast use vstd::seq_lib::group_to_multiset_ensures;

    assert(files.to_multiset().len() == wanted.to_multiset().len());
    if 0 <= i < wanted.len() {
        assert(wanted.contains(wanted[i]));
        assert(wanted.to_multiset().count(wanted[i]) > 0);
        assert(files.to_multiset().count(wanted[i]) > 0);
    }
    if 0 <= i < files.len() {
        assert(files.contains(files[i]));
        assert(files.to_multiset().count(files[i]) > 0);
        assert(wanted.to_multiset().count(files[i]) > 0);
    }
}

/// What went wrong first with the audio of a recording, once one more chunk was written or not.
pub open spec fn first_write_error(earlier: Option<Seq<char>>, outcome: Result<(), String>) -> Option<
    Seq<char>,
> {
    match (earlier, outcome) {
        (Some(first), _) => Some(first),
        (None, Err(error)) => Some("Failed to write audio chunk: "@ + error@),
        (None, Ok(_)) => None,
    }
}

/// Law: a chunk that could not be written is not forgotten, whatever is written after it, and the
/// first one is the one that is told.
pub proof fn failed_chunks_are_not_forgotten(
    earlier: Option<Seq<char>>,
    outcome: Result<(), String>,
    later: Result<(), String>,
)
    ensures
        earlier is Some ==> first_write_error(earlier, outcome) == earlier,
        earlier is None && outcome is Ok ==> first_write_error(earlier, outcome) is None,
        outcome is Err ==> first_write_error(earlier, outcome) is Some && first_write_error(
            first_write_error(earlier, outcome), later) == first_write_error(earlier, outcome),
{
}

} // verus!
