//! The task that transcribes a recording, one batch after the other.
//!
//! Audio comes while the task works, and it ends only when no more comes and all that came is
//! dealt with. If its worker fails, what it left is counted and reported.

use vstd::prelude::*;
use vstd::string::*;

use crate::audio_chunk::{chunk_views, duration_ns, duration_of, AudioChunk};
use crate::text;
use crate::transcription::chunk_queue::{
    batch_is_full, batch_of, Batch, ChunkQueue, Verification, MAX_VERIFICATION_ATTEMPTS,
};
use crate::transcription::notice::{notice_view, TaskNotice, Trouble};
use crate::transcription::provider::str_view;
use crate::transcription::worker::{
    batch_update, heard_speech, live_trouble, progress_due, publishes, settle_batch,
    terminal_reason, BatchReport, BatchResult, EngineKind, TranscriptionActivity,
};

verus! {

/// Where a task stands.
#[derive(Debug, Clone, Copy, PartialEq, Eq, Structural)]
pub enum TaskPhase {
    /// The next batch is looked for.
    Working,
    /// A batch is with the engine.
    Transcribing,
    /// The last rows of a live session are asked for.
    FinishingLive,
    /// The counts are compared, after this many earlier comparisons.
    Comparing(u32),
    Done,
}

/// What is to be done next.
pub enum TaskAction<T> {
    /// The engine is asked for the text of a batch.
    Transcribe(Batch<T>),
    /// Audio is waited for.
    AwaitChunk,
    /// The last rows of the live session are asked for.
    FinishLive,
    /// The counts are compared.
    Compare,
    /// The counts are compared again after this many milliseconds.
    Wait { millis: u64 },
    /// So many chunks are missing for good.
    ReportLoss { lost: u64, writer_error: &'static str },
    Finish,
}

/// The transcription of a recording.
pub struct TranscriptionTask<T> {
    pub kind: EngineKind,
    /// The engine has a session that revises its rows.
    pub live: bool,
    pub queue: ChunkQueue<T>,
    pub activity: TranscriptionActivity,
    pub phase: TaskPhase,
    /// The chunks of the batch that is with the engine, and where its audio lies.
    pub in_hand: Vec<u64>,
    pub start_ns: u64,
    pub samples: usize,
    pub sample_rate: u32,
}

/// How a task starts.
#[allow(inconsistent_fields)]
pub enum TaskStart<T> {
    /// The task runs. A live session that could not be opened is told of.
    Started { task: TranscriptionTask<T>, notice: Option<TaskNotice> },
    /// There is no engine to work with: nothing is transcribed.
    NotStarted { activity: TranscriptionActivity, notice: TaskNotice },
}

/// What is said of chunks that were never dealt with.
pub open spec fn loss_text() -> Seq<char> {
    "Transcription queue did not finish processing all accepted audio"@
}

impl<T: Copy> TranscriptionTask<T> {
    /// The chunks that were taken out are those of the batch that is with the engine. A task
    /// whose worker failed may have left some.
    pub open spec fn wf(self) -> bool {
        &&& self.queue.wf()
        &&& match self.phase {
            TaskPhase::Working => self.queue.outstanding() == 0,
            TaskPhase::Transcribing => 0 < self.in_hand@.len() && self.queue.outstanding()
                == self.in_hand@.len(),
            TaskPhase::FinishingLive => self.queue.outstanding() == 0
                && self.queue.waiting@.len() == 0 && self.queue.input_finished,
            TaskPhase::Comparing(attempts) => attempts <= MAX_VERIFICATION_ATTEMPTS,
            TaskPhase::Done => true,
        }
    }

    /// The times of the batch that is with the engine can be told.
    pub open spec fn fits(self) -> bool {
        self.sample_rate > 0 && self.start_ns + duration_ns(
            self.samples as nat, self.sample_rate as nat) <= u64::MAX
    }

    /// The batch that is with the engine is this one: its chunks, and where its audio lies.
    pub open spec fn has_in_hand(self, batch: Batch<T>) -> bool {
        &&& self.in_hand@ == batch.source_chunk_ids@
        &&& self.start_ns == batch.chunk.timestamp_ns
        &&& self.samples == batch.chunk.data@.len()
        &&& self.sample_rate == batch.chunk.sample_rate
    }

    /// Every chunk that came is dealt with.
    pub open spec fn is_complete(self) -> bool {
        self.queue.compared(0) == Verification::Complete
    }

    /// Chunks are missing, and were looked for as often as they are.
    pub open spec fn has_lost_chunks(self) -> bool {
        self.phase matches TaskPhase::Comparing(attempts) && self.queue.compared(attempts)
            is ChunksLost
    }

    /// A live session is used: only SenseVoice has one, and it has to be open.
    pub open spec fn uses_session(kind: EngineKind, session: Result<(), String>) -> bool {
        kind == EngineKind::SenseVoice && session is Ok
    }

    /// Starts to transcribe, given which engine could be initialized, and how opening a live
    /// session ended. Only SenseVoice has such a session; without it no batch of a recording can be
    /// transcribed, but all are counted.
    pub fn start_transcription_task(
        engine: Result<EngineKind, String>,
        session: Result<(), String>,
        activity: TranscriptionActivity,
    ) -> (r: TaskStart<T>)
        ensures
            match engine {
                Err(error) => r matches TaskStart::NotStarted { activity: after, notice } && after
                    == (TranscriptionActivity { active: false, ..activity }) && notice
                    == (TaskNotice { trouble: Trouble::EngineNotReady, error }),
                Ok(kind) => r matches TaskStart::Started { task, notice } && {
                    &&& task.live == Self::uses_session(kind, session)
                    &&& task.wf()
                    &&& task.kind == kind
                    &&& task.live == (kind == EngineKind::SenseVoice && session is Ok)
                    &&& task.phase == TaskPhase::Working
                    &&& task.queue.waiting@.len() == 0
                    &&& task.queue.queued == 0
                    &&& task.queue.completed == 0
                    &&& !task.queue.input_finished
                    &&& task.activity == (TranscriptionActivity { active: true, ..activity })
                    &&& notice_view(notice) == match session {
                        Err(error) if kind == EngineKind::SenseVoice => Some(
                            (Trouble::SessionNotOpened, error@),
                        ),
                        _ => None,
                    }
                },
            },
    {
        let kind = match engine {
            Ok(kind) => kind,
            Err(error) => {
                let mut activity = activity;
                activity.end();
                return TaskStart::NotStarted {
                    activity,
                    notice: TaskNotice { trouble: Trouble::EngineNotReady, error },
                };
            },
        };
        if !matches!(kind, EngineKind::SenseVoice) {
            return TaskStart::Started { task: Self::begin(kind, false, activity), notice: None };
        }
        match session {
            Ok(_) => TaskStart::Started { task: Self::begin(kind, true, activity), notice: None },
            Err(error) => TaskStart::Started {
                task: Self::begin(kind, false, activity),
                notice: Some(TaskNotice { trouble: Trouble::SessionNotOpened, error }),
            },
        }
    }

    /// Begins to transcribe. The numbers of rows go on from earlier recordings.
    pub fn begin(kind: EngineKind, live: bool, activity: TranscriptionActivity) -> (r: Self)
        ensures
            r.wf(),
            r.kind == kind,
            r.live == live,
            r.phase == TaskPhase::Working,
            r.queue.waiting@.len() == 0,
            r.queue.queued == 0,
            r.queue.completed == 0,
            !r.queue.input_finished,
            r.activity == (TranscriptionActivity { active: true, ..activity }),
    {
        let mut activity = activity;
        activity.begin();
        TranscriptionTask {
            kind,
            live,
            queue: ChunkQueue::new(),
            activity,
            phase: TaskPhase::Working,
            in_hand: Vec::new(),
            start_ns: 0,
            samples: 0,
            sample_rate: 0,
        }
    }

    /// Audio came.
    pub fn chunk_arrived(&mut self, chunk: AudioChunk<T>)
        requires
            old(self).wf(),
            old(self).queue.queued < u64::MAX,
            !old(self).queue.input_finished,
        ensures
            final(self).wf(),
            final(self).queue.waiting@ == old(self).queue.waiting@.push(chunk),
            final(self).queue.queued == old(self).queue.queued + 1,
            final(self).queue.completed == old(self).queue.completed,
            final(self).queue.input_finished == old(self).queue.input_finished,
            *final(self) == (TranscriptionTask { queue: final(self).queue, ..*old(self) }),
    {
        self.queue.enqueue(chunk);
    }

    /// No more audio comes.
    pub fn input_ended(&mut self)
        requires
            old(self).wf(),
        ensures
            final(self).wf(),
            *final(self) == (TranscriptionTask {
                queue: ChunkQueue { input_finished: true, ..old(self).queue },
                ..*old(self)
            }),
    {
        self.queue.finish_input();
    }

    /// Looks for the next batch. A task that finds none ends once no more audio comes: every
    /// chunk is dealt with then.
    pub fn next(&mut self, silence: T) -> (r: TaskAction<T>)
        requires
            old(self).wf(),
            old(self).phase == TaskPhase::Working,
        ensures
            final(self).wf(),
            final(self).kind == old(self).kind,
            final(self).live == old(self).live,
            final(self).activity == old(self).activity,
            final(self).queue.queued == old(self).queue.queued,
            final(self).queue.completed == old(self).queue.completed,
            final(self).queue.input_finished == old(self).queue.input_finished,
            if old(self).queue.waiting@.len() > 0 {
                &&& final(self).phase == TaskPhase::Transcribing
                &&& (r matches TaskAction::Transcribe(batch) && {
                    let n = batch.source_chunk_ids@.len() as int;
                    &&& batch_of(batch, chunk_views(old(self).queue.waiting@), n, silence)
                    &&& final(self).queue.waiting@ == old(self).queue.waiting@.skip(n)
                    &&& if old(self).kind == EngineKind::Whisper {
                        batch_is_full(batch, chunk_views(final(self).queue.waiting@))
                    } else {
                        n == 1
                    }
                    &&& final(self).has_in_hand(batch)
                    &&& final(self).in_hand@ == batch.source_chunk_ids@
                    &&& final(self).start_ns == batch.chunk.timestamp_ns
                    &&& final(self).samples == batch.chunk.data@.len()
                    &&& final(self).sample_rate == batch.chunk.sample_rate
                })
            } else {
                &&& final(self).queue.waiting@ == old(self).queue.waiting@
                &&& if !old(self).queue.input_finished {
                    r is AwaitChunk && final(self).phase == TaskPhase::Working
                } else {
                    &&& old(self).queue.completed == old(self).queue.queued
                    &&& if old(self).live {
                        r is FinishLive && final(self).phase == TaskPhase::FinishingLive
                    } else {
                        r is Compare && final(self).phase == TaskPhase::Comparing(0)
                    }
                }
            },
    {
        let coalesce: bool = self.kind.coalesces_backlog();
        match self.queue.next_batch(coalesce, silence) {
            Some(batch) => {
                self.phase = TaskPhase::Transcribing;
                self.in_hand = clone_ids(&batch.source_chunk_ids);
                self.start_ns = batch.chunk.timestamp_ns;
                self.samples = batch.chunk.data.len();
                self.sample_rate = batch.chunk.sample_rate;
                TaskAction::Transcribe(batch)
            },
            None => if !self.queue.input_finished {
                TaskAction::AwaitChunk
            } else if self.live {
                self.phase = TaskPhase::FinishingLive;
                TaskAction::FinishLive
            } else {
                self.phase = TaskPhase::Comparing(0);
                TaskAction::Compare
            },
        }
    }

    /// Whether the times of the batch that is with the engine can be told.
    pub fn can_be_told(&self) -> (r: bool)
        ensures
            r == self.fits(),
    {
        self.sample_rate > 0 && duration_of(self.samples, self.sample_rate) <= (u64::MAX
            - self.start_ns) as u128
    }

    /// The engine is done with its batch: its chunks count as dealt with, however that ended.
    pub fn batch_settled(&mut self, result: BatchResult, timestamp: String) -> (r: BatchReport)
        requires
            old(self).wf(),
            old(self).phase == TaskPhase::Transcribing,
            publishes(old(self).kind, result) ==> old(self).fits(),
        ensures
            final(self).wf(),
            final(self).phase == TaskPhase::Working,
            final(self).kind == old(self).kind,
            final(self).live == old(self).live,
            final(self).queue == (ChunkQueue {
                completed: (old(self).queue.completed + old(self).in_hand@.len()) as u64,
                ..old(self).queue
            }),
            match r.update {
                Some(update) => publishes(old(self).kind, result) && (
                result matches BatchResult::Transcribed { transcript, confidence_bits, is_partial }
                    && update@ == batch_update(
                    old(self).in_hand@,
                    old(self).start_ns,
                    old(self).samples as nat,
                    old(self).sample_rate as nat,
                    transcript@,
                    timestamp@,
                    confidence_bits,
                    is_partial,
                    old(self).activity.next_sequence,
                )),
                None => !publishes(old(self).kind, result),
            },
            r.announce_speech == (heard_speech(old(self).kind, result)
                && !old(self).activity.speech_detected),
            str_view(r.terminal_reason) == terminal_reason(old(self).kind, result),
            str_view(r.writer_error) == crate::transcription::worker::writer_told(result),
            r.warn == crate::transcription::worker::warns(result),
            r.announce_speech == crate::transcription::worker::announces(
                old(self).kind, result, old(self).activity),
            final(self).activity == crate::transcription::worker::activity_after(
                old(self).kind, result, old(self).activity),
            str_view(r.writer_error) == if result is ModelUnloaded {
                Some("The transcription model was unloaded before queued audio was processed"@)
            } else {
                None
            },
            notice_view(r.notice) == live_trouble(result),
            r.warn == (result is Failed && progress_due(result)),
            r.report_progress == progress_due(result),
            final(self).activity == (TranscriptionActivity {
                speech_detected: old(self).activity.speech_detected || heard_speech(
                    old(self).kind, result),
                next_sequence: if publishes(old(self).kind, result) {
                    old(self).activity.next_sequence.wrapping_add(1)
                } else {
                    old(self).activity.next_sequence
                },
                ..old(self).activity
            }),
    {
        let ids = clone_ids(&self.in_hand);
        self.in_hand = Vec::new();
        self.phase = TaskPhase::Working;
        settle_batch(
            &mut self.queue,
            &mut self.activity,
            self.kind,
            ids,
            self.start_ns,
            self.samples,
            self.sample_rate,
            result,
            timestamp,
        )
    }

    /// The live session gave its last rows, or failed to. The counts are compared next, and a
    /// failure is told of.
    pub fn live_finished(&mut self, outcome: Result<(), String>) -> (r: (
        TaskAction<T>,
        Option<TaskNotice>,
    ))
        requires
            old(self).wf(),
            old(self).phase == TaskPhase::FinishingLive,
        ensures
            final(self).wf(),
            *final(self) == (TranscriptionTask { phase: TaskPhase::Comparing(0), ..*old(self) }),
            r.0 is Compare,
            notice_view(r.1) == match outcome {
                Ok(_) => None,
                Err(error) => Some((Trouble::SessionNotFinished, error@)),
            },
    {
        self.phase = TaskPhase::Comparing(0);
        let notice = match outcome {
            Ok(_) => None,
            Err(error) => Some(TaskNotice { trouble: Trouble::SessionNotFinished, error }),
        };
        (TaskAction::Compare, notice)
    }

    /// The worker failed. What it left is counted. Returns what the writer of text is told.
    pub fn worker_failed(&mut self, error: &str) -> (writer_error: String)
        requires
            old(self).wf(),
        ensures
            final(self).wf(),
            *final(self) == (TranscriptionTask {
                phase: TaskPhase::Comparing(0),
                queue: ChunkQueue { input_finished: true, ..old(self).queue },
                ..*old(self)
            }),
            writer_error@ == "Transcription worker failed: "@ + error@,
    {
        self.queue.finish_input();
        self.phase = TaskPhase::Comparing(0);
        text::joined("Transcription worker failed: ", error)
    }

    /// Compares the counts. Chunks that are missing are looked for ten times before they are
    /// given up.
    pub fn compare(&mut self) -> (r: TaskAction<T>)
        requires
            old(self).wf(),
            old(self).phase is Comparing,
        ensures
            final(self).wf(),
            r is Finish == old(self).is_complete(),
            r is ReportLoss == old(self).has_lost_chunks(),
            old(self).phase matches TaskPhase::Comparing(attempts) && if old(self).queue.queued
                == old(self).queue.completed {
                &&& r is Finish
                &&& *final(self) == (TranscriptionTask {
                    phase: TaskPhase::Done,
                    activity: TranscriptionActivity { active: false, ..old(self).activity },
                    ..*old(self)
                })
            } else if attempts < MAX_VERIFICATION_ATTEMPTS {
                &&& r == TaskAction::<T>::Wait { millis: 100 }
                &&& *final(self) == (TranscriptionTask {
                    phase: TaskPhase::Comparing((attempts + 1) as u32),
                    ..*old(self)
                })
            } else {
                &&& (r matches TaskAction::ReportLoss { lost, writer_error } && lost
                    == old(self).queue.queued - old(self).queue.completed && writer_error@
                    == loss_text())
                &&& *final(self) == (TranscriptionTask {
                    phase: TaskPhase::Done,
                    activity: TranscriptionActivity { active: false, ..old(self).activity },
                    ..*old(self)
                })
            },
    {
        let attempts: u32 = match self.phase {
            TaskPhase::Comparing(attempts) => attempts,
            _ => 0,
        };
        match self.queue.verify(attempts) {
            Verification::Complete => {
                self.phase = TaskPhase::Done;
                self.activity.end();
                TaskAction::Finish
            },
            Verification::Retry { attempts, millis } => {
                self.phase = TaskPhase::Comparing(attempts);
                TaskAction::Wait { millis }
            },
            Verification::ChunksLost { lost } => {
                self.phase = TaskPhase::Done;
                self.activity.end();
                TaskAction::ReportLoss {
                    lost,
                    writer_error: "Transcription queue did not finish processing all accepted audio",
                }
            },
        }
    }
}

fn clone_ids(ids: &Vec<u64>) -> (r: Vec<u64>)
    ensures
        r@ == ids@,
{
    let mut r: Vec<u64> = Vec::new();
    let mut i: usize = 0;
    while i < ids.len()
        invariant
            i <= ids@.len(),
            r@ == ids@.take(i as int),
        decreases ids@.len() - i,
    {
        r.push(ids[i]);
        assert(ids@.take(i + 1) =~= ids@.take(i as int).push(ids@[i as int]));
        i = i + 1;
    }
    assert(ids@.take(ids@.len() as int) =~= ids@);
    r
}

/// Law: a task that comes to its end by itself has lost nothing. Once it looks for a batch, finds
/// none and no more audio comes, all that came is dealt with; so the first comparison of the
/// counts finds them complete.
pub proof fn a_task_that_works_loses_nothing<T: Copy>(task: TranscriptionTask<T>)
    requires
        task.wf(),
        task.phase == TaskPhase::Working,
        task.queue.waiting@.len() == 0,
    ensures
        task.queue.completed == task.queue.queued,
{
}

/// Law: until it is over, a task accounts for every chunk that came: it waits, it is with the
/// engine, or it is dealt with.
pub proof fn every_chunk_is_accounted_for<T: Copy>(task: TranscriptionTask<T>)
    requires
        task.wf(),
        task.phase == TaskPhase::Working || task.phase == TaskPhase::Transcribing || task.phase
            == TaskPhase::FinishingLive,
    ensures
        task.queue.queued == task.queue.waiting@.len() + task.queue.completed + if task.phase
            == TaskPhase::Transcribing {
            task.in_hand@.len()
        } else {
            0
        },
{
}

/// Law: a task ends well exactly when every chunk that came was dealt with, and tells of a loss
/// exactly when some was not, after it was looked for ten times; never both.
pub proof fn lost_chunks_are_told_of<T: Copy>(task: TranscriptionTask<T>)
    requires
        task.wf(),
    ensures
        task.is_complete() <==> task.queue.queued == task.queue.completed,
        task.is_complete() ==> task.queue.waiting@.len() == 0 && !task.has_lost_chunks(),
        task.has_lost_chunks() <==> task.queue.completed < task.queue.queued && (
        task.phase matches TaskPhase::Comparing(attempts) && attempts >= 10),
{
}

/// Law: only SenseVoice works through a live session, and only where that could be opened.
pub proof fn only_sensevoice_is_live<T: Copy>(kind: EngineKind, error: String)
    ensures
        TranscriptionTask::<T>::uses_session(kind, Ok(())) <==> kind == EngineKind::SenseVoice,
        !TranscriptionTask::<T>::uses_session(kind, Err(error)),
{
}

/// Law: the row of a batch lies where the first of its chunks was recorded, lasts as long as the
/// audio that was transcribed, and names its chunks.
pub proof fn rows_lie_where_their_batch_was_recorded<T: Copy>(
    task: TranscriptionTask<T>,
    batch: Batch<T>,
    transcript: Seq<char>,
    timestamp: Seq<char>,
    confidence_bits: Option<u32>,
    is_partial: bool,
)
    requires
        task.has_in_hand(batch),
        task.fits(),
        batch.source_chunk_ids@.len() > 0,
    ensures
        ({
            let update = batch_update(
                task.in_hand@, task.start_ns, task.samples as nat, task.sample_rate as nat,
                transcript, timestamp, confidence_bits, is_partial, task.activity.next_sequence);
            &&& update.audio_start_ns == batch.chunk@.timestamp_ns
            &&& (update.audio_end_ns - update.audio_start_ns) * batch.chunk@.sample_rate
                <= batch.chunk@.data.len() * 1_000_000_000
            &&& batch.chunk@.data.len() * 1_000_000_000 < (update.audio_end_ns
                - update.audio_start_ns + 1) * batch.chunk@.sample_rate
            &&& update.source_chunk_ids == batch.source_chunk_ids@
            &&& update.sequence_id == task.activity.next_sequence
        }),
{
    crate::transcription::worker::rows_tell_what_was_said_and_when(
        task.in_hand@, task.start_ns, task.samples as nat, task.sample_rate as nat, transcript,
        timestamp, confidence_bits, is_partial, task.activity.next_sequence);
}

} // verus!
