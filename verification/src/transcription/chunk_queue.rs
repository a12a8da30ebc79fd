//! Chunks of speech that wait for the transcription engine.
//!
//! An engine that pads short input is disproportionately slow on many short pieces. When it has
//! fallen behind, pieces that are already waiting are joined into one bounded batch.

use std::collections::VecDeque;

use vstd::prelude::*;

use crate::audio_chunk::{chunk_views, AudioChunk, Chunk, NANOS_PER_SECOND};

verus! {

/// A batch lasts at most this long.
pub const MAX_BATCH_SECONDS: u64 = 9;

/// Pieces with a longer gap between them are not joined.
pub const MAX_BATCH_GAP_NS: u64 = 2_000_000_000;

/// The gap between two chunks, in nanoseconds times the sample rate; negative where they overlap.
pub open spec fn scaled_gap<T>(current: Chunk<T>, next: Chunk<T>) -> int {
    (next.timestamp_ns - current.timestamp_ns) * current.sample_rate - current.data.len()
        * NANOS_PER_SECOND
}

/// A scaled time as the nearest number of samples; a tie goes away from zero.
pub open spec fn rounded_samples(scaled: int) -> int {
    (scaled + NANOS_PER_SECOND as int / 2) / NANOS_PER_SECOND as int
}

/// The samples of silence that fill the gap.
pub open spec fn gap_samples<T>(current: Chunk<T>, next: Chunk<T>) -> int {
    if scaled_gap(current, next) > 0 {
        rounded_samples(scaled_gap(current, next))
    } else {
        0
    }
}

/// The samples of `next` that `current` holds already.
pub open spec fn overlap_samples<T>(current: Chunk<T>, next: Chunk<T>) -> int {
    let overlap = if scaled_gap(current, next) < 0 {
        rounded_samples(-scaled_gap(current, next))
    } else {
        0
    };
    if overlap < next.data.len() {
        overlap
    } else {
        next.data.len() as int
    }
}

/// The largest number of samples in a batch.
pub open spec fn max_batch_samples(sample_rate: u32) -> int {
    if MAX_BATCH_SECONDS * sample_rate < usize::MAX {
        MAX_BATCH_SECONDS * sample_rate
    } else {
        usize::MAX as int
    }
}

/// The length of the two chunks joined.
pub open spec fn joined_len<T>(current: Chunk<T>, next: Chunk<T>) -> int {
    current.data.len() + gap_samples(current, next) + next.data.len() - overlap_samples(
        current, next)
}

/// Two chunks can be joined: same rate, in order, with a short gap, and not too long together.
pub open spec fn mergeable<T>(current: Chunk<T>, next: Chunk<T>) -> bool {
    &&& current.sample_rate != 0
    &&& current.sample_rate == next.sample_rate
    &&& current.timestamp_ns <= next.timestamp_ns
    &&& scaled_gap(current, next) <= MAX_BATCH_GAP_NS * current.sample_rate
    &&& joined_len(current, next) <= max_batch_samples(current.sample_rate)
}

/// The samples of two chunks joined: silence fills a gap, an overlap is kept once.
pub open spec fn joined_data<T>(
    current: Chunk<T>,
    next: Chunk<T>,
    silence: T,
) -> Seq<T> {
    current.data + Seq::new(gap_samples(current, next) as nat, |i: int| silence) + next.data.skip(
        overlap_samples(current, next))
}

/// Two chunks joined: the result is known by the first one.
pub open spec fn merged<T>(current: Chunk<T>, next: Chunk<T>, silence: T) -> Chunk<T> {
    Chunk { data: joined_data(current, next, silence), ..current }
}

/// Joins `next` to `current` and returns how many samples overlapped, or gives `next` back
/// untouched. `silence` is the sample value of silence.
pub fn try_merge_transcription_chunk<T: Copy>(
    current: &mut AudioChunk<T>,
    next: AudioChunk<T>,
    silence: T,
) -> (r: Result<u64, AudioChunk<T>>)
    ensures
        match r {
            Ok(overlap) => {
                &&& mergeable(old(current)@, next@)
                &&& overlap == overlap_samples(old(current)@, next@)
                &&& final(current)@ == merged(old(current)@, next@, silence)
            },
            Err(returned) => {
                &&& !mergeable(old(current)@, next@)
                &&& returned == next
                &&& *final(current) == *old(current)
            },
        },
{
    if current.sample_rate == 0 || current.sample_rate != next.sample_rate {
        return Err(next);
    }
    if next.timestamp_ns < current.timestamp_ns {
        return Err(next);
    }
    let rate: i128 = current.sample_rate as i128;
    let distance: i128 = next.timestamp_ns as i128 - current.timestamp_ns as i128;
    let len: usize = current.data.len();
    let nanos: i128 = NANOS_PER_SECOND as i128;
    proof {
        assert(0 <= distance * rate <= u64::MAX * u32::MAX) by (nonlinear_arith)
            requires
                0 <= distance <= u64::MAX,
                0 <= rate <= u32::MAX,
        ;
        assert(0 <= len * nanos <= u64::MAX * 1_000_000_000) by (nonlinear_arith)
            requires
                0 <= len <= u64::MAX,
                nanos == 1_000_000_000,
        ;
    }
    let gap: i128 = distance * rate - len as i128 * nanos;
    assert(gap == scaled_gap(current@, next@));
    assert(0 <= MAX_BATCH_GAP_NS * rate <= 2_000_000_000 * u32::MAX) by (nonlinear_arith)
        requires
            0 <= rate <= u32::MAX,
            MAX_BATCH_GAP_NS == 2_000_000_000,
    ;
    if gap > MAX_BATCH_GAP_NS as i128 * rate {
        return Err(next);
    }
    let half: i128 = nanos / 2;
    let silence_samples: i128 = if gap > 0 { (gap + half) / nanos } else { 0 };
    let overlap: i128 = if gap < 0 { (-gap + half) / nanos } else { 0 };
    let next_len: usize = next.data.len();
    let trimmed: i128 = if overlap < next_len as i128 { overlap } else { next_len as i128 };
    let limit: i128 = MAX_BATCH_SECONDS as i128 * rate;
    let word: i128 = usize::MAX as i128;
    let max_samples: i128 = if limit < word { limit } else { word };
    if len as i128 + silence_samples + next_len as i128 - trimmed > max_samples {
        return Err(next);
    }
    let fill: usize = silence_samples as usize;
    let skip: usize = trimmed as usize;
    let ghost whole = joined_data(current@, next@, silence);
    let ghost start = current.data@;
    let mut i: usize = 0;
    while i < fill
        invariant
            i <= fill,
            current.data@ == start + Seq::new(i as nat, |k: int| silence),
            *current == (AudioChunk { data: current.data, ..*old(current) }),
        decreases fill - i,
    {
        current.data.push(silence);
        i = i + 1;
        assert(start + Seq::new((i - 1) as nat, |k: int| silence).push(silence) =~= start
            + Seq::new(i as nat, |k: int| silence));
    }
    let ghost padded = current.data@;
    let mut j: usize = skip;
    while j < next_len
        invariant
            skip <= j <= next_len,
            next_len == next.data@.len(),
            current.data@ == padded + next.data@.subrange(skip as int, j as int),
            *current == (AudioChunk { data: current.data, ..*old(current) }),
        decreases next_len - j,
    {
        current.data.push(next.data[j]);
        j = j + 1;
        assert(padded + next.data@.subrange(skip as int, j as int) =~= (padded
            + next.data@.subrange(skip as int, j - 1)).push(next.data@[j - 1]));
    }
    assert(next.data@.subrange(skip as int, j as int) =~= next.data@.skip(skip as int));
    assert(current.data@ =~= whole);
    Ok(skip as u64)
}

/// Law: a batch never lasts longer than nine seconds.
pub proof fn batch_is_bounded<T>(current: Chunk<T>, next: Chunk<T>, silence: T)
    requires
        mergeable(current, next),
    ensures
        joined_data(current, next, silence).len() <= MAX_BATCH_SECONDS * current.sample_rate,
        joined_data(current, next, silence).len() == joined_len(current, next),
{
}

/// Law: joining loses no audio. What was there stays in front; of `next` only samples that
/// `current` covers already are left out, and the rest follows at the end.
pub proof fn merge_keeps_the_audio<T>(current: Chunk<T>, next: Chunk<T>, silence: T)
    requires
        mergeable(current, next),
    ensures
        joined_data(current, next, silence).take(current.data.len() as int) == current.data,
        joined_data(current, next, silence).skip(
            joined_len(current, next) - (next.data.len() - overlap_samples(current, next)))
            == next.data.skip(overlap_samples(current, next)),
        gap_samples(current, next) == 0 || overlap_samples(current, next) == 0,
{
    let whole = joined_data(current, next, silence);
    assert(whole.take(current.data.len() as int) =~= current.data);
    assert(whole.skip(
        joined_len(current, next) - (next.data.len() - overlap_samples(current, next)))
        =~= next.data.skip(overlap_samples(current, next)));
}

/// Law: joining keeps the timeline. Unless `current` covers all of `next`, the batch ends within
/// half a sample of where `next` ended.
pub proof fn merge_keeps_the_timeline<T>(current: Chunk<T>, next: Chunk<T>)
    requires
        mergeable(current, next),
        overlap_samples(current, next) < next.data.len(),
    ensures
        ({
            let ended = (next.timestamp_ns - current.timestamp_ns) * current.sample_rate
                + next.data.len() * NANOS_PER_SECOND;
            let ends = joined_len(current, next) * NANOS_PER_SECOND;
            -(NANOS_PER_SECOND as int) / 2 <= ends - ended <= NANOS_PER_SECOND as int / 2
        }),
{
}

/// Pieces that are transcribed together, and the identifiers of the chunks they came in.
pub struct Batch<T> {
    pub chunk: AudioChunk<T>,
    pub source_chunk_ids: Vec<u64>,
    /// For each chunk after the first, how many of its samples the batch held already.
    pub overlaps: Vec<u64>,
}

/// The waiting chunks, and how many ever came and were dealt with.
pub struct ChunkQueue<T> {
    pub waiting: VecDeque<AudioChunk<T>>,
    pub queued: u64,
    pub completed: u64,
    pub input_finished: bool,
}

/// What a worker without a chunk does next.
#[derive(Debug, Clone, Copy, PartialEq, Eq, Structural)]
pub enum IdleAction {
    /// All chunks are dealt with and none will come.
    Finish,
    /// Look again after this many milliseconds.
    Wait { millis: u64 },
}

/// What is found when all workers have ended.
#[derive(Debug, Clone, Copy, PartialEq, Eq, Structural)]
pub enum Verification {
    /// Every chunk was dealt with.
    Complete,
    /// Look again after this many milliseconds.
    Retry { attempts: u32, millis: u64 },
    /// Chunks are missing for good.
    ChunksLost { lost: u64 },
}

/// How often the counts are compared before chunks are given up.
pub const MAX_VERIFICATION_ATTEMPTS: u32 = 10;

/// How many chunks are neither dealt with nor given up.
pub fn pending_chunk_count(queued: u64, completed: u64) -> (r: usize)
    ensures
        r == pending(queued, completed),
        r == (if completed < queued { queued - completed } else { 0 }) as usize,
{
    queued.saturating_sub(completed) as usize
}

/// The identifiers of chunks, in order.
pub open spec fn ids<T>(chunks: Seq<Chunk<T>>) -> Seq<u64> {
    Seq::new(chunks.len(), |i: int| chunks[i].chunk_id)
}

/// The first `n` of the chunks joined one after the other.
pub open spec fn joined_chunks<T>(chunks: Seq<Chunk<T>>, n: int, silence: T) -> Chunk<T>
    decreases n,
{
    if n <= 1 {
        chunks[0]
    } else {
        merged(joined_chunks(chunks, n - 1, silence), chunks[n - 1], silence)
    }
}

/// Each of the first `n` chunks can be joined to the ones before it.
pub open spec fn all_mergeable<T>(chunks: Seq<Chunk<T>>, n: int, silence: T) -> bool
    decreases n,
{
    n <= 1 || (all_mergeable(chunks, n - 1, silence) && mergeable(
        joined_chunks(chunks, n - 1, silence), chunks[n - 1]))
}

/// How many samples of each chunk after the first, among the first `n`, were held already.
pub open spec fn overlaps_of<T>(chunks: Seq<Chunk<T>>, n: int, silence: T) -> Seq<u64>
    decreases n,
{
    if n <= 1 {
        Seq::empty()
    } else {
        overlaps_of(chunks, n - 1, silence).push(
            overlap_samples(joined_chunks(chunks, n - 1, silence), chunks[n - 1]) as u64)
    }
}

/// `batch` is what the first `n` of the chunks make.
pub open spec fn batch_of<T>(batch: Batch<T>, chunks: Seq<Chunk<T>>, n: int, silence: T) -> bool {
    &&& 1 <= n <= chunks.len()
    &&& all_mergeable(chunks, n, silence)
    &&& batch.chunk@ == joined_chunks(chunks, n, silence)
    &&& batch.source_chunk_ids@ == ids(chunks.take(n))
    &&& batch.overlaps@ == overlaps_of(chunks, n, silence)
}

/// No more chunk can be joined to the batch.
pub open spec fn batch_is_full<T>(batch: Batch<T>, rest: Seq<Chunk<T>>) -> bool {
    rest.len() == 0 || !mergeable(batch.chunk@, rest[0])
}

impl<T: Copy> ChunkQueue<T> {
    /// How many chunks were taken out and are not dealt with yet.
    pub open spec fn outstanding(self) -> int {
        self.queued - self.completed - self.waiting@.len()
    }

    /// No chunk is dealt with that did not come, and none that waits counts as dealt with.
    pub open spec fn wf(self) -> bool {
        self.outstanding() >= 0
    }

    /// What a worker does that found no chunk waiting.
    pub open spec fn idle(self) -> IdleAction {
        if !self.input_finished {
            IdleAction::Wait { millis: 1 }
        } else if self.completed >= self.queued {
            IdleAction::Finish
        } else {
            IdleAction::Wait { millis: 5 }
        }
    }

    /// What comparing the counts finds after `attempts` earlier comparisons.
    pub open spec fn compared(self, attempts: u32) -> Verification {
        if self.queued == self.completed {
            Verification::Complete
        } else if attempts < MAX_VERIFICATION_ATTEMPTS {
            Verification::Retry { attempts: (attempts + 1) as u32, millis: 100 }
        } else {
            Verification::ChunksLost { lost: (self.queued - self.completed) as u64 }
        }
    }

    pub fn new() -> (r: Self)
        ensures
            r.wf(),
            r.waiting@.len() == 0,
            r.queued == 0,
            r.completed == 0,
            !r.input_finished,
    {
        ChunkQueue { waiting: VecDeque::new(), queued: 0, completed: 0, input_finished: false }
    }

    /// A chunk comes in.
    pub fn enqueue(&mut self, chunk: AudioChunk<T>)
        requires
            old(self).wf(),
            old(self).queued < u64::MAX,
        ensures
            final(self).wf(),
            final(self).waiting@ == old(self).waiting@.push(chunk),
            final(self).queued == old(self).queued + 1,
            final(self).completed == old(self).completed,
            final(self).input_finished == old(self).input_finished,
            final(self).outstanding() == old(self).outstanding(),
    {
        self.waiting.push_back(chunk);
        self.queued = self.queued + 1;
    }

    /// No more chunks will come.
    pub fn finish_input(&mut self)
        ensures
            *final(self) == (ChunkQueue { input_finished: true, ..*old(self) }),
    {
        self.input_finished = true;
    }

    /// Takes out the next chunk, with as many of the following ones as can be joined to it when
    /// `coalesce` is set. The order of the chunks is kept.
    pub fn next_batch(&mut self, coalesce: bool, silence: T) -> (r: Option<Batch<T>>)
        requires
            old(self).wf(),
        ensures
            final(self).wf(),
            final(self).queued == old(self).queued,
            final(self).completed == old(self).completed,
            final(self).input_finished == old(self).input_finished,
            match r {
                None => old(self).waiting@.len() == 0 && final(self).waiting@
                    == old(self).waiting@,
                Some(batch) => {
                    let n = batch.source_chunk_ids@.len() as int;
                    &&& batch_of(batch, chunk_views(old(self).waiting@), n, silence)
                    &&& final(self).waiting@ == old(self).waiting@.skip(n)
                    &&& if coalesce {
                        batch_is_full(batch, chunk_views(final(self).waiting@))
                    } else {
                        n == 1
                    }
                    &&& final(self).outstanding() == old(self).outstanding() + n
                },
            },
    {
        let ghost all = self.waiting@;
        let ghost chunks = chunk_views(all);
        let first = match self.waiting.pop_front() {
            Some(first) => first,
            None => {
                return None;
            },
        };
        let mut ids_taken: Vec<u64> = Vec::new();
        ids_taken.push(first.chunk_id);
        let mut batch = Batch { chunk: first, source_chunk_ids: ids_taken, overlaps: Vec::new() };
        let ghost mut n: int = 1;
        proof {
            assert(ids(chunks.take(1)) =~= seq![all[0].chunk_id]);
            assert(batch_of(batch, chunks, 1, silence));
            assert(self.waiting@ =~= all.skip(1));
        }
        if !coalesce {
            return Some(batch);
        }
        while self.waiting.len() > 0
            invariant
                chunks == chunk_views(all),
                1 <= n <= all.len(),
                n == batch.source_chunk_ids@.len(),
                batch_of(batch, chunks, n, silence),
                self.waiting@ == all.skip(n),
                self.queued == old(self).queued,
                self.completed == old(self).completed,
                self.input_finished == old(self).input_finished,
            ensures
                1 <= n <= all.len(),
                n == batch.source_chunk_ids@.len(),
                batch_of(batch, chunks, n, silence),
                self.waiting@ == all.skip(n),
                batch_is_full(batch, chunk_views(self.waiting@)),
                self.queued == old(self).queued,
                self.completed == old(self).completed,
                self.input_finished == old(self).input_finished,
            decreases self.waiting@.len(),
        {
            let next = match self.waiting.pop_front() {
                Some(next) => next,
                None => {
                    break;
                },
            };
            let next_id: u64 = next.chunk_id;
            let ghost before = batch;
            assert(next == all[n]);
            assert(next@ == chunks[n]);
            match try_merge_transcription_chunk(&mut batch.chunk, next, silence) {
                Ok(overlap) => {
                    batch.source_chunk_ids.push(next_id);
                    batch.overlaps.push(overlap);
                    proof {
                        assert(ids(chunks.take(n + 1)) =~= ids(chunks.take(n)).push(
                            chunks[n].chunk_id));
                        assert(all.skip(n).skip(1) =~= all.skip(n + 1));
                        assert(batch_of(batch, chunks, n + 1, silence));
                        n = n + 1;
                    }
                },
                Err(returned) => {
                    self.waiting.push_front(returned);
                    assert(self.waiting@ =~= all.skip(n));
                    assert(batch == before);
                    break;
                },
            }
        }
        Some(batch)
    }

    /// Counts chunks as dealt with.
    pub fn mark_chunks_completed(&mut self, count: u64)
        requires
            old(self).wf(),
            count <= old(self).outstanding(),
        ensures
            final(self).wf(),
            *final(self) == (ChunkQueue {
                completed: (old(self).completed + count) as u64,
                ..*old(self)
            }),
    {
        self.completed = self.completed + count;
    }

    /// What a worker does that found no chunk waiting.
    pub fn idle_action(&self) -> (r: IdleAction)
        ensures
            r == self.idle(),
            r == if !self.input_finished {
                IdleAction::Wait { millis: 1 }
            } else if self.completed >= self.queued {
                IdleAction::Finish
            } else {
                IdleAction::Wait { millis: 5 }
            },
    {
        if self.input_finished {
            if self.completed >= self.queued {
                IdleAction::Finish
            } else {
                IdleAction::Wait { millis: 5 }
            }
        } else {
            IdleAction::Wait { millis: 1 }
        }
    }

    /// Compares the counts once all workers have ended, after `attempts` earlier comparisons.
    pub fn verify(&self, attempts: u32) -> (r: Verification)
        requires
            self.wf(),
        ensures
            r == self.compared(attempts),
            r == if self.queued == self.completed {
                Verification::Complete
            } else if attempts < MAX_VERIFICATION_ATTEMPTS {
                Verification::Retry { attempts: (attempts + 1) as u32, millis: 100 }
            } else {
                Verification::ChunksLost { lost: (self.queued - self.completed) as u64 }
            },
    {
        if self.queued == self.completed {
            Verification::Complete
        } else if attempts < MAX_VERIFICATION_ATTEMPTS {
            Verification::Retry { attempts: attempts + 1, millis: 100 }
        } else {
            Verification::ChunksLost { lost: self.queued - self.completed }
        }
    }
}

/// Law: no chunk is lost. A worker that finishes has dealt with every chunk that came, none
/// waits and none is outstanding; and the comparison of the counts then finds them complete.
pub proof fn finished_queue_is_drained<T: Copy>(queue: ChunkQueue<T>)
    requires
        queue.wf(),
        queue.input_finished,
        queue.completed >= queue.queued,
    ensures
        queue.waiting@.len() == 0,
        queue.outstanding() == 0,
        queue.completed == queue.queued,
{
}

/// Law: the chunks of a batch are the next ones in the order in which they came, so taking
/// batches until none waits hands every chunk on exactly once.
pub proof fn batches_keep_the_order<T>(
    batch: Batch<T>,
    waiting: Seq<Chunk<T>>,
    n: int,
    silence: T,
)
    requires
        batch_of(batch, waiting, n, silence),
    ensures
        batch.source_chunk_ids@ + ids(waiting.skip(n)) == ids(waiting),
        batch.chunk@.chunk_id == waiting[0].chunk_id,
        batch.chunk@.timestamp_ns == waiting[0].timestamp_ns,
{
    assert(batch.source_chunk_ids@ + ids(waiting.skip(n)) =~= ids(waiting));
    joined_chunks_keep_the_first(waiting, n, silence);
}

proof fn joined_chunks_keep_the_first<T>(chunks: Seq<Chunk<T>>, n: int, silence: T)
    ensures
        joined_chunks(chunks, n, silence) == (Chunk {
            data: joined_chunks(chunks, n, silence).data,
            ..chunks[0]
        }),
    decreases n,
{
    if n > 1 {
        joined_chunks_keep_the_first(chunks, n - 1, silence);
    }
}

/// Law: two chunks are joined exactly when they have the same rate, come in order, lie at most two
/// seconds apart, and make at most nine seconds together. How far apart they are is counted from
/// where the first one ends.
pub proof fn near_chunks_are_joined<T>(current: Chunk<T>, next: Chunk<T>)
    requires
        current.sample_rate > 0,
        9 * current.sample_rate < usize::MAX,
    ensures
        ({
            let rate = current.sample_rate as int;
            let ended = current.timestamp_ns * rate + current.data.len() * 1_000_000_000;
            let starts = next.timestamp_ns * rate;
            mergeable(current, next) <==> {
                &&& next.sample_rate == current.sample_rate
                &&& next.timestamp_ns >= current.timestamp_ns
                &&& starts - ended <= 2_000_000_000 * rate
                &&& joined_len(current, next) <= 9 * rate
            }
        }),
        next.sample_rate == 0 ==> !mergeable(current, next),
{
    let rate = current.sample_rate as int;
    assert((next.timestamp_ns - current.timestamp_ns) * rate == next.timestamp_ns * rate
        - current.timestamp_ns * rate) by (nonlinear_arith);
}

/// Law: a gap between two chunks is filled with silence, as much as is missing to the nearest
/// sample, and of what was held already nothing is added a second time.
pub proof fn gaps_are_filled_with_silence<T>(current: Chunk<T>, next: Chunk<T>, silence: T, i: int)
    requires
        mergeable(current, next),
    ensures
        ({
            let data = joined_data(current, next, silence);
            let rate = current.sample_rate as int;
            let missing = (next.timestamp_ns - current.timestamp_ns) * rate - current.data.len()
                * 1_000_000_000;
            let gap = gap_samples(current, next);
            let held = overlap_samples(current, next);
            &&& current.data.len() <= i < current.data.len() + gap ==> data[i] == silence
            &&& missing > 0 ==> held == 0 && -500_000_000 <= missing - gap * 1_000_000_000
                <= 500_000_000
            &&& missing == 0 ==> gap == 0 && held == 0
            &&& missing < 0 ==> gap == 0 && 0 <= held <= next.data.len() && (held
                < next.data.len() ==> -500_000_000 <= held * 1_000_000_000 + missing
                <= 500_000_000)
            &&& data.len() == current.data.len() + gap + next.data.len() - held
            &&& current.data.len() + gap <= i < data.len() ==> data[i] == next.data[i
                - current.data.len() - gap + held]
        }),
{
    let missing = scaled_gap(current, next);
    let n = rounded_samples(missing);
    let m = rounded_samples(-missing);
    assert(n * 1_000_000_000 <= missing + 500_000_000 < (n + 1) * 1_000_000_000);
    assert(m * 1_000_000_000 <= -missing + 500_000_000 < (m + 1) * 1_000_000_000);
}

/// Law: what is joined to a chunk changes its audio alone.
pub proof fn a_batch_is_a_longer_first_chunk<T>(current: Chunk<T>, next: Chunk<T>, silence: T)
    ensures
        ({
            let joined = merged(current, next, silence);
            &&& joined.timestamp_ns == current.timestamp_ns
            &&& joined.sample_rate == current.sample_rate
            &&& joined.chunk_id == current.chunk_id
            &&& joined == (Chunk { data: joined.data, ..current })
        }),
{
}

/// Law: a worker goes on as long as audio may come or is not dealt with, and ends otherwise; then
/// nothing is lost. Chunks that are missing are told of exactly, after ten more looks.
pub proof fn workers_end_when_all_is_done<T: Copy>(queue: ChunkQueue<T>, attempts: u32)
    requires
        queue.wf(),
    ensures
        queue.idle() == IdleAction::Finish <==> queue.input_finished && queue.waiting@.len()
            + queue.outstanding() == 0,
        !queue.input_finished ==> queue.idle() is Wait,
        queue.waiting@.len() > 0 ==> queue.idle() is Wait && !(queue.compared(attempts)
            is Complete),
        queue.idle() == IdleAction::Finish ==> queue.compared(attempts) == Verification::Complete,
        queue.compared(attempts) == Verification::Complete <==> queue.waiting@.len()
            + queue.outstanding() == 0,
        queue.compared(attempts) matches Verification::ChunksLost { lost } ==> attempts >= 10
            && lost == queue.waiting@.len() + queue.outstanding() && lost > 0,
        queue.compared(attempts) matches Verification::Retry { attempts: more, millis }
            ==> more == attempts + 1 && more <= 10,
{
}

/// Law: a batch holds the audio of its chunks from the first on: it begins with the first one, and
/// has one identifier and, after the first, one overlap for each of them.
pub proof fn batches_hold_their_chunks<T>(
    batch: Batch<T>,
    waiting: Seq<Chunk<T>>,
    n: int,
    silence: T,
)
    requires
        batch_of(batch, waiting, n, silence),
    ensures
        batch.source_chunk_ids@.len() == n,
        batch.overlaps@.len() == n - 1,
        forall|i: int| 0 <= i < n ==> #[trigger] batch.source_chunk_ids@[i] == waiting[i].chunk_id,
        batch.chunk@.data.len() >= waiting[0].data.len(),
        batch.chunk@.data.take(waiting[0].data.len() as int) == waiting[0].data,
        batch.chunk@.sample_rate == waiting[0].sample_rate,
        batch.chunk@.timestamp_ns == waiting[0].timestamp_ns,
        n == 1 ==> batch.chunk@ == waiting[0],
{
    batch_begins_with_its_first_chunk(waiting, n, silence);
}

proof fn batch_begins_with_its_first_chunk<T>(chunks: Seq<Chunk<T>>, n: int, silence: T)
    requires
        1 <= n <= chunks.len(),
    ensures
        ({
            let joined = joined_chunks(chunks, n, silence);
            &&& joined.data.len() >= chunks[0].data.len()
            &&& joined.data.take(chunks[0].data.len() as int) == chunks[0].data
            &&& joined.sample_rate == chunks[0].sample_rate
            &&& joined.timestamp_ns == chunks[0].timestamp_ns
            &&& overlaps_of(chunks, n, silence).len() == n - 1
        }),
    decreases n,
{
    let joined = joined_chunks(chunks, n, silence);
    if n > 1 {
        batch_begins_with_its_first_chunk(chunks, n - 1, silence);
        let before = joined_chunks(chunks, n - 1, silence);
        assert(joined.data.take(chunks[0].data.len() as int) =~= before.data.take(
            chunks[0].data.len() as int));
    } else {
        assert(joined.data.take(chunks[0].data.len() as int) =~= chunks[0].data);
    }
}

/// Law: a batch takes all chunks that can be joined to it: the next one that waits cannot.
pub proof fn batches_take_what_they_can<T>(batch: Batch<T>, rest: Seq<Chunk<T>>)
    requires
        batch_is_full(batch, rest),
        rest.len() > 0,
        batch.chunk@.sample_rate > 0,
        9 * batch.chunk@.sample_rate < usize::MAX,
        rest[0].sample_rate == batch.chunk@.sample_rate,
        rest[0].timestamp_ns >= batch.chunk@.timestamp_ns,
    ensures
        rest[0].timestamp_ns * batch.chunk@.sample_rate - (batch.chunk@.timestamp_ns
            * batch.chunk@.sample_rate + batch.chunk@.data.len() * 1_000_000_000) > 2_000_000_000
            * batch.chunk@.sample_rate || joined_len(batch.chunk@, rest[0]) > 9
            * batch.chunk@.sample_rate,
{
    near_chunks_are_joined(batch.chunk@, rest[0]);
}

/// How many chunks are neither dealt with nor given up.
pub open spec fn pending(queued: u64, completed: u64) -> usize {
    (if completed < queued { queued - completed } else { 0 }) as usize
}

/// Law: what is pending of a queue is what waits and what is being worked on.
pub proof fn pending_chunks_wait_or_are_worked_on<T: Copy>(queue: ChunkQueue<T>)
    requires
        queue.wf(),
        queue.queued <= usize::MAX,
    ensures
        pending(queue.queued, queue.completed) == queue.waiting@.len() + queue.outstanding(),
{
}

} // verus!
