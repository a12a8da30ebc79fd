//! Keeps only the recent audio that is needed to reconnect speech across a short gap.

use std::collections::VecDeque;

use vstd::prelude::*;

verus! {

/// The most recent samples of a stream, with the position of the first one.
pub struct GapAudio<T> {
    pub samples: VecDeque<T>,
    pub start: usize,
    pub last_emitted_end: Option<usize>,
    pub capacity: usize,
    pub max_gap: usize,
}

/// What a `GapAudio` stands for.
pub struct GapHistory<T> {
    /// The retained samples.
    pub samples: Seq<T>,
    /// Stream position of the first retained sample.
    pub start: int,
    /// Stream position just past the last emitted piece, if the stream has not jumped since.
    pub last_emitted_end: Option<int>,
    pub capacity: int,
    pub max_gap: int,
}

impl<T> GapHistory<T> {
    /// Stream position just past the last retained sample.
    pub open spec fn end(self) -> int {
        self.start + self.samples.len()
    }

    /// The history after `more` arrived at `position`: a jump in position forgets what came
    /// before, and only the last `capacity` samples stay.
    pub open spec fn appended(self, position: int, more: Seq<T>) -> GapHistory<T> {
        let contiguous = self.end() == position;
        let all = if contiguous { self.samples + more } else { more };
        let first = if contiguous { self.start } else { position };
        let excess = if all.len() > self.capacity { all.len() - self.capacity } else { 0 };
        GapHistory {
            samples: all.skip(excess),
            start: first + excess,
            last_emitted_end: if contiguous { self.last_emitted_end } else { None },
            ..self
        }
    }

    /// A piece that begins at `position` can be joined to the one before it: there is a gap, it
    /// is short enough, and all of its audio is retained.
    pub open spec fn bridges(self, position: int) -> bool {
        match self.last_emitted_end {
            Some(previous_end) => previous_end < position && position - previous_end
                <= self.max_gap && self.start <= previous_end && position <= self.end(),
            None => false,
        }
    }

    /// Where a piece that begins at `position` begins once the gap before it is filled.
    pub open spec fn bridged_start(self, position: int) -> int {
        if self.bridges(position) {
            self.last_emitted_end->0
        } else {
            position
        }
    }

    /// The piece with the audio of the gap in front of it.
    pub open spec fn bridged_samples(self, position: int, piece: Seq<T>) -> Seq<T> {
        if self.bridges(position) {
            self.samples.subrange(self.last_emitted_end->0 - self.start, position - self.start)
                + piece
        } else {
            piece
        }
    }

    /// The retained samples are those of `stream` at the retained positions.
    pub open spec fn holds_part_of(self, stream: Seq<T>) -> bool {
        &&& 0 <= self.start
        &&& self.end() <= stream.len()
        &&& self.samples == stream.subrange(self.start, self.end())
    }
}

impl<T> View for GapAudio<T> {
    type V = GapHistory<T>;

    open spec fn view(&self) -> GapHistory<T> {
        GapHistory {
            samples: self.samples@,
            start: self.start as int,
            last_emitted_end: match self.last_emitted_end {
                Some(end) => Some(end as int),
                None => None,
            },
            capacity: self.capacity as int,
            max_gap: self.max_gap as int,
        }
    }
}

impl<T: Copy> GapAudio<T> {
    /// The retained positions fit in a machine word.
    pub open spec fn wf(&self) -> bool {
        self@.end() <= usize::MAX
    }

    pub fn new(capacity: usize, max_gap: usize) -> (r: Self)
        ensures
            r.wf(),
            r@ == (GapHistory {
                samples: Seq::<T>::empty(),
                start: 0,
                last_emitted_end: None,
                capacity: capacity as int,
                max_gap: max_gap as int,
            }),
    {
        GapAudio { samples: VecDeque::new(), start: 0, last_emitted_end: None, capacity, max_gap }
    }

    /// Takes in the samples of the stream from position `start` on.
    pub fn append(&mut self, start: usize, samples: &[T])
        requires
            old(self).wf(),
            start + samples@.len() <= usize::MAX,
        ensures
            final(self).wf(),
            final(self)@ == old(self)@.appended(start as int, samples@),
    {
        if self.start + self.samples.len() != start {
            self.samples.clear();
            self.last_emitted_end = None;
            self.start = start;
        }
        let ghost first = self.start as int;
        let ghost kept = self.samples@;
        let ghost emitted = self.last_emitted_end;
        let mut i: usize = 0;
        while i < samples.len()
            invariant
                i <= samples@.len(),
                self.samples@ == kept + samples@.take(i as int),
                self.start == first,
                self.last_emitted_end == emitted,
                self.capacity == old(self).capacity,
                self.max_gap == old(self).max_gap,
            decreases samples@.len() - i,
        {
            self.samples.push_back(samples[i]);
            i = i + 1;
            assert(samples@.take(i as int) =~= samples@.take(i - 1).push(samples@[i - 1]));
        }
        assert(samples@.take(i as int) =~= samples@);
        let ghost all = self.samples@;
        let excess: usize = self.samples.len().saturating_sub(self.capacity);
        let mut dropped: usize = 0;
        while dropped < excess
            invariant
                dropped <= excess <= all.len(),
                self.samples@ == all.skip(dropped as int),
                self.start == first,
                self.last_emitted_end == emitted,
                self.capacity == old(self).capacity,
                self.max_gap == old(self).max_gap,
            decreases excess - dropped,
        {
            let _oldest = self.samples.pop_front();
            assert(all.skip(dropped as int).skip(1) =~= all.skip(dropped + 1));
            dropped = dropped + 1;
        }
        self.start = self.start + excess;
    }

    /// Puts the audio of a short gap in front of a piece that begins at `start`, and returns
    /// where the piece begins then. A missing range or a long pause stays a gap.
    pub fn prepend_gap(&mut self, start: usize, samples: &mut Vec<T>) -> (new_start: usize)
        requires
            old(self).wf(),
            start + old(samples)@.len() <= usize::MAX,
        ensures
            final(self).wf(),
            new_start == old(self)@.bridged_start(start as int),
            final(samples)@ == old(self)@.bridged_samples(start as int, old(samples)@),
            final(self)@ == (GapHistory {
                last_emitted_end: Some(start + old(samples)@.len()),
                ..old(self)@
            }),
    {
        let end: usize = start + samples.len();
        let mut new_start: usize = start;
        if let Some(previous_end) = self.last_emitted_end {
            if previous_end < start && start - previous_end <= self.max_gap && previous_end
                >= self.start && start <= self.start + self.samples.len() {
                let mut joined: Vec<T> = Vec::new();
                let mut i: usize = previous_end - self.start;
                let to: usize = start - self.start;
                while i < to
                    invariant
                        previous_end - self.start <= i <= to <= self.samples@.len(),
                        previous_end >= self.start,
                        *self == *old(self),
                        joined@ == self.samples@.subrange(previous_end - self.start, i as int),
                    decreases to - i,
                {
                    joined.push(self.samples[i]);
                    i = i + 1;
                }
                joined.append(samples);
                *samples = joined;
                new_start = previous_end;
            }
        }
        self.last_emitted_end = Some(end);
        new_start
    }
}

/// Law: what is retained stays a part of the stream, and never more than the capacity.
pub proof fn append_keeps_stream_audio<T>(
    history: GapHistory<T>,
    stream: Seq<T>,
    more: Seq<T>,
    position: int,
)
    requires
        history.capacity >= 0,
        0 <= position,
        position + more.len() <= stream.len(),
        more == stream.subrange(position, position + more.len()),
        history.holds_part_of(stream) || history.end() != position,
    ensures
        history.appended(position, more).holds_part_of(stream),
        history.appended(position, more).samples.len() <= history.capacity,
{
    assert(history.appended(position, more).samples =~= stream.subrange(
        history.appended(position, more).start,
        history.appended(position, more).end(),
    ));
}

/// Law: a piece of the stream stays a piece of the stream when the gap before it is filled. It
/// ends where it ended before, and the gap it takes in begins where the last piece ended, so no
/// sample is invented and none is used twice.
pub proof fn bridged_piece_is_stream_audio<T>(
    history: GapHistory<T>,
    stream: Seq<T>,
    piece: Seq<T>,
    position: int,
)
    requires
        history.holds_part_of(stream),
        0 <= position,
        position + piece.len() <= stream.len(),
        piece == stream.subrange(position, position + piece.len()),
    ensures
        history.bridged_samples(position, piece) == stream.subrange(
            history.bridged_start(position), position + piece.len()),
        history.bridged_start(position) == position || history.last_emitted_end == Some(
            history.bridged_start(position)),
        position - history.bridged_start(position) <= history.max_gap || history.bridged_start(
            position) == position,
{
    assert(history.bridged_samples(position, piece) =~= stream.subrange(
        history.bridged_start(position), position + piece.len()));
}

/// Law: after a jump in the stream the next piece is never joined to an earlier one.
pub proof fn jump_forgets_context<T>(
    history: GapHistory<T>,
    position: int,
    more: Seq<T>,
    next: int,
)
    requires
        history.end() != position,
    ensures
        !history.appended(position, more).bridges(next),
{
}

/// Law: audio between two pieces is put back wherever it is still held and the gap is not too long,
/// so that no sample between them is missing.
pub proof fn held_gaps_are_bridged<T>(history: GapHistory<T>, position: int, previous_end: int)
    requires
        history.last_emitted_end == Some(previous_end),
        history.start <= previous_end < position <= history.end(),
        position - previous_end <= history.max_gap,
    ensures
        history.bridged_start(position) == previous_end,
        history.bridged_samples(position, Seq::empty()).len() == position - previous_end,
{
}

/// Law: a gap that is too long, or of which audio is gone, is left, and a piece that does not follow
/// another one is left as it is.
pub proof fn other_gaps_are_left<T>(history: GapHistory<T>, position: int, piece: Seq<T>)
    requires
        history.last_emitted_end is None || position - history.last_emitted_end->0
            > history.max_gap || history.start > history.last_emitted_end->0 || position
            > history.end() || position <= history.last_emitted_end->0,
    ensures
        history.bridged_start(position) == position,
        history.bridged_samples(position, piece) == piece,
{
}

/// Law: the latest audio is held, as much of it as there is room for.
pub proof fn the_latest_audio_is_held<T>(history: GapHistory<T>, position: int, more: Seq<T>)
    requires
        history.capacity >= 0,
    ensures
        ({
            let after = history.appended(position, more);
            &&& after.end() == position + more.len()
            &&& after.samples.len() <= history.capacity
            &&& history.end() == position && history.samples.len() + more.len()
                <= history.capacity ==> after.samples == history.samples + more
                && after.start == history.start
            &&& more.len() >= history.capacity ==> after.samples == more.skip(
                more.len() - history.capacity)
            &&& history.end() == position ==> after.last_emitted_end == history.last_emitted_end
        }),
{
    let after = history.appended(position, more);
    if history.end() == position && history.samples.len() + more.len() <= history.capacity {
        assert(after.samples =~= history.samples + more);
    }
    if more.len() >= history.capacity {
        assert(after.samples =~= more.skip(more.len() - history.capacity));
    }
}

} // verus!
