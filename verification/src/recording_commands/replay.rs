//! The replay of controlled input at the pace at which it would be recorded.

use vstd::prelude::*;
use vstd::string::*;

use crate::audio_chunk::{AudioChunk, Chunk};
use crate::measurement::input::{
    CONTROLLED_FRAME_SAMPLES, CONTROLLED_SAMPLE_RATE, NANOS_PER_CONTROLLED_SAMPLE,
};
use crate::recording_state::model::DeviceType;
use crate::segmentation::copy_range;
use crate::text;

verus! {

/// Where a replay stands.
#[derive(Debug, Clone, Copy, PartialEq, Eq, Structural)]
pub enum ReplayPhase {
    /// The next frame is looked for.
    Ready,
    /// The next frame is not due yet.
    Waiting,
    /// A frame is handed on.
    Sending,
    /// All frames were handed on.
    Completed,
    /// The replay was called off, or a frame could not be handed on.
    Abandoned,
}

/// What is to be done next.
#[derive(Debug)]
pub enum ReplayAction<T> {
    /// Wait until so many nanoseconds passed since the replay began.
    WaitUntil(u64),
    Send(AudioChunk<T>),
    /// Look for the next frame.
    Continue,
    Finish,
    /// The replay was called off.
    Cancel,
    /// A frame could not be handed on.
    Fail(String),
}

/// A replay of controlled input.
pub struct ReplayRun<T> {
    pub pcm: Vec<T>,
    /// The number of samples that were handed on.
    pub sent_samples: usize,
    /// The number of frames that were handed on.
    pub frame_index: u64,
    pub phase: ReplayPhase,
}

/// The end of the frame that starts at `from`.
pub open spec fn frame_end(len: nat, from: int) -> int {
    if from + CONTROLLED_FRAME_SAMPLES <= len {
        from + CONTROLLED_FRAME_SAMPLES
    } else {
        len as int
    }
}

/// The end of the first `count` frames.
pub open spec fn frames_end(len: nat, count: nat) -> int {
    if count * CONTROLLED_FRAME_SAMPLES <= len {
        count * CONTROLLED_FRAME_SAMPLES
    } else {
        len as int
    }
}

/// The frame with index `index`, which starts at sample `from`, as the microphone would have
/// delivered it.
pub open spec fn frame<T>(pcm: Seq<T>, from: int, index: u64) -> Chunk<T> {
    Chunk {
        data: pcm.subrange(from, frame_end(pcm.len(), from)),
        sample_rate: CONTROLLED_SAMPLE_RATE,
        timestamp_ns: (from * NANOS_PER_CONTROLLED_SAMPLE) as u64,
        chunk_id: index,
        device_type: DeviceType::Microphone,
        device_epoch: 0,
        capture_qpc_ns: None,
    }
}

impl<T: Copy> ReplayRun<T> {
    /// The counts are in step, and all times can be told.
    pub open spec fn wf(self) -> bool {
        &&& self.pcm@.len() * NANOS_PER_CONTROLLED_SAMPLE <= u64::MAX
        &&& self.sent_samples == frames_end(self.pcm@.len(), self.frame_index as nat)
        &&& self.frame_index > 0 ==> (self.frame_index - 1) * CONTROLLED_FRAME_SAMPLES
            < self.pcm@.len()
        &&& self.phase == ReplayPhase::Waiting || self.phase == ReplayPhase::Sending
            ==> self.sent_samples < self.pcm@.len()
        &&& self.phase == ReplayPhase::Completed ==> self.sent_samples == self.pcm@.len()
    }

    /// When the next frame is due, counted from the start of the replay.
    pub open spec fn due_at(self) -> u64 {
        (self.sent_samples * NANOS_PER_CONTROLLED_SAMPLE) as u64
    }

    /// The replay is over and so many samples were handed on.
    pub open spec fn has_sent(self, expected_samples: u64) -> bool {
        self.phase == ReplayPhase::Completed && self.sent_samples == expected_samples
    }

    /// Begins a replay.
    pub fn new(pcm: Vec<T>) -> (r: Self)
        requires
            pcm@.len() * NANOS_PER_CONTROLLED_SAMPLE <= u64::MAX,
        ensures
            r.wf(),
            r == (ReplayRun {
                pcm,
                sent_samples: 0,
                frame_index: 0,
                phase: ReplayPhase::Ready,
            }),
    {
        ReplayRun { pcm, sent_samples: 0, frame_index: 0, phase: ReplayPhase::Ready }
    }

    /// Looks for the next frame. It is due when as much time passed as the samples before it last.
    pub fn next(&mut self, cancelled: bool) -> (r: ReplayAction<T>)
        requires
            old(self).wf(),
            old(self).phase == ReplayPhase::Ready,
        ensures
            final(self).wf(),
            if old(self).sent_samples == old(self).pcm@.len() {
                &&& r is Finish
                &&& *final(self) == (ReplayRun { phase: ReplayPhase::Completed, ..*old(self) })
            } else if cancelled {
                &&& r is Cancel
                &&& *final(self) == (ReplayRun { phase: ReplayPhase::Abandoned, ..*old(self) })
            } else {
                &&& r == ReplayAction::<T>::WaitUntil(old(self).due_at())
                &&& r == ReplayAction::<T>::WaitUntil(
                    (old(self).sent_samples * NANOS_PER_CONTROLLED_SAMPLE) as u64)
                &&& *final(self) == (ReplayRun { phase: ReplayPhase::Waiting, ..*old(self) })
            },
    {
        if self.sent_samples == self.pcm.len() {
            self.phase = ReplayPhase::Completed;
            return ReplayAction::Finish;
        }
        if cancelled {
            self.phase = ReplayPhase::Abandoned;
            return ReplayAction::Cancel;
        }
        self.phase = ReplayPhase::Waiting;
        ReplayAction::WaitUntil(self.position_ns())
    }

    fn position_ns(&self) -> (r: u64)
        requires
            self.wf(),
        ensures
            r == self.sent_samples * NANOS_PER_CONTROLLED_SAMPLE,
    {
        assert(self.sent_samples * NANOS_PER_CONTROLLED_SAMPLE <= self.pcm@.len() * NANOS_PER_CONTROLLED_SAMPLE)
            by (nonlinear_arith)
            requires
                self.sent_samples <= self.pcm@.len(),
        ;
        self.sent_samples as u64 * NANOS_PER_CONTROLLED_SAMPLE
    }

    /// The frame is due: it is handed on, unless the replay was called off meanwhile.
    pub fn due(&mut self, cancelled: bool) -> (r: ReplayAction<T>)
        requires
            old(self).wf(),
            old(self).phase == ReplayPhase::Waiting,
        ensures
            final(self).wf(),
            if cancelled {
                &&& r is Cancel
                &&& *final(self) == (ReplayRun { phase: ReplayPhase::Abandoned, ..*old(self) })
            } else {
                &&& (r matches ReplayAction::Send(chunk) && chunk@ == frame(
                    old(self).pcm@, old(self).sent_samples as int, old(self).frame_index))
                &&& *final(self) == (ReplayRun { phase: ReplayPhase::Sending, ..*old(self) })
            },
    {
        if cancelled {
            self.phase = ReplayPhase::Abandoned;
            return ReplayAction::Cancel;
        }
        self.phase = ReplayPhase::Sending;
        let data = copy_range(self.pcm.as_slice(), self.sent_samples, self.next_end());
        ReplayAction::Send(
            AudioChunk {
                data,
                sample_rate: CONTROLLED_SAMPLE_RATE,
                timestamp_ns: self.position_ns(),
                chunk_id: self.frame_index,
                device_type: DeviceType::Microphone,
                device_epoch: 0,
                capture_qpc_ns: None,
            },
        )
    }

    fn next_end(&self) -> (r: usize)
        requires
            self.wf(),
        ensures
            r == frame_end(self.pcm@.len(), self.sent_samples as int),
    {
        if self.pcm.len() - self.sent_samples >= CONTROLLED_FRAME_SAMPLES {
            self.sent_samples + CONTROLLED_FRAME_SAMPLES
        } else {
            self.pcm.len()
        }
    }

    /// The frame was handed on, or not; then the replay ends.
    pub fn sent(&mut self, outcome: Result<(), String>) -> (r: ReplayAction<T>)
        requires
            old(self).wf(),
            old(self).phase == ReplayPhase::Sending,
        ensures
            final(self).wf(),
            match outcome {
                Ok(_) => {
                    &&& r is Continue
                    &&& final(self).pcm == old(self).pcm
                    &&& final(self).phase == ReplayPhase::Ready
                    &&& final(self).frame_index == old(self).frame_index + 1
                    &&& final(self).sent_samples == frame_end(
                        old(self).pcm@.len(), old(self).sent_samples as int)
                },
                Err(error) => {
                    &&& (r matches ReplayAction::Fail(message) && message@
                        == "controlled input send failed at frame "@ + text::decimal_digits(
                        old(self).frame_index as nat) + ": "@ + error@)
                    &&& *final(self) == (ReplayRun { phase: ReplayPhase::Abandoned, ..*old(self) })
                },
            },
    {
        match outcome {
            Ok(_) => {
                let end: usize = self.next_end();
                self.sent_samples = end;
                self.frame_index = self.frame_index + 1;
                self.phase = ReplayPhase::Ready;
                ReplayAction::Continue
            },
            Err(error) => {
                self.phase = ReplayPhase::Abandoned;
                let mut message = text::joined(
                    "controlled input send failed at frame ",
                    text::decimal(self.frame_index).as_str(),
                );
                message.append(": ");
                message.append(error.as_str());
                ReplayAction::Fail(message)
            },
        }
    }

    /// Whether all that was expected was handed on.
    pub fn is_complete(&self, expected_samples: u64) -> (r: bool)
        ensures
            r == self.has_sent(expected_samples),
            r == (self.phase == ReplayPhase::Completed && self.sent_samples == expected_samples),
    {
        self.phase == ReplayPhase::Completed && self.sent_samples as u64 == expected_samples
    }
}

/// The samples of the first `count` frames, one after the other.
pub open spec fn replayed<T>(pcm: Seq<T>, count: nat) -> Seq<T>
    decreases count,
{
    if count == 0 {
        Seq::empty()
    } else {
        let from = (count - 1) * CONTROLLED_FRAME_SAMPLES;
        replayed(pcm, (count - 1) as nat) + frame(pcm, from, 0).data
    }
}

proof fn frames_rejoin<T>(pcm: Seq<T>, count: nat)
    requires
        count > 0 ==> (count - 1) * CONTROLLED_FRAME_SAMPLES < pcm.len(),
    ensures
        replayed(pcm, count) =~= pcm.take(frames_end(pcm.len(), count)),
    decreases count,
{
    if count > 0 {
        frames_rejoin(pcm, (count - 1) as nat);
        let from = (count - 1) * CONTROLLED_FRAME_SAMPLES;
        assert(frames_end(pcm.len(), (count - 1) as nat) == from);
        assert(frame_end(pcm.len(), from) == frames_end(pcm.len(), count));
        assert(pcm.take(from) + pcm.subrange(from, frame_end(pcm.len(), from)) =~= pcm.take(
            frame_end(pcm.len(), from)));
    }
}

/// Law: what was handed on is the input up to where the replay stands: no sample is left out, and
/// none is handed on twice.
pub proof fn replay_keeps_every_sample<T: Copy>(run: ReplayRun<T>)
    requires
        run.wf(),
    ensures
        replayed(run.pcm@, run.frame_index as nat) =~= run.pcm@.take(run.sent_samples as int),
{
    frames_rejoin(run.pcm@, run.frame_index as nat);
}

/// Law: controlled audio is replayed in frames of a tenth of a second at sixteen thousand samples a
/// second, each where it belongs in time and the last one as long as what is left.
pub proof fn frames_follow_each_other<T>(pcm: Seq<T>, count: nat, index: u64)
    requires
        count * 1_600 < pcm.len(),
        pcm.len() * 62_500 <= u64::MAX,
    ensures
        ({
            let from = count * 1_600;
            let f = frame(pcm, from as int, index);
            &&& 0 < f.data.len() <= 1_600
            &&& f.data.len() < 1_600 ==> from + f.data.len() == pcm.len()
            &&& forall|i: int| 0 <= i < f.data.len() ==> f.data[i] == pcm[from + i]
            &&& f.sample_rate == 16_000
            &&& f.timestamp_ns * 16_000 == from * 1_000_000_000
            &&& f.chunk_id == index
            &&& frames_end(pcm.len(), count) == from
        }),
{
}

/// Law: a frame is handed on when its place in time has come, not before; a replay counts as
/// complete only when all of its audio was handed on.
pub proof fn frames_are_due_in_their_time<T: Copy>(run: ReplayRun<T>, expected_samples: u64)
    requires
        run.wf(),
    ensures
        run.due_at() == frame(run.pcm@, run.sent_samples as int, run.frame_index).timestamp_ns,
        run.due_at() * 16_000 == run.sent_samples * 1_000_000_000,
        run.has_sent(expected_samples) ==> run.sent_samples == run.pcm@.len() && expected_samples
            == run.pcm@.len(),
        run.phase != ReplayPhase::Completed ==> !run.has_sent(expected_samples),
{
    assert(run.sent_samples * NANOS_PER_CONTROLLED_SAMPLE <= run.pcm@.len()
        * NANOS_PER_CONTROLLED_SAMPLE) by (nonlinear_arith)
        requires
            run.sent_samples <= run.pcm@.len(),
    ;
}

} // verus!
