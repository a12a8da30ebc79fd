//! The speech of a meeting, in parts that an engine can take.

use vstd::prelude::*;

use crate::retranscription::flow::{LEAD_IN_SAMPLES, MAX_SEGMENT_SAMPLES};
use crate::segmentation::{
    is_part, is_split, levels_of, measures, parts_rejoin_to_the_segment, rejoined,
    split_segment_at_silence, times_of, SegmentPart, ENERGY_WINDOW, WIDE_SEARCH_RADIUS,
};

verus! {

/// A segment of audio in which there is speech.
pub struct DetectedSpeech<T, F> {
    pub start_ns: u64,
    pub end_ns: u64,
    pub samples: Vec<T>,
    /// Gives the RMS level of a window of the samples, by its start.
    pub measure: F,
}

/// A part of a segment of speech, with some of the audio before it.
pub struct SpeechPart<T> {
    pub start_ns: u64,
    pub end_ns: u64,
    pub samples: Vec<T>,
}

/// What a `SpeechPart` stands for.
#[verifier::ext_equal]
pub struct Part<T> {
    pub start_ns: int,
    pub end_ns: int,
    pub samples: Seq<T>,
}

impl<T> View for SpeechPart<T> {
    type V = Part<T>;

    open spec fn view(&self) -> Part<T> {
        Part {
            start_ns: self.start_ns as int,
            end_ns: self.end_ns as int,
            samples: self.samples@,
        }
    }
}

/// What a list of parts stands for.
pub open spec fn part_views<T>(parts: Seq<SpeechPart<T>>) -> Seq<Part<T>> {
    Seq::new(parts.len(), |i: int| parts[i]@)
}

impl<T, F: Fn(usize) -> u32> DetectedSpeech<T, F> {
    /// It does not end before it starts, and its levels can be measured.
    pub open spec fn can_be_cut(self) -> bool {
        &&& self.start_ns <= self.end_ns
        &&& self.samples@.len() + WIDE_SEARCH_RADIUS <= usize::MAX
        &&& measures(self.measure, self.samples@.len() as int, ENERGY_WINDOW as int)
    }

    /// It is cut at its pauses like this.
    pub open spec fn is_cut_into(self, cuts: Seq<SegmentPart<T>>) -> bool {
        is_split(
            levels_of(self.measure),
            self.samples@,
            MAX_SEGMENT_SAMPLES as int,
            LEAD_IN_SAMPLES as int,
            cuts,
        )
    }

    /// The parts that it has when it is cut like this.
    pub open spec fn parts(self, cuts: Seq<SegmentPart<T>>) -> Seq<Part<T>> {
        Seq::new(cuts.len(), |k: int| self.part(cuts[k]))
    }

    /// A part, with its place in the recording.
    pub open spec fn part(self, cut: SegmentPart<T>) -> Part<T> {
        let times = times_of(
            cut, self.start_ns as int, self.end_ns as int, self.samples@.len() as int);
        Part { start_ns: times.0, end_ns: times.1, samples: cut.samples@ }
    }
}

/// The parts of the first segments of speech, one after the other, when they are cut like this.
pub open spec fn all_parts<T, F: Fn(usize) -> u32>(
    speech: Seq<DetectedSpeech<T, F>>,
    cuts: Seq<Seq<SegmentPart<T>>>,
) -> Seq<Part<T>>
    decreases cuts.len(),
{
    if cuts.len() == 0 {
        Seq::empty()
    } else {
        all_parts(speech, cuts.drop_last()) + speech[cuts.len() - 1].parts(cuts.last())
    }
}

/// Every segment of speech is cut at its pauses, and `parts` are the parts of all of them.
pub open spec fn is_division<T, F: Fn(usize) -> u32>(
    speech: Seq<DetectedSpeech<T, F>>,
    cuts: Seq<Seq<SegmentPart<T>>>,
    parts: Seq<Part<T>>,
) -> bool {
    &&& cuts.len() == speech.len()
    &&& forall|i: int| 0 <= i < cuts.len() ==> speech[i].is_cut_into(#[trigger] cuts[i])
    &&& parts == all_parts(speech, cuts)
}

/// The audio of all speech, one segment after the other.
pub open spec fn all_speech<T, F: Fn(usize) -> u32>(speech: Seq<DetectedSpeech<T, F>>) -> Seq<T>
    decreases speech.len(),
{
    if speech.len() == 0 {
        Seq::empty()
    } else {
        all_speech(speech.drop_last()) + speech.last().samples@
    }
}

/// The audio of all parts, each without what is repeated of the audio before it.
pub open spec fn all_rejoined<T>(cuts: Seq<Seq<SegmentPart<T>>>) -> Seq<T>
    decreases cuts.len(),
{
    if cuts.len() == 0 {
        Seq::empty()
    } else {
        all_rejoined(cuts.drop_last()) + rejoined(cuts.last(), LEAD_IN_SAMPLES as int)
    }
}

/// Cuts a segment of speech at its pauses, and adds its parts to those before it.
fn add_parts<T: Copy, F: Fn(usize) -> u32>(
    speech: &DetectedSpeech<T, F>,
    parts: &mut Vec<SpeechPart<T>>,
) -> (cuts: Ghost<Seq<SegmentPart<T>>>)
    requires
        speech.can_be_cut(),
    ensures
        speech.is_cut_into(cuts@),
        part_views(final(parts)@) == part_views(old(parts)@) + speech.parts(cuts@),
{
    let total: usize = speech.samples.len();
    let mut remaining = split_segment_at_silence(
        speech.samples.as_slice(), &speech.measure, MAX_SEGMENT_SAMPLES, LEAD_IN_SAMPLES);
    let ghost cuts = remaining@;
    let ghost before = part_views(parts@);
    let ghost mut done: int = 0;
    assert(part_views(parts@) =~= before + speech.parts(cuts).take(0));
    assert forall|k: int| 0 <= k < cuts.len() implies (#[trigger] cuts[k]).start <= cuts[k].end
        <= total by {
        assert(is_part(
            levels_of(speech.measure),
            speech.samples@,
            MAX_SEGMENT_SAMPLES as int,
            LEAD_IN_SAMPLES as int,
            k,
            cuts[k],
        ));
    }
    while remaining.len() > 0
        invariant
            speech.start_ns <= speech.end_ns,
            total == speech.samples@.len(),
            forall|k: int|
                0 <= k < cuts.len() ==> (#[trigger] cuts[k]).start <= cuts[k].end <= total,
            0 <= done <= cuts.len(),
            remaining@ == cuts.skip(done),
            part_views(parts@) == before + speech.parts(cuts).take(done),
        decreases remaining@.len(),
    {
        let cut = remaining.remove(0);
        assert(cut == cuts[done]);
        let (start_ns, end_ns) = cut.times_ns(speech.start_ns, speech.end_ns, total);
        let ghost earlier = parts@;
        parts.push(SpeechPart { start_ns, end_ns, samples: cut.samples });
        proof {
            assert(part_views(parts@) =~= part_views(earlier).push(speech.part(cuts[done])));
            assert(remaining@ =~= cuts.skip(done + 1));
            done = done + 1;
            assert(part_views(parts@) =~= before + speech.parts(cuts).take(done));
        }
    }
    assert(speech.parts(cuts).take(done) =~= speech.parts(cuts));
    Ghost(cuts)
}

/// Cuts all speech of a meeting into parts that an engine can take. No audio of it is lost: the
/// parts join to all of it.
pub fn processable_segments<T: Copy, F: Fn(usize) -> u32>(speech: &Vec<DetectedSpeech<T, F>>) -> (r:
    Vec<SpeechPart<T>>)
    requires
        forall|i: int| 0 <= i < speech@.len() ==> (#[trigger] speech@[i]).can_be_cut(),
    ensures
        exists|cuts: Seq<Seq<SegmentPart<T>>>| #[trigger]
            is_division(speech@, cuts, part_views(r@)) && all_rejoined(cuts) == all_speech(speech@),
{
    let mut r: Vec<SpeechPart<T>> = Vec::new();
    let ghost mut cuts: Seq<Seq<SegmentPart<T>>> = Seq::empty();
    let mut i: usize = 0;
    assert(part_views(r@) =~= all_parts(speech@, cuts));
    while i < speech.len()
        invariant
            i <= speech@.len(),
            forall|k: int| 0 <= k < speech@.len() ==> (#[trigger] speech@[k]).can_be_cut(),
            cuts.len() == i,
            forall|k: int| 0 <= k < i ==> speech@[k].is_cut_into(#[trigger] cuts[k]),
            part_views(r@) == all_parts(speech@, cuts),
        decreases speech@.len() - i,
    {
        let ghost before = cuts;
        let Ghost(added) = add_parts(&speech[i], &mut r);
        proof {
            cuts = before.push(added);
            assert(cuts.drop_last() =~= before);
        }
        i = i + 1;
    }
    proof {
        parts_join_to_all_speech(speech@, cuts, part_views(r@));
    }
    r
}

/// Law: the parts of the speech of a meeting join to all of that speech, and every segment of
/// speech has a part.
pub proof fn parts_join_to_all_speech<T, F: Fn(usize) -> u32>(
    speech: Seq<DetectedSpeech<T, F>>,
    cuts: Seq<Seq<SegmentPart<T>>>,
    parts: Seq<Part<T>>,
)
    requires
        is_division(speech, cuts, parts),
    ensures
        all_rejoined(cuts) == all_speech(speech),
        parts.len() >= speech.len(),
    decreases speech.len(),
{
    if speech.len() > 0 {
        let fewer = speech.drop_last();
        let less = cuts.drop_last();
        assert forall|i: int| 0 <= i < less.len() implies fewer[i].is_cut_into(
            #[trigger] less[i]) by {
            assert(speech[i].is_cut_into(cuts[i]));
        }
        only_the_first_segments_matter(speech, fewer, less);
        parts_join_to_all_speech(fewer, less, all_parts(fewer, less));
        assert(speech.last().is_cut_into(cuts[speech.len() - 1]));
        parts_rejoin_to_the_segment(
            levels_of(speech.last().measure),
            speech.last().samples@,
            MAX_SEGMENT_SAMPLES as int,
            LEAD_IN_SAMPLES as int,
            cuts.last(),
        );
    }
}

proof fn only_the_first_segments_matter<T, F: Fn(usize) -> u32>(
    speech: Seq<DetectedSpeech<T, F>>,
    fewer: Seq<DetectedSpeech<T, F>>,
    cuts: Seq<Seq<SegmentPart<T>>>,
)
    requires
        cuts.len() <= fewer.len() <= speech.len(),
        fewer == speech.take(fewer.len() as int),
    ensures
        all_parts(speech, cuts) == all_parts(fewer, cuts),
    decreases cuts.len(),
{
    if cuts.len() > 0 {
        only_the_first_segments_matter(speech, fewer, cuts.drop_last());
    }
}

/// Law: a part of speech lies inside its segment, from its start to its end, and where a segment is
/// not cut its part is the whole of it, in its own time.
pub proof fn parts_lie_in_their_segment<T, F: Fn(usize) -> u32>(
    speech: DetectedSpeech<T, F>,
    cuts: Seq<SegmentPart<T>>,
    i: int,
)
    requires
        speech.start_ns <= speech.end_ns,
        speech.is_cut_into(cuts),
        0 <= i < cuts.len(),
    ensures
        speech.parts(cuts).len() == cuts.len(),
        speech.parts(cuts)[i].samples == cuts[i].samples@,
        speech.parts(cuts)[0].start_ns == speech.start_ns,
        speech.parts(cuts).last().end_ns == speech.end_ns,
        speech.parts(cuts)[i].start_ns <= speech.parts(cuts)[i].end_ns,
        i + 1 < cuts.len() ==> speech.parts(cuts)[i].end_ns == speech.parts(cuts)[i + 1].start_ns,
        speech.samples@.len() <= 400_000 ==> cuts.len() == 1 && speech.parts(cuts)[0].samples
            == speech.samples@,
{
    crate::segmentation::times_of_parts_adjoin(
        levels_of(speech.measure),
        speech.samples@,
        MAX_SEGMENT_SAMPLES as int,
        LEAD_IN_SAMPLES as int,
        cuts,
        speech.start_ns as int,
        speech.end_ns as int,
    );
    if speech.samples@.len() <= 400_000 {
        crate::segmentation::short_speech_is_not_cut(
            levels_of(speech.measure),
            speech.samples@,
            MAX_SEGMENT_SAMPLES as int,
            LEAD_IN_SAMPLES as int,
            cuts,
        );
    }
}

/// Law: the parts of the first segments of speech come first, in their order.
pub proof fn segments_are_cut_one_after_the_other<T, F: Fn(usize) -> u32>(
    speech: Seq<DetectedSpeech<T, F>>,
    cuts: Seq<Seq<SegmentPart<T>>>,
    last: Seq<SegmentPart<T>>,
)
    requires
        cuts.len() < speech.len(),
    ensures
        all_parts(speech, cuts.push(last)) == all_parts(speech, cuts) + speech[cuts.len()
            as int].parts(last),
        all_parts(speech, Seq::<Seq<SegmentPart<T>>>::empty()).len() == 0,
{
    assert(cuts.push(last).drop_last() =~= cuts);
}

} // verus!
