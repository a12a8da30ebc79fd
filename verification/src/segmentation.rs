//! Cutting long speech segments at pauses.
//!
//! Samples are only moved here, never computed with, so every function is generic in the
//! sample type. Loudness comes in through a measuring function that maps the start of a
//! window to the bit pattern of the window's RMS as a 32-bit float. An RMS is never negative,
//! and on non-negative floats the order of the bit patterns is the order of the values, with
//! every not-a-number above every number.

use vstd::prelude::*;

verus! {

/// Samples per second of the audio that is cut.
pub const SEGMENT_SAMPLE_RATE: usize = 16_000;

/// Length of one measured window: 100 ms.
pub const ENERGY_WINDOW: usize = 1_600;

/// Distance between two measured windows: 10 ms.
pub const SEARCH_STEP: usize = 160;

/// A pause is first looked for this close to the target: 3 s.
pub const SEARCH_RADIUS: usize = 48_000;

/// The search is widened to this distance when the near range holds no pause: 8 s.
pub const WIDE_SEARCH_RADIUS: usize = 128_000;

/// A cut that has to go through speech is moved later by this much: 1 s.
pub const FALLBACK_OVERLAP: usize = 16_000;

/// Bit pattern of the RMS at or below which a window counts as silent: 0.02.
pub const SILENCE_RMS_THRESHOLD_BITS: u32 = 0x3CA3_D70A;

/// Bit pattern of the largest finite 32-bit float.
pub const LARGEST_LEVEL_BITS: u32 = 0x7F7F_FFFF;

/// What `measure` gives for the window that starts at `start`.
pub open spec fn level_at<F: Fn(usize) -> u32>(measure: F, start: int) -> u32 {
    choose|level: u32| #[trigger] call_ensures(measure, (start as usize,), level)
}

/// The levels that `measure` gives, by start of window.
pub open spec fn levels_of<F: Fn(usize) -> u32>(measure: F) -> spec_fn(int) -> u32 {
    |start: int| level_at(measure, start)
}

/// `measure` can be asked about every window of `window` samples among `len`, and its answer
/// depends on the window alone.
pub open spec fn measures<F: Fn(usize) -> u32>(measure: F, len: int, window: int) -> bool {
    &&& forall|start: usize|
        start + window <= len ==> #[trigger] call_requires(measure, (start,))
    &&& forall|start: usize, a: u32, b: u32|
        start + window <= len && #[trigger] call_ensures(measure, (start,), a)
            && #[trigger] call_ensures(measure, (start,), b) ==> a == b
}

/// Where the `k`-th window of a search starts.
pub open spec fn window_start(search_start: int, step: int, k: int) -> int {
    search_start + k * step
}

/// The window at `start` is silent and so are its two neighbours, as far as the audio reaches.
pub open spec fn is_pause(
    level: spec_fn(int) -> u32,
    len: int,
    window: int,
    threshold: u32,
    start: int,
) -> bool {
    &&& level(start) <= threshold
    &&& start < window || level(start - window) <= threshold
    &&& start + 2 * window > len || level(start + window) <= threshold
}

/// The `k`-th window of a search lies inside the range and is a pause.
pub open spec fn pause_candidate(
    level: spec_fn(int) -> u32,
    len: int,
    search_start: int,
    search_end: int,
    window: int,
    threshold: u32,
    step: int,
    k: int,
) -> bool {
    &&& 0 <= k
    &&& window_start(search_start, step, k) + window <= search_end
    &&& is_pause(level, len, window, threshold, window_start(search_start, step, k))
}

/// `found` is the quietest pause of the search, the earliest among equally quiet ones: the
/// middle of its window and its level. Nothing is found in an empty range, in one that reaches
/// past the audio, or where no window is a pause.
pub open spec fn is_quietest_pause(
    level: spec_fn(int) -> u32,
    len: int,
    search_start: int,
    search_end: int,
    window: int,
    threshold: u32,
    step: int,
    found: Option<(usize, u32)>,
) -> bool {
    match found {
        None => search_end <= search_start || search_end > len || forall|k: int|
            !#[trigger] pause_candidate(
                level, len, search_start, search_end, window, threshold, step, k),
        Some((split, rms)) => search_start < search_end <= len && exists|k: int|
            #![trigger window_start(search_start, step, k)]
            pause_candidate(level, len, search_start, search_end, window, threshold, step, k)
            && split == window_start(search_start, step, k) + window / 2
            && rms == level(window_start(search_start, step, k))
            && forall|j: int| #[trigger] pause_candidate(
                level, len, search_start, search_end, window, threshold, step, j)
                ==> rms <= level(window_start(search_start, step, j))
                && (j < k ==> rms < level(window_start(search_start, step, j))),
    }
}

fn measured<F: Fn(usize) -> u32>(measure: &F, start: usize, Ghost(len): Ghost<int>, Ghost(window): Ghost<int>) -> (level: u32)
    requires
        measures(*measure, len, window),
        start + window <= len,
    ensures
        level == levels_of(*measure)(start as int),
{
    let level: u32 = measure(start);
    level
}

/// Finds the quietest sustained silence in `[search_start, search_end)`.
///
/// A single quiet window can sit inside a word, so one only qualifies when the windows before
/// and after it are silent too.
pub fn find_sustained_silence<F: Fn(usize) -> u32>(
    len: usize,
    measure: &F,
    search_start: usize,
    search_end: usize,
    energy_window: usize,
    threshold: u32,
    step: usize,
) -> (found: Option<(usize, u32)>)
    requires
        step > 0,
        len + step <= usize::MAX,
        measures(*measure, len as int, energy_window as int),
    ensures
        is_quietest_pause(
            levels_of(*measure),
            len as int,
            search_start as int,
            search_end as int,
            energy_window as int,
            threshold,
            step as int,
            found,
        ),
{
    if search_end <= search_start || search_end > len {
        return None;
    }
    let mut idx: usize = search_start;
    let mut best: Option<(usize, u32)> = None;
    let ghost level = levels_of(*measure);
    let ghost mut k: int = 0;
    let ghost mut best_k: int = 0;
    while idx <= search_end && energy_window <= search_end - idx
        invariant
            step > 0,
            len + step <= usize::MAX,
            measures(*measure, len as int, energy_window as int),
            search_start < search_end <= len,
            level == levels_of(*measure),
            0 <= k,
            idx == window_start(search_start as int, step as int, k),
            match best {
                None => forall|j: int| j < k ==> !#[trigger] pause_candidate(
                    level, len as int, search_start as int, search_end as int,
                    energy_window as int, threshold, step as int, j),
                Some((split, rms)) => {
                    &&& 0 <= best_k < k
                    &&& pause_candidate(
                        level, len as int, search_start as int, search_end as int,
                        energy_window as int, threshold, step as int, best_k)
                    &&& split == window_start(search_start as int, step as int, best_k)
                        + energy_window / 2
                    &&& rms == level(window_start(search_start as int, step as int, best_k))
                    &&& forall|j: int| j < k && #[trigger] pause_candidate(
                        level, len as int, search_start as int, search_end as int,
                        energy_window as int, threshold, step as int, j)
                        ==> rms <= level(window_start(search_start as int, step as int, j))
                        && (j < best_k ==> rms < level(
                        window_start(search_start as int, step as int, j)))
                },
            },
        decreases len + step - idx,
    {
        let rms: u32 = measured(measure, idx, Ghost(len as int), Ghost(energy_window as int));
        if rms <= threshold {
            let before_ok = idx < energy_window || measured(
                measure, idx - energy_window, Ghost(len as int), Ghost(energy_window as int),
            ) <= threshold;
            let after_ok = len - idx - energy_window < energy_window || measured(
                measure, idx + energy_window, Ghost(len as int), Ghost(energy_window as int),
            ) <= threshold;
            let quieter = match best {
                None => true,
                Some((_, best_rms)) => rms < best_rms,
            };
            if before_ok && after_ok && quieter {
                best = Some((idx + energy_window / 2, rms));
                proof {
                    best_k = k;
                }
            }
        }
        proof {
            assert(window_start(search_start as int, step as int, k + 1)
                == window_start(search_start as int, step as int, k) + step) by (nonlinear_arith);
            k = k + 1;
        }
        idx = idx + step;
    }
    proof {
        assert forall|j: int| #[trigger] pause_candidate(
            level, len as int, search_start as int, search_end as int,
            energy_window as int, threshold, step as int, j) implies j < k by {
            assert(j >= k ==> window_start(search_start as int, step as int, j)
                >= window_start(search_start as int, step as int, k)) by (nonlinear_arith)
                requires step > 0;
        }
    }
    best
}

/// One part of a cut segment: the positions `start..end` of the segment that it stands for,
/// and the samples to transcribe, which may begin with audio from before `start`.
pub struct SegmentPart<T> {
    pub start: usize,
    pub end: usize,
    pub samples: Vec<T>,
}

/// The time of a position in a segment of `total` samples that lasts from `start_ns` to `end_ns`.
pub open spec fn time_at(start_ns: int, end_ns: int, total: int, position: int) -> int {
    start_ns + position * (end_ns - start_ns) / total
}

/// When a part starts and ends, given when its segment does. The first part starts with the
/// segment, and the last one ends with it.
pub open spec fn times_of<T>(part: SegmentPart<T>, start_ns: int, end_ns: int, total: int) -> (
    int,
    int,
) {
    (
        if part.start == 0 {
            start_ns
        } else {
            time_at(start_ns, end_ns, total, part.start as int)
        },
        if part.end == total {
            end_ns
        } else {
            time_at(start_ns, end_ns, total, part.end as int)
        },
    )
}

proof fn times_lie_in_the_segment(start_ns: int, end_ns: int, total: int, position: int)
    requires
        start_ns <= end_ns,
        0 <= position <= total,
        0 < total,
    ensures
        start_ns <= time_at(start_ns, end_ns, total, position) <= end_ns,
        0 <= position * (end_ns - start_ns) <= total * (end_ns - start_ns),
{
    let span = end_ns - start_ns;
    assert(0 <= position * span <= total * span) by (nonlinear_arith)
        requires
            0 <= position <= total,
            0 <= span,
    ;
    vstd::arithmetic::div_mod::lemma_div_multiples_vanish(span, total);
    vstd::arithmetic::div_mod::lemma_div_is_ordered(position * span, total * span, total);
    vstd::arithmetic::div_mod::lemma_div_pos_is_pos(position * span, total);
}

fn time_of_position(start_ns: u64, end_ns: u64, total: usize, position: usize) -> (r: u64)
    requires
        start_ns <= end_ns,
        position <= total,
        0 < total,
    ensures
        r == time_at(start_ns as int, end_ns as int, total as int, position as int),
{
    proof {
        times_lie_in_the_segment(start_ns as int, end_ns as int, total as int, position as int);
        let span = end_ns - start_ns;
        assert(total * span <= 0xffff_ffff_ffff_ffff * 0xffff_ffff_ffff_ffff) by (nonlinear_arith)
            requires
                0 <= total <= 0xffff_ffff_ffff_ffff,
                0 <= span <= 0xffff_ffff_ffff_ffff,
        ;
    }
    let passed: u128 = position as u128 * (end_ns - start_ns) as u128 / total as u128;
    start_ns + passed as u64
}

impl<T> SegmentPart<T> {
    /// When the part starts and ends, in nanoseconds, given when its segment of `total` samples
    /// does.
    pub fn times_ns(&self, start_ns: u64, end_ns: u64, total: usize) -> (r: (u64, u64))
        requires
            start_ns <= end_ns,
            self.start <= self.end <= total,
        ensures
            (r.0 as int, r.1 as int) == times_of(
                *self, start_ns as int, end_ns as int, total as int),
    {
        let first: u64 = if self.start == 0 {
            start_ns
        } else {
            time_of_position(start_ns, end_ns, total, self.start)
        };
        let last: u64 = if self.end == total {
            end_ns
        } else {
            time_of_position(start_ns, end_ns, total, self.end)
        };
        (first, last)
    }
}

/// The range in which a pause within `radius` of the target is looked for, when the part
/// begins at `pos`: never in the first second of the part nor in the last window of the audio.
pub open spec fn search_range(total: int, max_samples: int, pos: int, radius: int) -> (int, int) {
    let target = pos + max_samples;
    let low = if target - radius < pos + SEGMENT_SAMPLE_RATE {
        pos + SEGMENT_SAMPLE_RATE
    } else {
        target - radius
    };
    let last = if total < ENERGY_WINDOW { 0 } else { total - ENERGY_WINDOW };
    (low, if target + radius < last { target + radius } else { last })
}

/// The quietest pause within `radius` of the target is `found`.
pub open spec fn pause_near(
    level: spec_fn(int) -> u32,
    total: int,
    max_samples: int,
    pos: int,
    radius: int,
    found: Option<(usize, u32)>,
) -> bool {
    let range = search_range(total, max_samples, pos, radius);
    is_quietest_pause(
        level,
        total,
        range.0,
        range.1,
        ENERGY_WINDOW as int,
        SILENCE_RMS_THRESHOLD_BITS,
        SEARCH_STEP as int,
        found,
    )
}

/// The `k`-th window from `low` lies below `high` and its level is a finite number short of the
/// largest.
pub open spec fn dip_candidate(level: spec_fn(int) -> u32, low: int, high: int, k: int) -> bool {
    &&& 0 <= k
    &&& window_start(low, SEARCH_STEP as int, k) + ENERGY_WINDOW <= high
    &&& level(window_start(low, SEARCH_STEP as int, k)) < LARGEST_LEVEL_BITS
}

/// `split` is the middle of the quietest window between `low` and `high`, the earliest among
/// equally quiet ones, or `otherwise` where there is none.
pub open spec fn is_quietest_dip(
    level: spec_fn(int) -> u32,
    low: int,
    high: int,
    otherwise: int,
    split: int,
) -> bool {
    ||| (forall|k: int| !#[trigger] dip_candidate(level, low, high, k)) && split == otherwise
    ||| exists|k: int|
        #![trigger window_start(low, SEARCH_STEP as int, k)]
        dip_candidate(level, low, high, k) && split == window_start(low, SEARCH_STEP as int, k)
            + ENERGY_WINDOW as int / 2 && forall|j: int| #[trigger]
            dip_candidate(level, low, high, j) ==> level(
            window_start(low, SEARCH_STEP as int, k),
        ) <= level(window_start(low, SEARCH_STEP as int, j)) && (j < k ==> level(
            window_start(low, SEARCH_STEP as int, k),
        ) < level(window_start(low, SEARCH_STEP as int, j)))
}

/// A part that begins at `pos`, with more than `max_samples` left, ends at `end`: at a pause
/// near the target, else at a pause in the wider range, else one second past the quietest
/// window near the target.
pub open spec fn is_cut(
    level: spec_fn(int) -> u32,
    total: int,
    max_samples: int,
    pos: int,
    end: int,
) -> bool {
    let range = search_range(total, max_samples, pos, SEARCH_RADIUS as int);
    ||| exists|found: (usize, u32)|
        #[trigger] pause_near(
            level, total, max_samples, pos, SEARCH_RADIUS as int, Some(found))
            && end == found.0
    ||| pause_near(level, total, max_samples, pos, SEARCH_RADIUS as int, None) && exists|
        found: (usize, u32),
    |
        #[trigger] pause_near(
            level, total, max_samples, pos, WIDE_SEARCH_RADIUS as int, Some(found))
            && end == found.0
    ||| pause_near(level, total, max_samples, pos, SEARCH_RADIUS as int, None) && pause_near(
        level, total, max_samples, pos, WIDE_SEARCH_RADIUS as int, None) && exists|split: int|
        #[trigger] is_quietest_dip(level, range.0, range.1, pos + max_samples, split) && end
            == if split + FALLBACK_OVERLAP < total { split + FALLBACK_OVERLAP } else { total }
}

/// Where the samples of a part begin: the first part at its start, each later one up to
/// `lead_in` samples earlier.
pub open spec fn lead_start(index: int, start: int, lead_in: int) -> int {
    if index == 0 {
        start
    } else if start < lead_in {
        0
    } else {
        start - lead_in
    }
}

/// Part number `index` of a segment ends where it should and holds the samples it should.
pub open spec fn is_part<T>(
    level: spec_fn(int) -> u32,
    samples: Seq<T>,
    max_samples: int,
    lead_in: int,
    index: int,
    part: SegmentPart<T>,
) -> bool {
    &&& part.start <= part.end <= samples.len()
    &&& if samples.len() - part.start <= max_samples {
        part.end == samples.len()
    } else {
        is_cut(level, samples.len() as int, max_samples, part.start as int, part.end as int)
    }
    &&& part.samples@ == samples.subrange(
        lead_start(index, part.start as int, lead_in), part.end as int)
}

/// `parts` is how a segment is cut: adjoining parts from its first sample to its last.
pub open spec fn is_split<T>(
    level: spec_fn(int) -> u32,
    samples: Seq<T>,
    max_samples: int,
    lead_in: int,
    parts: Seq<SegmentPart<T>>,
) -> bool {
    &&& parts.len() > 0
    &&& parts[0].start == 0
    &&& parts.last().end == samples.len()
    &&& forall|i: int| 0 <= i < parts.len() ==> is_part(
        level, samples, max_samples, lead_in, i, #[trigger] parts[i])
    &&& forall|i: int| 0 <= i < parts.len() - 1 ==> (#[trigger] parts[i]).end < samples.len()
        && parts[i].end == parts[i + 1].start
}

/// Looks for the quietest window between `low` and `high`.
fn find_quietest_dip<F: Fn(usize) -> u32>(
    len: usize,
    measure: &F,
    low: usize,
    high: usize,
    otherwise: usize,
) -> (split: usize)
    requires
        len + SEARCH_STEP <= usize::MAX,
        high <= len,
        measures(*measure, len as int, ENERGY_WINDOW as int),
    ensures
        is_quietest_dip(levels_of(*measure), low as int, high as int, otherwise as int, split as int),
{
    let mut split: usize = otherwise;
    let mut quietest: u32 = LARGEST_LEVEL_BITS;
    let mut idx: usize = low;
    let ghost level = levels_of(*measure);
    let ghost mut k: int = 0;
    let ghost mut best_k: int = -1;
    while idx <= high && ENERGY_WINDOW <= high - idx
        invariant
            len + SEARCH_STEP <= usize::MAX,
            high <= len,
            measures(*measure, len as int, ENERGY_WINDOW as int),
            level == levels_of(*measure),
            0 <= k,
            idx == window_start(low as int, SEARCH_STEP as int, k),
            best_k < k,
            best_k < 0 ==> split == otherwise && quietest == LARGEST_LEVEL_BITS && forall|j: int|
                j < k ==> !#[trigger] dip_candidate(level, low as int, high as int, j),
            best_k >= 0 ==> {
                &&& dip_candidate(level, low as int, high as int, best_k)
                &&& split == window_start(low as int, SEARCH_STEP as int, best_k)
                    + ENERGY_WINDOW as int / 2
                &&& quietest == level(window_start(low as int, SEARCH_STEP as int, best_k))
                &&& forall|j: int| j < k && #[trigger] dip_candidate(
                    level, low as int, high as int, j) ==> quietest <= level(
                    window_start(low as int, SEARCH_STEP as int, j),
                ) && (j < best_k ==> quietest < level(
                    window_start(low as int, SEARCH_STEP as int, j)))
            },
        decreases len + SEARCH_STEP - idx,
    {
        let rms: u32 = measured(measure, idx, Ghost(len as int), Ghost(ENERGY_WINDOW as int));
        if rms < quietest {
            quietest = rms;
            split = idx + ENERGY_WINDOW / 2;
            proof {
                best_k = k;
            }
        }
        proof {
            k = k + 1;
        }
        idx = idx + SEARCH_STEP;
    }
    split
}

/// Where a part that begins at `pos` ends, when more than `max_samples` are left.
fn find_cut<F: Fn(usize) -> u32>(len: usize, measure: &F, max_samples: usize, pos: usize) -> (end:
    usize)
    requires
        len + WIDE_SEARCH_RADIUS <= usize::MAX,
        pos < len,
        max_samples < len - pos,
        measures(*measure, len as int, ENERGY_WINDOW as int),
    ensures
        is_cut(levels_of(*measure), len as int, max_samples as int, pos as int, end as int),
        pos < end <= len,
{
    let target: usize = pos + max_samples;
    let min_pos: usize = pos + SEGMENT_SAMPLE_RATE;
    let last: usize = len.saturating_sub(ENERGY_WINDOW);
    let near_low: usize = target.saturating_sub(SEARCH_RADIUS);
    let near_start: usize = if near_low < min_pos { min_pos } else { near_low };
    let near_end: usize = if target + SEARCH_RADIUS < last { target + SEARCH_RADIUS } else { last };
    let near = find_sustained_silence(
        len, measure, near_start, near_end, ENERGY_WINDOW, SILENCE_RMS_THRESHOLD_BITS, SEARCH_STEP);
    let ghost level = levels_of(*measure);
    assert(pause_near(
        level, len as int, max_samples as int, pos as int, SEARCH_RADIUS as int, near));
    if let Some(found) = near {
        return found.0;
    }
    let wide_low: usize = target.saturating_sub(WIDE_SEARCH_RADIUS);
    let wide_start: usize = if wide_low < min_pos { min_pos } else { wide_low };
    let wide_end: usize = if target + WIDE_SEARCH_RADIUS < last {
        target + WIDE_SEARCH_RADIUS
    } else {
        last
    };
    let wide = find_sustained_silence(
        len, measure, wide_start, wide_end, ENERGY_WINDOW, SILENCE_RMS_THRESHOLD_BITS, SEARCH_STEP);
    assert(pause_near(
        level, len as int, max_samples as int, pos as int, WIDE_SEARCH_RADIUS as int, wide));
    if let Some(found) = wide {
        return found.0;
    }
    let split: usize = find_quietest_dip(len, measure, near_start, near_end, target);
    if split < len && FALLBACK_OVERLAP < len - split {
        split + FALLBACK_OVERLAP
    } else {
        len
    }
}

/// Splits a long speech segment at the pauses nearest to its target length.
///
/// `measure` gives the RMS level of the window of `ENERGY_WINDOW` samples at a position. A part
/// after the first is prefixed with up to `lead_in_samples` of the audio before it.
#[verifier::rlimit(60)]
#[verifier::spinoff_prover]
pub fn split_segment_at_silence<T: Copy, F: Fn(usize) -> u32>(
    samples: &[T],
    measure: &F,
    max_samples: usize,
    lead_in_samples: usize,
) -> (parts: Vec<SegmentPart<T>>)
    requires
        samples@.len() + WIDE_SEARCH_RADIUS <= usize::MAX,
        measures(*measure, samples@.len() as int, ENERGY_WINDOW as int),
    ensures
        is_split(
            levels_of(*measure),
            samples@,
            max_samples as int,
            lead_in_samples as int,
            parts@,
        ),
{
    let total: usize = samples.len();
    let mut parts: Vec<SegmentPart<T>> = Vec::new();
    let mut pos: usize = 0;
    let ghost level = levels_of(*measure);
    loop
        invariant
            total == samples@.len(),
            total + WIDE_SEARCH_RADIUS <= usize::MAX,
            measures(*measure, total as int, ENERGY_WINDOW as int),
            level == levels_of(*measure),
            pos <= total,
            parts@.len() == 0 ==> pos == 0,
            parts@.len() > 0 ==> parts@[0].start == 0 && parts@.last().end == pos && pos < total,
            forall|i: int| 0 <= i < parts@.len() ==> is_part(
                level, samples@, max_samples as int, lead_in_samples as int, i, #[trigger] parts@[i]),
            forall|i: int| 0 <= i < parts@.len() - 1 ==> (#[trigger] parts@[i]).end < total
                && parts@[i].end == parts@[i + 1].start,
        decreases total - pos,
    {
        let end: usize = if total - pos <= max_samples {
            total
        } else {
            find_cut(total, measure, max_samples, pos)
        };
        let from: usize = if parts.len() == 0 { pos } else { pos.saturating_sub(lead_in_samples) };
        let part = SegmentPart { start: pos, end, samples: copy_range(samples, from, end) };
        parts.push(part);
        if end == total {
            return parts;
        }
        pos = end;
    }
}

/// Copies the samples `from..to`.
pub(crate) fn copy_range<T: Copy>(samples: &[T], from: usize, to: usize) -> (copy: Vec<T>)
    requires
        from <= to <= samples@.len(),
    ensures
        copy@ == samples@.subrange(from as int, to as int),
{
    let mut copy: Vec<T> = Vec::new();
    let mut i: usize = from;
    while i < to
        invariant
            from <= i <= to <= samples@.len(),
            copy@ == samples@.subrange(from as int, i as int),
        decreases to - i,
    {
        copy.push(samples[i]);
        i = i + 1;
    }
    copy
}

/// The parts joined again, each without its lead-in.
pub open spec fn rejoined<T>(parts: Seq<SegmentPart<T>>, lead_in: int) -> Seq<T>
    decreases parts.len(),
{
    if parts.len() == 0 {
        Seq::empty()
    } else {
        let last = parts.last();
        rejoined(parts.drop_last(), lead_in) + last.samples@.skip(
            last.start - lead_start(parts.len() - 1, last.start as int, lead_in))
    }
}

/// Law: the parts of a segment, joined again without their lead-ins, are the segment.
pub proof fn parts_rejoin_to_the_segment<T>(
    level: spec_fn(int) -> u32,
    samples: Seq<T>,
    max_samples: int,
    lead_in: int,
    parts: Seq<SegmentPart<T>>,
)
    requires
        lead_in >= 0,
        is_split(level, samples, max_samples, lead_in, parts),
    ensures
        rejoined(parts, lead_in) == samples,
{
    rejoined_prefix(level, samples, max_samples, lead_in, parts, parts.len() as int);
    assert(parts.take(parts.len() as int) =~= parts);
    assert(samples.take(samples.len() as int) =~= samples);
}

#[verifier::rlimit(40)]
#[verifier::spinoff_prover]
proof fn rejoined_prefix<T>(
    level: spec_fn(int) -> u32,
    samples: Seq<T>,
    max_samples: int,
    lead_in: int,
    parts: Seq<SegmentPart<T>>,
    n: int,
)
    requires
        lead_in >= 0,
        is_split(level, samples, max_samples, lead_in, parts),
        1 <= n <= parts.len(),
    ensures
        rejoined(parts.take(n), lead_in) == samples.take(parts[n - 1].end as int),
    decreases n,
{
    let prefix = parts.take(n);
    let part = parts[n - 1];
    assert(prefix.drop_last() =~= parts.take(n - 1));
    assert(prefix.last() == part);
    assert(is_part(level, samples, max_samples, lead_in, n - 1, parts[n - 1]));
    let body = part.samples@.skip(part.start - lead_start(n - 1, part.start as int, lead_in));
    assert(body =~= samples.subrange(part.start as int, part.end as int));
    if n == 1 {
        assert(parts.take(0) =~= Seq::empty());
        assert(rejoined(parts.take(0), lead_in) =~= Seq::empty());
        assert(samples.subrange(0, part.end as int) =~= samples.take(part.end as int));
    } else {
        rejoined_prefix(level, samples, max_samples, lead_in, parts, n - 1);
        assert(parts[n - 2].end == parts[n - 2 + 1].start);
        assert(samples.take(part.start as int) + body =~= samples.take(part.end as int));
    }
}

/// Law: the times of the parts of a segment adjoin, from when the segment starts to when it ends,
/// and no part ends before it starts.
pub proof fn times_of_parts_adjoin<T>(
    level: spec_fn(int) -> u32,
    samples: Seq<T>,
    max_samples: int,
    lead_in: int,
    parts: Seq<SegmentPart<T>>,
    start_ns: int,
    end_ns: int,
)
    requires
        start_ns <= end_ns,
        is_split(level, samples, max_samples, lead_in, parts),
    ensures
        times_of(parts[0], start_ns, end_ns, samples.len() as int).0 == start_ns,
        times_of(parts.last(), start_ns, end_ns, samples.len() as int).1 == end_ns,
        forall|i: int|
            0 <= i < parts.len() - 1 ==> times_of(
                #[trigger] parts[i], start_ns, end_ns, samples.len() as int).1 == times_of(
                parts[i + 1], start_ns, end_ns, samples.len() as int).0,
        forall|i: int|
            0 <= i < parts.len() ==> times_of(
                #[trigger] parts[i], start_ns, end_ns, samples.len() as int).0 <= times_of(
                parts[i], start_ns, end_ns, samples.len() as int).1,
{
    let total = samples.len() as int;
    assert forall|i: int| 0 <= i < parts.len() - 1 implies times_of(
        #[trigger] parts[i], start_ns, end_ns, total).1 == times_of(
        parts[i + 1], start_ns, end_ns, total).0 by {
        assert(is_part(level, samples, max_samples, lead_in, i, parts[i]));
        if parts[i].end == 0 {
            assert(0 * (end_ns - start_ns) / total == 0) by {
                vstd::arithmetic::div_mod::lemma_div_basics(total);
            }
        }
    }
    assert forall|i: int| 0 <= i < parts.len() implies times_of(
        #[trigger] parts[i], start_ns, end_ns, total).0 <= times_of(
        parts[i], start_ns, end_ns, total).1 by {
        let part = parts[i];
        assert(is_part(level, samples, max_samples, lead_in, i, part));
        if total > 0 {
            times_lie_in_the_segment(start_ns, end_ns, total, part.start as int);
            times_lie_in_the_segment(start_ns, end_ns, total, part.end as int);
            let span = end_ns - start_ns;
            assert(part.start * span <= part.end * span) by (nonlinear_arith)
                requires
                    part.start <= part.end,
                    0 <= span,
            ;
            vstd::arithmetic::div_mod::lemma_div_is_ordered(
                part.start * span, part.end * span, total);
        }
    }
}

/// Law: a part that is cut off covers at least one sample and at most eight seconds more than
/// the target length; and at least a second, unless it is the last one.
pub proof fn cut_is_bounded(
    level: spec_fn(int) -> u32,
    total: int,
    max_samples: int,
    pos: int,
    end: int,
)
    requires
        0 <= pos < total,
        0 <= max_samples < total - pos,
        is_cut(level, total, max_samples, pos, end),
    ensures
        pos < end <= total,
        end <= pos + max_samples + WIDE_SEARCH_RADIUS,
        end < total ==> end - pos >= SEGMENT_SAMPLE_RATE,
{
}

/// Law: where a part ends depends only on the levels, the length of the segment, the target
/// length and where the part begins.
pub proof fn cut_is_unique(
    level: spec_fn(int) -> u32,
    total: int,
    max_samples: int,
    pos: int,
    a: int,
    b: int,
)
    requires
        is_cut(level, total, max_samples, pos, a),
        is_cut(level, total, max_samples, pos, b),
    ensures
        a == b,
{
}

/// A window of 100 ms that is silent, as its neighbours on both sides are, as far as there are any.
pub open spec fn lies_in_silence(level: spec_fn(int) -> u32, total: int, start: int) -> bool {
    &&& level(start) <= 0x3CA3_D70A
    &&& start >= 1_600 ==> level(start - 1_600) <= 0x3CA3_D70A
    &&& start + 3_200 <= total ==> level(start + 1_600) <= 0x3CA3_D70A
}

/// The windows that are looked at within `radius` of a target, ten milliseconds apart: none in the
/// first second of the part that begins at `pos`, and none in the last window of the audio.
pub open spec fn is_looked_at(
    total: int,
    max_samples: int,
    pos: int,
    radius: int,
    start: int,
) -> bool {
    let target = pos + max_samples;
    &&& start >= target - radius
    &&& start >= pos + 16_000
    &&& start + 1_600 <= target + radius
    &&& start + 1_600 <= total - 1_600
    &&& if target - radius >= pos + 16_000 {
        (start - (target - radius)) % 160 == 0
    } else {
        (start - (pos + 16_000)) % 160 == 0
    }
}

proof fn looked_at_windows_are_searched(
    total: int,
    max_samples: int,
    pos: int,
    radius: int,
    start: int,
) -> (k: int)
    requires
        0 <= pos < total,
        0 <= max_samples < total - pos,
        is_looked_at(total, max_samples, pos, radius, start),
    ensures
        0 <= k,
        start == window_start(
            search_range(total, max_samples, pos, radius).0, SEARCH_STEP as int, k),
        start + 1_600 <= search_range(total, max_samples, pos, radius).1,
{
    let low = search_range(total, max_samples, pos, radius).0;
    let k = (start - low) / 160;
    assert((start - low) % 160 == 0);
    assert(start - low == 160 * k);
    k
}

proof fn searched_windows_are_looked_at(
    total: int,
    max_samples: int,
    pos: int,
    radius: int,
    k: int,
)
    requires
        0 <= pos < total,
        0 <= max_samples < total - pos,
        0 <= k,
        window_start(search_range(total, max_samples, pos, radius).0, SEARCH_STEP as int, k)
            + 1_600 <= search_range(total, max_samples, pos, radius).1,
    ensures
        is_looked_at(
            total,
            max_samples,
            pos,
            radius,
            window_start(search_range(total, max_samples, pos, radius).0, SEARCH_STEP as int, k),
        ),
{
    let low = search_range(total, max_samples, pos, radius).0;
    let start = window_start(low, SEARCH_STEP as int, k);
    assert(start - low == 160 * k);
    assert((160 * k) % 160 == 0);
}

proof fn pause_found_is_the_quietest(
    level: spec_fn(int) -> u32,
    total: int,
    max_samples: int,
    pos: int,
    radius: int,
    found: (usize, u32),
) -> (v: int)
    requires
        0 <= pos < total,
        0 <= max_samples < total - pos,
        pause_near(level, total, max_samples, pos, radius, Some(found)),
    ensures
        is_looked_at(total, max_samples, pos, radius, v),
        lies_in_silence(level, total, v),
        found.0 == v + 800,
        forall|w: int| #[trigger] is_looked_at(total, max_samples, pos, radius, w)
            && lies_in_silence(level, total, w) ==> level(v) <= level(w) && (level(v) == level(w)
            ==> v <= w),
{
    let range = search_range(total, max_samples, pos, radius);
    let step = SEARCH_STEP as int;
    let window = ENERGY_WINDOW as int;
    let threshold = SILENCE_RMS_THRESHOLD_BITS;
    let k = choose|k: int|
        #![trigger window_start(range.0, step, k)]
        pause_candidate(level, total, range.0, range.1, window, threshold, step, k) && found.0
            == window_start(range.0, step, k) + window / 2 && found.1 == level(
            window_start(range.0, step, k),
        ) && forall|j: int| #[trigger]
            pause_candidate(level, total, range.0, range.1, window, threshold, step, j)
                ==> found.1 <= level(window_start(range.0, step, j)) && (j < k ==> found.1 < level(
                window_start(range.0, step, j)));
    let v = window_start(range.0, step, k);
    searched_windows_are_looked_at(total, max_samples, pos, radius, k);
    assert forall|w: int| #[trigger] is_looked_at(total, max_samples, pos, radius, w)
        && lies_in_silence(level, total, w) implies level(v) <= level(w) && (level(v) == level(w)
        ==> v <= w) by {
        let j = looked_at_windows_are_searched(total, max_samples, pos, radius, w);
        assert(pause_candidate(level, total, range.0, range.1, window, threshold, step, j));
    }
    v
}

proof fn missing_pause_is_nowhere(
    level: spec_fn(int) -> u32,
    total: int,
    max_samples: int,
    pos: int,
    radius: int,
)
    requires
        0 <= pos < total,
        0 <= max_samples < total - pos,
        pause_near(level, total, max_samples, pos, radius, None),
    ensures
        forall|w: int| #[trigger] is_looked_at(total, max_samples, pos, radius, w)
            ==> !lies_in_silence(level, total, w),
{
    let range = search_range(total, max_samples, pos, radius);
    assert forall|w: int| #[trigger] is_looked_at(total, max_samples, pos, radius, w) implies
        !lies_in_silence(level, total, w) by {
        let j = looked_at_windows_are_searched(total, max_samples, pos, radius, w);
        if lies_in_silence(level, total, w) {
            assert(pause_candidate(
                level,
                total,
                range.0,
                range.1,
                ENERGY_WINDOW as int,
                SILENCE_RMS_THRESHOLD_BITS,
                SEARCH_STEP as int,
                j,
            ));
        }
    }
}

/// Law: where speech pauses within three seconds of the target, a part ends in the middle of the
/// quietest of those pauses, the earliest of equally quiet ones.
pub proof fn a_near_pause_is_taken(
    level: spec_fn(int) -> u32,
    total: int,
    max_samples: int,
    pos: int,
    end: int,
    pause: int,
)
    requires
        0 <= pos < total,
        0 <= max_samples < total - pos,
        is_cut(level, total, max_samples, pos, end),
        is_looked_at(total, max_samples, pos, 48_000, pause),
        lies_in_silence(level, total, pause),
    ensures
        is_looked_at(total, max_samples, pos, 48_000, end - 800),
        lies_in_silence(level, total, end - 800),
        level(end - 800) <= level(pause),
        level(end - 800) == level(pause) ==> end - 800 <= pause,
{
    if pause_near(level, total, max_samples, pos, SEARCH_RADIUS as int, None) {
        missing_pause_is_nowhere(level, total, max_samples, pos, SEARCH_RADIUS as int);
    } else {
        let found = choose|found: (usize, u32)|
            #[trigger] pause_near(
                level, total, max_samples, pos, SEARCH_RADIUS as int, Some(found))
                && end == found.0;
        let v = pause_found_is_the_quietest(
            level, total, max_samples, pos, SEARCH_RADIUS as int, found);
        assert(v == end - 800);
    }
}

/// Law: where speech pauses within eight seconds of the target, a part ends in the middle of a
/// pause, so no word is cut through; and where it only pauses beyond three seconds, that is the
/// quietest of those pauses.
pub proof fn a_far_pause_is_taken(
    level: spec_fn(int) -> u32,
    total: int,
    max_samples: int,
    pos: int,
    end: int,
    pause: int,
)
    requires
        0 <= pos < total,
        0 <= max_samples < total - pos,
        is_cut(level, total, max_samples, pos, end),
        is_looked_at(total, max_samples, pos, 128_000, pause),
        lies_in_silence(level, total, pause),
    ensures
        lies_in_silence(level, total, end - 800),
        is_looked_at(total, max_samples, pos, 48_000, end - 800) || is_looked_at(
            total, max_samples, pos, 128_000, end - 800),
        (forall|w: int| #[trigger] is_looked_at(total, max_samples, pos, 48_000, w)
            ==> !lies_in_silence(level, total, w)) ==> {
            &&& is_looked_at(total, max_samples, pos, 128_000, end - 800)
            &&& level(end - 800) <= level(pause)
            &&& level(end - 800) == level(pause) ==> end - 800 <= pause
        },
{
    if pause_near(level, total, max_samples, pos, WIDE_SEARCH_RADIUS as int, None) {
        missing_pause_is_nowhere(level, total, max_samples, pos, WIDE_SEARCH_RADIUS as int);
    }
    if pause_near(level, total, max_samples, pos, SEARCH_RADIUS as int, None) {
        let found = choose|found: (usize, u32)|
            #[trigger] pause_near(
                level, total, max_samples, pos, WIDE_SEARCH_RADIUS as int, Some(found))
                && end == found.0;
        let v = pause_found_is_the_quietest(
            level, total, max_samples, pos, WIDE_SEARCH_RADIUS as int, found);
        assert(v == end - 800);
    } else {
        let found = choose|found: (usize, u32)|
            #[trigger] pause_near(
                level, total, max_samples, pos, SEARCH_RADIUS as int, Some(found))
                && end == found.0;
        let v = pause_found_is_the_quietest(
            level, total, max_samples, pos, SEARCH_RADIUS as int, found);
        assert(v == end - 800);
    }
}

/// No window within three seconds of the target is quieter, nor as quiet and earlier.
pub open spec fn is_quietest_of(
    level: spec_fn(int) -> u32,
    total: int,
    max_samples: int,
    pos: int,
    v: int,
) -> bool {
    forall|w: int| #[trigger] is_looked_at(total, max_samples, pos, 48_000, w) ==> level(v)
        <= level(w) && (level(v) == level(w) ==> v <= w)
}

/// Law: only where speech pauses nowhere within eight seconds of the target is it cut through, one
/// second after the middle of the quietest window within three seconds of the target, or one second
/// after the target where there is none; and never after the end of the audio.
pub proof fn speech_without_pauses_is_cut_after_the_quietest_window(
    level: spec_fn(int) -> u32,
    total: int,
    max_samples: int,
    pos: int,
    end: int,
)
    requires
        0 <= pos < total,
        0 <= max_samples < total - pos,
        is_cut(level, total, max_samples, pos, end),
        forall|w: int| #[trigger] is_looked_at(total, max_samples, pos, 48_000, w)
            ==> !lies_in_silence(level, total, w),
        forall|w: int| #[trigger] is_looked_at(total, max_samples, pos, 128_000, w)
            ==> !lies_in_silence(level, total, w),
    ensures
        end <= total,
        ({
            ||| exists|v: int| #[trigger] is_looked_at(total, max_samples, pos, 48_000, v)
                && is_quietest_of(level, total, max_samples, pos, v) && end == if v + 16_800
                < total {
                v + 16_800
            } else {
                total
            }
            ||| (forall|v: int| #[trigger] is_looked_at(total, max_samples, pos, 48_000, v)
                ==> level(v) >= 0x7F7F_FFFF) && end == if pos + max_samples + 16_000 < total {
                pos + max_samples + 16_000
            } else {
                total
            }
        }),
{
    let near = search_range(total, max_samples, pos, SEARCH_RADIUS as int);
    if !pause_near(level, total, max_samples, pos, SEARCH_RADIUS as int, None) {
        let found = choose|found: (usize, u32)|
            #[trigger] pause_near(
                level, total, max_samples, pos, SEARCH_RADIUS as int, Some(found))
                && end == found.0;
        let v = pause_found_is_the_quietest(
            level, total, max_samples, pos, SEARCH_RADIUS as int, found);
    } else if !pause_near(level, total, max_samples, pos, WIDE_SEARCH_RADIUS as int, None) {
        let found = choose|found: (usize, u32)|
            #[trigger] pause_near(
                level, total, max_samples, pos, WIDE_SEARCH_RADIUS as int, Some(found))
                && end == found.0;
        let v = pause_found_is_the_quietest(
            level, total, max_samples, pos, WIDE_SEARCH_RADIUS as int, found);
    } else {
        if exists|found: (usize, u32)| #[trigger] pause_near(
            level, total, max_samples, pos, SEARCH_RADIUS as int, Some(found)) && end == found.0 {
            let found = choose|found: (usize, u32)|
                #[trigger] pause_near(
                    level, total, max_samples, pos, SEARCH_RADIUS as int, Some(found))
                    && end == found.0;
            let v = pause_found_is_the_quietest(
                level, total, max_samples, pos, SEARCH_RADIUS as int, found);
        }
        if exists|found: (usize, u32)| #[trigger] pause_near(
            level, total, max_samples, pos, WIDE_SEARCH_RADIUS as int, Some(found))
            && end == found.0 {
            let found = choose|found: (usize, u32)|
                #[trigger] pause_near(
                    level, total, max_samples, pos, WIDE_SEARCH_RADIUS as int, Some(found))
                    && end == found.0;
            let v = pause_found_is_the_quietest(
                level, total, max_samples, pos, WIDE_SEARCH_RADIUS as int, found);
        }
        let split = choose|split: int| #[trigger]
            is_quietest_dip(level, near.0, near.1, pos + max_samples, split) && end == if split
                + FALLBACK_OVERLAP < total {
                split + FALLBACK_OVERLAP
            } else {
                total
            };
        if forall|k: int| !#[trigger] dip_candidate(level, near.0, near.1, k) {
            assert forall|v: int| #[trigger] is_looked_at(total, max_samples, pos, 48_000, v)
                implies level(v) >= 0x7F7F_FFFF by {
                let k = looked_at_windows_are_searched(total, max_samples, pos, 48_000, v);
                assert(!dip_candidate(level, near.0, near.1, k));
            }
        } else {
            let k = choose|k: int|
                #![trigger window_start(near.0, SEARCH_STEP as int, k)]
                dip_candidate(level, near.0, near.1, k) && split == window_start(
                    near.0, SEARCH_STEP as int, k) + ENERGY_WINDOW as int / 2 && forall|j: int|
                    #[trigger] dip_candidate(level, near.0, near.1, j) ==> level(
                        window_start(near.0, SEARCH_STEP as int, k),
                    ) <= level(window_start(near.0, SEARCH_STEP as int, j)) && (j < k ==> level(
                        window_start(near.0, SEARCH_STEP as int, k),
                    ) < level(window_start(near.0, SEARCH_STEP as int, j)));
            let v = window_start(near.0, SEARCH_STEP as int, k);
            searched_windows_are_looked_at(total, max_samples, pos, 48_000, k);
            assert forall|w: int| #[trigger] is_looked_at(total, max_samples, pos, 48_000, w)
                implies level(v) <= level(w) && (level(v) == level(w) ==> v <= w) by {
                let j = looked_at_windows_are_searched(total, max_samples, pos, 48_000, w);
                if level(w) < 0x7F7F_FFFF {
                    assert(dip_candidate(level, near.0, near.1, j));
                }
            }
            assert(is_looked_at(total, max_samples, pos, 48_000, v));
            assert(end == if v + 16_800 < total { v + 16_800 } else { total });
        }
    }
}

/// Law: a part holds the audio it stands for, and before it as much of the lead-in as there is,
/// except for the first part, which has none.
pub proof fn parts_hold_their_audio<T>(
    level: spec_fn(int) -> u32,
    samples: Seq<T>,
    max_samples: int,
    lead_in: int,
    parts: Seq<SegmentPart<T>>,
    i: int,
)
    requires
        lead_in >= 0,
        is_split(level, samples, max_samples, lead_in, parts),
        0 <= i < parts.len(),
    ensures
        ({
            let part = parts[i];
            let lead = part.samples@.len() - (part.end - part.start);
            &&& lead == if i == 0 {
                0
            } else if part.start < lead_in {
                part.start as int
            } else {
                lead_in
            }
            &&& part.samples@ == samples.subrange(part.start - lead, part.end as int)
            &&& i > 0 ==> part.start == parts[i - 1].end
            &&& i == 0 ==> part.start == 0
            &&& i < parts.len() - 1 ==> samples.len() - part.start > max_samples
            &&& samples.len() - part.start <= max_samples ==> i == parts.len() - 1 && part.end
                == samples.len()
        }),
{
    assert(is_part(level, samples, max_samples, lead_in, i, parts[i]));
    if i > 0 {
        assert(parts[i - 1].end == parts[i - 1 + 1].start);
    }
}

/// Law: audio that is not longer than the target is one part.
pub proof fn short_speech_is_not_cut<T>(
    level: spec_fn(int) -> u32,
    samples: Seq<T>,
    max_samples: int,
    lead_in: int,
    parts: Seq<SegmentPart<T>>,
)
    requires
        is_split(level, samples, max_samples, lead_in, parts),
        samples.len() <= max_samples,
    ensures
        parts.len() == 1,
        parts[0].samples@ == samples,
        parts[0].start == 0 && parts[0].end == samples.len(),
{
    assert(is_part(level, samples, max_samples, lead_in, 0, parts[0]));
    assert(samples.subrange(0, samples.len() as int) =~= samples);
}

/// Law: a part lies in time where its samples lie in the segment: as far from its start, in
/// proportion, to less than a nanosecond.
pub proof fn times_are_proportional<T>(
    part: SegmentPart<T>,
    start_ns: int,
    end_ns: int,
    total: int,
)
    requires
        start_ns <= end_ns,
        0 < total,
        part.start <= part.end <= total,
    ensures
        ({
            let times = times_of(part, start_ns, end_ns, total);
            let span = end_ns - start_ns;
            let first = times.0 - start_ns;
            let last = times.1 - start_ns;
            &&& first * total <= part.start * span < (first + 1) * total
            &&& last * total <= part.end * span < (last + 1) * total
        }),
{
    let span = end_ns - start_ns;
    let a = part.start * span;
    let b = part.end * span;
    vstd::arithmetic::div_mod::lemma_fundamental_div_mod(a, total);
    vstd::arithmetic::div_mod::lemma_mod_bound(a, total);
    vstd::arithmetic::div_mod::lemma_fundamental_div_mod(b, total);
    vstd::arithmetic::div_mod::lemma_mod_bound(b, total);
    let x = a / total;
    let y = b / total;
    assert(total * x == x * total && (x + 1) * total == x * total + total) by (nonlinear_arith);
    assert(total * y == y * total && (y + 1) * total == y * total + total) by (nonlinear_arith);
    assert(span * total == total * span && (span + 1) * total == span * total + total)
        by (nonlinear_arith);
    if part.start == 0 {
        assert(part.start * span == 0) by (nonlinear_arith)
            requires
                part.start == 0,
        ;
    }
    assert(part.end == total ==> part.end * span == span * total) by (nonlinear_arith);
}

} // verus!
