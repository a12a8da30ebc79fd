//! What the summary of a measurement says of all that was put on record.

use vstd::prelude::*;

use crate::measurement::input::{le_bytes, pcm_bytes};
use crate::measurement::recorder::{
    sums_up, traced, Measurement, RealtimeMeasurementSummary, Record,
};
use crate::measurement::trace::{Event, Trace};

verus! {

/// The chunks that a call is about.
pub open spec fn chunks_of(call: Record) -> Seq<u64> {
    match call {
        Record::OnChunks { chunk_ids, .. } => chunk_ids,
        Record::Overlap { base_chunk_id, next_chunk_id, .. } => seq![base_chunk_id, next_chunk_id],
        Record::InferenceStarted { chunk_ids, .. } => chunk_ids,
        Record::WrittenBack { chunk_ids, .. } => chunk_ids,
        _ => Seq::empty(),
    }
}

/// The different chunks that calls are about.
pub open spec fn all_chunks(calls: Seq<Record>) -> Set<u64>
    decreases calls.len(),
{
    if calls.len() == 0 {
        Set::empty()
    } else {
        all_chunks(calls.drop_last()).union(chunks_of(calls.last()).to_set())
    }
}

/// The samples that an engine was given.
pub open spec fn samples_of(call: Record) -> Seq<u32> {
    match call {
        Record::InferenceStarted { samples, .. } => samples,
        _ => Seq::empty(),
    }
}

/// All samples that engines were given, one after the other.
pub open spec fn all_samples(calls: Seq<Record>) -> Seq<u32>
    decreases calls.len(),
{
    if calls.len() == 0 {
        Seq::empty()
    } else {
        all_samples(calls.drop_last()) + samples_of(calls.last())
    }
}

proof fn pcm_has_four_bytes_a_sample(samples: Seq<u32>)
    ensures
        pcm_bytes(samples).len() == 4 * samples.len(),
    decreases samples.len(),
{
    if samples.len() > 0 {
        pcm_has_four_bytes_a_sample(samples.drop_last());
        assert(le_bytes(samples.last()).len() == 4);
    }
}

proof fn pcm_of_both(a: Seq<u32>, b: Seq<u32>)
    ensures
        pcm_bytes(a + b) == pcm_bytes(a) + pcm_bytes(b),
    decreases b.len(),
{
    if b.len() == 0 {
        assert(a + b =~= a);
        assert(pcm_bytes(a) + pcm_bytes(b) =~= pcm_bytes(a));
    } else {
        pcm_of_both(a, b.drop_last());
        assert((a + b).drop_last() =~= a + b.drop_last());
        assert((a + b).last() == b.last());
        assert(pcm_bytes(a) + (pcm_bytes(b.drop_last()) + le_bytes(b.last())) =~= (pcm_bytes(a)
            + pcm_bytes(b.drop_last())) + le_bytes(b.last()));
    }
}

proof fn events_trace_their_chunks(chunks: Map<u64, Trace>, chunk_ids: Seq<u64>, event: Event)
    ensures
        traced(chunks, chunk_ids, event).dom() == chunks.dom().union(chunk_ids.to_set()),
    decreases chunk_ids.len(),
{
    if chunk_ids.len() == 0 {
        assert(chunks.dom().union(chunk_ids.to_set()) =~= chunks.dom());
    } else {
        let shorter = chunk_ids.drop_last();
        events_trace_their_chunks(chunks, shorter, event);
        assert forall|id: u64| chunk_ids.to_set().contains(id) == (shorter.to_set().contains(id)
            || id == chunk_ids.last()) by {
            if chunk_ids.contains(id) && id != chunk_ids.last() {
                let i = choose|i: int| 0 <= i < chunk_ids.len() && chunk_ids[i] == id;
                assert(shorter[i] == id);
            }
            if shorter.contains(id) {
                let i = choose|i: int| 0 <= i < shorter.len() && shorter[i] == id;
                assert(chunk_ids[i] == id);
            }
            assert(chunk_ids[chunk_ids.len() - 1] == chunk_ids.last());
        }
        assert(traced(chunks, chunk_ids, event).dom() =~= chunks.dom().union(
            chunk_ids.to_set()));
    }
}

proof fn a_call_traces_its_chunks(measurement: Measurement, call: Record)
    ensures
        measurement.recorded(call).chunks.dom() == measurement.chunks.dom().union(
            chunks_of(call).to_set()),
{
    match call {
        Record::OnChunks { chunk_ids, event } => {
            events_trace_their_chunks(measurement.chunks, chunk_ids, event);
        },
        Record::Overlap { base_chunk_id, next_chunk_id, overlap_samples } => {
            let first = Event::Absorbed { chunk_id: next_chunk_id, overlap_samples };
            let second = Event::JoinedTo { chunk_id: base_chunk_id, overlap_samples };
            events_trace_their_chunks(measurement.chunks, seq![base_chunk_id], first);
            let between = measurement.with_event(seq![base_chunk_id], first);
            events_trace_their_chunks(between.chunks, seq![next_chunk_id], second);
            let both = seq![base_chunk_id, next_chunk_id];
            assert(seq![base_chunk_id][0] == base_chunk_id);
            assert(seq![next_chunk_id][0] == next_chunk_id);
            assert(both[0] == base_chunk_id && both[1] == next_chunk_id);
            assert(both.to_set() =~= seq![base_chunk_id].to_set().union(
                seq![next_chunk_id].to_set()));
            assert(measurement.recorded(call).chunks.dom() =~= measurement.chunks.dom().union(
                both.to_set()));
        },
        Record::InferenceStarted {
            chunk_ids,
            samples,
            sample_rate_hz,
            language,
            language_applied,
            context_version_id,
            context_sha256,
            provider,
            model,
            at_ns,
        } => {
            events_trace_their_chunks(
                measurement.chunks,
                chunk_ids,
                Event::InferenceStarted(
                    measurement.inference(
                        chunk_ids,
                        samples,
                        language,
                        language_applied,
                        context_version_id,
                        context_sha256,
                        provider,
                        model,
                        at_ns,
                    ),
                ),
            );
        },
        Record::WrittenBack { chunk_ids, result, at_ns } => {
            events_trace_their_chunks(
                measurement.chunks, chunk_ids, Event::WrittenBack { at_ns, result });
        },
        _ => {
            assert(measurement.chunks.dom().union(chunks_of(call).to_set())
                =~= measurement.chunks.dom());
        },
    }
}

/// Law: whatever calls put on record, in any number and order, what is kept are the bytes of all
/// samples that engines were given, and a trace of each chunk that a call was about.
pub proof fn everything_recorded_is_kept(new: Measurement, calls: Seq<Record>)
    requires
        new.is_new(),
    ensures
        new.recorded_all(calls).captured == pcm_bytes(all_samples(calls)),
        new.recorded_all(calls).chunks.dom() == all_chunks(calls),
        all_samples(calls).len() <= u64::MAX ==> new.recorded_all(calls).capture_sample_count
            == all_samples(calls).len(),
        !new.recorded_all(calls).finalized,
    decreases calls.len(),
{
    if calls.len() == 0 {
        assert(new.captured =~= Seq::empty());
        assert(new.chunks.dom() =~= Set::empty());
    } else {
        let earlier = calls.drop_last();
        everything_recorded_is_kept(new, earlier);
        a_call_traces_its_chunks(new.recorded_all(earlier), calls.last());
        pcm_of_both(all_samples(earlier), samples_of(calls.last()));
        assert(pcm_bytes(all_samples(earlier)) + Seq::<u8>::empty() =~= pcm_bytes(
            all_samples(earlier)));
    }
}

/// Law: the summary of a measurement counts what was put on record, in any number of calls and in
/// any order: every sample that an engine was given, with four bytes each, and every chunk once
/// that a call was about, whatever the calls on windows say of it.
pub proof fn summaries_count_what_was_recorded(
    new: Measurement,
    calls: Seq<Record>,
    summary: RealtimeMeasurementSummary,
    trace_bytes: Seq<u8>,
    load_bytes: Seq<u8>,
    stop_bytes: Seq<u8>,
    finalized_at_ns: u64,
)
    requires
        new.is_new(),
        sums_up(
            summary,
            new.recorded_all(calls),
            trace_bytes,
            load_bytes,
            stop_bytes,
            finalized_at_ns,
        ),
    ensures
        summary.capture_pcm.sha256@ == summary.capture_pcm_sha256@,
        summary.capture_pcm_sample_count == all_samples(calls).len(),
        summary.capture_pcm.bytes == 4 * all_samples(calls).len(),
        summary.chunk_count == all_chunks(calls).len(),
{
    everything_recorded_is_kept(new, calls);
    pcm_has_four_bytes_a_sample(all_samples(calls));
}

} // verus!
