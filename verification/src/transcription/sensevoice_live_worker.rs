//! Rows of text that a live SenseVoice session revises while a recording runs.

use std::collections::HashMap;

use vstd::prelude::*;

use crate::outside::{is_clock_text, local_clock_text};
use crate::text;
use crate::transcription::provider::{str_view, stated_language};
use crate::transcription::sensevoice_provider::{sensevoice_accepts, validate_sensevoice_language};
use crate::transcription::worker::{
    TranscriptUpdate, TranscriptionActivity, Update, DEFAULT_CONFIDENCE_BITS,
};

verus! {

/// Nanoseconds that one sample lasts at the rate of the engine.
pub const NANOS_PER_ENGINE_SAMPLE: u64 = 62_500;

/// A source counts as final when it ends at most this much after the final text: 0.1 ms.
pub const FINAL_TOLERANCE_NS: u64 = 100_000;

/// A chunk of audio whose text is not final yet.
#[derive(Debug, Clone, Copy, PartialEq, Eq, Structural)]
pub struct SourceSpan {
    pub id: u64,
    pub start_ns: u64,
    pub end_ns: u64,
}

/// A row as the session gives it, with its terms put right.
#[derive(Debug)]
pub struct TranscriptDraft {
    pub row_id: u64,
    pub text: String,
    pub audio_start_ns: u64,
    pub audio_end_ns: u64,
    pub is_partial: bool,
    pub revision: u64,
}

/// Why a chunk is not taken in.
#[derive(Debug)]
pub enum LiveError {
    UnsupportedLanguage(String),
    InvalidSampleRate,
}

/// The rows and sources of a live session.
pub struct SenseVoiceLiveWorker {
    pub row_ids: HashMap<u64, u64>,
    pub sources: Vec<SourceSpan>,
}

/// The numbers of rows, and the next free one, after drafts came in: a row gets a number when it
/// is first seen.
pub open spec fn numbered(
    row_ids: Map<u64, u64>,
    next: u64,
    drafts: Seq<TranscriptDraft>,
) -> (Map<u64, u64>, u64)
    decreases drafts.len(),
{
    if drafts.len() == 0 {
        (row_ids, next)
    } else {
        let (ids, free) = numbered(row_ids, next, drafts.drop_last());
        if ids.contains_key(drafts.last().row_id) {
            (ids, free)
        } else {
            (ids.insert(drafts.last().row_id, free), free.wrapping_add(1))
        }
    }
}

/// A source has audio in the span of a draft.
pub open spec fn overlaps(source: SourceSpan, start_ns: u64, end_ns: u64) -> bool {
    source.start_ns < end_ns && source.end_ns > start_ns
}

/// The identifiers of the sources of a draft, in order.
pub open spec fn sources_of(sources: Seq<SourceSpan>, start_ns: u64, end_ns: u64) -> Seq<u64>
    decreases sources.len(),
{
    if sources.len() == 0 {
        Seq::empty()
    } else {
        let before = sources_of(sources.drop_last(), start_ns, end_ns);
        if overlaps(sources.last(), start_ns, end_ns) {
            before.push(sources.last().id)
        } else {
            before
        }
    }
}

/// The update for a draft.
pub open spec fn draft_update(
    sources: Seq<SourceSpan>,
    draft: TranscriptDraft,
    timestamp: Seq<char>,
    sequence_id: u64,
) -> Update {
    let ids = sources_of(sources, draft.audio_start_ns, draft.audio_end_ns);
    Update {
        chunk_id: if ids.len() > 0 { ids[0] } else { 0 },
        source_chunk_ids: ids,
        text: draft.text@,
        timestamp,
        source: "Audio"@,
        sequence_id,
        chunk_start_ns: draft.audio_start_ns,
        is_partial: draft.is_partial,
        revision: draft.revision,
        confidence_bits: DEFAULT_CONFIDENCE_BITS,
        audio_start_ns: draft.audio_start_ns,
        audio_end_ns: draft.audio_end_ns,
        duration_ns: draft.audio_end_ns - draft.audio_start_ns,
    }
}

/// Where the final text ends: the latest end of a draft that is final.
pub open spec fn final_end(drafts: Seq<TranscriptDraft>) -> Option<u64>
    decreases drafts.len(),
{
    if drafts.len() == 0 {
        None
    } else if drafts.last().is_partial {
        final_end(drafts.drop_last())
    } else {
        match final_end(drafts.drop_last()) {
            Some(end) if end >= drafts.last().audio_end_ns => Some(end),
            _ => Some(drafts.last().audio_end_ns),
        }
    }
}

/// A source's text is final.
pub open spec fn is_final(source: SourceSpan, end_ns: u64) -> bool {
    source.end_ns <= end_ns + FINAL_TOLERANCE_NS
}

/// The identifiers of the sources whose text is final, in order.
pub open spec fn final_ids(sources: Seq<SourceSpan>, end_ns: u64) -> Seq<u64>
    decreases sources.len(),
{
    if sources.len() == 0 {
        Seq::empty()
    } else if is_final(sources.last(), end_ns) {
        final_ids(sources.drop_last(), end_ns).push(sources.last().id)
    } else {
        final_ids(sources.drop_last(), end_ns)
    }
}

/// The sources whose text is not final.
pub open spec fn unfinished(sources: Seq<SourceSpan>, end_ns: u64) -> Seq<SourceSpan>
    decreases sources.len(),
{
    if sources.len() == 0 {
        Seq::empty()
    } else if is_final(sources.last(), end_ns) {
        unfinished(sources.drop_last(), end_ns)
    } else {
        unfinished(sources.drop_last(), end_ns).push(sources.last())
    }
}

/// The sources without those of a chunk.
pub open spec fn without_chunk(sources: Seq<SourceSpan>, id: u64) -> Seq<SourceSpan>
    decreases sources.len(),
{
    if sources.len() == 0 {
        Seq::empty()
    } else if sources.last().id == id {
        without_chunk(sources.drop_last(), id)
    } else {
        without_chunk(sources.drop_last(), id).push(sources.last())
    }
}

/// The updates for drafts, and where their final text ends.
pub struct PersistPlan {
    pub updates: Vec<TranscriptUpdate>,
    pub finalized_end_ns: Option<u64>,
}

/// `plan` holds the update for each draft, with the timestamp at its position.
pub open spec fn is_plan(
    plan: PersistPlan,
    row_ids: Map<u64, u64>,
    next: u64,
    sources: Seq<SourceSpan>,
    drafts: Seq<TranscriptDraft>,
    timestamps: Seq<String>,
) -> bool {
    &&& plan.updates@.len() == drafts.len()
    &&& forall|i: int| 0 <= i < drafts.len() ==> (#[trigger] plan.updates@[i])@ == draft_update(
        sources,
        drafts[i],
        timestamps[i]@,
        numbered(row_ids, next, drafts.take(i + 1)).0[drafts[i].row_id],
    )
    &&& plan.finalized_end_ns == final_end(drafts)
}

/// Each of the texts is a time of day.
pub open spec fn are_clock_texts(timestamps: Seq<String>) -> bool {
    forall|i: int| 0 <= i < timestamps.len() ==> is_clock_text((#[trigger] timestamps[i])@)
}

impl SenseVoiceLiveWorker {
    pub fn new() -> (r: Self)
        ensures
            r.row_ids@ == Map::<u64, u64>::empty(),
            r.sources@.len() == 0,
    {
        SenseVoiceLiveWorker { row_ids: HashMap::new(), sources: Vec::new() }
    }

    /// Whether any row was seen.
    pub fn has_text(&self) -> (r: bool)
        ensures
            r == (self.row_ids@.dom().len() > 0),
    {
        broadcast use vstd::std_specs::hash::group_hash_axioms;

        self.row_ids.len() > 0
    }

    /// Checks whether a chunk can be taken in.
    pub fn check_chunk(&self, language: Option<&str>, sample_rate: u32) -> (r: Result<
        (),
        LiveError,
    >)
        ensures
            r is Ok == takes_in(str_view(language), sample_rate),
            match r {
                Ok(()) => sensevoice_accepts(str_view(language)) && sample_rate != 0,
                Err(LiveError::UnsupportedLanguage(value)) => !sensevoice_accepts(
                    str_view(language)) && stated_language(str_view(language)) == Some(value@),
                Err(LiveError::InvalidSampleRate) => sensevoice_accepts(str_view(language))
                    && sample_rate == 0,
            },
    {
        match validate_sensevoice_language(language) {
            Ok(()) => if sample_rate == 0 {
                Err(LiveError::InvalidSampleRate)
            } else {
                Ok(())
            },
            Err(crate::transcription::provider::TranscriptionError::UnsupportedLanguage(value)) =>
                Err(LiveError::UnsupportedLanguage(value)),
            Err(_) => Err(LiveError::UnsupportedLanguage(String::new())),
        }
    }

    /// Takes in a chunk with `samples` samples at the rate of the engine.
    pub fn push(&mut self, chunk_id: u64, timestamp_ns: u64, samples: usize)
        requires
            timestamp_ns + samples * NANOS_PER_ENGINE_SAMPLE <= u64::MAX,
        ensures
            final(self).sources@ == old(self).sources@.push(
                span_of(chunk_id, timestamp_ns, samples)),
            final(self).row_ids == old(self).row_ids,
            final(self).sources@ == old(self).sources@.push(
                SourceSpan {
                    id: chunk_id,
                    start_ns: timestamp_ns,
                    end_ns: (timestamp_ns + samples * NANOS_PER_ENGINE_SAMPLE) as u64,
                },
            ),
    {
        let end_ns: u64 = (timestamp_ns as u128 + samples as u128 * NANOS_PER_ENGINE_SAMPLE as u128)
            as u64;
        self.sources.push(SourceSpan { id: chunk_id, start_ns: timestamp_ns, end_ns });
    }

    /// The session made no row of a chunk: nothing more is expected of it.
    pub fn forget_chunk(&mut self, chunk_id: u64)
        ensures
            final(self).row_ids == old(self).row_ids,
            final(self).sources@ == without_chunk(old(self).sources@, chunk_id),
    {
        let mut kept: Vec<SourceSpan> = Vec::new();
        let mut i: usize = 0;
        while i < self.sources.len()
            invariant
                i <= self.sources@.len(),
                *self == *old(self),
                kept@ == without_chunk(self.sources@.take(i as int), chunk_id),
            decreases self.sources@.len() - i,
        {
            assert(self.sources@.take(i + 1).drop_last() =~= self.sources@.take(i as int));
            if self.sources[i].id != chunk_id {
                kept.push(self.sources[i]);
            }
            i = i + 1;
        }
        assert(self.sources@.take(i as int) =~= self.sources@);
        self.sources = kept;
    }

    fn source_ids(&self, start_ns: u64, end_ns: u64) -> (ids: Vec<u64>)
        ensures
            ids@ == sources_of(self.sources@, start_ns, end_ns),
    {
        let mut ids: Vec<u64> = Vec::new();
        let mut i: usize = 0;
        while i < self.sources.len()
            invariant
                i <= self.sources@.len(),
                ids@ == sources_of(self.sources@.take(i as int), start_ns, end_ns),
            decreases self.sources@.len() - i,
        {
            assert(self.sources@.take(i + 1).drop_last() =~= self.sources@.take(i as int));
            let source = self.sources[i];
            if source.start_ns < end_ns && source.end_ns > start_ns {
                ids.push(source.id);
            }
            i = i + 1;
        }
        assert(self.sources@.take(i as int) =~= self.sources@);
        ids
    }

    fn number_row(&mut self, row_id: u64, activity: &mut TranscriptionActivity) -> (number: u64)
        ensures
            final(self).sources == old(self).sources,
            final(self).row_ids@.contains_key(row_id),
            final(self).row_ids@[row_id] == number,
            if old(self).row_ids@.contains_key(row_id) {
                final(self).row_ids@ == old(self).row_ids@ && *final(activity) == *old(activity)
            } else {
                &&& final(self).row_ids@ == old(self).row_ids@.insert(
                    row_id, old(activity).next_sequence)
                &&& *final(activity) == (TranscriptionActivity {
                    next_sequence: old(activity).next_sequence.wrapping_add(1),
                    ..*old(activity)
                })
            },
    {
        broadcast use vstd::std_specs::hash::group_hash_axioms;

        if let Some(number) = self.row_ids.get(&row_id) {
            return *number;
        }
        let number: u64 = activity.next_sequence_id();
        self.row_ids.insert(row_id, number);
        number
    }

    /// Makes the updates for drafts, each with its timestamp. A row that was not seen before gets
    /// a number.
    pub fn plan_updates(
        &mut self,
        drafts: &Vec<TranscriptDraft>,
        timestamps: &Vec<String>,
        activity: &mut TranscriptionActivity,
    ) -> (plan: PersistPlan)
        requires
            timestamps@.len() == drafts@.len(),
        ensures
            is_plan(
                plan,
                old(self).row_ids@,
                old(activity).next_sequence,
                old(self).sources@,
                drafts@,
                timestamps@,
            ),
            final(self).sources == old(self).sources,
            (final(self).row_ids@, final(activity).next_sequence) == numbered(
                old(self).row_ids@, old(activity).next_sequence, drafts@),
            final(activity).active == old(activity).active,
            final(activity).speech_detected == old(activity).speech_detected,
    {
        let ghost ids0 = self.row_ids@;
        let ghost next0 = activity.next_sequence;
        let mut updates: Vec<TranscriptUpdate> = Vec::new();
        let mut finalized_end_ns: Option<u64> = None;
        let mut i: usize = 0;
        assert(drafts@.take(0) =~= Seq::empty());
        while i < drafts.len()
            invariant
                i <= drafts@.len(),
                timestamps@.len() == drafts@.len(),
                ids0 == old(self).row_ids@,
                next0 == old(activity).next_sequence,
                self.sources == old(self).sources,
                (self.row_ids@, activity.next_sequence) == numbered(
                    ids0, next0, drafts@.take(i as int)),
                activity.active == old(activity).active,
                activity.speech_detected == old(activity).speech_detected,
                updates@.len() == i,
                forall|j: int| 0 <= j < i ==> (#[trigger] updates@[j])@ == draft_update(
                    self.sources@,
                    drafts@[j],
                    timestamps@[j]@,
                    numbered(ids0, next0, drafts@.take(j + 1)).0[drafts@[j].row_id],
                ),
                finalized_end_ns == final_end(drafts@.take(i as int)),
            decreases drafts@.len() - i,
        {
            proof {
                assert(drafts@.take(i + 1).drop_last() =~= drafts@.take(i as int));
            }
            let draft = &drafts[i];
            let sequence_id: u64 = self.number_row(draft.row_id, activity);
            assert((self.row_ids@, activity.next_sequence) == numbered(
                ids0, next0, drafts@.take(i + 1)));
            let source_chunk_ids = self.source_ids(draft.audio_start_ns, draft.audio_end_ns);
            let chunk_id: u64 = if source_chunk_ids.len() > 0 { source_chunk_ids[0] } else { 0 };
            if !draft.is_partial {
                finalized_end_ns =
                match finalized_end_ns {
                    Some(end) => if end >= draft.audio_end_ns {
                        Some(end)
                    } else {
                        Some(draft.audio_end_ns)
                    },
                    None => Some(draft.audio_end_ns),
                };
            }
            let update = TranscriptUpdate {
                chunk_id,
                source_chunk_ids,
                text: draft.text.clone(),
                timestamp: timestamps[i].clone(),
                source: "Audio".to_owned(),
                sequence_id,
                chunk_start_ns: draft.audio_start_ns,
                is_partial: draft.is_partial,
                revision: draft.revision,
                confidence_bits: DEFAULT_CONFIDENCE_BITS,
                audio_start_ns: draft.audio_start_ns,
                audio_end_ns: draft.audio_end_ns,
                duration_ns: draft.audio_end_ns as i128 - draft.audio_start_ns as i128,
            };
            updates.push(update);
            i = i + 1;
        }
        assert(drafts@.take(i as int) =~= drafts@);
        PersistPlan { updates, finalized_end_ns }
    }

    /// Makes the updates for drafts, each stamped with the present time of day.
    pub fn persist(
        &mut self,
        drafts: &Vec<TranscriptDraft>,
        activity: &mut TranscriptionActivity,
    ) -> (plan: PersistPlan)
        ensures
            exists|timestamps: Seq<String>|
                #[trigger] timestamps.len() == drafts@.len() && are_clock_texts(timestamps)
                    && is_plan(
                    plan,
                    old(self).row_ids@,
                    old(activity).next_sequence,
                    old(self).sources@,
                    drafts@,
                    timestamps,
                ),
            final(self).sources == old(self).sources,
            (final(self).row_ids@, final(activity).next_sequence) == numbered(
                old(self).row_ids@, old(activity).next_sequence, drafts@),
            final(activity).active == old(activity).active,
            final(activity).speech_detected == old(activity).speech_detected,
    {
        let mut timestamps: Vec<String> = Vec::new();
        let mut i: usize = 0;
        while i < drafts.len()
            invariant
                i <= drafts@.len(),
                timestamps@.len() == i,
                are_clock_texts(timestamps@),
            decreases drafts@.len() - i,
        {
            timestamps.push(local_clock_text());
            i = i + 1;
        }
        let plan = self.plan_updates(drafts, &timestamps, activity);
        assert(timestamps@.len() == drafts@.len());
        plan
    }

    /// Takes in whether the updates of a plan were written. Returns the chunks whose text is
    /// final; they are forgotten only once it is written.
    pub fn settle(&mut self, finalized_end_ns: Option<u64>, written: bool) -> (ids: Vec<u64>)
        ensures
            final(self).sources@ == sources_left(old(self).sources@, finalized_end_ns, written),
            final(self).row_ids == old(self).row_ids,
            match finalized_end_ns {
                Some(end) => {
                    &&& ids@ == final_ids(old(self).sources@, end)
                    &&& final(self).sources@ == if written {
                        unfinished(old(self).sources@, end)
                    } else {
                        old(self).sources@
                    }
                },
                None => ids@.len() == 0 && final(self).sources@ == old(self).sources@,
            },
    {
        let mut ids: Vec<u64> = Vec::new();
        let end: u64 = match finalized_end_ns {
            Some(end) => end,
            None => {
                return ids;
            },
        };
        let mut kept: Vec<SourceSpan> = Vec::new();
        let mut i: usize = 0;
        while i < self.sources.len()
            invariant
                i <= self.sources@.len(),
                *self == *old(self),
                ids@ == final_ids(self.sources@.take(i as int), end),
                kept@ == unfinished(self.sources@.take(i as int), end),
            decreases self.sources@.len() - i,
        {
            assert(self.sources@.take(i + 1).drop_last() =~= self.sources@.take(i as int));
            let source = self.sources[i];
            if source.end_ns as u128 <= end as u128 + FINAL_TOLERANCE_NS as u128 {
                ids.push(source.id);
            } else {
                kept.push(source);
            }
            i = i + 1;
        }
        assert(self.sources@.take(i as int) =~= self.sources@);
        if written {
            self.sources = kept;
        }
        ids
    }
}

/// Law: a row keeps its number through all its revisions.
pub proof fn rows_keep_their_number(
    row_ids: Map<u64, u64>,
    next: u64,
    drafts: Seq<TranscriptDraft>,
    row_id: u64,
)
    requires
        row_ids.contains_key(row_id),
    ensures
        numbered(row_ids, next, drafts).0.contains_key(row_id),
        numbered(row_ids, next, drafts).0[row_id] == row_ids[row_id],
    decreases drafts.len(),
{
    if drafts.len() > 0 {
        rows_keep_their_number(row_ids, next, drafts.drop_last(), row_id);
    }
}

/// Law: two rows never share a number, as long as the numbers do not run out.
pub proof fn rows_have_their_own_number(
    row_ids: Map<u64, u64>,
    next: u64,
    drafts: Seq<TranscriptDraft>,
    a: u64,
    b: u64,
)
    requires
        next + drafts.len() <= u64::MAX,
        forall|r: u64| row_ids.contains_key(r) ==> #[trigger] row_ids[r] < next,
        forall|r: u64, s: u64|
            row_ids.contains_key(r) && row_ids.contains_key(s) && r != s ==> #[trigger] row_ids[r]
                != #[trigger] row_ids[s],
        a != b,
        numbered(row_ids, next, drafts).0.contains_key(a),
        numbered(row_ids, next, drafts).0.contains_key(b),
    ensures
        numbered(row_ids, next, drafts).0[a] != numbered(row_ids, next, drafts).0[b],
        numbered(row_ids, next, drafts).0[a] < numbered(row_ids, next, drafts).1,
        numbered(row_ids, next, drafts).0[b] < numbered(row_ids, next, drafts).1,
    decreases drafts.len(),
{
    numbers_grow(row_ids, next, drafts);
    if drafts.len() > 0 {
        let shorter = drafts.drop_last();
        numbers_grow(row_ids, next, shorter);
        if numbered(row_ids, next, shorter).0.contains_key(a) && numbered(
            row_ids, next, shorter).0.contains_key(b) {
            rows_have_their_own_number(row_ids, next, shorter, a, b);
        }
    }
}

proof fn numbers_grow(row_ids: Map<u64, u64>, next: u64, drafts: Seq<TranscriptDraft>)
    requires
        next + drafts.len() <= u64::MAX,
        forall|r: u64| row_ids.contains_key(r) ==> #[trigger] row_ids[r] < next,
    ensures
        next <= numbered(row_ids, next, drafts).1 <= next + drafts.len(),
        forall|r: u64|
            numbered(row_ids, next, drafts).0.contains_key(r) ==> #[trigger] numbered(
                row_ids, next, drafts).0[r] < numbered(row_ids, next, drafts).1,
    decreases drafts.len(),
{
    if drafts.len() > 0 {
        numbers_grow(row_ids, next, drafts.drop_last());
    }
}

/// Law: a source is either final or kept, never both and never neither.
pub proof fn sources_are_final_or_kept(sources: Seq<SourceSpan>, end_ns: u64)
    ensures
        final_ids(sources, end_ns).len() + unfinished(sources, end_ns).len() == sources.len(),
        forall|i: int|
            0 <= i < unfinished(sources, end_ns).len() ==> !is_final(
                #[trigger] unfinished(sources, end_ns)[i], end_ns),
    decreases sources.len(),
{
    if sources.len() > 0 {
        sources_are_final_or_kept(sources.drop_last(), end_ns);
    }
}

/// Law: a row is shown and saved as final exactly when its draft is, with the text, revision and
/// times of the draft.
pub proof fn updates_are_as_final_as_their_drafts(
    plan: PersistPlan,
    row_ids: Map<u64, u64>,
    next: u64,
    sources: Seq<SourceSpan>,
    drafts: Seq<TranscriptDraft>,
    timestamps: Seq<String>,
)
    requires
        is_plan(plan, row_ids, next, sources, drafts, timestamps),
    ensures
        plan.updates@.len() == drafts.len(),
        forall|i: int|
            0 <= i < drafts.len() ==> {
                let update = (#[trigger] plan.updates@[i])@;
                &&& update.is_partial == drafts[i].is_partial
                &&& update.row().is_partial == drafts[i].is_partial
                &&& update.revision == drafts[i].revision
                &&& update.row().revision == drafts[i].revision
                &&& update.text == drafts[i].text@
                &&& update.row().text == drafts[i].text@
                &&& update.timestamp == timestamps[i]@
                &&& update.audio_start_ns == drafts[i].audio_start_ns
                &&& update.chunk_start_ns == drafts[i].audio_start_ns
                &&& update.audio_end_ns == drafts[i].audio_end_ns
                &&& update.audio_start_ns + update.duration_ns == update.audio_end_ns
                &&& update.row().audio_start_ns == drafts[i].audio_start_ns
                &&& update.row().audio_end_ns == drafts[i].audio_end_ns
            },
        (forall|i: int| 0 <= i < drafts.len() ==> !(#[trigger] drafts[i]).is_partial) ==> forall|
            i: int,
        |
            0 <= i < plan.updates@.len() ==> !(#[trigger] plan.updates@[i])@.row().is_partial,
{
}

/// Law: text is final up to the latest end of a final draft, and where no draft is final none is.
pub proof fn final_text_ends_with_a_final_draft(drafts: Seq<TranscriptDraft>)
    ensures
        match final_end(drafts) {
            None => forall|i: int| 0 <= i < drafts.len() ==> (#[trigger] drafts[i]).is_partial,
            Some(end) => {
                &&& exists|i: int|
                    0 <= i < drafts.len() && !(#[trigger] drafts[i]).is_partial
                        && drafts[i].audio_end_ns == end
                &&& forall|i: int|
                    0 <= i < drafts.len() && !(#[trigger] drafts[i]).is_partial
                        ==> drafts[i].audio_end_ns <= end
            },
        },
    decreases drafts.len(),
{
    if drafts.len() > 0 {
        let fewer = drafts.drop_last();
        let n = drafts.len() - 1;
        final_text_ends_with_a_final_draft(fewer);
        assert(drafts[n] == drafts.last());
        assert forall|i: int| 0 <= i < n implies #[trigger] drafts[i] == fewer[i] by {}
        if let Some(end) = final_end(fewer) {
            let i = choose|i: int|
                0 <= i < fewer.len() && !(#[trigger] fewer[i]).is_partial && fewer[i].audio_end_ns
                    == end;
            assert(drafts[i] == fewer[i]);
        }
    }
}

/// Law: the chunks of a row are those with audio in its span, in the order they came in, and each
/// as often as it did.
pub proof fn rows_name_the_chunks_they_come_from(
    sources: Seq<SourceSpan>,
    start_ns: u64,
    end_ns: u64,
)
    ensures
        sources_of(sources, start_ns, end_ns) == sources.filter(
            |source: SourceSpan| source.start_ns < end_ns && start_ns < source.end_ns,
        ).map_values(|source: SourceSpan| source.id),
    decreases sources.len(),
{
    reveal(Seq::filter);
    let meets = |source: SourceSpan| source.start_ns < end_ns && start_ns < source.end_ns;
    let id = |source: SourceSpan| source.id;
    if sources.len() > 0 {
        rows_name_the_chunks_they_come_from(sources.drop_last(), start_ns, end_ns);
    }
    assert(sources_of(sources, start_ns, end_ns) =~= sources.filter(meets).map_values(id));
}

/// Law: once text is written up to a time, exactly the chunks that end by then, or at most a tenth
/// of a millisecond after it, are done with; the others are kept, in order.
pub proof fn chunks_are_done_with_when_their_text_is_final(sources: Seq<SourceSpan>, end_ns: u64)
    ensures
        final_ids(sources, end_ns) == sources.filter(
            |source: SourceSpan| source.end_ns <= end_ns + 100_000,
        ).map_values(|source: SourceSpan| source.id),
        unfinished(sources, end_ns) == sources.filter(
            |source: SourceSpan| source.end_ns > end_ns + 100_000,
        ),
    decreases sources.len(),
{
    reveal(Seq::filter);
    let done = |source: SourceSpan| source.end_ns <= end_ns + 100_000;
    let open = |source: SourceSpan| source.end_ns > end_ns + 100_000;
    let id = |source: SourceSpan| source.id;
    if sources.len() > 0 {
        chunks_are_done_with_when_their_text_is_final(sources.drop_last(), end_ns);
    }
    assert(final_ids(sources, end_ns) =~= sources.filter(done).map_values(id));
    assert(unfinished(sources, end_ns) =~= sources.filter(open));
}

/// Law: a chunk of which nothing more is expected is forgotten, and no other.
pub proof fn only_the_chunk_is_forgotten(sources: Seq<SourceSpan>, id: u64)
    ensures
        without_chunk(sources, id) == sources.filter(|source: SourceSpan| source.id != id),
    decreases sources.len(),
{
    reveal(Seq::filter);
    let other = |source: SourceSpan| source.id != id;
    if sources.len() > 0 {
        only_the_chunk_is_forgotten(sources.drop_last(), id);
    }
    assert(without_chunk(sources, id) =~= sources.filter(other));
}

/// Law: a row that was not seen before gets the next free number, and takes up one; a row that was
/// seen takes up none.
pub proof fn new_rows_get_the_next_number(
    row_ids: Map<u64, u64>,
    next: u64,
    draft: TranscriptDraft,
)
    requires
        next < u64::MAX,
    ensures
        ({
            let after = numbered(row_ids, next, seq![draft]);
            if row_ids.contains_key(draft.row_id) {
                after == (row_ids, next)
            } else {
                &&& after.0.contains_key(draft.row_id) && after.0[draft.row_id] == next
                &&& after.0.remove(draft.row_id) == row_ids.remove(draft.row_id)
                &&& after.1 == next + 1
            }
        }),
{
    let drafts = seq![draft];
    assert(drafts.drop_last() =~= Seq::empty());
    assert(numbered(row_ids, next, drafts.drop_last()) == (row_ids, next));
    let after = numbered(row_ids, next, drafts);
    assert(after.0.remove(draft.row_id) =~= row_ids.remove(draft.row_id));
}

/// The sources that are left once text was written up to a time, or could not be.
pub open spec fn sources_left(
    sources: Seq<SourceSpan>,
    finalized_end_ns: Option<u64>,
    written: bool,
) -> Seq<SourceSpan> {
    match finalized_end_ns {
        Some(end) if written => unfinished(sources, end),
        _ => sources,
    }
}

/// Law: as long as text is not written, or none is final, no source of it is forgotten; a source
/// whose audio goes on past the final text never is.
pub proof fn sources_wait_for_their_text(
    sources: Seq<SourceSpan>,
    end_ns: u64,
    finalized_end_ns: Option<u64>,
    i: int,
)
    requires
        0 <= i < sources.len(),
    ensures
        sources_left(sources, finalized_end_ns, false) == sources,
        sources_left(sources, None, true) == sources,
        sources[i].end_ns > end_ns + 100_000 ==> sources_left(
            sources, Some(end_ns), true).contains(sources[i]),
        sources[i].end_ns <= end_ns + 100_000 ==> !sources_left(
            sources, Some(end_ns), true).contains(sources[i]),
    decreases sources.len(),
{
    sources_are_final_or_kept(sources, end_ns);
    let left = unfinished(sources, end_ns);
    if sources[i].end_ns > end_ns + 100_000 {
        let fewer = sources.drop_last();
        if i < fewer.len() {
            sources_wait_for_their_text(fewer, end_ns, finalized_end_ns, i);
            let k = unfinished(fewer, end_ns).index_of(sources[i]);
            assert(unfinished(fewer, end_ns).contains(fewer[i]));
            assert(left[k] == sources[i]);
        } else {
            assert(left[left.len() - 1] == sources[i]);
        }
    } else if left.contains(sources[i]) {
        let k = choose|k: int| 0 <= k < left.len() && left[k] == sources[i];
        assert(!is_final(left[k], end_ns));
    }
}

proof fn numbers_stay_through_later_drafts(
    row_ids: Map<u64, u64>,
    next: u64,
    drafts: Seq<TranscriptDraft>,
    n: int,
    row_id: u64,
)
    requires
        0 <= n <= drafts.len(),
        numbered(row_ids, next, drafts.take(n)).0.contains_key(row_id),
    ensures
        numbered(row_ids, next, drafts).0.contains_key(row_id),
        numbered(row_ids, next, drafts).0[row_id] == numbered(
            row_ids, next, drafts.take(n)).0[row_id],
    decreases drafts.len() - n,
{
    if n < drafts.len() {
        assert(drafts.take(n + 1).drop_last() =~= drafts.take(n));
        numbers_stay_through_later_drafts(row_ids, next, drafts, n + 1, row_id);
    } else {
        assert(drafts.take(n) =~= drafts);
    }
}

/// Law: every update carries the number of its row, so two updates have the same number where they
/// revise the same row; and a row that was shown before keeps the number it had.
pub proof fn updates_carry_the_number_of_their_row(
    plan: PersistPlan,
    row_ids: Map<u64, u64>,
    next: u64,
    sources: Seq<SourceSpan>,
    drafts: Seq<TranscriptDraft>,
    timestamps: Seq<String>,
    i: int,
)
    requires
        is_plan(plan, row_ids, next, sources, drafts, timestamps),
        0 <= i < drafts.len(),
    ensures
        plan.updates@[i]@.sequence_id == numbered(row_ids, next, drafts).0[drafts[i].row_id],
        plan.updates@[i]@.row().sequence_id == plan.updates@[i]@.sequence_id,
        row_ids.contains_key(drafts[i].row_id) ==> plan.updates@[i]@.sequence_id
            == row_ids[drafts[i].row_id],
        plan.updates@[i]@.source_chunk_ids == sources_of(
            sources, drafts[i].audio_start_ns, drafts[i].audio_end_ns),
        plan.updates@[i]@.source_chunk_ids.len() > 0 ==> plan.updates@[i]@.chunk_id
            == plan.updates@[i]@.source_chunk_ids.first(),
        plan.updates@[i]@.confidence_bits == 0x3F59_999A,
        plan.updates@[i]@.source == "Audio"@,
        plan.finalized_end_ns == final_end(drafts),
{
    let prefix = drafts.take(i + 1);
    assert(prefix.drop_last() =~= drafts.take(i));
    assert(prefix.last() == drafts[i]);
    assert(numbered(row_ids, next, prefix).0.contains_key(drafts[i].row_id));
    numbers_stay_through_later_drafts(row_ids, next, drafts, i + 1, drafts[i].row_id);
    assert(plan.updates@[i]@ == draft_update(
        sources,
        drafts[i],
        timestamps[i]@,
        numbered(row_ids, next, prefix).0[drafts[i].row_id],
    ));
    if row_ids.contains_key(drafts[i].row_id) {
        rows_keep_their_number(row_ids, next, drafts, drafts[i].row_id);
    }
}

/// Where a chunk lies in the recording.
pub open spec fn span_of(chunk_id: u64, timestamp_ns: u64, samples: usize) -> SourceSpan {
    SourceSpan {
        id: chunk_id,
        start_ns: timestamp_ns,
        end_ns: (timestamp_ns + samples * NANOS_PER_ENGINE_SAMPLE) as u64,
    }
}

/// Law: a chunk lies where it was recorded and lasts as long as its samples do at sixteen thousand
/// a second.
pub proof fn chunks_last_as_long_as_their_samples(
    chunk_id: u64,
    timestamp_ns: u64,
    samples: usize,
)
    requires
        timestamp_ns + samples * 62_500 <= u64::MAX,
    ensures
        ({
            let span = span_of(chunk_id, timestamp_ns, samples);
            &&& span.id == chunk_id && span.start_ns == timestamp_ns
            &&& (span.end_ns - span.start_ns) * 16_000 == samples * 1_000_000_000
        }),
{
}

/// A chunk can be taken in: its language is one that the engine takes, and its rate is one.
pub open spec fn takes_in(language: Option<Seq<char>>, sample_rate: u32) -> bool {
    sensevoice_accepts(language) && sample_rate != 0
}

/// Law: a live session takes in audio of every rate but zero, in a language that SenseVoice knows
/// or detects.
pub proof fn sessions_take_known_languages_in(language: Seq<char>, sample_rate: u32)
    ensures
        takes_in(None, sample_rate) <==> sample_rate > 0,
        !takes_in(Some(language), 0),
        sample_rate > 0 ==> (takes_in(Some(language), sample_rate) <==> text::blank(language) || {
            let known = text::lowered(text::trimmed(language));
            known == seq!['a', 'u', 't', 'o'] || known == seq!['z', 'h'] || known == seq!['e', 'n']
                || known == seq!['y', 'u', 'e'] || known == seq!['j', 'a'] || known == seq!['k', 'o']
        }),
{
    crate::transcription::sensevoice_provider::engines_take_the_languages_they_know(language);
    if text::blank(language) {
        text::blank_is_trimmed_to_nothing(language);
    }
}

} // verus!
