//! Rows of text for the database, made of what a batch transcription said.

use vstd::prelude::*;

use crate::outside::{is_rfc3339, is_uuid, random_uuid, utc_now_rfc3339};
use crate::retranscription::flow::TimedText;
use crate::text;

verus! {

/// A row of text for the database. Times count nanoseconds.
#[derive(Debug)]
pub struct StoredTranscriptSegment {
    pub id: String,
    pub text: String,
    pub timestamp: String,
    pub audio_start_ns: u64,
    pub audio_end_ns: u64,
    pub duration_ns: i128,
}

/// `row` is what a text becomes under an identifier.
pub open spec fn is_row(row: StoredTranscriptSegment, said: TimedText, uuid: Seq<char>) -> bool {
    &&& row.id@ == "transcript-"@ + uuid
    &&& row.text@ == text::trimmed(said.text@)
    &&& row.audio_start_ns == said.start_ns
    &&& row.audio_end_ns == said.end_ns
    &&& row.duration_ns == said.end_ns - said.start_ns
}

/// `row` is what a text becomes under some identifier and as of some time.
pub open spec fn is_row_of(row: StoredTranscriptSegment, said: TimedText) -> bool {
    &&& is_rfc3339(row.timestamp@)
    &&& exists|uuid: Seq<char>| is_uuid(uuid) && #[trigger] is_row(row, said, uuid)
}

/// The row for a text, under a given identifier and as of a given time.
pub fn transcript_segment(said: &TimedText, uuid: &str, timestamp: String) -> (r:
    StoredTranscriptSegment)
    ensures
        is_row(r, *said, uuid@),
        r.timestamp == timestamp,
{
    StoredTranscriptSegment {
        id: text::joined("transcript-", uuid),
        text: text::trim(said.text.as_str()),
        timestamp,
        audio_start_ns: said.start_ns,
        audio_end_ns: said.end_ns,
        duration_ns: said.end_ns as i128 - said.start_ns as i128,
    }
}

/// The rows for the texts of a meeting, in order, each under an identifier of its own.
pub fn create_transcript_segments(transcripts: &Vec<TimedText>) -> (rows: Vec<
    StoredTranscriptSegment,
>)
    ensures
        rows@.len() == transcripts@.len(),
        forall|i: int| 0 <= i < rows@.len() ==> is_row_of(#[trigger] rows@[i], transcripts@[i]),
{
    let mut rows: Vec<StoredTranscriptSegment> = Vec::new();
    let mut i: usize = 0;
    while i < transcripts.len()
        invariant
            i <= transcripts@.len(),
            rows@.len() == i,
            forall|j: int| 0 <= j < i ==> is_row_of(#[trigger] rows@[j], transcripts@[j]),
        decreases transcripts@.len() - i,
    {
        let uuid = random_uuid();
        let row = transcript_segment(&transcripts[i], uuid.as_str(), utc_now_rfc3339());
        rows.push(row);
        assert(is_row(rows@[i as int], transcripts@[i as int], uuid@));
        i = i + 1;
    }
    rows
}

/// A row of a meeting's text file.
#[derive(Debug)]
pub struct DocumentRow {
    pub segment: StoredTranscriptSegment,
    /// The place of the row among the others.
    pub sequence_id: usize,
}

/// What a meeting's text file holds.
#[derive(Debug)]
pub struct TranscriptDocument {
    pub version: &'static str,
    pub last_updated: String,
    pub total_segments: usize,
    pub segments: Vec<DocumentRow>,
}

impl TranscriptDocument {
    /// The document holds the rows, in their order and numbered by it.
    pub open spec fn holds(self, segments: Seq<StoredTranscriptSegment>) -> bool {
        &&& self.version@ == "1.0"@
        &&& self.total_segments == segments.len()
        &&& self.segments@.len() == segments.len()
        &&& forall|i: int|
            0 <= i < segments.len() ==> (#[trigger] self.segments@[i]).segment == segments[i]
                && self.segments@[i].sequence_id == i
    }
}

/// What a meeting's text file holds, as of a given time.
pub fn transcript_document(segments: Vec<StoredTranscriptSegment>, last_updated: String) -> (r:
    TranscriptDocument)
    ensures
        r.holds(segments@),
        r.last_updated == last_updated,
{
    let ghost given = segments@;
    let total_segments: usize = segments.len();
    let mut remaining = segments;
    let mut rows: Vec<DocumentRow> = Vec::new();
    let mut i: usize = 0;
    while i < total_segments
        invariant
            i <= total_segments == given.len(),
            rows@.len() == i,
            remaining@ == given.skip(i as int),
            forall|j: int|
                0 <= j < i ==> (#[trigger] rows@[j]).segment == given[j] && rows@[j].sequence_id
                    == j,
        decreases total_segments - i,
    {
        let segment = remaining.remove(0);
        rows.push(DocumentRow { segment, sequence_id: i });
        assert(remaining@ =~= given.skip(i + 1));
        i = i + 1;
    }
    TranscriptDocument { version: "1.0", last_updated, total_segments, segments: rows }
}

/// What a meeting's text file holds now.
pub fn write_transcripts_json(segments: Vec<StoredTranscriptSegment>) -> (r: TranscriptDocument)
    ensures
        r.holds(segments@),
        is_rfc3339(r.last_updated@),
{
    transcript_document(segments, utc_now_rfc3339())
}

/// Law: a stored row says what was said, without the white space around it, and lies where it was
/// said; it lasts from there to its end.
pub proof fn a_row_says_what_was_said(row: StoredTranscriptSegment, said: TimedText) -> (space: (
    Seq<char>,
    Seq<char>,
))
    requires
        is_row_of(row, said),
    ensures
        said.text@ == space.0 + row.text@ + space.1,
        text::blank(space.0) && text::blank(space.1),
        row.text@.len() > 0 ==> !text::white_space(row.text@[0]) && !text::white_space(
            row.text@.last()),
        row.audio_start_ns == said.start_ns,
        row.audio_end_ns == said.end_ns,
        row.audio_start_ns + row.duration_ns == row.audio_end_ns,
{
    text::trimming_takes_only_white_space(said.text@)
}

/// Law: the document of a meeting holds each of its rows once, in order and numbered from zero.
pub proof fn a_document_holds_every_row_once(
    document: TranscriptDocument,
    segments: Seq<StoredTranscriptSegment>,
)
    requires
        document.holds(segments),
    ensures
        document.total_segments == segments.len(),
        document.segments@.map_values(|row: DocumentRow| row.segment) == segments,
        document.segments@.map_values(|row: DocumentRow| row.sequence_id as int) == Seq::new(
            segments.len(), |i: int| i),
{
    assert(document.segments@.map_values(|row: DocumentRow| row.segment) =~= segments);
    assert(document.segments@.map_values(|row: DocumentRow| row.sequence_id as int) =~= Seq::new(
        segments.len(), |i: int| i));
}

} // verus!
