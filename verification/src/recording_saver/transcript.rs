//! The text of a recording, row by row.

use vstd::prelude::*;
use vstd::string::*;

use crate::devices::configuration::clone_text;
use crate::text;

verus! {

/// A row of text. Times count nanoseconds from the start of the recording, and the confidence is
/// the bit pattern of a 32-bit float.
#[derive(Debug)]
pub struct TranscriptSegment {
    pub id: String,
    pub text: String,
    pub audio_start_ns: u64,
    pub audio_end_ns: u64,
    pub duration_ns: i128,
    pub display_time: String,
    pub confidence_bits: u32,
    pub sequence_id: u64,
    pub revision: u64,
    pub is_partial: bool,
}

/// What a `TranscriptSegment` stands for.
#[verifier::ext_equal]
pub struct Row {
    pub id: Seq<char>,
    pub text: Seq<char>,
    pub audio_start_ns: u64,
    pub audio_end_ns: u64,
    pub duration_ns: int,
    pub display_time: Seq<char>,
    pub confidence_bits: u32,
    pub sequence_id: u64,
    pub revision: u64,
    pub is_partial: bool,
}

impl View for TranscriptSegment {
    type V = Row;

    open spec fn view(&self) -> Row {
        Row {
            id: self.id@,
            text: self.text@,
            audio_start_ns: self.audio_start_ns,
            audio_end_ns: self.audio_end_ns,
            duration_ns: self.duration_ns as int,
            display_time: self.display_time@,
            confidence_bits: self.confidence_bits,
            sequence_id: self.sequence_id,
            revision: self.revision,
            is_partial: self.is_partial,
        }
    }
}

impl Clone for TranscriptSegment {
    fn clone(&self) -> (r: Self)
        ensures
            r == *self,
    {
        TranscriptSegment {
            id: self.id.clone(),
            text: self.text.clone(),
            audio_start_ns: self.audio_start_ns,
            audio_end_ns: self.audio_end_ns,
            duration_ns: self.duration_ns,
            display_time: self.display_time.clone(),
            confidence_bits: self.confidence_bits,
            sequence_id: self.sequence_id,
            revision: self.revision,
            is_partial: self.is_partial,
        }
    }
}

/// What a list of rows stands for.
pub open spec fn row_views(segments: Seq<TranscriptSegment>) -> Seq<Row> {
    Seq::new(segments.len(), |i: int| segments[i]@)
}

/// Copies a list of rows.
pub fn clone_segments(segments: &Vec<TranscriptSegment>) -> (r: Vec<TranscriptSegment>)
    ensures
        r@ == segments@,
{
    let mut r: Vec<TranscriptSegment> = Vec::new();
    let mut i: usize = 0;
    while i < segments.len()
        invariant
            i <= segments@.len(),
            r@ == segments@.take(i as int),
        decreases segments@.len() - i,
    {
        r.push(segments[i].clone());
        i = i + 1;
        assert(segments@.take(i as int) =~= segments@.take(i - 1).push(segments@[i - 1]));
    }
    assert(segments@.take(i as int) =~= segments@);
    r
}

/// The first row with a sequence number.
pub open spec fn find_row(rows: Seq<Row>, sequence_id: u64) -> Option<nat>
    decreases rows.len(),
{
    if rows.len() == 0 {
        None
    } else {
        match find_row(rows.drop_last(), sequence_id) {
            Some(i) => Some(i),
            None => if rows.last().sequence_id == sequence_id {
                Some((rows.len() - 1) as nat)
            } else {
                None
            },
        }
    }
}

/// A row takes the place of an earlier one: its revision is later, or neither is revised.
pub open spec fn supersedes(new: Row, old: Row) -> bool {
    new.revision > old.revision || (new.revision == 0 && old.revision == 0)
}

/// The rows after one more came in: it is added, or takes the place of the one with its number,
/// or is stale and dropped.
pub open spec fn upserted(rows: Seq<Row>, row: Row) -> Seq<Row> {
    match find_row(rows, row.sequence_id) {
        Some(i) => if supersedes(row, rows[i as int]) {
            rows.update(i as int, row)
        } else {
            rows
        },
        None => rows.push(row),
    }
}

/// The rows after a batch came in.
pub open spec fn upserted_all(rows: Seq<Row>, batch: Seq<Row>) -> Seq<Row>
    decreases batch.len(),
{
    if batch.len() == 0 {
        rows
    } else {
        upserted(upserted_all(rows, batch.drop_last()), batch.last())
    }
}

/// No two rows have the same number.
pub open spec fn numbers_differ(rows: Seq<Row>) -> bool {
    forall|i: int, j: int|
        0 <= i < j < rows.len() ==> (#[trigger] rows[i]).sequence_id != (
        #[trigger] rows[j]).sequence_id
}

proof fn find_row_finds(rows: Seq<Row>, sequence_id: u64)
    ensures
        match find_row(rows, sequence_id) {
            Some(i) => {
                &&& i < rows.len()
                &&& rows[i as int].sequence_id == sequence_id
                &&& forall|j: int| 0 <= j < i ==> (#[trigger] rows[j]).sequence_id != sequence_id
            },
            None => forall|j: int| 0 <= j < rows.len() ==> (#[trigger] rows[j]).sequence_id
                != sequence_id,
        },
    decreases rows.len(),
{
    if rows.len() > 0 {
        let shorter = rows.drop_last();
        find_row_finds(shorter, sequence_id);
        assert forall|j: int| 0 <= j < shorter.len() implies rows[j] == #[trigger] shorter[j] by {}
        match find_row(rows, sequence_id) {
            Some(i) => {
                assert forall|j: int| 0 <= j < i implies (#[trigger] rows[j]).sequence_id
                    != sequence_id by {
                    assert(shorter[j] == rows[j]);
                }
            },
            None => {
                assert forall|j: int| 0 <= j < rows.len() implies (#[trigger] rows[j]).sequence_id
                    != sequence_id by {
                    if j < shorter.len() {
                        assert(shorter[j] == rows[j]);
                    }
                }
            },
        }
    }
}

/// Law: no sequence of updates ever gives two rows the same number.
pub proof fn rows_stay_distinct(rows: Seq<Row>, batch: Seq<Row>)
    requires
        numbers_differ(rows),
    ensures
        numbers_differ(upserted_all(rows, batch)),
    decreases batch.len(),
{
    if batch.len() > 0 {
        rows_stay_distinct(rows, batch.drop_last());
        find_row_finds(upserted_all(rows, batch.drop_last()), batch.last().sequence_id);
    }
}

/// Law: a stale revision never overwrites a later one, and a revision that came once changes
/// nothing when it comes again.
pub proof fn stale_revisions_are_dropped(rows: Seq<Row>, row: Row, i: int)
    requires
        numbers_differ(rows),
        0 <= i < rows.len(),
        rows[i].sequence_id == row.sequence_id,
        rows[i].revision >= row.revision,
        rows[i].revision > 0,
    ensures
        upserted(rows, row) == rows,
{
    find_row_finds(rows, row.sequence_id);
}

/// Law: a later revision takes the place of the earlier one, where it stood; all other rows stay.
pub proof fn later_revision_takes_the_place(rows: Seq<Row>, row: Row, i: int)
    requires
        numbers_differ(rows),
        0 <= i < rows.len(),
        rows[i].sequence_id == row.sequence_id,
        rows[i].revision < row.revision,
    ensures
        upserted(rows, row) == rows.update(i, row),
{
    find_row_finds(rows, row.sequence_id);
    let found = find_row(rows, row.sequence_id)->0 as int;
    assert(rows[found].sequence_id == rows[i].sequence_id);
    if found < i {
        assert(rows[found].sequence_id != rows[i].sequence_id);
    } else if i < found {
        assert(rows[i].sequence_id != rows[found].sequence_id);
    }
}

/// Law: no row is ever lost: each stays where it is, with its number, and its revision never goes
/// back.
pub proof fn rows_are_never_lost(rows: Seq<Row>, batch: Seq<Row>, i: int)
    requires
        0 <= i < rows.len(),
    ensures
        rows.len() <= upserted_all(rows, batch).len(),
        upserted_all(rows, batch)[i].sequence_id == rows[i].sequence_id,
        upserted_all(rows, batch)[i].revision >= rows[i].revision,
    decreases batch.len(),
{
    if batch.len() > 0 {
        rows_are_never_lost(rows, batch.drop_last(), i);
        find_row_finds(upserted_all(rows, batch.drop_last()), batch.last().sequence_id);
    }
}

fn find_segment(segments: &Vec<TranscriptSegment>, sequence_id: u64) -> (r: Option<usize>)
    ensures
        match r {
            Some(i) => i < segments@.len() && find_row(row_views(segments@), sequence_id) == Some(
                i as nat),
            None => find_row(row_views(segments@), sequence_id) is None,
        },
{
    let ghost rows = row_views(segments@);
    proof {
        find_row_finds(rows, sequence_id);
    }
    let mut i: usize = 0;
    while i < segments.len()
        invariant
            i <= segments@.len(),
            rows == row_views(segments@),
            forall|j: int| 0 <= j < i ==> (#[trigger] rows[j]).sequence_id != sequence_id,
            match find_row(rows, sequence_id) {
                Some(f) => f < rows.len() && rows[f as int].sequence_id == sequence_id && forall|
                    j: int,
                | 0 <= j < f ==> (#[trigger] rows[j]).sequence_id != sequence_id,
                None => forall|j: int| 0 <= j < rows.len() ==> (#[trigger] rows[j]).sequence_id
                    != sequence_id,
            },
        decreases segments@.len() - i,
    {
        assert(rows[i as int] == segments@[i as int]@);
        if segments[i].sequence_id == sequence_id {
            return Some(i);
        }
        i = i + 1;
    }
    None
}

/// Why a row could not be saved.
#[derive(Debug, Clone, Copy, PartialEq, Eq, Structural)]
pub struct FolderUnavailable;

/// The rows of one meeting, and the first thing that went wrong with them.
pub struct TranscriptWriter {
    pub has_folder: bool,
    pub segments: Vec<TranscriptSegment>,
    pub error: Option<String>,
}

/// The text of an error, unless an earlier one is kept.
pub open spec fn first_text(earlier: Option<String>, now: Seq<char>) -> Seq<char> {
    match earlier {
        Some(earlier) => earlier@,
        None => now,
    }
}

impl TranscriptWriter {
    pub fn new() -> (r: Self)
        ensures
            !r.has_folder,
            r.segments@.len() == 0,
            r.error is None,
    {
        TranscriptWriter { has_folder: false, segments: Vec::new(), error: None }
    }

    /// Takes a batch of rows in; all rows are then to be written as one snapshot, whose outcome
    /// goes to `finish_write`. Without a folder the rows are kept and the failure is noted.
    pub fn write_batch(&mut self, updates: Vec<TranscriptSegment>) -> (r: Result<
        (),
        FolderUnavailable,
    >)
        ensures
            row_views(final(self).segments@) == upserted_all(
                row_views(old(self).segments@), row_views(updates@)),
            final(self).has_folder == old(self).has_folder,
            r is Ok == old(self).has_folder,
            r is Ok ==> final(self).error == old(self).error,
            r is Err ==> final(self).error is Some && final(self).error->0@ == first_text(
                old(self).error,
                "Transcript write failed: Transcript meeting folder is unavailable"@,
            ),
    {
        let ghost start = row_views(self.segments@);
        let ghost batch = row_views(updates@);
        let mut i: usize = 0;
        assert(batch.take(0) =~= Seq::empty());
        while i < updates.len()
            invariant
                i <= updates@.len(),
                batch == row_views(updates@),
                row_views(self.segments@) == upserted_all(start, batch.take(i as int)),
                self.has_folder == old(self).has_folder,
                self.error == old(self).error,
            decreases updates@.len() - i,
        {
            let ghost before = row_views(self.segments@);
            let segment = updates[i].clone();
            let ghost row = segment@;
            assert(batch[i as int] == row);
            match find_segment(&self.segments, segment.sequence_id) {
                Some(found) => {
                    let revision: u64 = self.segments[found].revision;
                    assert(before[found as int] == self.segments@[found as int]@);
                    if segment.revision > revision || (segment.revision == 0 && revision == 0) {
                        self.segments.set(found, segment);
                        assert(row_views(self.segments@) =~= before.update(found as int, row));
                    }
                },
                None => {
                    self.segments.push(segment);
                    assert(row_views(self.segments@) =~= before.push(row));
                },
            }
            proof {
                assert(batch.take(i + 1).drop_last() =~= batch.take(i as int));
                assert(batch.take(i + 1).last() == row);
            }
            i = i + 1;
        }
        assert(batch.take(i as int) =~= batch);
        if self.has_folder {
            Ok(())
        } else {
            self.note_error(
                "Transcript write failed: Transcript meeting folder is unavailable".to_owned(),
            );
            Err(FolderUnavailable)
        }
    }

    /// Takes one row in.
    pub fn write(&mut self, segment: TranscriptSegment) -> (r: Result<(), FolderUnavailable>)
        ensures
            row_views(final(self).segments@) == upserted(
                row_views(old(self).segments@), segment@),
            final(self).has_folder == old(self).has_folder,
            r is Ok == old(self).has_folder,
            r is Ok ==> final(self).error == old(self).error,
            r is Err ==> final(self).error is Some && final(self).error->0@ == first_text(
                old(self).error,
                "Transcript write failed: Transcript meeting folder is unavailable"@,
            ),
    {
        let mut updates: Vec<TranscriptSegment> = Vec::new();
        updates.push(segment);
        proof {
            let batch = row_views(updates@);
            assert(batch =~= seq![segment@]);
            assert(batch.drop_last() =~= Seq::empty());
            assert(upserted_all(row_views(self.segments@), batch.drop_last()) == row_views(
                self.segments@));
        }
        self.write_batch(updates)
    }

    /// Takes in whether a snapshot was written. The first failure is kept.
    pub fn finish_write(&mut self, failure: Option<String>)
        ensures
            final(self).segments == old(self).segments,
            final(self).has_folder == old(self).has_folder,
            match failure {
                None => final(self).error == old(self).error,
                Some(failure) => final(self).error is Some && final(self).error->0@ == first_text(
                    old(self).error, "Transcript write failed: "@ + failure@),
            },
    {
        if let Some(failure) = failure {
            self.note_error(text::joined("Transcript write failed: ", failure.as_str()));
        }
    }

    fn note_error(&mut self, message: String)
        ensures
            final(self).segments == old(self).segments,
            final(self).has_folder == old(self).has_folder,
            final(self).error is Some,
            final(self).error->0@ == first_text(old(self).error, message@),
            old(self).error is Some ==> final(self).error == old(self).error,
    {
        if self.error.is_none() {
            self.error = Some(message);
        }
    }

    /// The first thing that went wrong.
    pub fn first_error(&self) -> (r: Option<String>)
        ensures
            r == self.error,
    {
        clone_text(&self.error)
    }

    /// Notes that audio could not be transcribed.
    pub fn report_transcription_error(&mut self, message: &str)
        ensures
            final(self).segments == old(self).segments,
            final(self).has_folder == old(self).has_folder,
            final(self).error is Some,
            final(self).error->0@ == first_text(
                old(self).error, "Transcription failed: "@ + message@),
    {
        self.note_error(text::joined("Transcription failed: ", message));
    }
}

/// Why a saved transcript cannot be used.
#[derive(Debug, Clone, Copy, PartialEq, Eq, Structural)]
pub enum SnapshotError {
    NotCompleted,
    UnfinishedOrDuplicate,
}

impl SnapshotError {
    pub fn message(&self) -> (r: &'static str)
        ensures
            r@ == match *self {
                SnapshotError::NotCompleted => "Recording has not completed successfully"@,
                SnapshotError::UnfinishedOrDuplicate =>
                    "Transcript snapshot contains unfinished or duplicate rows"@,
            },
    {
        match *self {
            SnapshotError::NotCompleted => "Recording has not completed successfully",
            SnapshotError::UnfinishedOrDuplicate =>
                "Transcript snapshot contains unfinished or duplicate rows",
        }
    }
}

/// Every row is final and no two have the same number.
pub open spec fn rows_are_final(rows: Seq<Row>) -> bool {
    numbers_differ(rows) && forall|i: int|
        0 <= i < rows.len() ==> !(#[trigger] rows[i]).is_partial
}

/// Why the rows of a recording with this status cannot be used, if they cannot.
pub open spec fn snapshot_failure(status: Seq<char>, rows: Seq<Row>) -> Option<SnapshotError> {
    if status != "completed"@ {
        Some(SnapshotError::NotCompleted)
    } else if !rows_are_final(rows) {
        Some(SnapshotError::UnfinishedOrDuplicate)
    } else {
        None
    }
}

/// Accepts the rows of a recording that completed, if they are final.
pub fn read_completed_transcript_snapshot(
    status: &str,
    segments: Vec<TranscriptSegment>,
) -> (r: Result<Vec<TranscriptSegment>, SnapshotError>)
    ensures
        match r {
            Ok(rows) => status@ == "completed"@ && rows_are_final(row_views(segments@)) && rows@
                == segments@,
            Err(SnapshotError::NotCompleted) => status@ != "completed"@,
            Err(SnapshotError::UnfinishedOrDuplicate) => status@ == "completed"@
                && !rows_are_final(row_views(segments@)),
        },
        match r {
            Ok(_) => snapshot_failure(status@, row_views(segments@)) is None,
            Err(error) => snapshot_failure(status@, row_views(segments@)) == Some(error),
        },
{
    if !text::same(status, "completed") {
        return Err(SnapshotError::NotCompleted);
    }
    let ghost rows = row_views(segments@);
    let mut i: usize = 0;
    while i < segments.len()
        invariant
            i <= segments@.len(),
            status@ == "completed"@,
            rows == row_views(segments@),
            numbers_differ(rows.take(i as int)),
            forall|j: int| 0 <= j < i ==> !(#[trigger] rows[j]).is_partial,
        decreases segments@.len() - i,
    {
        assert(rows[i as int] == segments@[i as int]@);
        if segments[i].is_partial {
            return Err(SnapshotError::UnfinishedOrDuplicate);
        }
        let mut j: usize = 0;
        while j < i
            invariant
                j <= i < segments@.len(),
                status@ == "completed"@,
                rows == row_views(segments@),
                forall|k: int| 0 <= k < j ==> (#[trigger] rows[k]).sequence_id
                    != rows[i as int].sequence_id,
            decreases i - j,
        {
            assert(rows[j as int] == segments@[j as int]@);
            assert(rows[i as int] == segments@[i as int]@);
            if segments[j].sequence_id == segments[i].sequence_id {
                return Err(SnapshotError::UnfinishedOrDuplicate);
            }
            j = j + 1;
        }
        proof {
            let longer = rows.take(i + 1);
            assert forall|a: int, b: int| 0 <= a < b < longer.len() implies (
            #[trigger] longer[a]).sequence_id != (#[trigger] longer[b]).sequence_id by {
                if b < i {
                    assert(rows.take(i as int)[a] == longer[a]);
                    assert(rows.take(i as int)[b] == longer[b]);
                } else {
                    assert(rows[a].sequence_id != rows[i as int].sequence_id);
                }
            }
        }
        i = i + 1;
    }
    assert(rows.take(i as int) =~= rows);
    Ok(segments)
}

/// Law: what the writer keeps can always be read back once every row is final.
pub proof fn written_rows_can_be_read(rows: Seq<Row>, batch: Seq<Row>)
    requires
        numbers_differ(rows),
        forall|i: int|
            0 <= i < upserted_all(rows, batch).len() ==> !(#[trigger] upserted_all(
                rows, batch)[i]).is_partial,
    ensures
        rows_are_final(upserted_all(rows, batch)),
{
    rows_stay_distinct(rows, batch);
}

/// Law: the rows of a recording are given out only once it completed, when not one of them is
/// unfinished and no two have the same number; and then all of them are.
pub proof fn only_finished_transcripts_are_read(status: Seq<char>, rows: Seq<Row>)
    ensures
        (exists|i: int| 0 <= i < rows.len() && (#[trigger] rows[i]).is_partial)
            ==> snapshot_failure(status, rows) is Some && !rows_are_final(rows),
        (exists|i: int, j: int|
            0 <= i < j < rows.len() && (#[trigger] rows[i]).sequence_id == (
            #[trigger] rows[j]).sequence_id) ==> snapshot_failure(status, rows) is Some,
        status == "recording"@ || status == "error"@ ==> snapshot_failure(status, rows) == Some(
            SnapshotError::NotCompleted),
        status == "completed"@ && (forall|i: int|
            0 <= i < rows.len() ==> !(#[trigger] rows[i]).is_partial) && (forall|i: int, j: int|
            0 <= i < j < rows.len() ==> (#[trigger] rows[i]).sequence_id != (
            #[trigger] rows[j]).sequence_id) ==> snapshot_failure(status, rows) is None,
{
    reveal_strlit("completed");
    reveal_strlit("recording");
    reveal_strlit("error");
    assert("recording"@[0] != "completed"@[0]);
    assert("error"@[0] != "completed"@[0]);
}

/// Law: a row with a number of its own is added at the end, and all others stay.
pub proof fn new_rows_are_added_at_the_end(rows: Seq<Row>, row: Row)
    requires
        forall|i: int| 0 <= i < rows.len() ==> (#[trigger] rows[i]).sequence_id
            != row.sequence_id,
    ensures
        upserted(rows, row) == rows.push(row),
{
    find_row_finds(rows, row.sequence_id);
}

/// Law: taking a row in changes at most the row with its number, and where it takes that row's
/// place it stands there whole. A row that is not revised takes the place of one that is not.
pub proof fn a_row_replaces_only_its_own(rows: Seq<Row>, row: Row, i: int)
    requires
        numbers_differ(rows),
        0 <= i < rows.len(),
    ensures
        upserted(rows, row).len() >= rows.len(),
        rows[i].sequence_id != row.sequence_id ==> upserted(rows, row)[i] == rows[i],
        rows[i].sequence_id == row.sequence_id ==> upserted(rows, row).len() == rows.len() && (
        upserted(rows, row)[i] == row || upserted(rows, row)[i] == rows[i]),
        rows[i].sequence_id == row.sequence_id && rows[i].revision == 0 && row.revision == 0
            ==> upserted(rows, row)[i] == row,
{
    find_row_finds(rows, row.sequence_id);
}

/// Law: the first thing that went wrong with the rows is the one that is kept.
pub proof fn the_first_row_error_is_kept(earlier: String, now: Seq<char>)
    ensures
        first_text(Some(earlier), now) == earlier@,
        first_text(None, now) == now,
{
}

} // verus!
