//! Which meetings are being transcribed again, and what came of it.

use vstd::prelude::*;

use crate::devices::configuration::clone_text;
use crate::transcription::parakeet_provider::{parakeet_accepts, validate_parakeet_language};
use crate::transcription::provider::{stated_language, str_view, Failure, TranscriptionError};

verus! {

/// Only one meeting is transcribed at a time, and that can be cancelled.
#[derive(Debug, Clone, Copy, PartialEq, Eq, Structural)]
pub struct RetranscriptionControl {
    pub in_progress: bool,
    pub cancelled: bool,
}

/// A meeting is being transcribed already.
#[derive(Debug, Clone, Copy, PartialEq, Eq, Structural)]
pub struct AlreadyInProgress;

impl AlreadyInProgress {
    pub fn message(&self) -> (r: &'static str)
        ensures
            r@ == "Retranscription already in progress"@,
    {
        "Retranscription already in progress"
    }
}

/// No meeting is being transcribed.
#[derive(Debug, Clone, Copy, PartialEq, Eq, Structural)]
pub struct NotInProgress;

impl NotInProgress {
    pub fn message(&self) -> (r: &'static str)
        ensures
            r@ == "No retranscription in progress"@,
    {
        "No retranscription in progress"
    }
}

/// The right to transcribe a meeting. Only acquiring it makes one, and releasing takes it back.
#[derive(Debug)]
pub struct RetranscriptionGuard {
    private: (),
}

impl RetranscriptionGuard {
    /// Takes the right to transcribe a meeting, if nobody has it.
    pub fn acquire(control: &mut RetranscriptionControl) -> (r: Result<
        RetranscriptionGuard,
        AlreadyInProgress,
    >)
        ensures
            r is Ok == !old(control).in_progress,
            *final(control) == if r is Ok {
                RetranscriptionControl { in_progress: true, ..*old(control) }
            } else {
                *old(control)
            },
    {
        if control.in_progress {
            return Err(AlreadyInProgress);
        }
        control.in_progress = true;
        Ok(RetranscriptionGuard { private: () })
    }

    /// Gives the right back.
    pub fn release(self, control: &mut RetranscriptionControl)
        ensures
            *final(control) == ends(*old(control)),
            *final(control) == (RetranscriptionControl { in_progress: false, ..*old(control) }),
    {
        control.in_progress = false;
    }
}

/// What becomes of the control when a transcription is to begin, and whether it may.
pub open spec fn begins(control: RetranscriptionControl) -> (bool, RetranscriptionControl) {
    if control.in_progress {
        (false, control)
    } else {
        (true, RetranscriptionControl { in_progress: true, cancelled: false })
    }
}

/// What becomes of the control when the transcription is to stop, and whether there is one.
pub open spec fn cancels(control: RetranscriptionControl) -> (bool, RetranscriptionControl) {
    if control.in_progress {
        (true, RetranscriptionControl { cancelled: true, ..control })
    } else {
        (false, control)
    }
}

/// What becomes of the control when a transcription has ended.
pub open spec fn ends(control: RetranscriptionControl) -> RetranscriptionControl {
    RetranscriptionControl { in_progress: false, ..control }
}

/// Law: one meeting is transcribed at a time. Only one that is can be cancelled, the next one
/// begins without that cancellation, and once one ended the next can begin.
pub proof fn one_transcription_at_a_time(control: RetranscriptionControl)
    ensures
        begins(control).0 <==> !control.in_progress,
        begins(control).1.in_progress,
        begins(control).0 ==> !begins(control).1.cancelled,
        !begins(begins(control).1).0,
        begins(begins(control).1).1 == begins(control).1,
        cancels(control).0 <==> control.in_progress,
        !control.in_progress ==> cancels(control).1 == control,
        cancels(begins(control).1).0 && cancels(begins(control).1).1.cancelled,
        cancels(control).1.in_progress == control.in_progress,
        !ends(control).in_progress && begins(ends(control)).0,
        !begins(ends(cancels(begins(control).1).1)).1.cancelled,
{
}

/// Begins to transcribe a meeting, if none is being transcribed. A cancellation that came before
/// does not count.
pub fn begin_retranscription(control: &mut RetranscriptionControl) -> (r: Result<
    RetranscriptionGuard,
    AlreadyInProgress,
>)
    ensures
        (r is Ok, *final(control)) == begins(*old(control)),
        r is Ok == !old(control).in_progress,
        *final(control) == if r is Ok {
            RetranscriptionControl { in_progress: true, cancelled: false }
        } else {
            *old(control)
        },
{
    let guard = RetranscriptionGuard::acquire(control);
    if guard.is_ok() {
        control.cancelled = false;
    }
    guard
}

/// Whether a meeting is being transcribed.
pub fn is_retranscription_in_progress(control: &RetranscriptionControl) -> (r: bool)
    ensures
        r == control.in_progress,
{
    control.in_progress
}

/// Asks for the transcription to stop.
pub fn cancel_retranscription(control: &mut RetranscriptionControl)
    ensures
        *final(control) == (RetranscriptionControl { cancelled: true, ..*old(control) }),
{
    control.cancelled = true;
}

/// Asks for the transcription to stop, if there is one.
pub fn cancel_retranscription_command(control: &mut RetranscriptionControl) -> (r: Result<
    (),
    NotInProgress,
>)
    ensures
        (r is Ok, *final(control)) == cancels(*old(control)),
        r is Ok == old(control).in_progress,
        *final(control) == if r is Ok {
            RetranscriptionControl { cancelled: true, ..*old(control) }
        } else {
            *old(control)
        },
{
    if !is_retranscription_in_progress(control) {
        return Err(NotInProgress);
    }
    cancel_retranscription(control);
    Ok(())
}

/// What came of transcribing a meeting again.
#[derive(Debug)]
pub struct RetranscriptionResult {
    pub file_sync_pending: bool,
    pub meeting_id: String,
    pub segments_count: usize,
    pub duration_ns: u64,
    pub language: Option<String>,
    pub recognition_context_id: Option<String>,
    pub recognition_context_sha256: Option<String>,
    pub recognition_prompt_status: String,
    /// The file in the meeting's folder that keeps the text that was replaced.
    pub backup_file: Option<String>,
}

impl Clone for RetranscriptionResult {
    fn clone(&self) -> (r: Self)
        ensures
            r == *self,
    {
        RetranscriptionResult {
            file_sync_pending: self.file_sync_pending,
            meeting_id: self.meeting_id.clone(),
            segments_count: self.segments_count,
            duration_ns: self.duration_ns,
            language: clone_text(&self.language),
            recognition_context_id: clone_text(&self.recognition_context_id),
            recognition_context_sha256: clone_text(&self.recognition_context_sha256),
            recognition_prompt_status: self.recognition_prompt_status.clone(),
            backup_file: clone_text(&self.backup_file),
        }
    }
}

/// How far the transcription of a meeting is.
#[derive(Debug, Clone, Copy, PartialEq, Eq, Structural)]
pub enum RunState {
    Unknown,
    Running,
    Completed,
    Failed,
}

impl RunState {
    pub fn label(&self) -> (r: &'static str)
        ensures
            r@ == match *self {
                RunState::Unknown => "unknown"@,
                RunState::Running => "running"@,
                RunState::Completed => "completed"@,
                RunState::Failed => "failed"@,
            },
    {
        match *self {
            RunState::Unknown => "unknown",
            RunState::Running => "running",
            RunState::Completed => "completed",
            RunState::Failed => "failed",
        }
    }
}

/// What is known of the transcription of a meeting.
#[derive(Debug)]
pub struct RetranscriptionStatus {
    pub state: RunState,
    pub result: Option<RetranscriptionResult>,
}

/// What is known of the transcription of one meeting.
pub struct StatusEntry {
    pub meeting_id: String,
    pub status: RetranscriptionStatus,
}

/// What a `StatusEntry` stands for.
pub struct Entry {
    pub meeting_id: Seq<char>,
    pub status: RetranscriptionStatus,
}

/// What is known of the transcription of meetings. No meeting is listed twice.
pub struct StatusBoard {
    pub entries: Vec<StatusEntry>,
}

/// From this many meetings on, those that are done with are forgotten when one is added.
pub const MAX_REMEMBERED: usize = 32;

/// What a list of entries stands for.
pub open spec fn entry_views(entries: Seq<StatusEntry>) -> Seq<Entry> {
    Seq::new(
        entries.len(),
        |i: int| Entry { meeting_id: entries[i].meeting_id@, status: entries[i].status },
    )
}

/// The position of a meeting.
pub open spec fn find_meeting(entries: Seq<Entry>, meeting_id: Seq<char>) -> Option<nat>
    decreases entries.len(),
{
    if entries.len() == 0 {
        None
    } else {
        match find_meeting(entries.drop_last(), meeting_id) {
            Some(i) => Some(i),
            None => if entries.last().meeting_id == meeting_id {
                Some((entries.len() - 1) as nat)
            } else {
                None
            },
        }
    }
}

/// The entries with a meeting's status set.
pub open spec fn with_status(
    entries: Seq<Entry>,
    meeting_id: Seq<char>,
    status: RetranscriptionStatus,
) -> Seq<Entry> {
    match find_meeting(entries, meeting_id) {
        Some(i) => entries.update(i as int, Entry { meeting_id, status }),
        None => entries.push(Entry { meeting_id, status }),
    }
}

/// The entries of meetings that are being transcribed.
pub open spec fn running(entries: Seq<Entry>) -> Seq<Entry>
    decreases entries.len(),
{
    if entries.len() == 0 {
        Seq::empty()
    } else if entries.last().status.state == RunState::Running {
        running(entries.drop_last()).push(entries.last())
    } else {
        running(entries.drop_last())
    }
}

/// A meeting is being transcribed.
pub open spec fn is_running(entries: Seq<Entry>, meeting_id: Seq<char>) -> bool {
    find_meeting(entries, meeting_id) matches Some(i) && entries[i as int].status.state
        == RunState::Running
}

/// The entries once a meeting begins to be transcribed.
pub open spec fn begun(entries: Seq<Entry>, meeting_id: Seq<char>) -> Seq<Entry> {
    with_status(
        if entries.len() >= MAX_REMEMBERED {
            running(entries)
        } else {
            entries
        },
        meeting_id,
        RetranscriptionStatus { state: RunState::Running, result: None },
    )
}

/// No meeting is listed twice.
pub open spec fn meetings_differ(entries: Seq<Entry>) -> bool {
    forall|i: int, j: int|
        0 <= i < j < entries.len() ==> (#[trigger] entries[i]).meeting_id != (
        #[trigger] entries[j]).meeting_id
}

proof fn find_meeting_finds(entries: Seq<Entry>, meeting_id: Seq<char>)
    ensures
        match find_meeting(entries, meeting_id) {
            Some(i) => i < entries.len() && entries[i as int].meeting_id == meeting_id && forall|
                j: int,
            | 0 <= j < i ==> (#[trigger] entries[j]).meeting_id != meeting_id,
            None => forall|j: int| 0 <= j < entries.len() ==> (#[trigger] entries[j]).meeting_id
                != meeting_id,
        },
    decreases entries.len(),
{
    if entries.len() > 0 {
        let shorter = entries.drop_last();
        find_meeting_finds(shorter, meeting_id);
        assert forall|j: int| 0 <= j < shorter.len() implies #[trigger] entries[j]
            == shorter[j] by {}
        if find_meeting(entries, meeting_id) is None {
            assert forall|j: int| 0 <= j < entries.len() implies (#[trigger] entries[j]).meeting_id
                != meeting_id by {
                if j < shorter.len() {
                    assert(shorter[j] == entries[j]);
                }
            }
        }
    }
}

proof fn running_entries(entries: Seq<Entry>)
    ensures
        running(entries).len() <= entries.len(),
        forall|i: int|
            0 <= i < running(entries).len() ==> (#[trigger] running(entries)[i]).status.state
                == RunState::Running && entries.contains(running(entries)[i]),
        meetings_differ(entries) ==> meetings_differ(running(entries)),
    decreases entries.len(),
{
    if entries.len() > 0 {
        let shorter = entries.drop_last();
        running_entries(shorter);
        assert forall|i: int| 0 <= i < running(shorter).len() implies entries.contains(
            #[trigger] running(shorter)[i]) by {
            assert(shorter.contains(running(shorter)[i]));
            let k = choose|k: int| 0 <= k < shorter.len() && shorter[k] == running(shorter)[i];
            assert(entries[k] == running(shorter)[i]);
        }
        assert(entries.contains(entries.last())) by {
            assert(entries[entries.len() - 1] == entries.last());
        }
        if meetings_differ(entries) {
            assert(meetings_differ(shorter)) by {
                assert forall|i: int, j: int| 0 <= i < j < shorter.len() implies (
                #[trigger] shorter[i]).meeting_id != (#[trigger] shorter[j]).meeting_id by {
                    assert(entries[i].meeting_id != entries[j].meeting_id);
                }
            }
            if entries.last().status.state == RunState::Running {
                let now = running(entries);
                assert forall|i: int, j: int| 0 <= i < j < now.len() implies (
                #[trigger] now[i]).meeting_id != (#[trigger] now[j]).meeting_id by {
                    if j == now.len() - 1 {
                        assert(now[i] == running(shorter)[i]);
                        let k = choose|k: int|
                            0 <= k < shorter.len() && shorter[k] == running(shorter)[i];
                        assert(entries[k].meeting_id != entries[entries.len() - 1].meeting_id);
                    } else {
                        assert(now[i] == running(shorter)[i] && now[j] == running(shorter)[j]);
                    }
                }
            }
        }
    }
}

/// Law: no meeting is ever listed twice.
pub proof fn meetings_stay_distinct(
    entries: Seq<Entry>,
    meeting_id: Seq<char>,
    status: RetranscriptionStatus,
)
    requires
        meetings_differ(entries),
    ensures
        meetings_differ(with_status(entries, meeting_id, status)),
        meetings_differ(begun(entries, meeting_id)),
{
    find_meeting_finds(entries, meeting_id);
    running_entries(entries);
    find_meeting_finds(running(entries), meeting_id);
}

/// Law: forgetting makes room but never forgets a meeting that is being transcribed.
pub proof fn running_meetings_are_remembered(entries: Seq<Entry>, i: int)
    requires
        0 <= i < entries.len(),
        entries[i].status.state == RunState::Running,
    ensures
        running(entries).contains(entries[i]),
    decreases entries.len(),
{
    let shorter = entries.drop_last();
    if i < shorter.len() {
        running_meetings_are_remembered(shorter, i);
        let k = choose|k: int| 0 <= k < running(shorter).len() && running(shorter)[k] == shorter[i];
        assert(running(entries)[k] == entries[i]);
    } else {
        assert(running(entries)[running(entries).len() - 1] == entries[i]);
    }
}

impl StatusBoard {
    pub fn new() -> (r: Self)
        ensures
            r.entries@.len() == 0,
    {
        StatusBoard { entries: Vec::new() }
    }

    fn find(&self, meeting_id: &str) -> (r: Option<usize>)
        ensures
            match r {
                Some(i) => i < self.entries@.len() && find_meeting(
                    entry_views(self.entries@), meeting_id@) == Some(i as nat),
                None => find_meeting(entry_views(self.entries@), meeting_id@) is None,
            },
    {
        let ghost views = entry_views(self.entries@);
        proof {
            find_meeting_finds(views, meeting_id@);
        }
        let mut i: usize = 0;
        while i < self.entries.len()
            invariant
                i <= self.entries@.len(),
                views == entry_views(self.entries@),
                forall|j: int| 0 <= j < i ==> (#[trigger] views[j]).meeting_id != meeting_id@,
                match find_meeting(views, meeting_id@) {
                    Some(f) => f < views.len() && views[f as int].meeting_id == meeting_id@
                        && forall|j: int| 0 <= j < f ==> (#[trigger] views[j]).meeting_id
                        != meeting_id@,
                    None => forall|j: int|
                        0 <= j < views.len() ==> (#[trigger] views[j]).meeting_id != meeting_id@,
                },
            decreases self.entries@.len() - i,
        {
            assert(views[i as int].meeting_id == self.entries@[i as int].meeting_id@);
            if crate::text::same(self.entries[i].meeting_id.as_str(), meeting_id) {
                return Some(i);
            }
            i = i + 1;
        }
        None
    }

    /// What is known of the transcription of a meeting.
    pub fn get_retranscription_status_command(&self, meeting_id: &str) -> (r:
        RetranscriptionStatus)
        ensures
            match find_meeting(entry_views(self.entries@), meeting_id@) {
                Some(i) => r == entry_views(self.entries@)[i as int].status,
                None => r == (RetranscriptionStatus { state: RunState::Unknown, result: None }),
            },
    {
        match self.find(meeting_id) {
            Some(i) => {
                let status = &self.entries[i].status;
                let result = match &status.result {
                    Some(result) => Some(result.clone()),
                    None => None,
                };
                RetranscriptionStatus { state: status.state, result }
            },
            None => RetranscriptionStatus { state: RunState::Unknown, result: None },
        }
    }

    fn set(&mut self, meeting_id: String, status: RetranscriptionStatus)
        ensures
            entry_views(final(self).entries@) == with_status(
                entry_views(old(self).entries@), meeting_id@, status),
    {
        let ghost before = entry_views(self.entries@);
        let ghost entry = Entry { meeting_id: meeting_id@, status };
        match self.find(meeting_id.as_str()) {
            Some(i) => {
                self.entries.set(i, StatusEntry { meeting_id, status });
                assert(entry_views(self.entries@) =~= before.update(i as int, entry));
            },
            None => {
                self.entries.push(StatusEntry { meeting_id, status });
                assert(entry_views(self.entries@) =~= before.push(entry));
            },
        }
    }

    fn forget_finished(&mut self)
        ensures
            entry_views(final(self).entries@) == running(entry_views(old(self).entries@)),
    {
        let ghost views = entry_views(self.entries@);
        let mut kept: Vec<StatusEntry> = Vec::new();
        let mut i: usize = 0;
        assert(views.take(0) =~= Seq::empty());
        assert(entry_views(kept@) =~= Seq::empty());
        while i < self.entries.len()
            invariant
                i <= self.entries@.len(),
                views == entry_views(self.entries@),
                entry_views(kept@) == running(views.take(i as int)),
                *self == *old(self),
            decreases self.entries@.len() - i,
        {
            proof {
                assert(views.take(i + 1).drop_last() =~= views.take(i as int));
                assert(views.take(i + 1).last() == views[i as int]);
            }
            if self.entries[i].status.state == RunState::Running {
                let result = match &self.entries[i].status.result {
                    Some(result) => Some(result.clone()),
                    None => None,
                };
                let ghost before = entry_views(kept@);
                kept.push(
                    StatusEntry {
                        meeting_id: self.entries[i].meeting_id.clone(),
                        status: RetranscriptionStatus { state: RunState::Running, result },
                    },
                );
                assert(entry_views(kept@) =~= before.push(views[i as int]));
            }
            i = i + 1;
        }
        assert(views.take(i as int) =~= views);
        self.entries = kept;
    }

    /// A meeting begins to be transcribed, unless it is being transcribed already.
    pub fn begin(&mut self, meeting_id: String) -> (r: Result<(), AlreadyInProgress>)
        ensures
            r is Err == is_running(entry_views(old(self).entries@), meeting_id@),
            entry_views(final(self).entries@) == if r is Ok {
                begun(entry_views(old(self).entries@), meeting_id@)
            } else {
                entry_views(old(self).entries@)
            },
    {
        if let Some(i) = self.find(meeting_id.as_str()) {
            if self.entries[i].status.state == RunState::Running {
                return Err(AlreadyInProgress);
            }
        }
        if self.entries.len() >= MAX_REMEMBERED {
            self.forget_finished();
        }
        self.set(meeting_id, RetranscriptionStatus { state: RunState::Running, result: None });
        Ok(())
    }

    /// The transcription of a meeting ended, with a result or without.
    pub fn finish(&mut self, meeting_id: String, result: Option<RetranscriptionResult>)
        ensures
            entry_views(final(self).entries@) == with_status(
                entry_views(old(self).entries@),
                meeting_id@,
                RetranscriptionStatus {
                    state: if result is Some { RunState::Completed } else { RunState::Failed },
                    result,
                },
            ),
    {
        let state = if result.is_some() { RunState::Completed } else { RunState::Failed };
        self.set(meeting_id, RetranscriptionStatus { state, result });
    }
}

/// What the caller is told when a transcription was started.
#[derive(Debug)]
pub struct RetranscriptionStarted {
    pub meeting_id: String,
    pub message: String,
}

impl RetranscriptionStarted {
    pub fn new(meeting_id: String) -> (r: Self)
        ensures
            r.meeting_id == meeting_id,
            r.message@ == "Retranscription started"@,
    {
        RetranscriptionStarted { meeting_id, message: "Retranscription started".to_owned() }
    }
}

/// Why a meeting is not transcribed again.
#[derive(Debug)]
pub enum StartRefusal {
    AlreadyInProgress,
    Language(TranscriptionError),
}

/// A request fails by its language: Parakeet does not take it.
pub open spec fn language_refused(provider: Option<Seq<char>>, language: Option<Seq<char>>) -> bool {
    provider == Some("parakeet"@) && !parakeet_accepts(language)
}

/// Accepts a request to transcribe a meeting again, unless one is being transcribed or the engine
/// does not take the language.
pub fn start_retranscription_command(
    control: &RetranscriptionControl,
    board: &mut StatusBoard,
    meeting_id: String,
    provider: Option<&str>,
    language: Option<&str>,
) -> (r: Result<RetranscriptionStarted, StartRefusal>)
    ensures
        match r {
            Ok(started) => {
                &&& !control.in_progress
                &&& !language_refused(str_view(provider), str_view(language))
                &&& !is_running(entry_views(old(board).entries@), meeting_id@)
                &&& started.meeting_id == meeting_id
                &&& started.message@ == "Retranscription started"@
                &&& entry_views(final(board).entries@) == begun(
                    entry_views(old(board).entries@), meeting_id@)
            },
            Err(StartRefusal::AlreadyInProgress) => {
                &&& entry_views(final(board).entries@) == entry_views(old(board).entries@)
                &&& control.in_progress || (!language_refused(
                    str_view(provider), str_view(language)) && is_running(
                    entry_views(old(board).entries@), meeting_id@))
            },
            Err(StartRefusal::Language(error)) => {
                &&& entry_views(final(board).entries@) == entry_views(old(board).entries@)
                &&& !control.in_progress
                &&& language_refused(str_view(provider), str_view(language))
                &&& (stated_language(str_view(language)) matches Some(value) && error@
                    == Failure::UnsupportedLanguage(value))
            },
        },
{
    if is_retranscription_in_progress(control) {
        return Err(StartRefusal::AlreadyInProgress);
    }
    if let Some(provider) = provider {
        if crate::text::same(provider, "parakeet") {
            if let Err(error) = validate_parakeet_language(language) {
                return Err(StartRefusal::Language(error));
            }
        }
    }
    match board.begin(meeting_id.clone()) {
        Ok(()) => Ok(RetranscriptionStarted::new(meeting_id)),
        Err(_) => Err(StartRefusal::AlreadyInProgress),
    }
}

/// What is told of a transcription that failed.
#[derive(Debug)]
pub struct RetranscriptionError {
    pub meeting_id: String,
    pub error: String,
}

/// Law: a meeting has the status it was given last, and the status of no other meeting changes.
pub proof fn a_meeting_has_its_last_status(
    entries: Seq<Entry>,
    meeting_id: Seq<char>,
    status: RetranscriptionStatus,
    other: Seq<char>,
)
    requires
        other != meeting_id,
    ensures
        ({
            let after = with_status(entries, meeting_id, status);
            &&& find_meeting(after, meeting_id) matches Some(i) && i < after.len()
                && after[i as int] == (Entry { meeting_id, status })
            &&& find_meeting(after, other) == find_meeting(entries, other)
            &&& find_meeting(entries, other) matches Some(i) ==> i < entries.len()
                && after[i as int] == entries[i as int] && entries[i as int].meeting_id == other
        }),
{
    found_meeting_is_the_first(entries, meeting_id);
    found_meeting_is_the_first(entries, other);
    let after = with_status(entries, meeting_id, status);
    found_meeting_is_the_first(after, meeting_id);
    found_meeting_is_the_first(after, other);
    assert(find_meeting(after, meeting_id) is Some) by {
        match find_meeting(entries, meeting_id) {
            Some(i) => {
                assert(after[i as int].meeting_id == meeting_id);
            },
            None => {
                assert(after[entries.len() as int].meeting_id == meeting_id);
            },
        }
    }
    match find_meeting(entries, meeting_id) {
        Some(i) => {
            let j = find_meeting(after, meeting_id)->0 as int;
            assert(entries[i as int].meeting_id == meeting_id);
            if j < i {
                assert(after[j] == entries[j]);
            } else if i < j {
                assert(after[i as int].meeting_id == meeting_id);
            }
        },
        None => {
            let j = find_meeting(after, meeting_id)->0 as int;
            if j < entries.len() {
                assert(after[j] == entries[j]);
            }
        },
    }
    match (find_meeting(entries, other), find_meeting(after, other)) {
        (Some(a), Some(b)) => {
            if b < a {
                assert(after[b as int] == entries[b as int]);
            } else if a < b {
                assert(after[a as int] == entries[a as int]);
            }
        },
        (Some(a), None) => {
            assert(after[a as int] == entries[a as int]);
        },
        (None, Some(b)) => {
            if b < entries.len() {
                assert(after[b as int].meeting_id == other);
                assert(entries[b as int].meeting_id != other);
            }
        },
        (None, None) => {},
    }
}

proof fn found_meeting_is_the_first(entries: Seq<Entry>, meeting_id: Seq<char>)
    ensures
        match find_meeting(entries, meeting_id) {
            Some(i) => i < entries.len() && entries[i as int].meeting_id == meeting_id && forall|
                j: int,
            | 0 <= j < i ==> (#[trigger] entries[j]).meeting_id != meeting_id,
            None => forall|j: int| 0 <= j < entries.len() ==> (#[trigger] entries[j]).meeting_id
                != meeting_id,
        },
    decreases entries.len(),
{
    if entries.len() > 0 {
        let fewer = entries.drop_last();
        found_meeting_is_the_first(fewer, meeting_id);
        assert(entries[entries.len() - 1] == entries.last());
        assert forall|j: int| 0 <= j < fewer.len() implies #[trigger] entries[j] == fewer[j] by {}
    }
}

/// Law: a meeting that begins is running, without a result yet, and as long as fewer than
/// thirty-two are remembered no other is forgotten.
pub proof fn a_meeting_that_begins_is_running(
    entries: Seq<Entry>,
    meeting_id: Seq<char>,
    other: Seq<char>,
)
    requires
        other != meeting_id,
    ensures
        is_running(begun(entries, meeting_id), meeting_id),
        find_meeting(begun(entries, meeting_id), meeting_id) matches Some(i) && begun(
            entries, meeting_id)[i as int].status.result is None,
        entries.len() < 32 ==> find_meeting(begun(entries, meeting_id), other) == find_meeting(
            entries, other),
{
    let status = RetranscriptionStatus { state: RunState::Running, result: None };
    a_meeting_has_its_last_status(entries, meeting_id, status, other);
    a_meeting_has_its_last_status(running(entries), meeting_id, status, other);
}

/// Law: a request is refused by its language only for Parakeet, and never without one.
pub proof fn only_parakeet_refuses_a_language(
    provider: Option<Seq<char>>,
    language: Option<Seq<char>>,
)
    ensures
        language_refused(provider, language) ==> provider == Some("parakeet"@) && language is Some
            && !parakeet_accepts(language),
        !language_refused(provider, None),
        !language_refused(None, language),
        !parakeet_accepts(language) ==> language_refused(Some("parakeet"@), language),
{
}

} // verus!
