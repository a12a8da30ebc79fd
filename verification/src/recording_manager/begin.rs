//! Beginning a recording session, step by step.
//!
//! What is recorded is put on record before anything is recorded: a recording whose first metadata
//! cannot be written is never begun.

use vstd::prelude::*;
use vstd::string::*;

use crate::recording_state::model::State;
use crate::recording_state::state::RecordingState;
use crate::text;

verus! {

/// What a session records from.
#[derive(Debug, Clone, Copy, PartialEq, Eq, Structural)]
pub enum SessionSource {
    Devices,
    /// A file in place of devices; there is nothing to open or to watch.
    Controlled,
}

/// One step on the way into a session.
#[derive(Debug, Clone, Copy, PartialEq, Eq, Structural)]
pub enum SessionStep {
    /// The devices are noted for the first metadata.
    NoteDevices,
    /// The folder is made and the first metadata is written.
    StartSaving,
    /// The pipeline is started; the recording runs from here on.
    StartPipeline,
    /// The streams are opened.
    StartStreams,
    /// The devices are watched.
    WatchDevices,
}

/// The steps into a session, in their order.
pub open spec fn session_plan(source: SessionSource) -> Seq<SessionStep> {
    match source {
        SessionSource::Devices => seq![
            SessionStep::NoteDevices,
            SessionStep::StartSaving,
            SessionStep::StartPipeline,
            SessionStep::StartStreams,
            SessionStep::WatchDevices,
        ],
        SessionSource::Controlled => seq![
            SessionStep::NoteDevices,
            SessionStep::StartSaving,
            SessionStep::StartPipeline,
        ],
    }
}

fn plan(source: SessionSource) -> (r: Vec<SessionStep>)
    ensures
        r@ == session_plan(source),
{
    let r = match source {
        SessionSource::Devices => vec![
            SessionStep::NoteDevices,
            SessionStep::StartSaving,
            SessionStep::StartPipeline,
            SessionStep::StartStreams,
            SessionStep::WatchDevices,
        ],
        SessionSource::Controlled => vec![
            SessionStep::NoteDevices,
            SessionStep::StartSaving,
            SessionStep::StartPipeline,
        ],
    };
    assert(r@ =~= session_plan(source));
    r
}

/// The state once a step failed. Streams that were opened are taken back, and their epoch is over.
pub open spec fn after_failure(step: SessionStep, state: State) -> State {
    match step {
        SessionStep::StartStreams | SessionStep::WatchDevices => state.next_epoch().cleaned(),
        _ => state,
    }
}

/// The state once a step went well at `now_ns`: the recording runs as soon as its first metadata
/// is written, and its routes are ready after the last step.
pub open spec fn after_success(
    step: SessionStep,
    is_last: bool,
    state: State,
    now_ns: u64,
) -> State {
    let running = if step == SessionStep::StartSaving {
        state.started(now_ns)
    } else {
        state
    };
    if is_last {
        State { routes_ready: true, ..running }
    } else {
        running
    }
}

/// What is reported of a step that failed.
pub open spec fn session_failure(step: SessionStep, error: Seq<char>) -> Seq<char> {
    match step {
        SessionStep::WatchDevices => "Required audio device monitoring failed to start: "@ + error,
        _ => error,
    }
}

/// What is to be done next.
#[derive(Debug)]
pub enum SessionAction {
    Perform(SessionStep),
    /// The session runs.
    Ready,
    /// The session was not begun.
    Failed(String),
}

/// The beginning of a session.
pub struct SessionRun {
    pub source: SessionSource,
    /// The number of steps that went well.
    pub done: usize,
}

impl SessionRun {
    /// The way is not at its end.
    pub open spec fn is_under_way(self) -> bool {
        self.done < session_plan(self.source).len()
    }

    /// The step that is due.
    pub open spec fn step(self) -> SessionStep {
        session_plan(self.source)[self.done as int]
    }

    /// Begins a session.
    pub fn start(source: SessionSource) -> (r: (SessionRun, SessionAction))
        ensures
            r.0 == (SessionRun { source, done: 0 }),
            r.0.is_under_way(),
            r.1 == SessionAction::Perform(SessionStep::NoteDevices),
    {
        (SessionRun { source, done: 0 }, SessionAction::Perform(SessionStep::NoteDevices))
    }

    /// The step that was due ended.
    pub fn advance(
        &mut self,
        state: &mut RecordingState,
        now_ns: u64,
        outcome: Result<(), String>,
    ) -> (r: SessionAction)
        requires
            old(self).is_under_way(),
        ensures
            final(self).source == old(self).source,
            match outcome {
                Err(error) => {
                    &&& (r matches SessionAction::Failed(message) && message@ == session_failure(
                        old(self).step(), error@))
                    &&& final(self).done == old(self).done
                    &&& final(state)@ == after_failure(old(self).step(), old(state)@)
                },
                Ok(_) => {
                    &&& final(self).done == old(self).done + 1
                    &&& final(state)@ == after_success(
                        old(self).step(), !final(self).is_under_way(), old(state)@, now_ns)
                    &&& r == if final(self).is_under_way() {
                        SessionAction::Perform(final(self).step())
                    } else {
                        SessionAction::Ready
                    }
                },
            },
    {
        let steps = plan(self.source);
        let step = steps[self.done];
        if let Err(error) = outcome {
            return match step {
                SessionStep::NoteDevices | SessionStep::StartSaving | SessionStep::StartPipeline =>
                    SessionAction::Failed(error),
                SessionStep::StartStreams => {
                    take_back(state);
                    SessionAction::Failed(error)
                },
                SessionStep::WatchDevices => {
                    take_back(state);
                    SessionAction::Failed(
                        text::joined(
                            "Required audio device monitoring failed to start: ",
                            error.as_str(),
                        ),
                    )
                },
            };
        }
        self.done = self.done + 1;
        if step == SessionStep::StartSaving {
            state.start_recording(now_ns);
        }
        if self.done == steps.len() {
            state.mark_routes_ready();
            return SessionAction::Ready;
        }
        SessionAction::Perform(steps[self.done])
    }
}

fn take_back(state: &mut RecordingState)
    ensures
        final(state)@ == old(state)@.next_epoch().cleaned(),
{
    let _epoch: u64 = state.advance_device_epoch();
    state.cleanup();
}

/// How each step into a session ends. What comes after a failure is not looked at.
#[derive(Debug)]
pub struct SessionOutcomes {
    pub devices: Result<(), String>,
    pub saving: Result<(), String>,
    pub pipeline: Result<(), String>,
    pub streams: Result<(), String>,
    pub watch: Result<(), String>,
}

/// What comes of beginning a session from devices: the failure, if there is one, and the state.
pub open spec fn session_begun(state: State, now_ns: u64, outcomes: SessionOutcomes) -> (
    Option<Seq<char>>,
    State,
) {
    let running = state.started(now_ns);
    if outcomes.devices is Err {
        (Some(outcomes.devices->Err_0@), state)
    } else if outcomes.saving is Err {
        (Some(outcomes.saving->Err_0@), state)
    } else if outcomes.pipeline is Err {
        (Some(outcomes.pipeline->Err_0@), running)
    } else if outcomes.streams is Err {
        (Some(outcomes.streams->Err_0@), running.next_epoch().cleaned())
    } else if outcomes.watch is Err {
        (
            Some(session_failure(SessionStep::WatchDevices, outcomes.watch->Err_0@)),
            running.next_epoch().cleaned(),
        )
    } else {
        (None, State { routes_ready: true, ..running })
    }
}

/// Begins a session from devices, given how each step ends.
pub fn start_recording(state: &mut RecordingState, now_ns: u64, outcomes: SessionOutcomes) -> (r:
    Result<(), String>)
    ensures
        match r {
            Ok(_) => session_begun(old(state)@, now_ns, outcomes) == (
                None::<Seq<char>>,
                final(state)@,
            ),
            Err(message) => session_begun(old(state)@, now_ns, outcomes) == (
                Some(message@),
                final(state)@,
            ),
        },
{
    let (mut run, _first) = SessionRun::start(SessionSource::Devices);
    if let SessionAction::Failed(message) = run.advance(state, now_ns, outcomes.devices) {
        return Err(message);
    }
    if let SessionAction::Failed(message) = run.advance(state, now_ns, outcomes.saving) {
        return Err(message);
    }
    if let SessionAction::Failed(message) = run.advance(state, now_ns, outcomes.pipeline) {
        return Err(message);
    }
    if let SessionAction::Failed(message) = run.advance(state, now_ns, outcomes.streams) {
        return Err(message);
    }
    if let SessionAction::Failed(message) = run.advance(state, now_ns, outcomes.watch) {
        return Err(message);
    }
    Ok(())
}

/// Law: a session whose first metadata cannot be written is never begun: neither its state nor its
/// streams were started.
pub proof fn unsaved_sessions_are_never_begun(
    state: State,
    now_ns: u64,
    outcomes: SessionOutcomes,
)
    requires
        outcomes.devices is Err || outcomes.saving is Err,
    ensures
        session_begun(state, now_ns, outcomes).0 is Some,
        session_begun(state, now_ns, outcomes).1 == state,
{
}

/// Law: whatever is recorded, saving is prepared first, and streams are only opened after it.
pub proof fn saving_is_prepared_first(source: SessionSource, i: int)
    requires
        0 <= i < session_plan(source).len(),
    ensures
        session_plan(source)[0] == SessionStep::NoteDevices,
        session_plan(source)[1] == SessionStep::StartSaving,
        session_plan(source)[i] == SessionStep::StartPipeline || session_plan(source)[i]
            == SessionStep::StartStreams || session_plan(source)[i] == SessionStep::WatchDevices
            ==> i > 1,
{
}

/// Law: a session begins exactly when everything that it needs went well, and only then its routes
/// are ready; where its streams or the watch over its devices failed, nothing is left running.
pub proof fn sessions_begin_when_all_is_well(
    state: State,
    now_ns: u64,
    outcomes: SessionOutcomes,
)
    ensures
        ({
            let r = session_begun(state, now_ns, outcomes);
            &&& r.0 is None <==> outcomes.devices is Ok && outcomes.saving is Ok
                && outcomes.pipeline is Ok && outcomes.streams is Ok && outcomes.watch is Ok
            &&& r.0 is None ==> r.1.recording && r.1.routes_ready && r.1.recording_start_ns == Some(
                now_ns) && r.1.microphone_device == state.microphone_device
                && r.1.system_device == state.system_device
            &&& r.0 is None && !state.paused && !state.reconnecting ==> r.1.timeline_open()
            &&& outcomes.devices is Ok && outcomes.saving is Ok && outcomes.pipeline is Ok && (
            outcomes.streams is Err || outcomes.watch is Err) ==> !r.1.recording
                && r.1.microphone_device is None && r.1.system_device is None
            &&& r.0 is Some ==> !r.1.timeline_open() || r.1 == state
            &&& outcomes.devices matches Err(error) ==> r.0 == Some(error@)
        }),
{
}

/// Law: a session records from the moment that saving is prepared, and its routes are ready once
/// its last step went well; a step that fails after its streams were touched leaves nothing.
pub proof fn steps_carry_a_session_forward(
    step: SessionStep,
    is_last: bool,
    state: State,
    now_ns: u64,
    error: Seq<char>,
)
    ensures
        after_success(SessionStep::StartSaving, is_last, state, now_ns).recording,
        after_success(SessionStep::StartSaving, is_last, state, now_ns).recording_start_ns == Some(
            now_ns),
        step != SessionStep::StartSaving ==> after_success(
            step, false, state, now_ns) == state,
        after_success(step, true, state, now_ns).routes_ready,
        step != SessionStep::StartSaving ==> after_success(step, true, state, now_ns).recording
            == state.recording,
        step == SessionStep::StartStreams || step == SessionStep::WatchDevices ==> {
            let after = after_failure(step, state);
            !after.recording && after.microphone_device is None && after.system_device is None
                && after.device_epoch != state.device_epoch
        },
        step == SessionStep::NoteDevices || step == SessionStep::StartSaving ==> after_failure(
            step, state) == state,
        session_failure(step, error).len() >= error.len() && session_failure(step, error).skip(
            session_failure(step, error).len() - error.len()) == error,
{
    let text = session_failure(step, error);
    assert(text.skip(text.len() - error.len()) =~= error);
}

} // verus!
