//! Starting a recording, step by step.
//!
//! Everything that can stand in the way of a recording is looked at before audio is captured, and
//! the first thing that does is what the user is told.

use vstd::prelude::*;
use vstd::string::*;

use crate::devices::configuration::text_of;
use crate::outside;
use crate::recording_commands::routes::DeviceFallback;
use crate::recording_state::model::State;
use crate::recording_state::state::RecordingState;
use crate::text;

verus! {

/// What all commands share.
#[derive(Debug, Clone, Copy, PartialEq, Eq, Structural)]
pub struct RecordingFlags {
    /// A recording is under way.
    pub recording: bool,
    /// The replay of controlled input has to end.
    pub replay_cancelled: bool,
}

impl RecordingFlags {
    /// Nothing is recorded yet.
    pub fn new() -> (r: Self)
        ensures
            r == (RecordingFlags { recording: false, replay_cancelled: false }),
    {
        RecordingFlags { recording: false, replay_cancelled: false }
    }

    /// Whether a recording is under way.
    pub fn is_recording(&self) -> (r: bool)
        ensures
            r == self.recording,
    {
        self.recording
    }
}

/// How a recording is asked for.
#[derive(Debug, Clone, Copy, PartialEq, Eq, Structural)]
pub enum StartOrigin {
    /// With the devices of the saved preferences.
    Preferences,
    /// With devices that were chosen for this recording.
    Selection,
    /// With a file in place of devices, to be measured.
    Controlled,
}

/// One step on the way to a recording.
#[derive(Debug, Clone, Copy, PartialEq, Eq, Structural)]
pub enum StartStep {
    /// No import stands in the way.
    Activity,
    /// The storage is free to be used.
    Storage,
    /// No other recording is under way.
    Idle,
    /// The model for transcription is ready.
    Model,
    /// The preferences can be read, and their folder can be written.
    SaveFolder,
    /// The engine that is configured is known.
    Engine,
    /// The template for summaries is kept.
    Template,
    /// The context of the meeting is kept.
    Context,
    /// There is a microphone to record, where one is recorded.
    Microphone,
    /// There is an output to record, where one is recorded.
    SystemAudio,
    /// The task that prepares controlled input ran.
    Preparation,
    /// Controlled input is what its contract says.
    Contract,
    /// The contract is kept.
    BindContract,
    /// Audio is captured.
    Capture,
    /// The measurement was set up.
    Recorder,
    /// The recording is announced.
    Announce,
}

/// The steps on the way to a recording, in their order.
pub open spec fn plan(origin: StartOrigin) -> Seq<StartStep> {
    match origin {
        StartOrigin::Preferences => seq![
            StartStep::Activity,
            StartStep::Storage,
            StartStep::Idle,
            StartStep::Model,
            StartStep::SaveFolder,
            StartStep::Engine,
            StartStep::Template,
            StartStep::Context,
            StartStep::Microphone,
            StartStep::SystemAudio,
            StartStep::Capture,
            StartStep::Announce,
        ],
        StartOrigin::Selection => seq![
            StartStep::Activity,
            StartStep::Storage,
            StartStep::Idle,
            StartStep::Model,
            StartStep::Microphone,
            StartStep::SystemAudio,
            StartStep::SaveFolder,
            StartStep::Engine,
            StartStep::Template,
            StartStep::Context,
            StartStep::Capture,
            StartStep::Announce,
        ],
        StartOrigin::Controlled => seq![
            StartStep::Idle,
            StartStep::Preparation,
            StartStep::Contract,
            StartStep::Activity,
            StartStep::Storage,
            StartStep::Model,
            StartStep::Engine,
            StartStep::BindContract,
            StartStep::Capture,
            StartStep::Recorder,
            StartStep::Announce,
        ],
    }
}

/// The steps on the way to a recording, in their order.
pub fn start_plan(origin: StartOrigin) -> (r: Vec<StartStep>)
    ensures
        r@ == plan(origin),
{
    let r = match origin {
        StartOrigin::Preferences => vec![
            StartStep::Activity,
            StartStep::Storage,
            StartStep::Idle,
            StartStep::Model,
            StartStep::SaveFolder,
            StartStep::Engine,
            StartStep::Template,
            StartStep::Context,
            StartStep::Microphone,
            StartStep::SystemAudio,
            StartStep::Capture,
            StartStep::Announce,
        ],
        StartOrigin::Selection => vec![
            StartStep::Activity,
            StartStep::Storage,
            StartStep::Idle,
            StartStep::Model,
            StartStep::Microphone,
            StartStep::SystemAudio,
            StartStep::SaveFolder,
            StartStep::Engine,
            StartStep::Template,
            StartStep::Context,
            StartStep::Capture,
            StartStep::Announce,
        ],
        StartOrigin::Controlled => vec![
            StartStep::Idle,
            StartStep::Preparation,
            StartStep::Contract,
            StartStep::Activity,
            StartStep::Storage,
            StartStep::Model,
            StartStep::Engine,
            StartStep::BindContract,
            StartStep::Capture,
            StartStep::Recorder,
            StartStep::Announce,
        ],
    };
    assert(r@ =~= plan(origin));
    r
}

/// What is put before the reason why a step failed.
pub open spec fn failure_prefix(origin: StartOrigin, step: StartStep) -> Seq<char> {
    match step {
        StartStep::SaveFolder => "Recording save folder is unavailable: "@,
        StartStep::Template => "Failed to set recording template metadata: "@,
        StartStep::Context => "Failed to set meeting context metadata: "@,
        StartStep::Preparation => "controlled input preparation task failed: "@,
        StartStep::Contract => "controlled input contract rejected: "@,
        StartStep::BindContract => "failed to set controlled input contract: "@,
        StartStep::Model => if origin == StartOrigin::Controlled {
            "controlled recording model is unavailable: "@
        } else {
            Seq::empty()
        },
        StartStep::Capture => if origin == StartOrigin::Controlled {
            "failed to start controlled real-time pipeline: "@
        } else {
            "Failed to start recording: "@
        },
        _ => Seq::empty(),
    }
}

/// What the user is told of a step that failed.
pub open spec fn failure_text(origin: StartOrigin, step: StartStep, error: Seq<char>) -> Seq<char> {
    match step {
        StartStep::Idle => "Recording already in progress"@,
        StartStep::Recorder => "controlled measurement recorder was not initialized"@,
        _ => failure_prefix(origin, step) + error,
    }
}

/// What the user is told of a step that failed.
pub fn describe_failure(origin: StartOrigin, step: StartStep, error: &str) -> (r: String)
    ensures
        r@ == failure_text(origin, step, error@),
{
    let prefix = match step {
        StartStep::Idle => {
            return "Recording already in progress".to_owned();
        },
        StartStep::Recorder => {
            return "controlled measurement recorder was not initialized".to_owned();
        },
        StartStep::SaveFolder => "Recording save folder is unavailable: ",
        StartStep::Template => "Failed to set recording template metadata: ",
        StartStep::Context => "Failed to set meeting context metadata: ",
        StartStep::Preparation => "controlled input preparation task failed: ",
        StartStep::Contract => "controlled input contract rejected: ",
        StartStep::BindContract => "failed to set controlled input contract: ",
        StartStep::Model if origin == StartOrigin::Controlled =>
            "controlled recording model is unavailable: ",
        StartStep::Capture => if origin == StartOrigin::Controlled {
            "failed to start controlled real-time pipeline: "
        } else {
            "Failed to start recording: "
        },
        _ => {
            assert(Seq::<char>::empty() + error@ =~= error@);
            return error.to_owned();
        },
    };
    text::joined(prefix, error)
}

/// Why a step keeps a recording from starting, if it does. Whether another recording is under way
/// is known here; of every other step `outcome` says how it went.
pub open spec fn refusal(
    origin: StartOrigin,
    step: StartStep,
    recording: bool,
    outcome: Result<(), String>,
) -> Option<Seq<char>> {
    if step == StartStep::Idle {
        if recording {
            Some(failure_text(origin, step, Seq::empty()))
        } else {
            None
        }
    } else {
        match outcome {
            Ok(_) => None,
            Err(error) => Some(failure_text(origin, step, error@)),
        }
    }
}

/// What is to be done next.
#[derive(Debug)]
pub enum StartAction {
    Perform(StartStep),
    /// The recording is under way and announced.
    Started,
    /// The start ends here. A text for a notice goes with it where the model is not ready.
    Refused { message: String, notice: Option<&'static str> },
}

/// The user is told of a model that is not ready by a notice too.
pub open spec fn has_notice(origin: StartOrigin, step: StartStep) -> bool {
    step == StartStep::Model && origin != StartOrigin::Controlled
}

/// The start of a recording.
pub struct StartRun {
    pub origin: StartOrigin,
    /// The number of steps that went well.
    pub done: usize,
}

/// The flags once `done` steps went well: a recording is under way as soon as only the
/// announcement is left, and the replay of controlled input may begin.
pub open spec fn flags_after(origin: StartOrigin, done: int, flags: RecordingFlags) -> RecordingFlags {
    if done == plan(origin).len() - 1 {
        RecordingFlags {
            recording: true,
            replay_cancelled: flags.replay_cancelled && origin != StartOrigin::Controlled,
        }
    } else {
        flags
    }
}

impl StartRun {
    /// The step that is due.
    pub open spec fn step(self) -> StartStep {
        plan(self.origin)[self.done as int]
    }

    /// The way is not at its end.
    pub open spec fn is_under_way(self) -> bool {
        self.done < plan(self.origin).len()
    }

    /// Begins to start a recording.
    pub fn start(origin: StartOrigin) -> (r: (StartRun, StartAction))
        ensures
            r.0 == (StartRun { origin, done: 0 }),
            r.0.is_under_way(),
            r.1 == StartAction::Perform(r.0.step()),
    {
        let steps = start_plan(origin);
        (StartRun { origin, done: 0 }, StartAction::Perform(steps[0]))
    }

    /// The step that was due ended.
    pub fn advance(&mut self, flags: &mut RecordingFlags, outcome: Result<(), String>) -> (r:
        StartAction)
        requires
            old(self).is_under_way(),
        ensures
            final(self).origin == old(self).origin,
            match refusal(old(self).origin, old(self).step(), old(flags).recording, outcome) {
                Some(text) => {
                    &&& final(self).done == old(self).done
                    &&& *final(flags) == *old(flags)
                    &&& (r matches StartAction::Refused { message, notice } && message@ == text
                        && match notice {
                        Some(notice) => has_notice(old(self).origin, old(self).step()) && notice@
                            == "Recording cannot start: Transcription model is still downloading. Please wait for the download to complete."@,
                        None => !has_notice(old(self).origin, old(self).step()),
                    })
                },
                None => {
                    &&& final(self).done == old(self).done + 1
                    &&& *final(flags) == flags_after(
                        old(self).origin, final(self).done as int, *old(flags))
                    &&& r == if final(self).is_under_way() {
                        StartAction::Perform(final(self).step())
                    } else {
                        StartAction::Started
                    }
                },
            },
    {
        let steps = start_plan(self.origin);
        let step = steps[self.done];
        let failure: Option<String> = if step == StartStep::Idle {
            if flags.recording {
                Some(describe_failure(self.origin, step, ""))
            } else {
                None
            }
        } else {
            match outcome {
                Ok(_) => None,
                Err(error) => Some(describe_failure(self.origin, step, error.as_str())),
            }
        };
        if let Some(message) = failure {
            let notice = if step == StartStep::Model && self.origin != StartOrigin::Controlled {
                Some(
                    "Recording cannot start: Transcription model is still downloading. Please wait for the download to complete.",
                )
            } else {
                None
            };
            return StartAction::Refused { message, notice };
        }
        self.done = self.done + 1;
        if self.done == steps.len() {
            return StartAction::Started;
        }
        if self.done == steps.len() - 1 {
            flags.recording = true;
            if self.origin == StartOrigin::Controlled {
                flags.replay_cancelled = false;
            }
        }
        StartAction::Perform(steps[self.done])
    }
}

/// Why a recording cannot start, from step `from` on: the first step that fails says it.
pub open spec fn first_refusal(
    origin: StartOrigin,
    recording: bool,
    outcomes: Seq<Result<(), String>>,
    from: int,
) -> Option<Seq<char>>
    decreases plan(origin).len() - from,
{
    if from >= plan(origin).len() {
        None
    } else {
        match refusal(origin, plan(origin)[from], recording, outcomes[from]) {
            Some(text) => Some(text),
            None => first_refusal(origin, recording, outcomes, from + 1),
        }
    }
}

/// The first `to` steps all go well.
pub open spec fn all_pass(
    origin: StartOrigin,
    recording: bool,
    outcomes: Seq<Result<(), String>>,
    to: int,
) -> bool {
    forall|i: int| 0 <= i < to ==> refusal(
        origin, #[trigger] plan(origin)[i], recording, outcomes[i]) is None
}

/// Starts a recording, given how each step ends. It is under way exactly when every step before
/// the announcement went well, and the start is a success when that did too.
#[verifier::loop_isolation(false)]
pub fn start_recording(
    origin: StartOrigin,
    flags: &mut RecordingFlags,
    outcomes: Vec<Result<(), String>>,
) -> (r: Result<(), String>)
    requires
        outcomes@.len() == plan(origin).len(),
    ensures
        match r {
            Ok(_) => first_refusal(origin, old(flags).recording, outcomes@, 0) is None,
            Err(message) => first_refusal(origin, old(flags).recording, outcomes@, 0) == Some(
                message@),
        },
        *final(flags) == if all_pass(
            origin, old(flags).recording, outcomes@, plan(origin).len() - 1) {
            flags_after(origin, plan(origin).len() - 1, *old(flags))
        } else {
            *old(flags)
        },
{
    let ghost before = *flags;
    let ghost given = outcomes@;
    let mut remaining = outcomes;
    let (mut run, _first) = StartRun::start(origin);
    proof {
        only_early_steps_look_for_a_recording(origin);
    }
    while remaining.len() > 0
        invariant
            run.origin == origin,
            run.done + remaining@.len() == plan(origin).len(),
            given.len() == plan(origin).len(),
            forall|i: int|
                0 <= i < remaining@.len() ==> #[trigger] remaining@[i] == given[run.done + i],
            all_pass(origin, before.recording, given, run.done as int),
            first_refusal(origin, before.recording, given, 0) == first_refusal(
                origin, before.recording, given, run.done as int),
            *flags == if run.done < plan(origin).len() - 1 {
                before
            } else {
                flags_after(origin, plan(origin).len() - 1, before)
            },
            plan(origin).len() >= 2,
            plan(origin).last() != StartStep::Idle,
        decreases remaining@.len(),
    {
        let ghost at = run.done as int;
        let outcome = remaining.remove(0);
        let action = run.advance(flags, outcome);
        assert(at == plan(origin).len() - 1 ==> plan(origin)[at] == plan(origin).last());
        if let StartAction::Refused { message, notice: _ } = action {
            assert(first_refusal(origin, before.recording, given, at) == Some(message@));
            assert(at < plan(origin).len() - 1 ==> !all_pass(
                origin, before.recording, given, plan(origin).len() - 1)) by {
                assert(refusal(origin, plan(origin)[at], before.recording, given[at]) is Some);
            }
            return Err(message);
        }
    }
    Ok(())
}

proof fn only_early_steps_look_for_a_recording(origin: StartOrigin)
    ensures
        plan(origin).len() >= 2,
        plan(origin).last() == StartStep::Announce,
{
}

/// Law: a recording is only started once no other is under way and the model is ready, and it is
/// only announced once audio is captured.
pub proof fn capture_comes_after_every_check(origin: StartOrigin)
    ensures
        exists|idle: int, model: int, capture: int|
            0 <= idle < model < capture < plan(origin).len() - 1
                && #[trigger] plan(origin)[idle] == StartStep::Idle
                && #[trigger] plan(origin)[model] == StartStep::Model
                && #[trigger] plan(origin)[capture] == StartStep::Capture,
        plan(origin).last() == StartStep::Announce,
        forall|i: int, j: int|
            0 <= i < plan(origin).len() && 0 <= j < plan(origin).len() && i != j
                ==> #[trigger] plan(origin)[i] != #[trigger] plan(origin)[j],
{
    let p = plan(origin);
    match origin {
        StartOrigin::Preferences => {
            assert(p[2] == StartStep::Idle && p[3] == StartStep::Model && p[10]
                == StartStep::Capture);
        },
        StartOrigin::Selection => {
            assert(p[2] == StartStep::Idle && p[3] == StartStep::Model && p[10]
                == StartStep::Capture);
        },
        StartOrigin::Controlled => {
            assert(p[0] == StartStep::Idle && p[5] == StartStep::Model && p[8]
                == StartStep::Capture);
        },
    }
}

/// Law: while a recording is under way no other can be started, and asking for one changes
/// nothing.
pub proof fn only_one_recording_at_a_time(
    origin: StartOrigin,
    outcomes: Seq<Result<(), String>>,
)
    requires
        outcomes.len() == plan(origin).len(),
    ensures
        first_refusal(origin, true, outcomes, 0) is Some,
        !all_pass(origin, true, outcomes, plan(origin).len() - 1),
{
    capture_comes_after_every_check(origin);
    let idle = choose|idle: int|
        0 <= idle < plan(origin).len() - 1 && #[trigger] plan(origin)[idle] == StartStep::Idle;
    assert(refusal(origin, plan(origin)[idle], true, outcomes[idle]) is Some);
    refused_from(origin, outcomes, 0, idle);
}

proof fn refused_from(origin: StartOrigin, outcomes: Seq<Result<(), String>>, from: int, idle: int)
    requires
        0 <= from <= idle < plan(origin).len(),
        plan(origin)[idle] == StartStep::Idle,
    ensures
        first_refusal(origin, true, outcomes, from) is Some,
    decreases idle - from,
{
    if from < idle {
        refused_from(origin, outcomes, from + 1, idle);
    }
}

/// The state once devices that took the place of others are on record, one incident for each.
pub open spec fn with_fallbacks(state: State, fallbacks: Seq<DeviceFallback>) -> State
    decreases fallbacks.len(),
{
    if fallbacks.len() == 0 {
        state
    } else {
        with_fallbacks(state, fallbacks.drop_last()).incident_opened(
            fallbacks.last().route@, "preferred_device_fallback"@, None, None)
    }
}

/// Puts on record which devices took the place of others. A recording that starts forgets earlier
/// evidence, so this comes after its start.
pub fn record_fallbacks(state: &mut RecordingState, fallbacks: &Vec<DeviceFallback>)
    ensures
        final(state)@ == with_fallbacks(old(state)@, fallbacks@),
{
    let ghost before = state@;
    let mut i: usize = 0;
    while i < fallbacks.len()
        invariant
            i <= fallbacks@.len(),
            state@ == with_fallbacks(before, fallbacks@.take(i as int)),
        decreases fallbacks@.len() - i,
    {
        state.record_device_fallback(fallbacks[i].route);
        assert(fallbacks@.take(i + 1).drop_last() =~= fallbacks@.take(i as int));
        i = i + 1;
    }
    assert(fallbacks@.take(fallbacks@.len() as int) =~= fallbacks@);
}

/// The name of a meeting: its own, or one made of `stamp`.
pub fn meeting_name_or(meeting_name: Option<String>, stamp: &str) -> (r: String)
    ensures
        r@ == match meeting_name {
            Some(name) => name@,
            None => "Meeting "@ + stamp@,
        },
{
    match meeting_name {
        Some(name) => name,
        None => text::joined("Meeting ", stamp),
    }
}

/// The name of a meeting: its own, or one made of the time.
pub fn effective_meeting_name(meeting_name: Option<String>) -> (r: String)
    ensures
        match meeting_name {
            Some(name) => r@ == name@,
            None => exists|stamp: Seq<char>|
                #[trigger] outside::is_name_stamp(stamp) && r@ == "Meeting "@ + stamp,
        },
{
    let stamp = outside::local_name_stamp();
    meeting_name_or(meeting_name, stamp.as_str())
}

/// The name of a meeting that is recorded from controlled input.
pub fn controlled_meeting_name(meeting_name: Option<String>, baseline_snapshot_id: &str) -> (r:
    String)
    ensures
        r@ == match meeting_name {
            Some(name) => name@,
            None => "D11 "@ + baseline_snapshot_id@,
        },
{
    match meeting_name {
        Some(name) => name,
        None => text::joined("D11 ", baseline_snapshot_id),
    }
}

/// What is announced of a recording from devices that started.
#[derive(Debug)]
pub struct RecordingStarted {
    pub message: &'static str,
    pub microphone: String,
    pub system_audio: String,
    pub workers: u32,
    pub recording_context_id: Option<String>,
    pub recognition_context_enabled: bool,
}

/// The name that a device is announced by.
pub open spec fn announced_name(
    origin: StartOrigin,
    name: Option<Seq<char>>,
    fallback: Seq<char>,
) -> Seq<char> {
    match name {
        Some(name) if origin == StartOrigin::Selection => name,
        _ => fallback,
    }
}

fn announced(origin: StartOrigin, name: Option<String>, fallback: &str) -> (r: String)
    ensures
        r@ == announced_name(origin, text_of(name), fallback@),
{
    match name {
        Some(name) if origin == StartOrigin::Selection => name,
        _ => fallback.to_owned(),
    }
}

/// Announces a recording from devices. Only devices that were chosen for it are named.
pub fn announce_start(
    origin: StartOrigin,
    microphone: Option<String>,
    system_audio: Option<String>,
    recording_context_id: Option<String>,
) -> (r: RecordingStarted)
    ensures
        r.message@ == if origin == StartOrigin::Selection {
            "Recording started with custom devices and parallel processing"@
        } else {
            "Recording started successfully with parallel processing"@
        },
        r.microphone@ == announced_name(origin, text_of(microphone), "Default Microphone"@),
        r.system_audio@ == announced_name(origin, text_of(system_audio), "Default System Audio"@),
        r.workers == 3,
        r.recording_context_id == recording_context_id,
        r.recognition_context_enabled == (recording_context_id is Some),
{
    let recognition_context_enabled: bool = recording_context_id.is_some();
    RecordingStarted {
        message: if origin == StartOrigin::Selection {
            "Recording started with custom devices and parallel processing"
        } else {
            "Recording started successfully with parallel processing"
        },
        microphone: announced(origin, microphone, "Default Microphone"),
        system_audio: announced(origin, system_audio, "Default System Audio"),
        workers: 3,
        recording_context_id,
        recognition_context_enabled,
    }
}

/// Law: a step keeps a recording from starting exactly when it fails, or, where it asks whether one
/// runs, when one does; what is told names the error.
pub proof fn a_failed_step_keeps_a_recording_from_starting(
    origin: StartOrigin,
    step: StartStep,
    recording: bool,
    outcome: Result<(), String>,
)
    ensures
        refusal(origin, StartStep::Idle, true, outcome) == Some("Recording already in progress"@),
        refusal(origin, StartStep::Idle, false, outcome) is None,
        step != StartStep::Idle ==> (refusal(origin, step, recording, outcome) is Some
            <==> outcome is Err),
        step != StartStep::Idle && step != StartStep::Recorder ==> (outcome matches Err(error)
            ==> (refusal(origin, step, recording, outcome) matches Some(text) && text.len()
            >= error@.len() && text.skip(text.len() - error@.len()) == error@)),
{
    if let Err(error) = outcome {
        let text = failure_text(origin, step, error@);
        if step != StartStep::Idle && step != StartStep::Recorder {
            assert(text.skip(text.len() - error@.len()) =~= error@);
        }
    }
}

/// Law: a recording counts as running only once its audio is captured: every step before that
/// leaves the flags as they were, and only a start from controlled input forgets an old request to
/// stop its replay.
pub proof fn a_recording_runs_once_it_captures(
    origin: StartOrigin,
    done: int,
    flags: RecordingFlags,
)
    requires
        0 <= done < plan(origin).len(),
    ensures
        done < plan(origin).len() - 1 ==> flags_after(origin, done, flags) == flags,
        done == plan(origin).len() - 1 ==> flags_after(origin, done, flags).recording,
        origin != StartOrigin::Controlled ==> flags_after(
            origin, done, flags).replay_cancelled == flags.replay_cancelled,
        done == plan(origin).len() - 1 && origin == StartOrigin::Controlled ==> !flags_after(
            origin, done, flags).replay_cancelled,
{
}

/// Law: a start is refused exactly when a step is, and for the reason of the first such step.
pub proof fn the_first_failed_step_is_told(
    origin: StartOrigin,
    recording: bool,
    outcomes: Seq<Result<(), String>>,
    from: int,
    i: int,
)
    requires
        0 <= from <= i < plan(origin).len(),
        forall|j: int| from <= j < i ==> refusal(
            origin, #[trigger] plan(origin)[j], recording, outcomes[j]) is None,
        refusal(origin, plan(origin)[i], recording, outcomes[i]) is Some,
    ensures
        first_refusal(origin, recording, outcomes, from) == refusal(
            origin, plan(origin)[i], recording, outcomes[i]),
    decreases i - from,
{
    if from < i {
        the_first_failed_step_is_told(origin, recording, outcomes, from + 1, i);
    }
}

/// Law: the name that is told of a meeting is its own where the user gave one with the devices.
pub proof fn given_names_are_told(
    origin: StartOrigin,
    name: Seq<char>,
    fallback: Seq<char>,
)
    ensures
        announced_name(StartOrigin::Selection, Some(name), fallback) == name,
        announced_name(origin, None, fallback) == fallback,
        origin != StartOrigin::Selection ==> announced_name(origin, Some(name), fallback)
            == fallback,
{
}

/// Law: whoever starts a recording, the right to record and to store is taken, no other recording
/// runs, the model is ready and the engine is set up before any audio is captured; a user's
/// recording also has its folder, its metadata and its devices by then, and controlled input is
/// prepared, checked and bound. After the capture only what needs it is left.
pub proof fn nothing_is_captured_before_it_is_ready(origin: StartOrigin)
    ensures
        ({
            let steps = plan(origin);
            let capture = steps.index_of(StartStep::Capture);
            let before = steps.take(capture);
            &&& steps.contains(StartStep::Capture)
            &&& before.contains(StartStep::Activity) && before.contains(StartStep::Storage)
                && before.contains(StartStep::Idle) && before.contains(StartStep::Model)
                && before.contains(StartStep::Engine)
            &&& origin != StartOrigin::Controlled ==> before.contains(StartStep::SaveFolder)
                && before.contains(StartStep::Template) && before.contains(StartStep::Context)
                && before.contains(StartStep::Microphone) && before.contains(
                StartStep::SystemAudio)
            &&& origin == StartOrigin::Controlled ==> before.contains(StartStep::Preparation)
                && before.contains(StartStep::Contract) && before.contains(
                StartStep::BindContract)
            &&& steps.last() == StartStep::Announce
            &&& forall|i: int| capture < i < steps.len() ==> #[trigger] steps[i]
                == StartStep::Recorder || steps[i] == StartStep::Announce
        }),
{
    let steps = plan(origin);
    let capture: int = if origin == StartOrigin::Controlled { 8 } else { 10 };
    assert(steps[capture] == StartStep::Capture);
    assert(steps.contains(StartStep::Capture));
    let found = steps.index_of(StartStep::Capture);
    assert(found == capture) by {
        assert(steps[found] == StartStep::Capture);
        capture_comes_after_every_check(origin);
    }
    let before = steps.take(capture);
    assert(before[0] == steps[0] && before[1] == steps[1] && before[2] == steps[2] && before[3]
        == steps[3] && before[4] == steps[4] && before[5] == steps[5] && before[6] == steps[6]
        && before[7] == steps[7]);
    if origin != StartOrigin::Controlled {
        assert(before[8] == steps[8] && before[9] == steps[9]);
    }
}

/// Law: each device that stands in for another one is on record, once for its route.
pub proof fn stand_ins_are_on_record(state: State, fallbacks: Seq<DeviceFallback>, i: int)
    requires
        0 <= i < fallbacks.len(),
    ensures
        crate::recording_state::evidence::has_open(
            with_fallbacks(state, fallbacks).incidents,
            state.device_epoch,
            fallbacks[i].route@,
            "preferred_device_fallback"@,
        ),
        with_fallbacks(state, fallbacks).device_epoch == state.device_epoch,
        with_fallbacks(state, fallbacks).recording == state.recording,
    decreases fallbacks.len(),
{
    let code = "preferred_device_fallback"@;
    let fewer = fallbacks.drop_last();
    let before = with_fallbacks(state, fewer);
    let after = with_fallbacks(state, fallbacks);
    fallbacks_keep_the_epoch(state, fewer);
    if i < fewer.len() {
        stand_ins_are_on_record(state, fewer, i);
        let k = choose|k: int|
            0 <= k < before.incidents.len() && crate::recording_state::evidence::open_on(
                #[trigger] before.incidents[k], state.device_epoch, fallbacks[i].route@)
                && before.incidents[k].code == code;
        assert(after.incidents[k] == before.incidents[k]);
    } else if !crate::recording_state::evidence::has_open(
        before.incidents, before.device_epoch, fallbacks[i].route@, code) {
        let last = after.incidents[before.incidents.len() as int];
        assert(crate::recording_state::evidence::open_on(
            last, state.device_epoch, fallbacks[i].route@));
        assert(last.code == code);
    }
}

proof fn fallbacks_keep_the_epoch(state: State, fallbacks: Seq<DeviceFallback>)
    ensures
        with_fallbacks(state, fallbacks).device_epoch == state.device_epoch,
        with_fallbacks(state, fallbacks).recording == state.recording,
    decreases fallbacks.len(),
{
    if fallbacks.len() > 0 {
        fallbacks_keep_the_epoch(state, fallbacks.drop_last());
    }
}

} // verus!
