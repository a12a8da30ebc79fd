//! Changing to other devices while a recording runs.
//!
//! The old streams have two seconds to stop and to work off what they captured. Whatever goes
//! wrong, the cutover on record gets exactly one outcome.

use vstd::prelude::*;
use vstd::string::*;

use crate::recording_state::evidence::active_cutover;
use crate::recording_state::model::State;
use crate::recording_state::state::RecordingState;
use crate::text;

verus! {

/// Why the streams could not be changed.
#[derive(Debug)]
pub enum RebindError {
    /// The capture clock could not be read.
    ClockFailed(String),
    DeadlineExpiredBeforeStop,
    /// The old streams did not stop.
    StopFailed(String),
    DrainTimedOut { in_flight: u64 },
    DrainedTooLate,
}

impl RebindError {
    /// The text that describes the failure.
    pub open spec fn text(self) -> Seq<char> {
        match self {
            RebindError::ClockFailed(error) => error@,
            RebindError::DeadlineExpiredBeforeStop =>
                "Audio callback drain deadline expired before old streams could stop"@,
            RebindError::StopFailed(error) => error@,
            RebindError::DrainTimedOut { in_flight } =>
                "Audio callback drain reached the 2 second QPC deadline with "@
                + text::decimal_digits(in_flight as nat) + " callbacks still active"@,
            RebindError::DrainedTooLate =>
                "Audio callback drain completed after the 2 second QPC deadline"@,
        }
    }

    pub fn message(&self) -> (r: String)
        ensures
            r@ == self.text(),
    {
        match self {
            RebindError::ClockFailed(error) => error.clone(),
            RebindError::DeadlineExpiredBeforeStop =>
                "Audio callback drain deadline expired before old streams could stop".to_owned(),
            RebindError::StopFailed(error) => error.clone(),
            RebindError::DrainTimedOut { in_flight } => {
                let mut r = text::joined(
                    "Audio callback drain reached the 2 second QPC deadline with ",
                    text::decimal(*in_flight).as_str(),
                );
                r.append(" callbacks still active");
                r
            },
            RebindError::DrainedTooLate =>
                "Audio callback drain completed after the 2 second QPC deadline".to_owned(),
        }
    }
}

/// What is to be done while the old streams are drained.
#[derive(Debug, Clone, Copy, PartialEq, Eq, Structural)]
pub enum DrainStep {
    /// Nothing is at work any more.
    Drained,
    /// Look again after this many milliseconds.
    Wait { millis: u64 },
}

/// A change of streams that is under way.
#[derive(Debug, Clone, Copy, PartialEq, Eq, Structural)]
pub struct StreamRebind {
    pub deadline_qpc_ns: u64,
}

impl StreamRebind {
    /// By the capture clock there is time left to drain the old streams.
    pub open spec fn on_time(self, now: Result<u64, String>) -> bool {
        now matches Ok(now) && now < self.deadline_qpc_ns
    }

    /// Begins to close the present epoch, whose audio counts up to the watermark.
    pub fn begin(state: &mut RecordingState, watermark_qpc_ns: u64) -> (r: StreamRebind)
        ensures
            r.deadline_qpc_ns == State::drain_deadline(watermark_qpc_ns),
            final(state)@ == old(state)@.cutover_begun(watermark_qpc_ns),
    {
        StreamRebind { deadline_qpc_ns: state.begin_device_cutover(watermark_qpc_ns) }
    }

    /// How long the old streams have to stop, in nanoseconds, by the capture clock.
    pub fn time_to_stop(&self, state: &mut RecordingState, now: Result<u64, String>) -> (r: Result<
        u64,
        RebindError,
    >)
        ensures
            r is Ok == self.on_time(now),
            match now {
                Err(error) => {
                    &&& r == Err::<u64, RebindError>(RebindError::ClockFailed(error))
                    &&& final(state)@ == old(state)@.cutover_aborted(
                        "qpc_read_failed_before_stop"@)
                },
                Ok(now) => if now < self.deadline_qpc_ns {
                    &&& r == Ok::<u64, RebindError>((self.deadline_qpc_ns - now) as u64)
                    &&& final(state)@ == old(state)@
                } else {
                    &&& r == Err::<u64, RebindError>(RebindError::DeadlineExpiredBeforeStop)
                    &&& final(state)@ == old(state)@.cutover_aborted(
                        "drain_deadline_expired_before_stop"@)
                },
            },
    {
        match now {
            Err(error) => {
                let _epoch: u64 = state.abort_device_cutover("qpc_read_failed_before_stop");
                Err(RebindError::ClockFailed(error))
            },
            Ok(now) => {
                let remaining: u64 = self.deadline_qpc_ns.saturating_sub(now);
                if remaining == 0 {
                    let _epoch: u64 = state.abort_device_cutover(
                        "drain_deadline_expired_before_stop");
                    return Err(RebindError::DeadlineExpiredBeforeStop);
                }
                Ok(remaining)
            },
        }
    }

    /// The old streams stopped, or not.
    pub fn streams_stopped(&self, state: &mut RecordingState, outcome: Result<(), String>) -> (r:
        Result<(), RebindError>)
        ensures
            match outcome {
                Ok(_) => r is Ok && final(state)@ == old(state)@,
                Err(error) => {
                    &&& r == Err::<(), RebindError>(RebindError::StopFailed(error))
                    &&& final(state)@ == old(state)@.cutover_aborted("stop_streams_failed"@)
                },
            },
    {
        match outcome {
            Ok(_) => Ok(()),
            Err(error) => {
                let _epoch: u64 = state.abort_device_cutover("stop_streams_failed");
                Err(RebindError::StopFailed(error))
            },
        }
    }

    /// Looks whether producers are still at work. `now` is the capture clock; it counts only while
    /// they are.
    pub fn drain(&self, state: &mut RecordingState, now: Result<u64, String>) -> (r: Result<
        DrainStep,
        RebindError,
    >)
        ensures
            r is Ok == (old(state)@.in_flight_callbacks == 0 || self.on_time(now)),
            if old(state)@.in_flight_callbacks == 0 {
                r == Ok::<DrainStep, RebindError>(DrainStep::Drained) && final(state)@
                    == old(state)@
            } else {
                match now {
                    Err(error) => {
                        &&& r == Err::<DrainStep, RebindError>(RebindError::ClockFailed(error))
                        &&& final(state)@ == old(state)@.cutover_aborted(
                            "qpc_read_failed_during_drain"@)
                    },
                    Ok(now) => if now >= self.deadline_qpc_ns {
                        &&& r == Err::<DrainStep, RebindError>(
                            RebindError::DrainTimedOut {
                                in_flight: old(state)@.in_flight_callbacks,
                            },
                        )
                        &&& final(state)@ == old(state)@.cutover_aborted(
                            "callback_drain_timeout"@)
                    } else {
                        r == Ok::<DrainStep, RebindError>(DrainStep::Wait { millis: 5 })
                            && final(state)@ == old(state)@
                    },
                }
            },
    {
        let (in_flight, _) = state.callback_drain_state();
        if in_flight == 0 {
            return Ok(DrainStep::Drained);
        }
        match now {
            Err(error) => {
                let _epoch: u64 = state.abort_device_cutover("qpc_read_failed_during_drain");
                Err(RebindError::ClockFailed(error))
            },
            Ok(now) => {
                if now >= self.deadline_qpc_ns {
                    let _epoch: u64 = state.abort_device_cutover("callback_drain_timeout");
                    return Err(RebindError::DrainTimedOut { in_flight });
                }
                Ok(DrainStep::Wait { millis: 5 })
            },
        }
    }

    /// The old streams are drained: the next epoch begins, if it is not too late. Returns its
    /// number.
    pub fn complete(&self, state: &mut RecordingState, now: Result<u64, String>) -> (r: Result<
        u64,
        RebindError,
    >)
        ensures
            r is Ok == self.on_time(now),
            match now {
                Err(error) => {
                    &&& r == Err::<u64, RebindError>(RebindError::ClockFailed(error))
                    &&& final(state)@ == old(state)@.cutover_aborted(
                        "qpc_read_failed_after_drain"@)
                },
                Ok(now) => if now >= self.deadline_qpc_ns {
                    &&& r == Err::<u64, RebindError>(RebindError::DrainedTooLate)
                    &&& final(state)@ == old(state)@.cutover_aborted(
                        "callback_drain_completed_after_deadline"@)
                } else {
                    &&& final(state)@ == old(state)@.next_epoch()
                    &&& r == Ok::<u64, RebindError>(final(state)@.device_epoch)
                },
            },
    {
        match now {
            Err(error) => {
                let _epoch: u64 = state.abort_device_cutover("qpc_read_failed_after_drain");
                Err(RebindError::ClockFailed(error))
            },
            Ok(now) => {
                if now >= self.deadline_qpc_ns {
                    let _epoch: u64 = state.abort_device_cutover(
                        "callback_drain_completed_after_deadline");
                    return Err(RebindError::DrainedTooLate);
                }
                Ok(state.advance_device_epoch())
            },
        }
    }
}

/// Where there is no capture clock, the next epoch begins once the old streams stopped.
pub fn rebind_without_clock(state: &mut RecordingState, stopped: Result<(), String>) -> (r: Result<
    u64,
    RebindError,
>)
    ensures
        match stopped {
            Ok(_) => {
                &&& final(state)@ == old(state)@.next_epoch()
                &&& r == Ok::<u64, RebindError>(final(state)@.device_epoch)
            },
            Err(error) => r == Err::<u64, RebindError>(RebindError::StopFailed(error))
                && final(state)@ == old(state)@,
        },
{
    match stopped {
        Ok(_) => Ok(state.advance_device_epoch()),
        Err(error) => Err(RebindError::StopFailed(error)),
    }
}

/// Law: a change that is given up begins exactly one new epoch, and its cutover is on record as
/// failed for that reason.
pub proof fn abandoned_rebind_is_on_record(state: State, watermark_qpc_ns: u64, reason: Seq<char>)
    ensures
        ({
            let after = state.cutover_begun(watermark_qpc_ns).cutover_aborted(reason);
            &&& after.device_epoch == state.device_epoch.wrapping_add(1)
            &&& after.cutovers.len() == state.cutovers.len() + 1
            &&& after.cutovers.last().terminal_result == "failed"@
            &&& after.cutovers.last().error == Some(reason)
            &&& after.completed_epochs.len() == state.completed_epochs.len() + 1
        }),
{
    let begun = state.cutover_begun(watermark_qpc_ns);
    assert(active_cutover(begun.cutovers) == begun.cutovers.len() - 1);
}

/// Law: a change that succeeds begins exactly one new epoch, and its cutover is on record as
/// rebound to it. If it then turns out not to be saved, that record says so instead.
pub proof fn completed_rebind_is_on_record(state: State, watermark_qpc_ns: u64, reason: Seq<char>)
    ensures
        ({
            let begun = state.cutover_begun(watermark_qpc_ns);
            let drained = begun.next_epoch();
            let finished = drained.cutover_finished(drained.device_epoch);
            let failed = finished.cutover_failed(drained.device_epoch, reason);
            &&& finished.device_epoch == state.device_epoch.wrapping_add(1)
            &&& finished.cutovers.len() == state.cutovers.len() + 1
            &&& finished.cutovers.last().terminal_result == "rebound"@
            &&& finished.cutovers.last().new_device_epoch == Some(finished.device_epoch)
            &&& finished.cutovers.last().old_device_epoch == state.device_epoch
            &&& failed.cutovers.len() == finished.cutovers.len()
            &&& failed.cutovers.last().terminal_result == "failed"@
            &&& failed.cutovers.last().error == Some(reason)
        }),
{
    let begun = state.cutover_begun(watermark_qpc_ns);
    assert(active_cutover(begun.cutovers) == begun.cutovers.len() - 1);
}

/// Law: the old streams have two seconds from the watermark, by a clock that can be read.
pub proof fn old_streams_have_two_seconds(watermark_qpc_ns: u64, now_qpc_ns: u64, error: String)
    requires
        watermark_qpc_ns + 2_000_000_000 <= u64::MAX,
    ensures
        ({
            let rebind = StreamRebind { deadline_qpc_ns: State::drain_deadline(watermark_qpc_ns) };
            &&& rebind.on_time(Ok(now_qpc_ns)) <==> now_qpc_ns < watermark_qpc_ns + 2_000_000_000
            &&& !rebind.on_time(Err(error))
        }),
{
}

} // verus!
