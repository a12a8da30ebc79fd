//! What holds of a recording whatever happens to it.

use vstd::prelude::*;

use crate::recording_state::error::AudioError;
use crate::recording_state::evidence::{
    active_cutover, closed, has_open, in_progress, open_on, settled, Cutover, Incident,
};
use crate::recording_state::model::{
    elapsed, first_of_epoch, CutoverCounters, DeviceType, MuteTracking, RouteCounters, State,
    MAX_RECOVERABLE_ERRORS, MAX_TOTAL_ERRORS, NO_EPOCH,
};

verus! {

/// Law: a callback on one route changes no counter of the other.
pub proof fn routes_are_independent(
    state: State,
    device_type: DeviceType,
    other: DeviceType,
    samples: nat,
    channels: u16,
    rms_bits: u32,
    peak_bits: u32,
)
    requires
        device_type != other,
    ensures
        state.route_callback(device_type, samples, channels, rms_bits, peak_bits).route(other)
            == state.route(other),
{
}

/// Law: whatever came before, a new recording starts with no counts, no incidents, no cutovers
/// and no errors, in epoch zero.
pub proof fn start_forgets_the_past(state: State, now_ns: u64)
    ensures
        state.started(now_ns).route(DeviceType::Microphone) == RouteCounters::zero(),
        state.started(now_ns).route(DeviceType::System) == RouteCounters::zero(),
        state.started(now_ns).mute == MuteTracking::zero(),
        state.started(now_ns).cutover == CutoverCounters::none(),
        state.started(now_ns).device_epoch == 0,
        state.started(now_ns).in_flight_callbacks == 0,
        state.started(now_ns).error_count == 0,
        state.started(now_ns).last_error is None,
        state.started(now_ns).incidents.len() == 0,
        state.started(now_ns).cutovers.len() == 0,
        state.started(now_ns).completed_epochs.len() == 0,
        !state.started(now_ns).timeline_open(),
{
}

/// Law: the next epoch starts with no counts, and the evidence of the present one is kept.
pub proof fn epoch_is_kept_on_record(state: State)
    ensures
        state.next_epoch().microphone == RouteCounters::zero(),
        state.next_epoch().system == RouteCounters::zero(),
        state.next_epoch().mute == MuteTracking::zero(),
        state.next_epoch().system_format is None,
        state.next_epoch().completed_epochs.last() == state.epoch_evidence(),
        state.next_epoch().completed_epochs.drop_last() == state.completed_epochs,
        state.next_epoch().incidents == state.incidents,
        state.next_epoch().cutovers == state.cutovers,
{
}

/// Law: where no epoch on record has the present number, the evidence is the record with the
/// present epoch added at the end.
pub proof fn evidence_adds_the_present_epoch(state: State)
    requires
        forall|i: int| 0 <= i < state.completed_epochs.len() ==> (
        #[trigger] state.completed_epochs[i]).device_epoch != state.device_epoch,
    ensures
        state.evidence().epochs == state.completed_epochs.push(state.epoch_evidence()),
{
    unrecorded_epoch_is_not_found(state.completed_epochs, state.device_epoch);
}

proof fn unrecorded_epoch_is_not_found(
    epochs: Seq<crate::recording_state::evidence::EpochEvidence>,
    epoch: u64,
)
    requires
        forall|i: int| 0 <= i < epochs.len() ==> (#[trigger] epochs[i]).device_epoch != epoch,
    ensures
        first_of_epoch(epochs, epoch) is None,
    decreases epochs.len(),
{
    if epochs.len() > 0 {
        let shorter = epochs.drop_last();
        assert forall|i: int| 0 <= i < shorter.len() implies (#[trigger] shorter[i]).device_epoch
            != epoch by {
            assert(shorter[i] == epochs[i]);
        }
        unrecorded_epoch_is_not_found(shorter, epoch);
        assert(epochs[epochs.len() - 1].device_epoch != epoch);
    }
}

/// Law: while an epoch closes, its audio is taken in when it was captured at or before the
/// watermark and dropped when it was captured later. Dropped frames are counted, and only they.
pub proof fn watermark_divides_the_audio(
    state: State,
    watermark_qpc_ns: u64,
    capture_qpc_ns: u64,
    frames: u64,
)
    ensures
        ({
            let closing = state.cutover_begun(watermark_qpc_ns);
            let epoch = state.device_epoch;
            let after = closing.callback_begun(epoch, Some(capture_qpc_ns), frames);
            &&& closing.callback_accepted(epoch, Some(capture_qpc_ns)) <==> capture_qpc_ns
                <= watermark_qpc_ns
            &&& after.cutover.late_callback_dropped_frames == if capture_qpc_ns
                <= watermark_qpc_ns {
                0
            } else {
                frames
            }
            &&& after.cutover.attribution_error_frames == 0
            &&& after.in_flight_callbacks == if capture_qpc_ns <= watermark_qpc_ns {
                closing.in_flight_callbacks.wrapping_add(1)
            } else {
                closing.in_flight_callbacks
            }
        }),
{
}

/// Law: audio of an epoch other than the present one is never taken in.
pub proof fn stale_audio_is_dropped(
    state: State,
    epoch: u64,
    capture_qpc_ns: Option<u64>,
    frames: u64,
)
    requires
        epoch != state.device_epoch,
    ensures
        !state.callback_accepted(epoch, capture_qpc_ns),
        state.callback_begun(epoch, capture_qpc_ns, frames).in_flight_callbacks
            == state.in_flight_callbacks,
        state.callback_begun(epoch, capture_qpc_ns, frames).cutover.late_callback_dropped_frames
            == state.cutover.late_callback_dropped_frames.wrapping_add(frames),
{
}

/// Law: a producer that begins and ends leaves the number of those at work as it was.
pub proof fn producers_are_balanced(
    state: State,
    epoch: u64,
    capture_qpc_ns: Option<u64>,
    frames: u64,
)
    requires
        state.callback_accepted(epoch, capture_qpc_ns),
    ensures
        state.callback_begun(epoch, capture_qpc_ns, frames).callback_left().in_flight_callbacks
            == state.in_flight_callbacks,
        state.callback_entered().callback_left() == state,
{
    assert(state.callback_entered().callback_left() =~= state);
}

/// No two incidents with the same code are open on a route in the same epoch.
pub open spec fn open_incidents_differ(incidents: Seq<Incident>) -> bool {
    forall|i: int, j: int|
        0 <= i < j < incidents.len() && (#[trigger] incidents[i]).recovered_qpc_ns is None && (
        #[trigger] incidents[j]).recovered_qpc_ns is None ==> incidents[i].device_epoch
            != incidents[j].device_epoch || incidents[i].route != incidents[j].route
            || incidents[i].code != incidents[j].code
}

/// Law: an incident that is open is not opened a second time.
pub proof fn incident_is_opened_once(
    state: State,
    route: Seq<char>,
    code: Seq<char>,
    started_qpc_ns: Option<u64>,
    callback_gap_ns: Option<u64>,
    again_started_qpc_ns: Option<u64>,
    again_callback_gap_ns: Option<u64>,
)
    ensures
        state.incident_opened(route, code, started_qpc_ns, callback_gap_ns).incident_opened(
            route, code, again_started_qpc_ns, again_callback_gap_ns)
            == state.incident_opened(route, code, started_qpc_ns, callback_gap_ns),
{
    let once = state.incident_opened(route, code, started_qpc_ns, callback_gap_ns);
    if !has_open(state.incidents, state.device_epoch, route, code) {
        let last = once.incidents[once.incidents.len() - 1];
        assert(open_on(last, state.device_epoch, route) && last.code == code);
    }
    assert(has_open(once.incidents, once.device_epoch, route, code));
}

/// Law: opening an incident keeps the open incidents distinct.
pub proof fn opening_keeps_incidents_distinct(
    state: State,
    route: Seq<char>,
    code: Seq<char>,
    started_qpc_ns: Option<u64>,
    callback_gap_ns: Option<u64>,
)
    requires
        open_incidents_differ(state.incidents),
    ensures
        open_incidents_differ(
            state.incident_opened(route, code, started_qpc_ns, callback_gap_ns).incidents),
{
    let after = state.incident_opened(route, code, started_qpc_ns, callback_gap_ns).incidents;
    assert forall|i: int, j: int|
        0 <= i < j < after.len() && (#[trigger] after[i]).recovered_qpc_ns is None && (
        #[trigger] after[j]).recovered_qpc_ns is None implies after[i].device_epoch
        != after[j].device_epoch || after[i].route != after[j].route || after[i].code
        != after[j].code by {
        assert(after[i] == state.incidents[i]);
        if j < state.incidents.len() {
            assert(after[j] == state.incidents[j]);
        } else {
            assert(!(open_on(state.incidents[i], state.device_epoch, route)
                && state.incidents[i].code == code));
        }
    }
}

/// An incident is as it was, or it was open on the route and is over now.
pub open spec fn kept_or_closed(
    before: Incident,
    now: Incident,
    epoch: u64,
    route: Seq<char>,
    recovered_qpc_ns: u64,
) -> bool {
    now == before || (open_on(before, epoch, route) && now == (Incident {
        recovered_qpc_ns: Some(recovered_qpc_ns),
        ..before
    }))
}

proof fn closed_keeps_identity(
    incidents: Seq<Incident>,
    epoch: u64,
    route: Seq<char>,
    recovered_qpc_ns: u64,
)
    ensures
        closed(incidents, epoch, route, recovered_qpc_ns).len() == incidents.len(),
        forall|i: int|
            #![trigger closed(incidents, epoch, route, recovered_qpc_ns)[i]]
            #![trigger incidents[i]]
            0 <= i < incidents.len() ==> kept_or_closed(
                incidents[i],
                closed(incidents, epoch, route, recovered_qpc_ns)[i],
                epoch,
                route,
                recovered_qpc_ns,
            ),
    decreases incidents.len(),
{
    if incidents.len() > 0 && incidents.last().device_epoch == epoch {
        let shorter = incidents.drop_last();
        let now = closed(incidents, epoch, route, recovered_qpc_ns);
        closed_keeps_identity(shorter, epoch, route, recovered_qpc_ns);
        assert forall|i: int| 0 <= i < incidents.len() implies kept_or_closed(
            #[trigger] incidents[i], now[i], epoch, route, recovered_qpc_ns) by {
            if i < shorter.len() {
                assert(shorter[i] == incidents[i]);
                assert(now[i] == closed(shorter, epoch, route, recovered_qpc_ns)[i]);
            }
        }
    }
}

/// Law: when a route recovers, an incident changes only if it was open on that route in that
/// epoch, and then only in when it was over; so open incidents stay distinct.
pub proof fn recovery_touches_only_its_route(
    incidents: Seq<Incident>,
    epoch: u64,
    route: Seq<char>,
    recovered_qpc_ns: u64,
)
    ensures
        closed(incidents, epoch, route, recovered_qpc_ns).len() == incidents.len(),
        forall|i: int| 0 <= i < incidents.len() && !open_on(incidents[i], epoch, route)
            ==> #[trigger] closed(incidents, epoch, route, recovered_qpc_ns)[i] == incidents[i],
        open_incidents_differ(incidents) ==> open_incidents_differ(
            closed(incidents, epoch, route, recovered_qpc_ns)),
{
    closed_keeps_identity(incidents, epoch, route, recovered_qpc_ns);
}

/// Law: when a route recovers, no incident of the epoch stays open on it, provided the record
/// is in the order of the epochs.
pub proof fn recovery_leaves_nothing_open(
    incidents: Seq<Incident>,
    epoch: u64,
    route: Seq<char>,
    recovered_qpc_ns: u64,
)
    requires
        forall|i: int, j: int|
            0 <= i <= j < incidents.len() ==> (#[trigger] incidents[i]).device_epoch <= (
            #[trigger] incidents[j]).device_epoch <= epoch,
    ensures
        forall|i: int| 0 <= i < incidents.len() ==> !open_on(
            #[trigger] closed(incidents, epoch, route, recovered_qpc_ns)[i], epoch, route),
    decreases incidents.len(),
{
    closed_keeps_identity(incidents, epoch, route, recovered_qpc_ns);
    if incidents.len() > 0 {
        if incidents.last().device_epoch == epoch {
            let shorter = incidents.drop_last();
            assert forall|i: int, j: int| 0 <= i <= j < shorter.len() implies (
            #[trigger] shorter[i]).device_epoch <= (#[trigger] shorter[j]).device_epoch
                <= epoch by {
                assert(shorter[i] == incidents[i] && shorter[j] == incidents[j]);
            }
            recovery_leaves_nothing_open(shorter, epoch, route, recovered_qpc_ns);
            assert forall|i: int| 0 <= i < incidents.len() implies !open_on(
                #[trigger] closed(incidents, epoch, route, recovered_qpc_ns)[i],
                epoch,
                route,
            ) by {
                if i < shorter.len() {
                    closed_keeps_identity(shorter, epoch, route, recovered_qpc_ns);
                    assert(closed(incidents, epoch, route, recovered_qpc_ns)[i] == closed(
                        shorter, epoch, route, recovered_qpc_ns)[i]);
                }
            }
        } else {
            assert forall|i: int| 0 <= i < incidents.len() implies !open_on(
                #[trigger] closed(incidents, epoch, route, recovered_qpc_ns)[i],
                epoch,
                route,
            ) by {
                assert(incidents[i].device_epoch <= incidents[incidents.len() - 1].device_epoch);
            }
        }
    }
}

/// Law: a cutover that begins is settled by the very next outcome, with exactly that outcome,
/// and no other record changes.
pub proof fn cutover_gets_one_outcome(
    state: State,
    watermark_qpc_ns: u64,
    new_epoch: u64,
    reason: Seq<char>,
)
    ensures
        ({
            let begun = state.cutover_begun(watermark_qpc_ns);
            let finished = begun.cutover_finished(new_epoch);
            let aborted = begun.cutover_aborted(reason);
            let n = begun.cutovers.len();
            &&& in_progress(begun.cutovers.last())
            &&& finished.cutovers.len() == n && aborted.cutovers.len() == n
            &&& finished.cutovers.drop_last() == begun.cutovers.drop_last()
            &&& aborted.cutovers.drop_last() == begun.cutovers.drop_last()
            &&& finished.cutovers.last().terminal_result == "rebound"@
            &&& finished.cutovers.last().new_device_epoch == Some(new_epoch)
            &&& finished.cutovers.last().error is None
            &&& aborted.cutovers.last().terminal_result == "failed"@
            &&& aborted.cutovers.last().error == Some(reason)
            &&& aborted.cutovers.last().new_device_epoch == Some(aborted.device_epoch)
            &&& finished.cutover.closing_device_epoch == NO_EPOCH
            &&& aborted.cutover.closing_device_epoch == NO_EPOCH
        }),
{
    let begun = state.cutover_begun(watermark_qpc_ns);
    let n = begun.cutovers.len();
    assert(active_cutover(begun.cutovers) == n - 1);
    let finished = begun.cutover_finished(new_epoch);
    let aborted = begun.cutover_aborted(reason);
    assert(finished.cutovers.drop_last() =~= begun.cutovers.drop_last());
    assert(aborted.cutovers.drop_last() =~= begun.cutovers.drop_last());
}

/// Law: an outcome never changes a cutover that has one, other than to settle the latest one
/// still under way.
pub proof fn settled_cutovers_are_final(
    cutovers: Seq<Cutover>,
    terminal_result: Seq<char>,
    new_device_epoch: Option<u64>,
    error: Option<Seq<char>>,
    i: int,
)
    requires
        0 <= i < cutovers.len(),
        !in_progress(cutovers[i]),
    ensures
        settled(cutovers, terminal_result, new_device_epoch, error).len() == cutovers.len(),
        settled(cutovers, terminal_result, new_device_epoch, error)[i] == cutovers[i],
{
    active_cutover_is_in_progress(cutovers);
}

proof fn active_cutover_is_in_progress(cutovers: Seq<Cutover>)
    ensures
        -1 <= active_cutover(cutovers) < cutovers.len(),
        active_cutover(cutovers) >= 0 ==> in_progress(cutovers[active_cutover(cutovers)]),
    decreases cutovers.len(),
{
    if cutovers.len() > 0 && !in_progress(cutovers.last()) {
        active_cutover_is_in_progress(cutovers.drop_last());
    }
}

/// Law: while a recording is paused its active duration stands still, and after the pause it
/// goes on from where it stood.
pub proof fn pause_stops_the_clock(state: State, paused_ns: u64, resumed_ns: u64, later_ns: u64)
    requires
        state.recording_start_ns is Some,
        !state.paused,
        state.recording_start_ns->0 <= paused_ns <= resumed_ns <= later_ns,
        state.total_pause_ns + (resumed_ns - paused_ns) <= u64::MAX,
    ensures
        state.paused_at(paused_ns).active_duration(resumed_ns) == state.active_duration(paused_ns),
        state.paused_at(paused_ns).resumed_at(resumed_ns).active_duration(later_ns) == Some(
            state.active_duration(paused_ns)->0 + (later_ns - resumed_ns)),
        state.paused_at(paused_ns).resumed_at(resumed_ns).total_pause_ns == state.total_pause_ns + (
        resumed_ns - paused_ns),
{
}

/// Law: an active recording takes audio in; a system route that is silent or without a signal
/// does not stop the microphone from being recorded.
pub proof fn system_silence_keeps_the_timeline_open(
    state: State,
    gap_ns: u64,
    endpoint_muted: bool,
)
    ensures
        state.active() ==> state.timeline_open(),
        state.timeline_open() ==> state.system_no_signal(gap_ns, endpoint_muted).timeline_open(),
        !state.system_no_signal(gap_ns, endpoint_muted).active(),
{
}

/// Law: zeros from a muted endpoint never close the timeline.
pub proof fn muted_zeros_keep_the_timeline_open(state: State, observed_qpc_ns: u64)
    requires
        state.timeline_open(),
    ensures
        state.zeros_observed(observed_qpc_ns).timeline_open(),
{
}

/// Law: a driver that was seen to deliver sound while muted is never taken for silent.
pub proof fn audible_driver_is_never_silent(state: State, observed_qpc_ns: u64)
    requires
        state.mute.driver_mute_behavior
            == crate::recording_state::model::DriverMuteBehavior::AudibleFrames,
    ensures
        !state.zeros_observed(observed_qpc_ns).mute.audio_silent,
        state.zeros_observed(observed_qpc_ns).mute.driver_mute_behavior
            == state.mute.driver_mute_behavior,
        state.zeros_observed(observed_qpc_ns).incidents == state.incidents,
{
}

/// Law: an error that cannot be recovered from ends the recording at once. A recoverable one ends
/// it only when it is the tenth of its kind or the fifteenth of all.
pub proof fn errors_end_the_recording(state: State, error: AudioError)
    requires
        state.recording,
        state.error_count < u32::MAX,
        state.recoverable_error_count < u32::MAX,
    ensures
        !error.recoverable() ==> !state.error_reported(error).recording,
        error.recoverable() ==> (state.error_reported(error).recording <==>
            state.recoverable_error_count + 1 < MAX_RECOVERABLE_ERRORS && state.error_count + 1
            < MAX_TOTAL_ERRORS),
        state.error_reported(error).last_error == Some(error),
        state.error_reported(error).error_count == state.error_count + 1,
{
}

/// Law: a route that goes silent is counted as an error but never ends the recording.
pub proof fn route_errors_do_not_end_the_recording(
    state: State,
    gap_ns: u64,
    endpoint_muted: bool,
)
    ensures
        state.microphone_no_signal(gap_ns).recording == state.recording,
        state.system_no_signal(gap_ns, endpoint_muted).recording == state.recording,
        state.microphone_no_signal(gap_ns).error_count == state.error_count.wrapping_add(1),
        state.system_no_signal(gap_ns, endpoint_muted).error_count
            == state.error_count.wrapping_add(1),
{
}

/// Law: a recording that has ended holds no device and no pipeline and takes in no audio, and
/// ending it again changes nothing.
pub proof fn stopping_releases_everything(state: State)
    ensures
        state.stopped().microphone_device is None,
        state.stopped().system_device is None,
        state.stopped().disconnected_device is None,
        !state.stopped().sender_attached,
        !state.stopped().timeline_open(),
        !state.stopped().watched(),
        state.stopped().stopped() == state.stopped(),
{
    assert(state.stopped().stopped() =~= state.stopped());
}

/// Law: the first callback after a failure makes a route healthy again.
pub proof fn callback_restores_the_route(
    state: State,
    capture_qpc_ns: Option<u64>,
    observed_qpc_ns: u64,
)
    ensures
        !state.microphone_callback(capture_qpc_ns, observed_qpc_ns).microphone.no_signal,
        !state.microphone_callback(capture_qpc_ns, observed_qpc_ns).microphone.route_failed,
        state.microphone_callback(capture_qpc_ns, observed_qpc_ns).system == state.system,
{
}

/// Law: no gap between two callbacks of a route is longer than the longest on record.
pub proof fn longest_gap_covers_every_gap(
    counters: RouteCounters,
    capture_qpc_ns: u64,
    observed_qpc_ns: u64,
)
    ensures
        counters.observed(capture_qpc_ns, observed_qpc_ns).max_callback_gap_ns
            >= counters.max_callback_gap_ns,
        counters.reference() > 0 ==> counters.observed(
            capture_qpc_ns, observed_qpc_ns).max_callback_gap_ns >= elapsed(
            counters.reference(), observed_qpc_ns),
{
}

/// Law: a paused recording takes no audio in, nor silence in its place, and is not watched for
/// missing callbacks, whatever its routes deliver. Taking the pause back opens it again as it was.
pub proof fn a_pause_takes_no_audio_in(
    state: State,
    paused_ns: u64,
    resumed_ns: u64,
    epoch: u64,
    capture_qpc_ns: Option<u64>,
    observed_qpc_ns: u64,
    frames: u32,
    silent_flag: bool,
    all_zero_frames: u32,
    endpoint_muted: bool,
)
    ensures
        ({
            let paused = state.paused_at(paused_ns);
            let heard = paused.microphone_callback(capture_qpc_ns, observed_qpc_ns);
            let played = paused.system_callback(
                observed_qpc_ns, observed_qpc_ns, frames, silent_flag, all_zero_frames,
                endpoint_muted);
            &&& !paused.timeline_open() && !paused.active() && !paused.watched()
            &&& !paused.padding_accepted(epoch)
            &&& !heard.timeline_open() && !heard.active() && !heard.padding_accepted(epoch)
            &&& !played.timeline_open() && !played.active() && !played.padding_accepted(epoch)
        }),
        !state.paused ==> {
            let resumed = state.paused_at(paused_ns).resumed_at(resumed_ns);
            &&& resumed.timeline_open() == state.timeline_open()
            &&& resumed.active() == state.active()
            &&& resumed.watched() == state.watched()
            &&& resumed.padding_accepted(epoch) == state.padding_accepted(epoch)
        },
{
}

/// Law: audio is taken in only by a recording that runs, is not paused, has its devices and gets
/// callbacks of its microphone from streams that did not fail; any one of these that is missing
/// keeps it out, whatever the others are.
pub proof fn audio_needs_a_healthy_recording(state: State, epoch: u64)
    ensures
        state.timeline_open() <==> !(!state.recording || state.paused || state.reconnecting
            || !state.routes_ready || state.microphone.no_signal || state.microphone.route_failed
            || state.system.route_failed),
        state.active() <==> state.timeline_open() && !(state.system.no_signal
            || state.mute.audio_silent),
        state.watched() <==> !(!state.recording || state.paused || state.reconnecting
            || !state.routes_ready),
        state.padding_accepted(epoch) <==> state.timeline_open() && state.device_epoch == epoch
            && state.cutover.closing_device_epoch != epoch,
{
}

/// Law: a lost device keeps audio out until it is back, and then the recording goes on as before.
pub proof fn a_lost_device_keeps_audio_out(
    state: State,
    device: crate::devices::configuration::Device,
    device_type: DeviceType,
    epoch: u64,
)
    ensures
        ({
            let lost = state.reconnecting_to(device, device_type);
            &&& !lost.timeline_open() && !lost.active() && !lost.watched()
            &&& !lost.padding_accepted(epoch)
            &&& lost.disconnected_device == Some((device, device_type))
            &&& lost.recording == state.recording && lost.paused == state.paused
            &&& lost.microphone == state.microphone && lost.system == state.system
            &&& lost.reconnected().disconnected_device is None
            &&& state.timeline_open() ==> lost.reconnected().timeline_open()
            &&& state.active() ==> lost.reconnected().active()
            &&& state.paused ==> !lost.reconnected().timeline_open()
        }),
{
}

/// Law: a microphone without a signal, or a route whose stream failed, keeps audio out; the next
/// callback of that route lets it in again.
pub proof fn a_silent_microphone_keeps_audio_out(
    state: State,
    gap_ns: u64,
    capture_qpc_ns: Option<u64>,
    observed_qpc_ns: u64,
)
    ensures
        ({
            let silent = state.microphone_no_signal(gap_ns);
            &&& silent.microphone.no_signal && !silent.timeline_open() && !silent.active()
            &&& silent.watched() == state.watched()
            &&& silent.microphone.no_signal_count == state.microphone.no_signal_count.wrapping_add(
                1)
            &&& silent.microphone.max_callback_gap_ns >= gap_ns
            &&& silent.system == state.system
            &&& state.timeline_open() ==> silent.microphone_callback(
                capture_qpc_ns, observed_qpc_ns).timeline_open()
            &&& state.active() ==> silent.microphone_callback(
                capture_qpc_ns, observed_qpc_ns).active()
        }),
        forall|device_type: DeviceType, error: AudioError|
            !(#[trigger] state.stream_failed(device_type, error)).timeline_open()
                && state.stream_failed(device_type, error).route(device_type).route_failed,
{
}

/// Law: a callback of a route counts once, with its samples, on that route alone; a frame has as
/// many samples as there are channels.
pub proof fn callbacks_are_counted_on_their_route(
    state: State,
    device_type: DeviceType,
    samples: nat,
    channels: u16,
    rms_bits: u32,
    peak_bits: u32,
)
    requires
        samples <= u64::MAX,
        channels > 0,
        state.route(device_type).callback_count < u64::MAX,
        state.route(device_type).sample_count + samples <= u64::MAX,
        state.route(device_type).frame_count + samples <= u64::MAX,
    ensures
        ({
            let before = state.route(device_type);
            let after = state.route_callback(device_type, samples, channels, rms_bits, peak_bits);
            let counted = after.route(device_type);
            let frames = (counted.frame_count - before.frame_count) as int;
            &&& counted.callback_count == before.callback_count + 1
            &&& counted.sample_count == before.sample_count + samples
            &&& device_type == DeviceType::Microphone ==> frames * channels <= samples < (frames
                + 1) * channels
            &&& device_type == DeviceType::System ==> frames == 0
            &&& samples > 0 ==> counted.rms_bits == rms_bits && counted.peak_bits == peak_bits
            &&& samples == 0 ==> counted.rms_bits == 0 && counted.peak_bits == 0
            &&& after == state.with_route(device_type, counted)
        }),
        state.with_route(device_type, RouteCounters::zero()).route(device_type)
            == RouteCounters::zero(),
        state.route(DeviceType::Microphone) == state.microphone,
        state.route(DeviceType::System) == state.system,
{
    let frames = (samples / channels as nat) as int;
    vstd::arithmetic::div_mod::lemma_fundamental_div_mod(samples as int, channels as int);
    vstd::arithmetic::div_mod::lemma_mod_bound(samples as int, channels as int);
    vstd::arithmetic::div_mod::lemma_div_is_ordered_by_denominator(
        samples as int, 1, channels as int);
    assert(channels * frames == frames * channels && (frames + 1) * channels == frames * channels
        + channels) by (nonlinear_arith);
    assert(samples as int / 1 == samples as int);
}

/// Law: a recording that starts runs from then on, with its own clock, is not yet ready to take
/// audio in, and keeps its devices; nothing else of the past counts.
pub proof fn a_recording_starts_at_its_time(state: State, now_ns: u64, later_ns: u64)
    requires
        now_ns <= later_ns,
    ensures
        ({
            let started = state.started(now_ns);
            &&& started.recording && !started.routes_ready
            &&& started.recording_start_ns == Some(now_ns)
            &&& started.microphone_device == state.microphone_device
            &&& started.system_device == state.system_device
            &&& started.paused == state.paused && started.reconnecting == state.reconnecting
            &&& started.sender_attached == state.sender_attached
            &&& started.recoverable_error_count == 0
            &&& !started.paused && started.total_pause_ns == 0 ==> started.active_duration(later_ns)
                == Some(later_ns - now_ns)
        }),
{
}

/// Law: a stream that failed leaves its route failed and on record, and counts as an error; the
/// other route is untouched.
pub proof fn failed_streams_are_on_record(
    state: State,
    device_type: DeviceType,
    error: AudioError,
)
    requires
        !has_open(state.incidents, state.device_epoch, device_type.name(), error.name()),
        !state.error_ends(error),
    ensures
        ({
            let after = state.stream_failed(device_type, error);
            &&& after.route(device_type).route_failed
            &&& after.incidents.len() == state.incidents.len() + 1
            &&& after.incidents.last().route == device_type.name()
            &&& after.incidents.last().code == error.name()
            &&& after.incidents.last().recovered_qpc_ns is None
            &&& after.incidents.last().device_epoch == state.device_epoch
            &&& after.last_error == Some(error)
            &&& after.recording == state.recording
            &&& device_type == DeviceType::Microphone ==> after.system == state.system
            &&& device_type == DeviceType::System ==> after.microphone == state.microphone
        }),
{
}

/// Law: a callback of the system route makes it healthy, counts its frames, and leaves the
/// microphone alone; sound, or an endpoint that is not muted, is never silence.
pub proof fn system_callbacks_restore_the_system_route(
    state: State,
    capture_qpc_ns: u64,
    observed_qpc_ns: u64,
    frames: u32,
    silent_flag: bool,
    all_zero_frames: u32,
    endpoint_muted: bool,
)
    requires
        state.system.frame_count + frames <= u64::MAX,
        state.mute.all_zero_frame_count + all_zero_frames <= u64::MAX,
        state.mute.silent_flag_frame_count + frames <= u64::MAX,
    ensures
        ({
            let after = state.system_callback(
                capture_qpc_ns, observed_qpc_ns, frames, silent_flag, all_zero_frames,
                endpoint_muted);
            &&& !after.system.no_signal && !after.system.route_failed
            &&& after.system.frame_count == state.system.frame_count + frames
            &&& after.system.last_capture_qpc_ns == capture_qpc_ns
            &&& after.system.last_callback_observed_qpc_ns == observed_qpc_ns
            &&& after.mute.all_zero_frame_count == state.mute.all_zero_frame_count
                + all_zero_frames
            &&& after.mute.silent_flag_frame_count == state.mute.silent_flag_frame_count + if
                silent_flag {
                frames as int
            } else {
                0
            }
            &&& after.mute.endpoint_muted == endpoint_muted
            &&& after.microphone == state.microphone
            &&& !endpoint_muted || frames == 0 || all_zero_frames != frames
                ==> !after.mute.audio_silent
            &&& after.mute.audio_silent && !state.mute.audio_silent ==> endpoint_muted && frames > 0
                && all_zero_frames == frames && after.last_error == Some(
                AudioError::SystemAudioSilent)
        }),
{
}

/// Law: a muted endpoint that delivered only zeros for two seconds counts as silent, unless its
/// driver was heard while muted; before that it does not.
pub proof fn muted_zeros_count_after_two_seconds(state: State, observed_qpc_ns: u64)
    requires
        state.mute.driver_mute_behavior
            != crate::recording_state::model::DriverMuteBehavior::AudibleFrames,
        state.mute.muted_zero_since_qpc_ns > 0,
        state.mute.muted_zero_since_qpc_ns <= observed_qpc_ns,
        !state.mute.audio_silent,
    ensures
        state.zeros_observed(observed_qpc_ns).mute.audio_silent <==> observed_qpc_ns
            - state.mute.muted_zero_since_qpc_ns >= 2_000_000_000,
        state.zeros_observed(observed_qpc_ns).mute.muted_zero_since_qpc_ns
            == state.mute.muted_zero_since_qpc_ns,
{
}

/// Law: a system route without a callback is on record with its gap, and can come back.
pub proof fn a_missing_system_signal_is_on_record(
    state: State,
    gap_ns: u64,
    endpoint_muted: bool,
)
    ensures
        ({
            let after = state.system_no_signal(gap_ns, endpoint_muted);
            &&& after.system.no_signal && after.system.max_callback_gap_ns >= gap_ns
            &&& after.system.rms_bits == 0 && after.system.peak_bits == 0
            &&& after.system.no_signal_count == state.system.no_signal_count.wrapping_add(1)
            &&& after.microphone == state.microphone
            &&& has_open(after.incidents, state.device_epoch, "system"@, "no_signal"@)
            &&& after.last_error == Some(AudioError::SystemAudioNoSignal)
            &&& after.mute.endpoint_muted == endpoint_muted
        }),
{
    let after = state.system_no_signal(gap_ns, endpoint_muted);
    if !has_open(state.incidents, state.device_epoch, "system"@, "no_signal"@) {
        let last = after.incidents[after.incidents.len() - 1];
        assert(open_on(last, state.device_epoch, "system"@) && last.code == "no_signal"@);
    }
}

/// Law: a microphone without a callback is on record, and shows no level.
pub proof fn a_missing_microphone_signal_is_on_record(state: State, gap_ns: u64)
    ensures
        ({
            let after = state.microphone_no_signal(gap_ns);
            &&& after.microphone.rms_bits == 0 && after.microphone.peak_bits == 0
            &&& has_open(after.incidents, state.device_epoch, "microphone"@, "no_signal"@)
            &&& after.last_error == Some(AudioError::MicrophoneNoSignal)
        }),
{
    let after = state.microphone_no_signal(gap_ns);
    if !has_open(state.incidents, state.device_epoch, "microphone"@, "no_signal"@) {
        let last = after.incidents[after.incidents.len() - 1];
        assert(open_on(last, state.device_epoch, "microphone"@) && last.code == "no_signal"@);
    }
}

/// Law: ten errors that can be recovered from, or fifteen in all, end a recording; a listener is
/// told of an error exactly when there is one.
pub proof fn ten_errors_are_too_many(state: State, error: AudioError)
    requires
        state.error_count < u32::MAX,
        state.recoverable_error_count < u32::MAX,
        error.recoverable(),
    ensures
        state.error_ends(error) <==> state.recoverable_error_count >= 9 || state.error_count >= 14,
        state.notice(error) == if state.callback_attached { Some(error) } else { None },
        state.error_reported(error).error_count == state.error_count + 1,
        state.error_reported(error).recoverable_error_count == state.recoverable_error_count + 1,
{
}

/// Law: what would make no sense to try again cannot be recovered from; the rest can.
pub proof fn lost_rights_and_channels_are_final(error: AudioError)
    ensures
        error is PermissionDenied || error is ConfigurationError || error is ChannelClosed
            || error is InitializationFailed || error is SampleRateUnsupported
            ==> !error.recoverable(),
        error is DeviceDisconnected || error is StreamFailed || error is ProcessingFailed
            || error is TranscriptionFailed || error is BufferOverflow
            || error is SystemAudioNoSignal || error is SystemAudioSilent
            || error is MicrophoneNoSignal ==> error.recoverable(),
{
}

/// Law: the evidence of an epoch tells the two routes apart, each with its own device and counts.
pub proof fn evidence_tells_the_routes_apart(state: State)
    ensures
        ({
            let evidence = state.epoch_evidence();
            &&& evidence.device_epoch == state.device_epoch
            &&& state.microphone_device matches Some(device) ==> evidence.microphone_identity.name
                == Some(device.name) && evidence.microphone_identity.native_id == device.native_id
            &&& state.system_device matches Some(device) ==> evidence.system_identity.name == Some(
                device.name) && evidence.system_identity.native_id == device.native_id
            &&& state.microphone_device is None ==> evidence.microphone_identity.name is None
            &&& state.system_device is None ==> evidence.system_identity.name is None
            &&& evidence.microphone.callback_count == state.microphone.callback_count
            &&& evidence.system.callback_count == state.system.callback_count
            &&& evidence.microphone.sample_count == state.microphone.sample_count
            &&& evidence.system.sample_count == state.system.sample_count
            &&& evidence.microphone.frame_count == state.microphone.frame_count
            &&& evidence.system.frame_count == state.system.frame_count
            &&& evidence.microphone.max_callback_gap_ns == state.microphone.max_callback_gap_ns
            &&& evidence.system.max_callback_gap_ns == state.system.max_callback_gap_ns
            &&& evidence.microphone.no_signal_count == state.microphone.no_signal_count
            &&& evidence.system.no_signal_count == state.system.no_signal_count
            &&& evidence.microphone.route_failed == state.microphone.route_failed
            &&& evidence.system.route_failed == state.system.route_failed
            &&& evidence.microphone.rms_bits == state.microphone.rms_bits
            &&& evidence.system.peak_bits == state.system.peak_bits
            &&& evidence.mute.endpoint_muted == state.mute.endpoint_muted
            &&& evidence.mute.audio_silent == state.mute.audio_silent
            &&& evidence.system_format == state.system_format
            &&& state.system.last_capture_qpc_ns > 0 ==> evidence.system.last_capture_qpc_ns
                == Some(state.system.last_capture_qpc_ns)
            &&& state.microphone.last_capture_qpc_ns == 0
                ==> evidence.microphone.last_capture_qpc_ns is None
            &&& state.evidence().current_device_epoch == state.device_epoch
            &&& state.evidence().incidents == state.incidents
            &&& state.evidence().microphone_stream_started_count
                == state.microphone_stream_started_count
            &&& state.evidence().cutovers.len() == state.cutovers.len()
        }),
{
}

/// Law: each epoch has the number after the one before, and a change of devices gives its streams
/// two seconds to drain.
pub proof fn epochs_are_counted(state: State, watermark_qpc_ns: u64, reason: Seq<char>)
    requires
        state.device_epoch < u64::MAX,
        watermark_qpc_ns + 2_000_000_000 <= u64::MAX,
    ensures
        state.next_epoch().device_epoch == state.device_epoch + 1,
        ({
            let begun = state.cutover_begun(watermark_qpc_ns);
            &&& begun.device_epoch == state.device_epoch
            &&& begun.cutover.closing_device_epoch == state.device_epoch
            &&& begun.cutover.watermark_qpc_ns == watermark_qpc_ns
            &&& begun.cutover.drain_deadline_qpc_ns == watermark_qpc_ns + 2_000_000_000
            &&& begun.cutovers.last().old_device_epoch == state.device_epoch
            &&& begun.cutovers.last().watermark_qpc_ns == watermark_qpc_ns
            &&& begun.cutovers.last().drain_deadline_qpc_ns == watermark_qpc_ns + 2_000_000_000
            &&& begun.microphone_device == state.microphone_device
            &&& begun.cutover_aborted(reason).device_epoch == state.device_epoch + 1
            &&& !begun.padding_accepted(state.device_epoch)
        }),
{
}

/// Law: audio without the instant of its capture is kept out while devices change, since it cannot
/// be told whose it is, and is counted; at other times it is taken in.
pub proof fn audio_without_an_instant_is_kept_out_of_changes(
    state: State,
    watermark_qpc_ns: u64,
    frames: u64,
)
    requires
        watermark_qpc_ns > 0,
    ensures
        ({
            let begun = state.cutover_begun(watermark_qpc_ns);
            let after = begun.callback_begun(state.device_epoch, None, frames);
            &&& !begun.callback_accepted(state.device_epoch, None)
            &&& after.cutover.attribution_error_frames == frames
            &&& after.in_flight_callbacks == state.in_flight_callbacks
        }),
        state.cutover == CutoverCounters::none() && state.device_epoch != NO_EPOCH
            ==> state.callback_accepted(state.device_epoch, None),
{
}

/// Law: what is forgotten at the end is all but the evidence: nothing runs, no one listens, and the
/// record of the routes stays.
pub proof fn cleaning_up_keeps_the_evidence(state: State)
    ensures
        ({
            let after = state.cleaned();
            &&& !after.recording && !after.paused && !after.reconnecting && !after.callback_attached
            &&& after.recording_start_ns is None && after.pause_start_ns is None
            &&& after.total_pause_ns == 0 && after.error_count == 0 && after.last_error is None
            &&& after.microphone_device is None && after.system_device is None
            &&& after.incidents == state.incidents && after.cutovers == state.cutovers
            &&& after.completed_epochs == state.completed_epochs
            &&& after.microphone == state.microphone && after.system == state.system
        }),
{
}

/// Law: a new incident is put at the end of the record, open, with its route, code and times, under
/// the next number.
pub proof fn new_incidents_go_on_record(
    state: State,
    route: Seq<char>,
    code: Seq<char>,
    started_qpc_ns: Option<u64>,
    callback_gap_ns: Option<u64>,
)
    requires
        !has_open(state.incidents, state.device_epoch, route, code),
        state.evidence_sequence < u64::MAX,
    ensures
        ({
            let after = state.incident_opened(route, code, started_qpc_ns, callback_gap_ns);
            let incident = after.incidents.last();
            &&& after.incidents.drop_last() == state.incidents
            &&& incident.route == route && incident.code == code
            &&& incident.device_epoch == state.device_epoch
            &&& incident.started_qpc_ns == started_qpc_ns && incident.callback_gap_ns
                == callback_gap_ns
            &&& incident.recovered_qpc_ns is None
            &&& incident.sequence == state.evidence_sequence + 1 && after.evidence_sequence
                == incident.sequence
            &&& after.evidence_dirty
            &&& after.recording == state.recording && after.timeline_open() == state.timeline_open()
        }),
{
    let after = state.incident_opened(route, code, started_qpc_ns, callback_gap_ns);
    assert(after.incidents.drop_last() =~= state.incidents);
}

/// Law: when a route that had no signal, or whose stream failed, delivers again, its incidents are
/// over, and those of the other route stay as they are.
pub proof fn recovered_routes_close_their_incidents(
    state: State,
    capture_qpc_ns: Option<u64>,
    observed_qpc_ns: u64,
    i: int,
)
    requires
        state.microphone.no_signal || state.microphone.route_failed,
        forall|a: int, b: int|
            0 <= a <= b < state.incidents.len() ==> (#[trigger] state.incidents[a]).device_epoch <= (
            #[trigger] state.incidents[b]).device_epoch <= state.device_epoch,
        0 <= i < state.incidents.len(),
    ensures
        ({
            let after = state.microphone_callback(capture_qpc_ns, observed_qpc_ns);
            &&& after.incidents.len() == state.incidents.len()
            &&& !(after.incidents[i].device_epoch == state.device_epoch && after.incidents[i].route
                == "microphone"@ && after.incidents[i].recovered_qpc_ns is None)
            &&& state.incidents[i].route != "microphone"@ ==> after.incidents[i]
                == state.incidents[i]
            &&& after.microphone.last_callback_observed_qpc_ns == observed_qpc_ns
        }),
{
    let after = state.microphone_callback(capture_qpc_ns, observed_qpc_ns);
    recovery_leaves_nothing_open(
        state.incidents, state.device_epoch, "microphone"@, observed_qpc_ns);
    recovery_touches_only_its_route(
        state.incidents, state.device_epoch, "microphone"@, observed_qpc_ns);
    assert(!open_on(after.incidents[i], state.device_epoch, "microphone"@));
    if state.incidents[i].route != "microphone"@ {
        assert(!open_on(state.incidents[i], state.device_epoch, "microphone"@));
    }
}

/// Law: a microphone stream that starts is counted, and forgets that it had failed.
pub proof fn started_microphones_are_healthy(state: State, qpc_ns: u64)
    requires
        state.microphone_stream_started_count < u64::MAX,
    ensures
        ({
            let after = state.microphone_started(qpc_ns);
            &&& after.microphone_stream_started_count == state.microphone_stream_started_count + 1
            &&& after.microphone.stream_started_qpc_ns == qpc_ns
            &&& !after.microphone.no_signal && !after.microphone.route_failed
            &&& after.microphone.callback_count == state.microphone.callback_count
            &&& after.system == state.system && after.evidence_dirty
        }),
{
}

/// Law: a mute switch that is turned on starts the observation of its driver anew; one that stays
/// as it was changes nothing but that it was read.
pub proof fn turning_the_mute_on_starts_anew(
    mute: MuteTracking,
    since_qpc_ns: u64,
)
    ensures
        mute.switched(true, since_qpc_ns).endpoint_muted,
        !mute.switched(false, since_qpc_ns).endpoint_muted,
        !mute.endpoint_muted ==> {
            let on = mute.switched(true, since_qpc_ns);
            &&& !on.audio_silent && on.muted_zero_since_qpc_ns == since_qpc_ns
            &&& on.driver_mute_behavior
                == crate::recording_state::model::DriverMuteBehavior::Unknown
            &&& on.all_zero_frame_count == mute.all_zero_frame_count
        },
        mute.endpoint_muted ==> mute.switched(true, since_qpc_ns) == mute,
        mute.switched(false, since_qpc_ns).audio_silent == mute.audio_silent,
        mute.without_callback(true).driver_mute_behavior
            != crate::recording_state::model::DriverMuteBehavior::Unknown,
        !mute.endpoint_muted ==> mute.without_callback(true).driver_mute_behavior
            == crate::recording_state::model::DriverMuteBehavior::NoCallback,
{
}

/// Law: while devices change, the last audio of the old ones and the first of the new ones are
/// noted.
pub proof fn changes_note_their_first_and_last_audio(
    state: State,
    capture_qpc_ns: u64,
    frames: u64,
)
    requires
        state.callback_accepted(state.device_epoch, Some(capture_qpc_ns)),
    ensures
        ({
            let after = state.callback_begun(state.device_epoch, Some(capture_qpc_ns), frames);
            let closing = state.cutover.closing_device_epoch == state.device_epoch;
            let new = state.cutover.new_epoch == state.device_epoch;
            &&& closing ==> after.cutover.old_last_capture_qpc_ns >= capture_qpc_ns
                && after.cutover.old_last_capture_qpc_ns >= state.cutover.old_last_capture_qpc_ns
            &&& !closing ==> after.cutover.old_last_capture_qpc_ns
                == state.cutover.old_last_capture_qpc_ns
            &&& new && state.cutover.new_first_capture_qpc_ns == 0
                ==> after.cutover.new_first_capture_qpc_ns == capture_qpc_ns
            &&& state.cutover.new_first_capture_qpc_ns != 0
                ==> after.cutover.new_first_capture_qpc_ns
                == state.cutover.new_first_capture_qpc_ns
            &&& after.cutover.late_callback_dropped_frames
                == state.cutover.late_callback_dropped_frames
            &&& after.in_flight_callbacks == state.in_flight_callbacks.wrapping_add(1)
        }),
{
}

/// Law: the latest change of devices is on record with what was measured of it, and the earlier
/// ones stay as they are.
pub proof fn changes_are_measured(cutover: CutoverCounters, cutovers: Seq<Cutover>, i: int)
    requires
        0 <= i < cutovers.len(),
    ensures
        cutover.measured_last(cutovers).len() == cutovers.len(),
        i < cutovers.len() - 1 ==> cutover.measured_last(cutovers)[i] == cutovers[i],
        ({
            let last = cutover.measured_last(cutovers).last();
            &&& last.late_callback_dropped_frames == cutover.late_callback_dropped_frames
            &&& last.attribution_error_frames == cutover.attribution_error_frames
            &&& cutover.old_last_capture_qpc_ns > 0 ==> last.old_epoch_last_capture_qpc_ns == Some(
                cutover.old_last_capture_qpc_ns)
            &&& cutover.new_first_capture_qpc_ns > 0 ==> last.new_epoch_first_capture_qpc_ns
                == Some(cutover.new_first_capture_qpc_ns)
            &&& last.terminal_result == cutovers.last().terminal_result && last.sequence
                == cutovers.last().sequence
        }),
{
}

/// Law: before anything was recorded, nothing runs, no device is bound and nothing is on record.
pub proof fn nothing_is_recorded_at_first(now_ns: u64)
    ensures
        ({
            let state = State::initial();
            &&& !state.recording && !state.paused && !state.reconnecting && !state.routes_ready
            &&& state.microphone_device is None && state.system_device is None
            &&& state.error_count == 0 && state.last_error is None
            &&& state.incidents.len() == 0 && state.cutovers.len() == 0
                && state.completed_epochs.len() == 0
            &&& !state.timeline_open() && state.active_duration(now_ns) is None
            &&& state.stats.chunks_processed == 0 && state.device_epoch == 0
        }),
{
}

/// Law: a listener is told that the system is silent exactly when it becomes so.
pub proof fn silence_is_told_when_it_begins(
    state: State,
    capture_qpc_ns: u64,
    observed_qpc_ns: u64,
    frames: u32,
    silent_flag: bool,
    all_zero_frames: u32,
    endpoint_muted: bool,
)
    requires
        !state.mute.audio_silent,
    ensures
        state.goes_silent(observed_qpc_ns, frames, all_zero_frames, endpoint_muted)
            <==> state.system_callback(
            capture_qpc_ns, observed_qpc_ns, frames, silent_flag, all_zero_frames, endpoint_muted,
        ).mute.audio_silent,
{
}

/// Law: an error of a route is counted and kept, but ends nothing.
pub proof fn route_errors_are_counted(state: State, error: AudioError)
    requires
        state.error_count < u32::MAX,
        state.recoverable_error_count < u32::MAX,
    ensures
        state.route_error(error).error_count == state.error_count + 1,
        state.route_error(error).recoverable_error_count == state.recoverable_error_count + 1,
        state.route_error(error).last_error == Some(error),
        state.route_error(error).recording == state.recording,
        state.route_error(error).timeline_open() == state.timeline_open(),
{
}

/// Law: an instant of zero is none, and every other one is told as it is.
pub proof fn instants_of_zero_are_none(value: u64, a: u64, b: u64)
    ensures
        crate::recording_state::model::nonzero(0) is None,
        value != 0 ==> crate::recording_state::model::nonzero(value) == Some(value),
        crate::recording_state::model::larger(a, b) >= a,
        crate::recording_state::model::larger(a, b) >= b,
        crate::recording_state::model::larger(a, b) == a
            || crate::recording_state::model::larger(a, b) == b,
        a <= b ==> elapsed(a, b) == b - a,
        b < a ==> elapsed(a, b) == 0,
{
}

/// Law: the record of an epoch is replaced by its present counts where it is there already, and
/// else added; no other record changes.
pub proof fn every_epoch_is_on_record_once(state: State, i: int)
    requires
        0 <= i < state.completed_epochs.len(),
        state.completed_epochs[i].device_epoch != state.device_epoch,
    ensures
        state.evidence().epochs[i] == state.completed_epochs[i],
        state.evidence().epochs.len() == state.completed_epochs.len() || state.evidence().epochs.len()
            == state.completed_epochs.len() + 1,
        exists|k: int| 0 <= k < state.evidence().epochs.len() && (
        #[trigger] state.evidence().epochs[k]) == state.epoch_evidence(),
{
    found_epoch_is_the_epoch(state.completed_epochs, state.device_epoch);
    match first_of_epoch(state.completed_epochs, state.device_epoch) {
        Some(k) => {
            assert(state.evidence().epochs[k as int] == state.epoch_evidence());
        },
        None => {
            assert(state.evidence().epochs[state.completed_epochs.len() as int]
                == state.epoch_evidence());
        },
    }
}

proof fn found_epoch_is_the_epoch(
    epochs: Seq<crate::recording_state::evidence::EpochEvidence>,
    epoch: u64,
)
    ensures
        first_of_epoch(epochs, epoch) matches Some(i) ==> i < epochs.len()
            && epochs[i as int].device_epoch == epoch,
    decreases epochs.len(),
{
    if epochs.len() > 0 {
        found_epoch_is_the_epoch(epochs.drop_last(), epoch);
    }
}

} // verus!
