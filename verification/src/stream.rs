//! The streams of a recording's two routes.

use vstd::prelude::*;
use vstd::string::*;

use crate::devices::configuration::AudioDevice;
use crate::recording_preferences::{MacBackend, Platform};
use crate::recording_state::error::AudioError;
use crate::recording_state::model::{elapsed, nonzero, DeviceType, State, AUDIO_CALLBACK_DEADLINE_NS};
use crate::recording_state::state::RecordingState;
use crate::text;

verus! {

/// Watches the microphone for missing callbacks. Instants count nanoseconds on the capture clock,
/// and zero means none.
#[derive(Debug, Clone, Copy, PartialEq, Eq, Structural)]
pub struct MicrophoneWatchdog {
    pub monitoring_started_qpc_ns: u64,
    pub last_seen_callback_qpc_ns: u64,
    pub no_signal_reported: bool,
}

/// What the watch does next.
#[derive(Debug, Clone, Copy, PartialEq, Eq, Structural)]
pub enum WatchdogStep {
    /// It goes on.
    Continue,
    /// It ends, because the clock cannot be read.
    Stop,
}

/// Pause between two looks.
pub const WATCHDOG_INTERVAL_MS: u64 = 50;

impl MicrophoneWatchdog {
    /// Nothing is watched yet.
    pub open spec fn idle() -> MicrophoneWatchdog {
        MicrophoneWatchdog {
            monitoring_started_qpc_ns: 0,
            last_seen_callback_qpc_ns: 0,
            no_signal_reported: false,
        }
    }

    /// The watch once it looked at a route that counts: a callback that was not seen before makes
    /// the next silence count again.
    pub open spec fn looked(self, state: State, now_qpc_ns: u64) -> MicrophoneWatchdog {
        let observed = state.microphone.last_callback_observed_qpc_ns;
        let fresh = observed != 0 && observed != self.last_seen_callback_qpc_ns;
        MicrophoneWatchdog {
            monitoring_started_qpc_ns: if self.monitoring_started_qpc_ns == 0 {
                now_qpc_ns
            } else {
                self.monitoring_started_qpc_ns
            },
            last_seen_callback_qpc_ns: if fresh {
                observed
            } else {
                self.last_seen_callback_qpc_ns
            },
            no_signal_reported: self.no_signal_reported && !fresh,
        }
    }

    /// How long the route is without a callback, counted from the last one since the watch began
    /// or else from its beginning.
    pub open spec fn gap(self, state: State, now_qpc_ns: u64) -> u64 {
        let observed = state.microphone.last_callback_observed_qpc_ns;
        elapsed(
            if observed != 0 && observed >= self.monitoring_started_qpc_ns {
                observed
            } else {
                self.monitoring_started_qpc_ns
            },
            now_qpc_ns,
        )
    }

    /// A look finds a silence that is long enough and not reported yet.
    pub open spec fn finds_silence(self, state: State, now_qpc_ns: u64) -> bool {
        let watch = self.looked(state, now_qpc_ns);
        state.watched() && !watch.no_signal_reported && watch.gap(state, now_qpc_ns)
            >= AUDIO_CALLBACK_DEADLINE_NS
    }

    pub fn new() -> (r: Self)
        ensures
            r == MicrophoneWatchdog::idle(),
    {
        MicrophoneWatchdog {
            monitoring_started_qpc_ns: 0,
            last_seen_callback_qpc_ns: 0,
            no_signal_reported: false,
        }
    }

    /// Whether the watch goes on: nobody asked it to stop, the recording runs, and it is still
    /// the one the watch was bound to.
    pub fn is_wanted(state: &RecordingState, bound_epoch: u64, stop_requested: bool) -> (r: bool)
        ensures
            r == (!stop_requested && state@.recording && state@.device_epoch == bound_epoch),
    {
        !stop_requested && state.is_recording() && state.get_device_epoch() == bound_epoch
    }

    /// Looks at the microphone. `now_qpc_ns` is the capture clock, missing where it cannot be
    /// read. Returns what to do next and the error that a listener is to be told.
    pub fn look(&mut self, state: &mut RecordingState, now_qpc_ns: Option<u64>) -> (r: (
        WatchdogStep,
        Option<AudioError>,
    ))
        ensures
            match now_qpc_ns {
                None => {
                    &&& r == (WatchdogStep::Stop, old(state)@.notice(AudioError::StreamFailed))
                    &&& *final(self) == *old(self)
                    &&& final(state)@ == old(state)@.stream_failed(
                        DeviceType::Microphone, AudioError::StreamFailed)
                },
                Some(now) => if !old(state)@.watched() {
                    &&& r == (WatchdogStep::Continue, None::<AudioError>)
                    &&& *final(self) == MicrophoneWatchdog::idle()
                    &&& final(state)@ == old(state)@
                } else if old(self).finds_silence(old(state)@, now) {
                    let watch = old(self).looked(old(state)@, now);
                    &&& r == (
                        WatchdogStep::Continue,
                        old(state)@.notice(AudioError::MicrophoneNoSignal),
                    )
                    &&& *final(self) == (MicrophoneWatchdog { no_signal_reported: true, ..watch })
                    &&& final(state)@ == old(state)@.microphone_no_signal(
                        watch.gap(old(state)@, now))
                } else {
                    &&& r == (WatchdogStep::Continue, None::<AudioError>)
                    &&& *final(self) == old(self).looked(old(state)@, now)
                    &&& final(state)@ == old(state)@
                },
            },
    {
        let now: u64 = match now_qpc_ns {
            Some(now) => now,
            None => {
                let notice = state.report_route_stream_error(
                    &DeviceType::Microphone, AudioError::StreamFailed);
                return (WatchdogStep::Stop, notice);
            },
        };
        if !state.route_watchdog_enabled() {
            *self = MicrophoneWatchdog::new();
            return (WatchdogStep::Continue, None);
        }
        if self.monitoring_started_qpc_ns == 0 {
            self.monitoring_started_qpc_ns = now;
        }
        let (_, observed, _, _, _) = state.microphone_route_health();
        let mut reference: u64 = self.monitoring_started_qpc_ns;
        if let Some(observed) = observed {
            if observed != self.last_seen_callback_qpc_ns {
                self.last_seen_callback_qpc_ns = observed;
                self.no_signal_reported = false;
            }
            if observed >= self.monitoring_started_qpc_ns {
                reference = observed;
            }
        }
        let gap: u64 = now.saturating_sub(reference);
        if gap >= AUDIO_CALLBACK_DEADLINE_NS && !self.no_signal_reported {
            let notice = state.report_microphone_no_signal(gap);
            self.no_signal_reported = true;
            return (WatchdogStep::Continue, notice);
        }
        (WatchdogStep::Continue, None)
    }
}

/// Law: a silence is reported once. After a report the next look reports nothing, unless a callback
/// came in between.
pub proof fn silence_is_reported_once(
    watch: MicrophoneWatchdog,
    state: State,
    now_qpc_ns: u64,
    later: State,
    later_qpc_ns: u64,
)
    requires
        watch.finds_silence(state, now_qpc_ns),
        later.microphone.last_callback_observed_qpc_ns
            == state.microphone.last_callback_observed_qpc_ns,
    ensures
        !(MicrophoneWatchdog {
            no_signal_reported: true,
            ..watch.looked(state, now_qpc_ns)
        }).finds_silence(later, later_qpc_ns),
{
}

/// Law: no silence is reported before the deadline has passed since the watch began.
pub proof fn silence_takes_the_whole_deadline(
    watch: MicrophoneWatchdog,
    state: State,
    now_qpc_ns: u64,
)
    requires
        watch.finds_silence(state, now_qpc_ns),
    ensures
        now_qpc_ns >= watch.looked(state, now_qpc_ns).monitoring_started_qpc_ns
            + AUDIO_CALLBACK_DEADLINE_NS,
{
}

/// The instant at which audio was captured, by the counter and the frequency of the capture clock
/// and the time the audio took to arrive.
pub open spec fn capture_instant(counter: i64, frequency: i64, latency_ns: u64) -> Option<u64> {
    if counter < 0 || frequency <= 0 {
        None
    } else {
        Some(elapsed(latency_ns, (counter * 1_000_000_000 / frequency as int) as u128 as u64))
    }
}

/// The instant at which audio was captured.
pub fn capture_qpc_ns(counter: i64, frequency: i64, latency_ns: u64) -> (r: Option<u64>)
    ensures
        r == capture_instant(counter, frequency, latency_ns),
{
    if counter < 0 || frequency <= 0 {
        return None;
    }
    assert(0 <= counter * 1_000_000_000 <= i64::MAX * 1_000_000_000);
    let product: u128 = counter as u128 * 1_000_000_000;
    let nanos: u128 = product / frequency as u128;
    assert(nanos == counter * 1_000_000_000 / frequency as int);
    let now_ns: u64 = nanos as u64;
    Some(now_ns.saturating_sub(latency_ns))
}

/// How a stream is made.
#[derive(Debug, Clone, Copy, PartialEq, Eq, Structural)]
pub enum StreamBackend {
    Cpal,
    /// Native loopback bound to an endpoint, for the system's sound on Windows.
    WindowsLoopback,
    /// Core Audio, for the system's sound on macOS.
    CoreAudio,
}

/// How the stream of a route is made; a microphone always goes through the general way.
pub fn choose_backend(platform: Platform, device_type: DeviceType, backend: MacBackend) -> (r:
    StreamBackend)
    ensures
        r == backend_for(platform, device_type, backend),
        r == if device_type == DeviceType::System && platform == Platform::Windows {
            StreamBackend::WindowsLoopback
        } else if device_type == DeviceType::System && platform == Platform::MacOs && backend
            == MacBackend::CoreAudio {
            StreamBackend::CoreAudio
        } else {
            StreamBackend::Cpal
        },
{
    match device_type {
        DeviceType::Microphone => StreamBackend::Cpal,
        DeviceType::System => match platform {
            Platform::Windows => StreamBackend::WindowsLoopback,
            Platform::MacOs => match backend {
                MacBackend::CoreAudio => StreamBackend::CoreAudio,
                MacBackend::ScreenCaptureKit => StreamBackend::Cpal,
            },
            Platform::Other => StreamBackend::Cpal,
        },
    }
}

/// Whether a stream counts as started only with its first callback.
pub fn requires_first_callback(platform: Platform, device_type: DeviceType) -> (r: bool)
    ensures
        r == awaits_callback(platform, device_type),
        r == (device_type == DeviceType::System || platform == Platform::Windows),
{
    matches!(device_type, DeviceType::System) || matches!(platform, Platform::Windows)
}

/// The encodings of samples that a stream may have.
#[derive(Debug, Clone, Copy, PartialEq, Eq, Structural)]
pub enum SampleFormat {
    F32,
    I16,
    I32,
    I8,
    Other,
}

/// Whether samples of an encoding can be recorded.
pub fn is_supported_format(format: SampleFormat) -> (r: bool)
    ensures
        r == (format != SampleFormat::Other),
{
    !matches!(format, SampleFormat::Other)
}

/// Why a stream does not work.
#[derive(Debug)]
pub enum StreamError {
    /// The stream could not be made.
    Failed(String),
    /// The requested stream of the system's sound could not be made.
    SystemFailed(String),
    NoStreams,
    NoCallback { name: String, endpoint: String },
    StartNotRecorded,
    CallbackNotRecorded,
    FirstCallbackLate { name: String, endpoint: String },
}

/// What a `StreamError` stands for.
pub enum StreamFailure {
    Failed(Seq<char>),
    SystemFailed(Seq<char>),
    NoStreams,
    NoCallback { name: Seq<char>, endpoint: Seq<char> },
    StartNotRecorded,
    CallbackNotRecorded,
    FirstCallbackLate { name: Seq<char>, endpoint: Seq<char> },
}

impl View for StreamError {
    type V = StreamFailure;

    open spec fn view(&self) -> StreamFailure {
        match *self {
            StreamError::Failed(error) => StreamFailure::Failed(error@),
            StreamError::SystemFailed(error) => StreamFailure::SystemFailed(error@),
            StreamError::NoStreams => StreamFailure::NoStreams,
            StreamError::NoCallback { name, endpoint } => StreamFailure::NoCallback {
                name: name@,
                endpoint: endpoint@,
            },
            StreamError::StartNotRecorded => StreamFailure::StartNotRecorded,
            StreamError::CallbackNotRecorded => StreamFailure::CallbackNotRecorded,
            StreamError::FirstCallbackLate { name, endpoint } => StreamFailure::FirstCallbackLate {
                name: name@,
                endpoint: endpoint@,
            },
        }
    }
}

impl StreamFailure {
    /// The text that describes the failure.
    pub open spec fn text(self) -> Seq<char> {
        match self {
            StreamFailure::Failed(error) => error,
            StreamFailure::SystemFailed(error) =>
                "Requested system audio stream failed to start: "@ + error,
            StreamFailure::NoStreams => "No audio streams could be created"@,
            StreamFailure::NoCallback { name, endpoint } =>
                "Audio endpoint produced no callback within 2 seconds: "@ + name + " ("@ + endpoint
                + ")"@,
            StreamFailure::StartNotRecorded =>
                "Windows microphone stream start QPC was not recorded"@,
            StreamFailure::CallbackNotRecorded =>
                "Windows microphone callback QPC was not recorded"@,
            StreamFailure::FirstCallbackLate { name, endpoint } =>
                "Microphone endpoint first callback took at least 2 seconds: "@ + name + " ("@
                + endpoint + ")"@,
        }
    }
}

fn endpoint_text(head: &str, name: &str, endpoint: &str) -> (r: String)
    ensures
        r@ == head@ + name@ + " ("@ + endpoint@ + ")"@,
{
    let mut r = text::joined(head, name);
    r.append(" (");
    r.append(endpoint);
    r.append(")");
    r
}

impl StreamError {
    pub fn message(&self) -> (r: String)
        ensures
            r@ == self@.text(),
    {
        match self {
            StreamError::Failed(error) => error.clone(),
            StreamError::SystemFailed(error) => text::joined(
                "Requested system audio stream failed to start: ", error.as_str()),
            StreamError::NoStreams => "No audio streams could be created".to_owned(),
            StreamError::NoCallback { name, endpoint } => endpoint_text(
                "Audio endpoint produced no callback within 2 seconds: ",
                name.as_str(),
                endpoint.as_str(),
            ),
            StreamError::StartNotRecorded =>
                "Windows microphone stream start QPC was not recorded".to_owned(),
            StreamError::CallbackNotRecorded =>
                "Windows microphone callback QPC was not recorded".to_owned(),
            StreamError::FirstCallbackLate { name, endpoint } => endpoint_text(
                "Microphone endpoint first callback took at least 2 seconds: ",
                name.as_str(),
                endpoint.as_str(),
            ),
        }
    }
}

/// The identifier of a device for a message.
pub open spec fn endpoint_name(device: AudioDevice) -> Seq<char> {
    match device.native_id {
        Some(id) => id@,
        None => "unknown"@,
    }
}

fn endpoint_of(device: &AudioDevice) -> (r: String)
    ensures
        r@ == endpoint_name(*device),
{
    match &device.native_id {
        Some(id) => id.clone(),
        None => "unknown".to_owned(),
    }
}

/// A stream had no callback in time. On Windows a microphone's silence since its start is put on
/// record. Returns the failure and the error that a listener is to be told.
pub fn first_callback_missing(
    state: &mut RecordingState,
    platform: Platform,
    device_type: DeviceType,
    device: &AudioDevice,
    started_qpc_ns: Option<u64>,
    now_qpc_ns: u64,
) -> (r: (StreamError, Option<AudioError>))
    ensures
        r.0@ == (StreamFailure::NoCallback {
            name: device.name@,
            endpoint: endpoint_name(*device),
        }),
        if platform == Platform::Windows && device_type == DeviceType::Microphone {
            &&& final(state)@ == old(state)@.microphone_no_signal(
                match started_qpc_ns {
                    Some(started) => elapsed(started, now_qpc_ns),
                    None => 0,
                },
            )
            &&& r.1 == old(state)@.notice(AudioError::MicrophoneNoSignal)
        } else {
            final(state)@ == old(state)@ && r.1 is None
        },
{
    let error = StreamError::NoCallback { name: device.name.clone(), endpoint: endpoint_of(device) };
    if matches!(platform, Platform::Windows) && matches!(device_type, DeviceType::Microphone) {
        let started: u64 = match started_qpc_ns {
            Some(started) => started,
            None => now_qpc_ns,
        };
        let notice = state.report_microphone_no_signal(now_qpc_ns.saturating_sub(started));
        return (error, notice);
    }
    (error, None)
}

/// The first callback of a microphone came on Windows: it must not have taken the whole deadline.
/// Returns the outcome and the error that a listener is to be told.
pub fn first_callback_seen(
    state: &mut RecordingState,
    device: &AudioDevice,
    started_qpc_ns: Option<u64>,
) -> (r: (Result<(), StreamError>, Option<AudioError>))
    ensures
        r.0 is Ok == came_in_time(
            started_qpc_ns, old(state)@.microphone.last_callback_observed_qpc_ns),
        match (started_qpc_ns, nonzero(old(state)@.microphone.last_callback_observed_qpc_ns)) {
            (None, _) => (r.0 matches Err(e) && e@ == StreamFailure::StartNotRecorded)
                && final(state)@ == old(state)@ && r.1 is None,
            (Some(_), None) => (r.0 matches Err(e) && e@ == StreamFailure::CallbackNotRecorded)
                && final(state)@ == old(state)@ && r.1 is None,
            (Some(started), Some(first)) => if elapsed(started, first)
                >= AUDIO_CALLBACK_DEADLINE_NS {
                &&& (r.0 matches Err(e) && e@ == (StreamFailure::FirstCallbackLate {
                    name: device.name@,
                    endpoint: endpoint_name(*device),
                }))
                &&& final(state)@ == old(state)@.microphone_no_signal(elapsed(started, first))
                &&& r.1 == old(state)@.notice(AudioError::MicrophoneNoSignal)
            } else {
                r.0 is Ok && final(state)@ == old(state)@ && r.1 is None
            },
        },
{
    let started: u64 = match started_qpc_ns {
        Some(started) => started,
        None => {
            return (Err(StreamError::StartNotRecorded), None);
        },
    };
    let (_, observed, _, _, _) = state.microphone_route_health();
    let first: u64 = match observed {
        Some(first) => first,
        None => {
            return (Err(StreamError::CallbackNotRecorded), None);
        },
    };
    let gap: u64 = first.saturating_sub(started);
    if gap >= AUDIO_CALLBACK_DEADLINE_NS {
        let notice = state.report_microphone_no_signal(gap);
        let error = StreamError::FirstCallbackLate {
            name: device.name.clone(),
            endpoint: endpoint_of(device),
        };
        return (Err(error), notice);
    }
    (Ok(()), None)
}

/// How opening the stream of a device ends.
pub struct OpenedStream<S> {
    pub device: AudioDevice,
    pub stream: Result<S, String>,
}

/// A stream is asked for and cannot be opened.
pub open spec fn fails<S>(opened: Option<OpenedStream<S>>) -> bool {
    opened matches Some(opened) && opened.stream is Err
}

/// Why streams cannot be started, if they cannot.
pub open spec fn start_failure<S>(
    manager: AudioStreamManager<S>,
    microphone: Option<OpenedStream<S>>,
    system: Option<OpenedStream<S>>,
) -> Option<StreamFailure> {
    match (microphone, system) {
        (Some(OpenedStream { device, stream: Err(error) }), _) => Some(
            StreamFailure::Failed(error@),
        ),
        (_, Some(OpenedStream { device, stream: Err(error) })) => Some(
            StreamFailure::SystemFailed(error@),
        ),
        (None, None) => if manager.microphone_stream is None && manager.system_stream is None {
            Some(StreamFailure::NoStreams)
        } else {
            None
        },
        _ => None,
    }
}

/// The streams of a recording.
pub struct AudioStreamManager<S> {
    pub microphone_stream: Option<S>,
    pub system_stream: Option<S>,
}

impl<S> AudioStreamManager<S> {
    pub fn new() -> (r: Self)
        ensures
            r.microphone_stream is None,
            r.system_stream is None,
    {
        AudioStreamManager { microphone_stream: None, system_stream: None }
    }

    /// The stream of the microphone was made, or not. Only then is the device bound.
    pub fn microphone_created(
        &mut self,
        state: &mut RecordingState,
        device: AudioDevice,
        stream: Result<S, String>,
    ) -> (r: Result<(), StreamError>)
        ensures
            final(self).system_stream == old(self).system_stream,
            match stream {
                Ok(stream) => {
                    &&& r is Ok
                    &&& final(self).microphone_stream == Some(stream)
                    &&& final(state)@ == (State {
                        microphone_device: Some(device@),
                        ..old(state)@
                    })
                },
                Err(error) => {
                    &&& r matches Err(e) && e@ == StreamFailure::Failed(error@)
                    &&& final(self).microphone_stream == old(self).microphone_stream
                    &&& final(state)@ == old(state)@
                },
            },
    {
        match stream {
            Ok(stream) => {
                state.set_microphone_device(device);
                self.microphone_stream = Some(stream);
                Ok(())
            },
            Err(error) => Err(StreamError::Failed(error)),
        }
    }

    /// The stream of the system's sound was made, or not. Only then is the device bound.
    pub fn system_created(
        &mut self,
        state: &mut RecordingState,
        device: AudioDevice,
        stream: Result<S, String>,
    ) -> (r: Result<(), StreamError>)
        ensures
            final(self).microphone_stream == old(self).microphone_stream,
            match stream {
                Ok(stream) => {
                    &&& r is Ok
                    &&& final(self).system_stream == Some(stream)
                    &&& final(state)@ == (State { system_device: Some(device@), ..old(state)@ })
                },
                Err(error) => {
                    &&& r matches Err(e) && e@ == StreamFailure::SystemFailed(error@)
                    &&& final(self).system_stream == old(self).system_stream
                    &&& final(state)@ == old(state)@
                },
            },
    {
        match stream {
            Ok(stream) => {
                state.set_system_device(device);
                self.system_stream = Some(stream);
                Ok(())
            },
            Err(error) => Err(StreamError::SystemFailed(error)),
        }
    }

    /// Checks that there is a stream at all.
    pub fn require_stream(&self) -> (r: Result<(), StreamError>)
        ensures
            r is Ok == (self.microphone_stream is Some || self.system_stream is Some),
            r matches Err(error) ==> error@ == StreamFailure::NoStreams,
    {
        if self.has_active_streams() {
            Ok(())
        } else {
            Err(StreamError::NoStreams)
        }
    }

    /// Opens the streams of the routes that are recorded, given how opening each of them ends. The
    /// microphone's comes first, and its failure ends the start: the system's is not opened then.
    /// A device is bound once its stream is open, and stays bound when the other one fails.
    pub fn start_streams(
        &mut self,
        state: &mut RecordingState,
        microphone: Option<OpenedStream<S>>,
        system: Option<OpenedStream<S>>,
    ) -> (r: Result<(), StreamError>)
        ensures
            match r {
                Ok(_) => start_failure(*old(self), microphone, system) is None,
                Err(error) => start_failure(*old(self), microphone, system) == Some(error@),
            },
            final(self).microphone_stream == match microphone {
                Some(OpenedStream { device, stream: Ok(stream) }) => Some(stream),
                _ => old(self).microphone_stream,
            },
            final(self).system_stream == match system {
                Some(OpenedStream { device, stream: Ok(stream) }) if !fails(microphone) => Some(
                    stream,
                ),
                _ => old(self).system_stream,
            },
            final(state)@ == (State {
                microphone_device: match microphone {
                    Some(OpenedStream { device, stream: Ok(_) }) => Some(device@),
                    _ => old(state)@.microphone_device,
                },
                system_device: match system {
                    Some(OpenedStream { device, stream: Ok(_) }) if !fails(microphone) => Some(
                        device@,
                    ),
                    _ => old(state)@.system_device,
                },
                ..old(state)@
            }),
    {
        if let Some(opened) = microphone {
            if let Err(error) = self.microphone_created(state, opened.device, opened.stream) {
                return Err(error);
            }
        }
        if let Some(opened) = system {
            if let Err(error) = self.system_created(state, opened.device, opened.stream) {
                return Err(error);
            }
        }
        self.require_stream()
    }

    /// Hands the streams out to be stopped; none is left.
    pub fn take_streams(&mut self) -> (r: (Option<S>, Option<S>))
        ensures
            r == (old(self).microphone_stream, old(self).system_stream),
            final(self).microphone_stream is None,
            final(self).system_stream is None,
    {
        (self.microphone_stream.take(), self.system_stream.take())
    }

    pub fn active_stream_count(&self) -> (r: usize)
        ensures
            r == (if self.microphone_stream is Some { 1int } else { 0 }) + if self.system_stream
                is Some {
                1int
            } else {
                0
            },
    {
        let mut count: usize = 0;
        if self.microphone_stream.is_some() {
            count = count + 1;
        }
        if self.system_stream.is_some() {
            count = count + 1;
        }
        count
    }

    pub fn has_active_streams(&self) -> (r: bool)
        ensures
            r == (self.microphone_stream is Some || self.system_stream is Some),
    {
        self.microphone_stream.is_some() || self.system_stream.is_some()
    }
}

/// What is reported of streams that could not be stopped.
pub open spec fn stop_failure(
    microphone: Option<Result<(), String>>,
    system: Option<Result<(), String>>,
) -> Option<Seq<char>> {
    match (microphone, system) {
        (Some(Err(first)), Some(Err(second))) => Some(
            "Failed to stop some streams: ["@ + first@ + ", "@ + second@ + "]"@,
        ),
        (Some(Err(error)), _) | (_, Some(Err(error))) => Some(
            "Failed to stop some streams: ["@ + error@ + "]"@,
        ),
        _ => None,
    }
}

/// Both streams were stopped, where there are any. A failure with one does not keep the other from
/// being stopped, and both are reported.
pub fn stop_streams(
    microphone: Option<Result<(), String>>,
    system: Option<Result<(), String>>,
) -> (r: Result<(), String>)
    ensures
        match r {
            Ok(_) => stop_failure(microphone, system) is None,
            Err(message) => stop_failure(microphone, system) == Some(message@),
        },
{
    let first = match microphone {
        Some(Err(error)) => Some(error),
        _ => None,
    };
    let second = match system {
        Some(Err(error)) => Some(error),
        _ => None,
    };
    match (first, second) {
        (None, None) => Ok(()),
        (Some(first), Some(second)) => {
            let mut r = text::joined("Failed to stop some streams: [", first.as_str());
            r.append(", ");
            r.append(second.as_str());
            r.append("]");
            Err(r)
        },
        (Some(error), None) | (None, Some(error)) => {
            let mut r = text::joined("Failed to stop some streams: [", error.as_str());
            r.append("]");
            Err(r)
        },
    }
}

/// How long streams may take to stop, in milliseconds.
pub const STREAM_STOP_MS: u64 = 2_000;

/// How stopping the streams ended. The system's stream is only stopped once the microphone's is.
#[derive(Debug)]
pub enum StreamsEnd {
    Stopped { microphone: Result<(), String>, system: Result<(), String> },
    TaskFailed(String),
    TimedOut,
}

/// Whether all streams were stopped in time, and else what went wrong first.
pub fn stop_streams_with_timeout(end: StreamsEnd) -> (r: Result<(), String>)
    ensures
        match end {
            StreamsEnd::Stopped { microphone: Err(error), system } => r == Err::<(), String>(
                error),
            StreamsEnd::Stopped { microphone: Ok(_), system } => r == system,
            StreamsEnd::TaskFailed(error) => r matches Err(message) && message@
                == "Audio stream stop task failed: "@ + error@,
            StreamsEnd::TimedOut => r matches Err(message) && message@
                == "Audio stream callback drain exceeded its fixed deadline"@,
        },
{
    match end {
        StreamsEnd::Stopped { microphone, system } => match microphone {
            Ok(_) => system,
            Err(error) => Err(error),
        },
        StreamsEnd::TaskFailed(error) => Err(
            text::joined("Audio stream stop task failed: ", error.as_str()),
        ),
        StreamsEnd::TimedOut => Err(
            "Audio stream callback drain exceeded its fixed deadline".to_owned(),
        ),
    }
}

/// Samples that are handed on in chunks of a fixed size.
pub struct FrameChunker<T> {
    pub buffer: Vec<T>,
}

/// The number of samples in a chunk.
pub const FRAMES_PER_CHUNK: usize = 1_024;

impl<T> FrameChunker<T> {
    /// There is room for at least one sample.
    pub open spec fn wf(&self) -> bool {
        self.buffer@.len() < FRAMES_PER_CHUNK
    }

    pub fn new() -> (r: Self)
        ensures
            r.wf(),
            r.buffer@.len() == 0,
    {
        FrameChunker { buffer: Vec::new() }
    }

    /// Takes a sample in. Returns a chunk when it is full.
    pub fn push(&mut self, sample: T) -> (r: Option<Vec<T>>)
        requires
            old(self).wf(),
        ensures
            final(self).wf(),
            match r {
                Some(chunk) => {
                    &&& chunk@.len() == FRAMES_PER_CHUNK
                    &&& chunk@ + final(self).buffer@ == old(self).buffer@.push(sample)
                },
                None => final(self).buffer@ == old(self).buffer@.push(sample),
            },
    {
        self.buffer.push(sample);
        if self.buffer.len() >= FRAMES_PER_CHUNK {
            let mut chunk: Vec<T> = Vec::new();
            chunk.append(&mut self.buffer);
            assert(chunk@ + self.buffer@ =~= old(self).buffer@.push(sample));
            return Some(chunk);
        }
        None
    }

    /// The samples that are left at the end, if there are any.
    pub fn finish(self) -> (r: Option<Vec<T>>)
        ensures
            match r {
                Some(rest) => rest@ == self.buffer@ && rest@.len() > 0,
                None => self.buffer@.len() == 0,
            },
    {
        if self.buffer.len() == 0 {
            None
        } else {
            Some(self.buffer)
        }
    }
}

/// Law: a microphone that is watched and gave no callback for two seconds, since the last one or
/// since it is watched, is found silent, unless that was told already; and while it is not
/// watched, it never is.
pub proof fn two_seconds_without_a_callback_are_silence(
    watch: MicrophoneWatchdog,
    state: State,
    now_qpc_ns: u64,
)
    requires
        watch.monitoring_started_qpc_ns > 0,
        !watch.no_signal_reported,
    ensures
        ({
            let since = if state.microphone.last_callback_observed_qpc_ns
                > watch.monitoring_started_qpc_ns {
                state.microphone.last_callback_observed_qpc_ns
            } else {
                watch.monitoring_started_qpc_ns
            };
            watch.finds_silence(state, now_qpc_ns) <==> state.recording && !state.paused
                && !state.reconnecting && state.routes_ready && now_qpc_ns >= since + 2_000_000_000
        }),
{
}

/// Law: a new callback is seen, and silence after it is told of again.
pub proof fn a_new_callback_is_seen(watch: MicrophoneWatchdog, state: State, now_qpc_ns: u64)
    requires
        state.microphone.last_callback_observed_qpc_ns != 0,
        state.microphone.last_callback_observed_qpc_ns != watch.last_seen_callback_qpc_ns,
    ensures
        ({
            let after = watch.looked(state, now_qpc_ns);
            &&& !after.no_signal_reported
            &&& after.last_seen_callback_qpc_ns == state.microphone.last_callback_observed_qpc_ns
            &&& after.looked(state, now_qpc_ns) == after || now_qpc_ns == 0
        }),
{
}

/// Law: audio was captured before it came in, by its latency, and no instant lies before zero.
pub proof fn capture_lies_before_the_callback(counter: i64, frequency: i64, latency_ns: u64)
    requires
        0 <= counter,
        0 < frequency,
        counter * 1_000_000_000 / frequency as int <= u64::MAX,
    ensures
        capture_instant(counter, frequency, latency_ns) matches Some(instant) && {
            let observed = counter * 1_000_000_000 / frequency as int;
            if observed >= latency_ns {
                instant + latency_ns == observed
            } else {
                instant == 0
            }
        },
        capture_instant(counter, 0, latency_ns) is None,
{
    let observed = counter * 1_000_000_000 / frequency as int;
    vstd::arithmetic::div_mod::lemma_div_pos_is_pos(counter * 1_000_000_000, frequency as int);
    assert((observed as u128) as u64 == observed);
}

/// Law: streams count as started only where none that was opened failed and there is one at all.
pub proof fn a_stream_that_fails_fails_the_start<S>(
    manager: AudioStreamManager<S>,
    microphone: Option<OpenedStream<S>>,
    system: Option<OpenedStream<S>>,
)
    ensures
        fails(microphone) || fails(system) ==> start_failure(manager, microphone, system) is Some,
        !fails(microphone) && !fails(system) && (microphone is Some || system is Some)
            ==> start_failure(manager, microphone, system) is None,
        microphone is None && system is None && manager.microphone_stream is None
            && manager.system_stream is None ==> start_failure(manager, microphone, system) == Some(
            StreamFailure::NoStreams),
        microphone matches Some(opened) && opened.stream is Err ==> start_failure(
            manager, microphone, system) == Some(
            StreamFailure::Failed(microphone->0.stream->Err_0@)),
{
}

/// Law: stopping fails exactly where a stream that was there could not be stopped.
pub proof fn a_stream_that_does_not_stop_is_told_of(
    microphone: Option<Result<(), String>>,
    system: Option<Result<(), String>>,
)
    ensures
        stop_failure(microphone, system) is Some <==> (microphone matches Some(Err(_))) || (
        system matches Some(Err(_))),
{
}

/// The backend that captures a route.
pub open spec fn backend_for(
    platform: Platform,
    device_type: DeviceType,
    backend: MacBackend,
) -> StreamBackend {
    if device_type == DeviceType::System && platform == Platform::Windows {
        StreamBackend::WindowsLoopback
    } else if device_type == DeviceType::System && platform == Platform::MacOs && backend
        == MacBackend::CoreAudio {
        StreamBackend::CoreAudio
    } else {
        StreamBackend::Cpal
    }
}

/// A stream counts as started only with its first callback.
pub open spec fn awaits_callback(platform: Platform, device_type: DeviceType) -> bool {
    device_type == DeviceType::System || platform == Platform::Windows
}

/// A first callback came within the deadline of its stream's start, and both are known.
pub open spec fn came_in_time(started_qpc_ns: Option<u64>, observed_qpc_ns: u64) -> bool {
    match (started_qpc_ns, nonzero(observed_qpc_ns)) {
        (Some(started), Some(first)) => elapsed(started, first) < AUDIO_CALLBACK_DEADLINE_NS,
        _ => false,
    }
}

/// Law: the microphone is captured the same way everywhere, and system audio as its platform can;
/// a microphone has two seconds for its first callback.
pub proof fn routes_are_captured_as_the_platform_can(
    platform: Platform,
    backend: MacBackend,
    started_qpc_ns: u64,
    first_qpc_ns: u64,
)
    requires
        0 < started_qpc_ns <= first_qpc_ns,
    ensures
        backend_for(platform, DeviceType::Microphone, backend) == StreamBackend::Cpal,
        backend_for(Platform::Windows, DeviceType::System, backend)
            == StreamBackend::WindowsLoopback,
        backend_for(Platform::MacOs, DeviceType::System, MacBackend::CoreAudio)
            == StreamBackend::CoreAudio,
        backend_for(Platform::Other, DeviceType::System, backend) == StreamBackend::Cpal,
        awaits_callback(platform, DeviceType::System),
        awaits_callback(Platform::Windows, DeviceType::Microphone),
        platform != Platform::Windows ==> !awaits_callback(platform, DeviceType::Microphone),
        came_in_time(Some(started_qpc_ns), first_qpc_ns) <==> first_qpc_ns - started_qpc_ns
            < 2_000_000_000,
        !came_in_time(None, first_qpc_ns),
        !came_in_time(Some(started_qpc_ns), 0),
{
}

} // verus!
