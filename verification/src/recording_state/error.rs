//! What can go wrong with audio.

use vstd::prelude::*;

verus! {

/// What can go wrong with audio.
#[derive(Debug, Clone, Copy, PartialEq, Eq, Structural)]
pub enum AudioError {
    DeviceDisconnected,
    StreamFailed,
    ProcessingFailed,
    TranscriptionFailed,
    ChannelClosed,
    InitializationFailed,
    ConfigurationError,
    PermissionDenied,
    BufferOverflow,
    SampleRateUnsupported,
    SystemAudioNoSignal,
    SystemAudioSilent,
    MicrophoneNoSignal,
}

impl AudioError {
    /// The errors after which reconnecting may help.
    pub open spec fn recoverable(self) -> bool {
        !(self is ChannelClosed || self is InitializationFailed || self is ConfigurationError
            || self is PermissionDenied || self is SampleRateUnsupported)
    }

    /// The name of the error.
    pub open spec fn name(self) -> Seq<char> {
        match self {
            AudioError::DeviceDisconnected => "DeviceDisconnected"@,
            AudioError::StreamFailed => "StreamFailed"@,
            AudioError::ProcessingFailed => "ProcessingFailed"@,
            AudioError::TranscriptionFailed => "TranscriptionFailed"@,
            AudioError::ChannelClosed => "ChannelClosed"@,
            AudioError::InitializationFailed => "InitializationFailed"@,
            AudioError::ConfigurationError => "ConfigurationError"@,
            AudioError::PermissionDenied => "PermissionDenied"@,
            AudioError::BufferOverflow => "BufferOverflow"@,
            AudioError::SampleRateUnsupported => "SampleRateUnsupported"@,
            AudioError::SystemAudioNoSignal => "SystemAudioNoSignal"@,
            AudioError::SystemAudioSilent => "SystemAudioSilent"@,
            AudioError::MicrophoneNoSignal => "MicrophoneNoSignal"@,
        }
    }

    /// The text shown to the user.
    pub open spec fn text(self) -> Seq<char> {
        match self {
            AudioError::DeviceDisconnected => "Audio device was disconnected"@,
            AudioError::StreamFailed => "Audio stream encountered an error"@,
            AudioError::ProcessingFailed => "Audio processing failed"@,
            AudioError::TranscriptionFailed => "Speech transcription failed"@,
            AudioError::ChannelClosed => "Audio channel was closed unexpectedly"@,
            AudioError::InitializationFailed => "Failed to initialize audio system"@,
            AudioError::ConfigurationError => "Audio configuration error"@,
            AudioError::PermissionDenied => "Microphone permission denied"@,
            AudioError::BufferOverflow => "Audio buffer overflow"@,
            AudioError::SampleRateUnsupported => "Audio sample rate not supported"@,
            AudioError::SystemAudioNoSignal =>
                "System audio endpoint produced no callback for 2 seconds"@,
            AudioError::SystemAudioSilent =>
                "System audio endpoint is muted and produced only silent frames"@,
            AudioError::MicrophoneNoSignal =>
                "Microphone endpoint produced no callback for 2 seconds"@,
        }
    }

    /// Whether reconnecting may help.
    pub fn is_recoverable(&self) -> (r: bool)
        ensures
            r == self.recoverable(),
    {
        match self {
            AudioError::DeviceDisconnected => true,
            AudioError::StreamFailed => true,
            AudioError::ProcessingFailed => true,
            AudioError::TranscriptionFailed => true,
            AudioError::ChannelClosed => false,
            AudioError::InitializationFailed => false,
            AudioError::ConfigurationError => false,
            AudioError::PermissionDenied => false,
            AudioError::BufferOverflow => true,
            AudioError::SampleRateUnsupported => false,
            AudioError::SystemAudioNoSignal => true,
            AudioError::SystemAudioSilent => true,
            AudioError::MicrophoneNoSignal => true,
        }
    }

    /// The text shown to the user.
    pub fn user_message(&self) -> (r: &'static str)
        ensures
            r@ == self.text(),
    {
        match self {
            AudioError::DeviceDisconnected => "Audio device was disconnected",
            AudioError::StreamFailed => "Audio stream encountered an error",
            AudioError::ProcessingFailed => "Audio processing failed",
            AudioError::TranscriptionFailed => "Speech transcription failed",
            AudioError::ChannelClosed => "Audio channel was closed unexpectedly",
            AudioError::InitializationFailed => "Failed to initialize audio system",
            AudioError::ConfigurationError => "Audio configuration error",
            AudioError::PermissionDenied => "Microphone permission denied",
            AudioError::BufferOverflow => "Audio buffer overflow",
            AudioError::SampleRateUnsupported => "Audio sample rate not supported",
            AudioError::SystemAudioNoSignal =>
                "System audio endpoint produced no callback for 2 seconds",
            AudioError::SystemAudioSilent =>
                "System audio endpoint is muted and produced only silent frames",
            AudioError::MicrophoneNoSignal =>
                "Microphone endpoint produced no callback for 2 seconds",
        }
    }

    /// The name of the error, as it stands in an incident.
    pub fn code(&self) -> (r: &'static str)
        ensures
            r@ == self.name(),
    {
        match self {
            AudioError::DeviceDisconnected => "DeviceDisconnected",
            AudioError::StreamFailed => "StreamFailed",
            AudioError::ProcessingFailed => "ProcessingFailed",
            AudioError::TranscriptionFailed => "TranscriptionFailed",
            AudioError::ChannelClosed => "ChannelClosed",
            AudioError::InitializationFailed => "InitializationFailed",
            AudioError::ConfigurationError => "ConfigurationError",
            AudioError::PermissionDenied => "PermissionDenied",
            AudioError::BufferOverflow => "BufferOverflow",
            AudioError::SampleRateUnsupported => "SampleRateUnsupported",
            AudioError::SystemAudioNoSignal => "SystemAudioNoSignal",
            AudioError::SystemAudioSilent => "SystemAudioSilent",
            AudioError::MicrophoneNoSignal => "MicrophoneNoSignal",
        }
    }
}

} // verus!
