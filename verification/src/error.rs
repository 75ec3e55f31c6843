//! The failures that the pipeline reports.

use vstd::prelude::*;
use vstd::string::StringExecFns;

verus! {

/// Where a failure goes.
#[derive(Clone, Copy, Debug, PartialEq, Eq, Structural)]
pub enum Route {
    /// Back to the caller of the command that met it, which leaves the
    /// controller where it was.
    Caller,
    /// To the consumer, as an event, after the session was torn down.
    Consumer,
    /// Into the log and no further.
    Log,
}

/// Why an operation of the pipeline failed.
#[derive(Clone, Copy, Debug, PartialEq, Eq, Structural)]
pub enum SessionError {
    /// No input device, or the device gave no configuration.
    DeviceUnavailable,
    /// The device does not capture 32-bit floating-point samples.
    UnsupportedSampleFormat,
    /// The connection could not be prepared or established.
    ConnectionFailed,
    /// An established connection failed while reading or writing.
    ConnectionLost,
    /// A text message from the service was not well-formed.
    MalformedServerMessage,
    /// The capture stream was built but could not be started.
    StreamStartFailed,
}

impl SessionError {
    /// The text shown for this failure.
    pub open spec fn message(self) -> Seq<char> {
        match self {
            SessionError::DeviceUnavailable => "No microphone found"@,
            SessionError::UnsupportedSampleFormat => "Unsupported sample format (need f32)"@,
            SessionError::ConnectionFailed => "Failed to connect to the transcription service"@,
            SessionError::ConnectionLost => "Connection to the transcription service was lost"@,
            SessionError::MalformedServerMessage => "Failed to parse server message"@,
            SessionError::StreamStartFailed => "Failed to start stream"@,
        }
    }

    /// Where this failure goes.  A lost connection is found while a session
    /// runs, so it has no caller to go to; a malformed message is skipped.
    pub open spec fn route(self) -> Route {
        match self {
            SessionError::DeviceUnavailable => Route::Caller,
            SessionError::UnsupportedSampleFormat => Route::Caller,
            SessionError::ConnectionFailed => Route::Caller,
            SessionError::StreamStartFailed => Route::Caller,
            SessionError::ConnectionLost => Route::Consumer,
            SessionError::MalformedServerMessage => Route::Log,
        }
    }

    /// Renders the failure as text.
    pub fn describe(&self) -> (text: String)
        ensures
            text@ == self.message(),
    {
        match self {
            SessionError::DeviceUnavailable => String::from_str("No microphone found"),
            SessionError::UnsupportedSampleFormat => String::from_str(
                "Unsupported sample format (need f32)",
            ),
            SessionError::ConnectionFailed => String::from_str(
                "Failed to connect to the transcription service",
            ),
            SessionError::ConnectionLost => String::from_str(
                "Connection to the transcription service was lost",
            ),
            SessionError::MalformedServerMessage => String::from_str(
                "Failed to parse server message",
            ),
            SessionError::StreamStartFailed => String::from_str("Failed to start stream"),
        }
    }

    /// Tells where this failure goes.
    pub fn destination(&self) -> (route: Route)
        ensures
            route == self.route(),
    {
        match self {
            SessionError::ConnectionLost => Route::Consumer,
            SessionError::MalformedServerMessage => Route::Log,
            _ => Route::Caller,
        }
    }
}

} // verus!
