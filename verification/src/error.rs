//! The kinds of failure a session can meet, and which of them end it.

use vstd::prelude::*;

verus! {

/// What can go wrong between opening the devices and closing the
/// connection.
#[derive(Clone, Copy, Debug, PartialEq, Eq, Structural)]
pub enum ErrorKind {
    /// No usable capture or playback device, or no format both can run.
    DeviceSetupError,
    /// The peer closed the connection.
    TransportClosed,
    /// The connection failed below the level of this protocol.
    TransportIOError,
    /// The audio subsystem reported a glitch inside a callback.
    StreamCallbackError,
    /// A read brought a number of bytes other than one frame.
    DecodeMismatch,
}

impl ErrorKind {
    /// Setup and transport failures end the session; a callback glitch or
    /// a short frame is noted and streaming goes on.
    pub open spec fn fatal(self) -> bool {
        self == ErrorKind::DeviceSetupError || self == ErrorKind::TransportClosed || self
            == ErrorKind::TransportIOError
    }

    /// Whether this kind of failure ends the session.
    pub fn is_fatal(&self) -> (r: bool)
        ensures
            r == self.fatal(),
    {
        match self {
            ErrorKind::DeviceSetupError => true,
            ErrorKind::TransportClosed => true,
            ErrorKind::TransportIOError => true,
            ErrorKind::StreamCallbackError => false,
            ErrorKind::DecodeMismatch => false,
        }
    }

    /// The line shown to the user for this kind of failure.
    pub open spec fn text(self) -> Seq<char> {
        match self {
            ErrorKind::DeviceSetupError => "audio device setup failed"@,
            ErrorKind::TransportClosed => "connection closed by peer"@,
            ErrorKind::TransportIOError => "connection failed"@,
            ErrorKind::StreamCallbackError => "audio stream error"@,
            ErrorKind::DecodeMismatch => "received an incomplete frame"@,
        }
    }

    /// A human-readable message for this kind of failure.
    pub fn message(&self) -> (r: String)
        ensures
            r@ == self.text(),
    {
        match self {
            ErrorKind::DeviceSetupError => "audio device setup failed".to_string(),
            ErrorKind::TransportClosed => "connection closed by peer".to_string(),
            ErrorKind::TransportIOError => "connection failed".to_string(),
            ErrorKind::StreamCallbackError => "audio stream error".to_string(),
            ErrorKind::DecodeMismatch => "received an incomplete frame".to_string(),
        }
    }
}

} // verus!
