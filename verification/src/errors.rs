//! The capture engine's error kinds.  Every kind is terminal for the current
//! capture attempt; `SelectionCancelled` is distinguished from true errors so
//! a caller can treat an intentional abort as a non-error outcome.

use vstd::prelude::*;

verus! {

/// Why a capture attempt failed.
#[derive(Debug, Clone)]
pub enum CaptureError {
    /// No display-server signal was found in the environment.
    NoDisplayServer,
    /// Establishing the protocol connection failed; the payload is the
    /// transport's own description.
    ConnectionFailed(String),
    /// A protocol round trip failed: the operation's name, then the detail.
    ProtocolRequestFailed(String, String),
    /// The session reports no active window.
    NoActiveWindow,
    /// No 32-bit alpha-capable visual is available for the dimming blend.
    NoCompatibleVisual,
    /// A requested rectangle lies outside the captured image.
    RegionOutOfBounds,
    /// The user ended the interactive selection with the escape key.
    SelectionCancelled,
    /// A monitor was asked for but none are present.
    NoMonitors,
    /// A numeric display specifier exceeds the monitor list; holds the
    /// specifier.
    MonitorIndexOutOfRange(String),
    /// No monitor has the given name; holds the specifier.
    MonitorNotFound(String),
    /// The selected backend does not offer the requested operation.
    Unsupported(String),
    /// A captured image file could not be decoded.
    ImageDecodeFailed(String),
}

impl CaptureError {
    /// A short, stable machine-readable name of the error kind.
    pub fn kind_name(&self) -> (r: &'static str)
        ensures
            r@ == self.spec_kind_name(),
    {
        match self {
            CaptureError::NoDisplayServer => "no-display-server",
            CaptureError::ConnectionFailed(_) => "connection-failed",
            CaptureError::ProtocolRequestFailed(_, _) => "protocol-request-failed",
            CaptureError::NoActiveWindow => "no-active-window",
            CaptureError::NoCompatibleVisual => "no-compatible-visual",
            CaptureError::RegionOutOfBounds => "region-out-of-bounds",
            CaptureError::SelectionCancelled => "selection-cancelled",
            CaptureError::NoMonitors => "no-monitors",
            CaptureError::MonitorIndexOutOfRange(_) => "monitor-index-out-of-range",
            CaptureError::MonitorNotFound(_) => "monitor-not-found",
            CaptureError::Unsupported(_) => "unsupported",
            CaptureError::ImageDecodeFailed(_) => "image-decode-failed",
        }
    }

    pub open spec fn spec_kind_name(&self) -> Seq<char> {
        match self {
            CaptureError::NoDisplayServer => "no-display-server"@,
            CaptureError::ConnectionFailed(_) => "connection-failed"@,
            CaptureError::ProtocolRequestFailed(_, _) => "protocol-request-failed"@,
            CaptureError::NoActiveWindow => "no-active-window"@,
            CaptureError::NoCompatibleVisual => "no-compatible-visual"@,
            CaptureError::RegionOutOfBounds => "region-out-of-bounds"@,
            CaptureError::SelectionCancelled => "selection-cancelled"@,
            CaptureError::NoMonitors => "no-monitors"@,
            CaptureError::MonitorIndexOutOfRange(_) => "monitor-index-out-of-range"@,
            CaptureError::MonitorNotFound(_) => "monitor-not-found"@,
            CaptureError::Unsupported(_) => "unsupported"@,
            CaptureError::ImageDecodeFailed(_) => "image-decode-failed"@,
        }
    }
}

} // verus!
