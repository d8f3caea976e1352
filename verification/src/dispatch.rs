//! The capture dispatcher's routing: a capture intent and the detected
//! display server decide which backend operation runs.  The backends are
//! independent and never call each other; adding a mode forces a
//! compile-time-checked update here.

use vstd::prelude::*;

use crate::display::DisplayServer;
use crate::geometry::Region;

verus! {

/// What to capture.  Immutable once constructed; consumed once per capture
/// call.
#[derive(Debug, Clone, PartialEq, Eq, Structural)]
pub enum CaptureMode {
    /// The whole screen.
    Fullscreen,
    /// An explicit rectangle, fetched directly; an out-of-bounds request is
    /// a protocol-level error surfaced by the transport.
    Region(Region),
    /// A rectangle chosen interactively with the selection overlay.
    RegionInteractive,
    /// The session's currently active window.
    ActiveWindow,
}

impl CaptureMode {
    /// The mode's name as recorded beside saved captures.
    pub fn name(&self) -> (r: &'static str)
        ensures
            r@ == self.spec_name(),
    {
        match self {
            CaptureMode::Fullscreen => "fullscreen",
            CaptureMode::Region(_) => "region",
            CaptureMode::RegionInteractive => "region-interactive",
            CaptureMode::ActiveWindow => "active-window",
        }
    }

    pub open spec fn spec_name(&self) -> Seq<char> {
        match self {
            CaptureMode::Fullscreen => "fullscreen"@,
            CaptureMode::Region(_) => "region"@,
            CaptureMode::RegionInteractive => "region-interactive"@,
            CaptureMode::ActiveWindow => "active-window"@,
        }
    }
}

/// The backend operation a capture intent routes to.
#[derive(Debug, Clone, PartialEq, Eq, Structural)]
pub enum BackendOp {
    /// X-based: read the root window's size and fetch the whole root area.
    XFullscreen,
    /// X-based: fetch the given rectangle from the root window.
    XRegion { region: Region },
    /// X-based: run the interactive selection overlay.
    XInteractive,
    /// X-based: look up the active window and fetch its translated bounds.
    XActiveWindow,
    /// Portal-based: one screenshot request, optionally interactive.
    PortalShot { interactive: bool },
    /// Portal-based: a non-interactive full capture, cropped in memory to
    /// the rectangle clamped against the image's actual bounds.
    PortalRegion { region: Region },
}

/// Where each capture mode goes on each backend.  The portal has no native
/// rectangle capture, so an explicit region becomes a full capture plus an
/// in-memory crop, and no active-window concept, so that mode becomes a
/// plain non-interactive full capture.
pub open spec fn spec_route(server: DisplayServer, mode: CaptureMode) -> BackendOp {
    match server {
        DisplayServer::X11 => match mode {
            CaptureMode::Fullscreen => BackendOp::XFullscreen,
            CaptureMode::Region(r) => BackendOp::XRegion { region: r },
            CaptureMode::RegionInteractive => BackendOp::XInteractive,
            CaptureMode::ActiveWindow => BackendOp::XActiveWindow,
        },
        DisplayServer::Wayland => match mode {
            CaptureMode::Fullscreen => BackendOp::PortalShot { interactive: false },
            CaptureMode::Region(r) => BackendOp::PortalRegion { region: r },
            CaptureMode::RegionInteractive => BackendOp::PortalShot { interactive: true },
            CaptureMode::ActiveWindow => BackendOp::PortalShot { interactive: false },
        },
    }
}

/// Route a capture intent to the operation of the detected backend.
pub fn route_capture(server: DisplayServer, mode: &CaptureMode) -> (r: BackendOp)
    ensures
        r == spec_route(server, *mode),
{
    match server {
        DisplayServer::X11 => match mode {
            CaptureMode::Fullscreen => BackendOp::XFullscreen,
            CaptureMode::Region(region) => BackendOp::XRegion { region: *region },
            CaptureMode::RegionInteractive => BackendOp::XInteractive,
            CaptureMode::ActiveWindow => BackendOp::XActiveWindow,
        },
        DisplayServer::Wayland => match mode {
            CaptureMode::Fullscreen => BackendOp::PortalShot { interactive: false },
            CaptureMode::Region(region) => BackendOp::PortalRegion { region: *region },
            CaptureMode::RegionInteractive => BackendOp::PortalShot { interactive: true },
            CaptureMode::ActiveWindow => BackendOp::PortalShot { interactive: false },
        },
    }
}

} // verus!
