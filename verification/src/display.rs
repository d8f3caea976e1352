//! Display-server detection and monitor handling: which protocol backend to
//! use, the monitor listing contract, and resolving a display specifier to a
//! monitor.

use vstd::prelude::*;

use crate::errors::CaptureError;
use crate::geometry::Region;
use crate::text::{
    is_unsigned_numeral, parse_usize, str_eq, unsigned_value,
};

verus! {

/// Which display protocol is active on the host.
#[derive(Debug, Clone, Copy, PartialEq, Eq, Structural)]
pub enum DisplayServer {
    /// The X-based protocol, spoken directly over a connection.
    X11,
    /// The compositor-portal protocol, spoken through the desktop portal.
    Wayland,
}

impl DisplayServer {
    /// The server's name as recorded beside saved captures.
    pub fn name(&self) -> (r: &'static str)
        ensures
            r@ == self.spec_name(),
    {
        match self {
            DisplayServer::X11 => "x11",
            DisplayServer::Wayland => "wayland",
        }
    }

    pub open spec fn spec_name(&self) -> Seq<char> {
        match self {
            DisplayServer::X11 => "x11"@,
            DisplayServer::Wayland => "wayland"@,
        }
    }
}

/// One connected monitor, as listed by the X-based backend.  Listings are
/// queried fresh on each call and never cached.
#[derive(Debug, Clone)]
pub struct Monitor {
    /// The protocol-assigned identifier, such as `"HDMI-1"`.
    pub name: String,
    pub x: i16,
    pub y: i16,
    pub width: u16,
    pub height: u16,
}

impl Monitor {
    /// The monitor's bounds as a `Region` at its own origin.
    pub fn to_region(&self) -> (r: Region)
        ensures
            r.x == self.x as int,
            r.y == self.y as int,
            r.width == self.width as int,
            r.height == self.height as int,
    {
        Region {
            x: self.x as i32,
            y: self.y as i32,
            width: self.width as u32,
            height: self.height as u32,
        }
    }
}

/// What the environment says about the session, handed in by the process
/// boundary: the portal-specific display variable, the session-type
/// variable, and the generic display variable, each absent or present with
/// its value.
pub struct EnvironmentSignals {
    pub wayland_display: Option<String>,
    pub session_type: Option<String>,
    pub x_display: Option<String>,
}

/// The display server the environment signals imply, in priority order: the
/// portal-specific display variable is conclusive by its presence; then a
/// session-type of exactly `"wayland"` or `"x11"` decides (other values are
/// ignored); then the generic display variable implies the X-based protocol;
/// with no match, detection fails.
pub open spec fn spec_detect(env: EnvironmentSignals) -> Result<DisplayServer, CaptureError> {
    if env.wayland_display is Some {
        Ok(DisplayServer::Wayland)
    } else if env.session_type matches Some(t) && t@ == "wayland"@ {
        Ok(DisplayServer::Wayland)
    } else if env.session_type matches Some(t) && t@ == "x11"@ {
        Ok(DisplayServer::X11)
    } else if env.x_display is Some {
        Ok(DisplayServer::X11)
    } else {
        Err(CaptureError::NoDisplayServer)
    }
}

/// Decide which protocol backend to use from the environment signals.
pub fn detect_display_server(env: &EnvironmentSignals) -> (r: Result<DisplayServer, CaptureError>)
    ensures
        r is Ok <==> spec_detect(*env) is Ok,
        r matches Ok(s) ==> spec_detect(*env) == Ok::<DisplayServer, CaptureError>(s),
        r is Err ==> (r matches Err(e) && e is NoDisplayServer),
{
    if env.wayland_display.is_some() {
        return Ok(DisplayServer::Wayland);
    }
    match &env.session_type {
        Some(t) => {
            if str_eq(t.as_str(), "wayland") {
                return Ok(DisplayServer::Wayland);
            }
            if str_eq(t.as_str(), "x11") {
                return Ok(DisplayServer::X11);
            }
        },
        None => {},
    }
    if env.x_display.is_some() {
        return Ok(DisplayServer::X11);
    }
    Err(CaptureError::NoDisplayServer)
}

/// The monitor listing for a backend: the X-based backend hands through the
/// monitors it queried; the portal-based backend does not support
/// enumeration and reports a typed "unsupported" error rather than an empty
/// list.
pub fn list_monitors(server: DisplayServer, queried: Vec<Monitor>) -> (r: Result<
    Vec<Monitor>,
    CaptureError,
>)
    ensures
        server is X11 <==> r is Ok,
        r matches Ok(ms) ==> ms == queried,
        r matches Err(e) ==> e is Unsupported,
{
    match server {
        DisplayServer::X11 => Ok(queried),
        DisplayServer::Wayland => Err(
            CaptureError::Unsupported(
                crate::pixels::string_lit("monitor listing not yet supported on Wayland"),
            ),
        ),
    }
}

/// Resolve a display specifier against a monitor listing.  A specifier that
/// parses as an unsigned number is a zero-based index into the list; any
/// other specifier must match a monitor's name exactly.  An empty listing,
/// an index out of range, and an unmatched name each fail with their own
/// error kind.
pub fn resolve_display(query: &str, monitors: Vec<Monitor>) -> (r: Result<Monitor, CaptureError>)
    ensures
        monitors@.len() == 0 ==> (r matches Err(e) && e is NoMonitors),
        monitors@.len() > 0 && is_unsigned_numeral(query@) && unsigned_value(query@) <= usize::MAX
            ==> match r {
            Ok(m) => unsigned_value(query@) < monitors@.len() && m == monitors@[unsigned_value(
                query@,
            )],
            Err(e) => unsigned_value(query@) >= monitors@.len() && e is MonitorIndexOutOfRange,
        },
        monitors@.len() > 0 && !(is_unsigned_numeral(query@) && unsigned_value(query@) <= usize::MAX)
            ==> match r {
            Ok(m) => exists|i: int|
                0 <= i < monitors@.len() && monitors@[i].name@ == query@ && m == monitors@[i]
                    && forall|j: int| 0 <= j < i ==> monitors@[j].name@ != query@,
            Err(e) => (forall|i: int| 0 <= i < monitors@.len() ==> monitors@[i].name@ != query@)
                && e is MonitorNotFound,
        },
{
    if monitors.len() == 0 {
        return Err(CaptureError::NoMonitors);
    }
    match parse_usize(query) {
        Some(idx) => {
            if idx < monitors.len() {
                let m = &monitors[idx];
                Ok(m.clone_monitor())
            } else {
                Err(CaptureError::MonitorIndexOutOfRange(String::from_str(query)))
            }
        },
        None => {
            let n = monitors.len();
            let mut i: usize = 0;
            while i < n
                invariant
                    n == monitors@.len(),
                    i <= n,
                    !is_unsigned_numeral(query@) || unsigned_value(query@) > usize::MAX,
                    forall|j: int| 0 <= j < i ==> monitors@[j].name@ != query@,
                decreases n - i,
            {
                if str_eq(monitors[i].name.as_str(), query) {
                    let m = &monitors[i];
                    return Ok(m.clone_monitor());
                }
                i = i + 1;
            }
            Err(CaptureError::MonitorNotFound(String::from_str(query)))
        },
    }
}

impl Monitor {
    /// A field-for-field copy.
    pub fn clone_monitor(&self) -> (r: Monitor)
        ensures
            r == *self,
    {
        Monitor {
            name: self.name.clone(),
            x: self.x,
            y: self.y,
            width: self.width,
            height: self.height,
        }
    }
}

} // verus!
