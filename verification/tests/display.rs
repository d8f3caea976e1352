use hotshot::dispatch::{route_capture, BackendOp, CaptureMode};
use hotshot::display::{
    detect_display_server, list_monitors, resolve_display, DisplayServer, EnvironmentSignals,
    Monitor,
};
use hotshot::errors::CaptureError;
use hotshot::geometry::Region;

fn monitor(name: &str, x: i16, y: i16, w: u16, h: u16) -> Monitor {
    Monitor { name: name.to_string(), x, y, width: w, height: h }
}

fn env(
    wayland_display: Option<&str>,
    session_type: Option<&str>,
    x_display: Option<&str>,
) -> EnvironmentSignals {
    EnvironmentSignals {
        wayland_display: wayland_display.map(|s| s.to_string()),
        session_type: session_type.map(|s| s.to_string()),
        x_display: x_display.map(|s| s.to_string()),
    }
}

#[test]
fn generic_display_variable_alone_selects_the_x_backend() {
    let r = detect_display_server(&env(None, None, Some(":0"))).unwrap();
    assert_eq!(r, DisplayServer::X11);
}

#[test]
fn portal_display_variable_wins_over_everything() {
    let r = detect_display_server(&env(Some("wayland-0"), Some("x11"), Some(":0"))).unwrap();
    assert_eq!(r, DisplayServer::Wayland);
}

#[test]
fn session_type_decides_when_recognised() {
    assert_eq!(
        detect_display_server(&env(None, Some("wayland"), None)).unwrap(),
        DisplayServer::Wayland
    );
    assert_eq!(
        detect_display_server(&env(None, Some("x11"), None)).unwrap(),
        DisplayServer::X11
    );
    // An unrecognised session type is ignored and detection continues.
    assert_eq!(
        detect_display_server(&env(None, Some("tty"), Some(":1"))).unwrap(),
        DisplayServer::X11
    );
}

#[test]
fn no_signal_means_no_display_server() {
    let r = detect_display_server(&env(None, Some("tty"), None));
    assert!(matches!(r, Err(CaptureError::NoDisplayServer)));
}

#[test]
fn monitor_listing_is_unsupported_on_the_portal_backend() {
    let ms = vec![monitor("HDMI-1", 0, 0, 1920, 1080)];
    assert!(list_monitors(DisplayServer::X11, ms.clone()).is_ok());
    let r = list_monitors(DisplayServer::Wayland, ms);
    assert!(matches!(r, Err(CaptureError::Unsupported(_))));
}

#[test]
fn resolve_display_by_index_and_name() {
    let ms = vec![
        monitor("eDP-1", 0, 0, 1920, 1080),
        monitor("HDMI-1", 1920, 0, 2560, 1440),
    ];
    let first = resolve_display("0", ms.clone()).unwrap();
    assert_eq!(first.name, "eDP-1");
    let second = resolve_display("1", ms.clone()).unwrap();
    assert_eq!(second.name, "HDMI-1");
    let named = resolve_display("HDMI-1", ms.clone()).unwrap();
    assert_eq!(named.x, 1920);

    let out_of_range = resolve_display("2", ms.clone());
    assert!(matches!(out_of_range, Err(CaptureError::MonitorIndexOutOfRange(_))));
    let unmatched = resolve_display("DP-3", ms.clone());
    assert!(matches!(unmatched, Err(CaptureError::MonitorNotFound(_))));
    // The two failures carry distinct kinds.
    assert_ne!(
        out_of_range.unwrap_err().kind_name(),
        unmatched.unwrap_err().kind_name()
    );

    let empty = resolve_display("0", Vec::new());
    assert!(matches!(empty, Err(CaptureError::NoMonitors)));
}

#[test]
fn monitor_to_region_keeps_the_geometry() {
    let m = monitor("eDP-1", -100, 50, 1920, 1080);
    let r = m.to_region();
    assert_eq!(r, Region { x: -100, y: 50, width: 1920, height: 1080 });
}

#[test]
fn routing_matches_backend_and_mode() {
    let reg = Region { x: 1, y: 2, width: 3, height: 4 };
    assert_eq!(
        route_capture(DisplayServer::X11, &CaptureMode::Fullscreen),
        BackendOp::XFullscreen
    );
    assert_eq!(
        route_capture(DisplayServer::X11, &CaptureMode::Region(reg)),
        BackendOp::XRegion { region: reg }
    );
    assert_eq!(
        route_capture(DisplayServer::X11, &CaptureMode::RegionInteractive),
        BackendOp::XInteractive
    );
    assert_eq!(
        route_capture(DisplayServer::X11, &CaptureMode::ActiveWindow),
        BackendOp::XActiveWindow
    );
    assert_eq!(
        route_capture(DisplayServer::Wayland, &CaptureMode::Fullscreen),
        BackendOp::PortalShot { interactive: false }
    );
    assert_eq!(
        route_capture(DisplayServer::Wayland, &CaptureMode::Region(reg)),
        BackendOp::PortalRegion { region: reg }
    );
    assert_eq!(
        route_capture(DisplayServer::Wayland, &CaptureMode::RegionInteractive),
        BackendOp::PortalShot { interactive: true }
    );
    assert_eq!(
        route_capture(DisplayServer::Wayland, &CaptureMode::ActiveWindow),
        BackendOp::PortalShot { interactive: false }
    );
}

#[test]
fn names_for_metadata_are_stable() {
    assert_eq!(DisplayServer::X11.name(), "x11");
    assert_eq!(DisplayServer::Wayland.name(), "wayland");
    assert_eq!(CaptureMode::Fullscreen.name(), "fullscreen");
    assert_eq!(
        CaptureMode::Region(Region { x: 0, y: 0, width: 1, height: 1 }).name(),
        "region"
    );
    assert_eq!(CaptureMode::RegionInteractive.name(), "region-interactive");
    assert_eq!(CaptureMode::ActiveWindow.name(), "active-window");
}
