use hotshot::cli::{CaptureCommand, CaptureOpts};
use hotshot::dispatch::CaptureMode;
use hotshot::geometry::Region;
use hotshot::portal::file_uri_path;

fn opts() -> CaptureOpts {
    CaptureOpts { format: None, clipboard: false, output: None, display: Some("0".to_string()) }
}

#[test]
fn commands_map_to_capture_modes() {
    let m = CaptureCommand::Fullscreen { opts: opts() }.to_capture_mode().unwrap();
    assert_eq!(m, CaptureMode::Fullscreen);

    let m = CaptureCommand::Window { opts: opts() }.to_capture_mode().unwrap();
    assert_eq!(m, CaptureMode::ActiveWindow);

    let m = CaptureCommand::Region { geometry: None, opts: opts() }.to_capture_mode().unwrap();
    assert_eq!(m, CaptureMode::RegionInteractive);

    let m = CaptureCommand::Region {
        geometry: Some("800x600+100+200".to_string()),
        opts: opts(),
    }
        .to_capture_mode()
        .unwrap();
    assert_eq!(m, CaptureMode::Region(Region { x: 100, y: 200, width: 800, height: 600 }));
}

#[test]
fn bad_geometry_propagates_the_parse_error() {
    let e = CaptureCommand::Region { geometry: Some("axb+1+2".to_string()), opts: opts() }
        .to_capture_mode()
        .unwrap_err();
    assert_eq!(e, "invalid width");
}

#[test]
fn every_command_exposes_its_options() {
    let c = CaptureCommand::Region { geometry: None, opts: opts() };
    assert_eq!(c.opts().display.as_deref(), Some("0"));
    let c = CaptureCommand::Fullscreen { opts: opts() };
    assert!(!c.opts().clipboard);
    let c = CaptureCommand::Window { opts: opts() };
    assert!(c.opts().output.is_none());
}

#[test]
fn portal_uris_lose_their_file_scheme() {
    assert_eq!(file_uri_path("file:///tmp/shot.png"), "/tmp/shot.png");
    assert_eq!(file_uri_path("/tmp/shot.png"), "/tmp/shot.png");
    assert_eq!(file_uri_path("file://"), "");
    assert_eq!(file_uri_path("http://x"), "http://x");
}
