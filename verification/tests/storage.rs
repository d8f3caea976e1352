use hotshot::config::{Config, ImageFormat};
use hotshot::dispatch::CaptureMode;
use hotshot::display::DisplayServer;
use hotshot::state::AppState;
use hotshot::storage::{is_image_file, Storage};

fn config() -> Config {
    let mut c = Config::default_with_home(Some("/home/someone".to_string()));
    c.set_value("storage_dir", "/data/shots").unwrap();
    c
}

#[test]
fn save_plan_builds_id_directory_and_filename() {
    let storage = Storage::new(config());
    let plan = storage.save_plan(
        &CaptureMode::Fullscreen,
        DisplayServer::X11,
        None,
        "20260207-101530",
        "2026-02",
        0x00ff,
    );
    assert_eq!(plan.id, "20260207-101530-00ff");
    assert_eq!(plan.dir, "/data/shots/2026-02");
    assert_eq!(plan.filename, "20260207-101530-00ff.png");
    assert_eq!(plan.format, ImageFormat::Png);
    assert_eq!(plan.capture_mode_name, "fullscreen");
    assert_eq!(plan.display_server_name, "x11");
}

#[test]
fn save_plan_respects_format_override_and_flat_layout() {
    let mut c = config();
    c.set_value("organize_by", "none").unwrap();
    let storage = Storage::new(c);
    let plan = storage.save_plan(
        &CaptureMode::RegionInteractive,
        DisplayServer::Wayland,
        Some(ImageFormat::Jpeg),
        "20260207-101530",
        "2026-02",
        0xabcd,
    );
    assert_eq!(plan.id, "20260207-101530-abcd");
    assert_eq!(plan.dir, "/data/shots");
    assert_eq!(plan.filename, "20260207-101530-abcd.jpg");
    assert_eq!(plan.capture_mode_name, "region-interactive");
    assert_eq!(plan.display_server_name, "wayland");
}

#[test]
fn image_files_are_recognised_by_extension() {
    assert!(is_image_file("shot.png"));
    assert!(is_image_file("shot.jpg"));
    assert!(is_image_file("a.b.jpeg"));
    assert!(is_image_file("shot.webp"));
    assert!(!is_image_file("shot.txt"));
    assert!(!is_image_file("shot"));
    assert!(!is_image_file(".png"));
    assert!(!is_image_file("png"));
}

#[test]
fn app_state_shares_the_configuration() {
    let state = AppState::new(config());
    assert_eq!(state.config.storage_dir, "/data/shots");
}
