use hotshot::config::{Config, ImageFormat, OrganizeBy};

fn base() -> Config {
    Config::default_with_home(Some("/home/someone".to_string()))
}

#[test]
fn defaults_follow_the_home_directory() {
    let c = base();
    assert_eq!(c.storage_dir, "/home/someone/Screenshots");
    assert_eq!(c.image.format, ImageFormat::Png);
    assert_eq!(c.image.quality, 90);
    assert_eq!(c.image.filename_template, "{timestamp}-{random}");
    assert_eq!(c.storage.organize_by, OrganizeBy::Month);
    assert!(!c.behavior.copy_to_clipboard);
    assert!(!c.behavior.notification);

    let c = Config::default_with_home(None);
    assert_eq!(c.storage_dir, "./Screenshots");
}

#[test]
fn load_or_create_keeps_an_existing_configuration() {
    let mut existing = base();
    existing.image.quality = 70;
    let (c, must_save) = Config::load_or_create(Some(existing), None);
    assert_eq!(c.image.quality, 70);
    assert!(!must_save);

    let (c, must_save) = Config::load_or_create(None, Some("/root".to_string()));
    assert_eq!(c.storage_dir, "/root/Screenshots");
    assert!(must_save);
}

#[test]
fn set_value_updates_each_key() {
    let mut c = base();
    c.set_value("storage_dir", "/tmp/shots").unwrap();
    assert_eq!(c.storage_dir, "/tmp/shots");
    c.set_value("format", "WebP").unwrap();
    assert_eq!(c.image.format, ImageFormat::Webp);
    c.set_value("image.format", "jpg").unwrap();
    assert_eq!(c.image.format, ImageFormat::Jpeg);
    c.set_value("quality", "85").unwrap();
    assert_eq!(c.image.quality, 85);
    c.set_value("filename_template", "{random}").unwrap();
    assert_eq!(c.image.filename_template, "{random}");
    c.set_value("organize_by", "none").unwrap();
    assert_eq!(c.storage.organize_by, OrganizeBy::Flat);
    c.set_value("storage.organize_by", "Month").unwrap();
    assert_eq!(c.storage.organize_by, OrganizeBy::Month);
    c.set_value("copy_to_clipboard", "true").unwrap();
    assert!(c.behavior.copy_to_clipboard);
    c.set_value("behavior.notification", "true").unwrap();
    assert!(c.behavior.notification);
}

#[test]
fn set_value_rejects_malformed_values() {
    let mut c = base();
    assert_eq!(
        c.set_value("format", "gif").unwrap_err(),
        "invalid format: gif. use: png, jpeg, webp"
    );
    assert_eq!(
        c.set_value("quality", "abc").unwrap_err(),
        "invalid quality: abc. use: 1-100"
    );
    assert_eq!(c.set_value("quality", "0").unwrap_err(), "quality must be 1-100");
    assert_eq!(c.set_value("quality", "101").unwrap_err(), "quality must be 1-100");
    assert_eq!(
        c.set_value("organize_by", "week").unwrap_err(),
        "invalid organize_by: week. use: month, none"
    );
    assert_eq!(
        c.set_value("copy_to_clipboard", "yes").unwrap_err(),
        "invalid bool: yes. use: true/false"
    );
    assert_eq!(c.set_value("colour", "red").unwrap_err(), "unknown config key: colour");
}

#[test]
fn commented_rendering_lists_every_setting() {
    let mut c = base();
    c.set_value("quality", "85").unwrap();
    let text = c.to_commented_toml();
    let expected = "# hotshot configuration\n\
#\n\
# Base directory for screenshots\n\
storage_dir = \"/home/someone/Screenshots\"\n\
\n\
[image]\n\
# Image format: png, jpeg, webp\n\
format = \"png\"\n\
# Compression quality for jpeg/webp (1-100, ignored for png)\n\
quality = 85\n\
# Filename template. Variables: {timestamp}, {random}\n\
filename_template = \"{timestamp}-{random}\"\n\
\n\
[storage]\n\
# How to organize screenshots: \"month\" (YYYY-MM subdirs) or \"none\" (flat)\n\
organize_by = \"month\"\n\
\n\
[behavior]\n\
# Automatically copy screenshot to clipboard after capture\n\
copy_to_clipboard = false\n\
# Show desktop notification after capture\n\
notification = false\n";
    assert_eq!(text, expected);
    assert_eq!(c.display(), text);
}

#[test]
fn format_names_extensions_and_parsing() {
    assert_eq!(ImageFormat::Png.extension(), "png");
    assert_eq!(ImageFormat::Jpeg.extension(), "jpg");
    assert_eq!(ImageFormat::Webp.extension(), "webp");
    assert_eq!(ImageFormat::Jpeg.name(), "jpeg");
    assert_eq!(ImageFormat::parse("PNG"), Some(ImageFormat::Png));
    assert_eq!(ImageFormat::parse("jpeg"), Some(ImageFormat::Jpeg));
    assert_eq!(ImageFormat::parse("JPG"), Some(ImageFormat::Jpeg));
    assert_eq!(ImageFormat::parse("webp"), Some(ImageFormat::Webp));
    assert_eq!(ImageFormat::parse("tiff"), None);
}
