//! Configuration: the settings the engine's collaborators read, their
//! defaults, keyed updates, and the commented file rendering.  Reading and
//! writing the file itself is the process boundary's job; the library is
//! handed the parsed value, or renders the text to write.

use vstd::prelude::*;

use crate::text::{is_unsigned_numeral, str_eq, unsigned_value};

verus! {

broadcast use vstd::string::group_string_axioms;

/// The stored image format.
#[derive(Debug, Clone, Copy, PartialEq, Eq, Structural)]
pub enum ImageFormat {
    Png,
    Jpeg,
    Webp,
}

impl ImageFormat {
    /// The file extension the format is saved under.
    pub fn extension(&self) -> (r: &'static str)
        ensures
            r@ == self.spec_extension(),
    {
        match self {
            ImageFormat::Png => "png",
            ImageFormat::Jpeg => "jpg",
            ImageFormat::Webp => "webp",
        }
    }

    pub open spec fn spec_extension(&self) -> Seq<char> {
        match self {
            ImageFormat::Png => "png"@,
            ImageFormat::Jpeg => "jpg"@,
            ImageFormat::Webp => "webp"@,
        }
    }

    /// The format's name, as written in the configuration file and in
    /// capture metadata.
    pub fn name(&self) -> (r: &'static str)
        ensures
            r@ == self.spec_name(),
    {
        match self {
            ImageFormat::Png => "png",
            ImageFormat::Jpeg => "jpeg",
            ImageFormat::Webp => "webp",
        }
    }

    pub open spec fn spec_name(&self) -> Seq<char> {
        match self {
            ImageFormat::Png => "png"@,
            ImageFormat::Jpeg => "jpeg"@,
            ImageFormat::Webp => "webp"@,
        }
    }

    /// The format a name denotes, ignoring ASCII case: `png`, `jpeg` or
    /// `jpg`, `webp`.
    pub open spec fn spec_parse(s: Seq<char>) -> Option<ImageFormat> {
        let t = spec_ascii_lower(s);
        if t == "png"@ {
            Option::Some(ImageFormat::Png)
        } else if t == "jpeg"@ || t == "jpg"@ {
            Option::Some(ImageFormat::Jpeg)
        } else if t == "webp"@ {
            Option::Some(ImageFormat::Webp)
        } else {
            Option::None
        }
    }

    /// Parse a format name, ignoring ASCII case.
    pub fn parse(s: &str) -> (r: Option<ImageFormat>)
        ensures
            r == ImageFormat::spec_parse(s@),
    {
        let t = ascii_lower(s);
        if str_eq(t.as_str(), "png") {
            Option::Some(ImageFormat::Png)
        } else if str_eq(t.as_str(), "jpeg") || str_eq(t.as_str(), "jpg") {
            Option::Some(ImageFormat::Jpeg)
        } else if str_eq(t.as_str(), "webp") {
            Option::Some(ImageFormat::Webp)
        } else {
            Option::None
        }
    }
}

/// A character with an ASCII capital letter mapped to its small letter.
pub open spec fn spec_lower_char(c: char) -> char {
    if 'A' <= c && c <= 'Z' {
        ((c as u8) + 32) as char
    } else {
        c
    }
}

/// `s` with every ASCII capital letter mapped to its small letter.
pub open spec fn spec_ascii_lower(s: Seq<char>) -> Seq<char> {
    s.map_values(|c: char| spec_lower_char(c))
}

/// Lower-case the ASCII letters of a string, leaving other characters as
/// they are.
pub fn ascii_lower(s: &str) -> (r: String)
    ensures
        r@ == spec_ascii_lower(s@),
{
    let n = s.unicode_len();
    let mut out = String::new();
    let mut i: usize = 0;
    while i < n
        invariant
            n == s@.len(),
            i <= n,
            out@ == spec_ascii_lower(s@.subrange(0, i as int)),
        decreases n - i,
    {
        let c = s.get_char(i);
        let lc: char = if 'A' <= c && c <= 'Z' {
            ((c as u8) + 32) as char
        } else {
            c
        };
        crate::encoding::push_char(&mut out, lc);
        proof {
            assert(spec_ascii_lower(s@.subrange(0, i as int + 1)) =~= spec_ascii_lower(
                s@.subrange(0, i as int),
            ) + seq![spec_lower_char(s@[i as int])]);
        }
        i = i + 1;
    }
    proof {
        assert(s@.subrange(0, n as int) =~= s@);
    }
    out
}

/// How stored captures are organised on disk.
#[derive(Debug, Clone, Copy, PartialEq, Eq, Structural)]
pub enum OrganizeBy {
    /// Year-month subdirectories.
    Month,
    /// One flat directory.
    Flat,
}

impl OrganizeBy {
    /// The value's name, as written in the configuration file.
    pub fn name(&self) -> (r: &'static str)
        ensures
            r@ == self.spec_name(),
    {
        match self {
            OrganizeBy::Month => "month",
            OrganizeBy::Flat => "none",
        }
    }

    pub open spec fn spec_name(&self) -> Seq<char> {
        match self {
            OrganizeBy::Month => "month"@,
            OrganizeBy::Flat => "none"@,
        }
    }
}

/// Image settings.
#[derive(Debug, Clone)]
pub struct ImageConfig {
    pub format: ImageFormat,
    /// Compression quality for lossy formats, 1 to 100.
    pub quality: u8,
    pub filename_template: String,
}

/// Storage layout settings.
#[derive(Debug, Clone, Copy, PartialEq, Eq, Structural)]
pub struct StorageConfig {
    pub organize_by: OrganizeBy,
}

/// Behaviour after a capture.
#[derive(Debug, Clone, Copy, PartialEq, Eq, Structural)]
pub struct BehaviorConfig {
    pub copy_to_clipboard: bool,
    pub notification: bool,
}

/// The whole configuration.
#[derive(Debug, Clone)]
pub struct Config {
    /// Base directory for stored captures.
    pub storage_dir: String,
    pub image: ImageConfig,
    pub storage: StorageConfig,
    pub behavior: BehaviorConfig,
}

pub fn default_format() -> (r: ImageFormat)
    ensures
        r == ImageFormat::Png,
{
    ImageFormat::Png
}

pub fn default_quality() -> (r: u8)
    ensures
        r == 90,
{
    90
}

pub fn default_filename_template() -> (r: String)
    ensures
        r@ == "{timestamp}-{random}"@,
{
    String::from_str("{timestamp}-{random}")
}

pub fn default_organize_by() -> (r: OrganizeBy)
    ensures
        r == OrganizeBy::Month,
{
    OrganizeBy::Month
}

/// The default capture directory under a home directory, or under the
/// current directory when no home is known.
pub open spec fn spec_default_storage_dir(home: Option<Seq<char>>) -> Seq<char> {
    match home {
        Option::Some(h) => h + "/Screenshots"@,
        Option::None => "./Screenshots"@,
    }
}

impl Config {
    /// Whether a configuration equals the default one built over the given
    /// home directory.
    pub open spec fn is_default(&self, home: Option<Seq<char>>) -> bool {
        &&& self.storage_dir@ == spec_default_storage_dir(home)
        &&& self.image.format == ImageFormat::Png
        &&& self.image.quality == 90
        &&& self.image.filename_template@ == "{timestamp}-{random}"@
        &&& self.storage.organize_by == OrganizeBy::Month
        &&& self.behavior.copy_to_clipboard == false
        &&& self.behavior.notification == false
    }

    /// The default configuration, storing captures under `Screenshots` in
    /// the given home directory (or the current directory without one).
    pub fn default_with_home(home: Option<String>) -> (r: Config)
        ensures
            r.is_default(match home {
                Option::Some(h) => Option::Some(h@),
                Option::None => Option::None,
            }),
    {
        let storage_dir = match home {
            Option::Some(h) => h.concat("/Screenshots"),
            Option::None => String::from_str("./Screenshots"),
        };
        Config {
            storage_dir,
            image: ImageConfig {
                format: default_format(),
                quality: default_quality(),
                filename_template: default_filename_template(),
            },
            storage: StorageConfig { organize_by: default_organize_by() },
            behavior: BehaviorConfig { copy_to_clipboard: false, notification: false },
        }
    }

    /// The commented configuration-file text for these settings.
    pub open spec fn spec_commented_toml(&self) -> Seq<char> {
        "# hotshot configuration\n#\n# Base directory for screenshots\nstorage_dir = \""@
            + self.storage_dir@
            + "\"\n\n[image]\n# Image format: png, jpeg, webp\nformat = \""@
            + self.image.format.spec_name()
            + "\"\n# Compression quality for jpeg/webp (1-100, ignored for png)\nquality = "@
            + crate::encoding::spec_dec(self.image.quality)
            + "\n# Filename template. Variables: {timestamp}, {random}\nfilename_template = \""@
            + self.image.filename_template@
            + "\"\n\n[storage]\n# How to organize screenshots: \"month\" (YYYY-MM subdirs) or \"none\" (flat)\norganize_by = \""@
            + self.storage.organize_by.spec_name()
            + "\"\n\n[behavior]\n# Automatically copy screenshot to clipboard after capture\ncopy_to_clipboard = "@
            + spec_bool_name(self.behavior.copy_to_clipboard)
            + "\n# Show desktop notification after capture\nnotification = "@
            + spec_bool_name(self.behavior.notification) + "\n"@
    }

    /// Render the settings as the commented configuration file they are
    /// written to.
    pub fn to_commented_toml(&self) -> (r: String)
        ensures
            r@ == self.spec_commented_toml(),
    {
        let mut s = String::from_str(
            "# hotshot configuration\n#\n# Base directory for screenshots\nstorage_dir = \"",
        );
        s.append(self.storage_dir.as_str());
        s.append("\"\n\n[image]\n# Image format: png, jpeg, webp\nformat = \"");
        s.append(self.image.format.name());
        s.append("\"\n# Compression quality for jpeg/webp (1-100, ignored for png)\nquality = ");
        let q = crate::encoding::dec_string(self.image.quality);
        s.append(q.as_str());
        s.append("\n# Filename template. Variables: {timestamp}, {random}\nfilename_template = \"");
        s.append(self.image.filename_template.as_str());
        s.append(
            "\"\n\n[storage]\n# How to organize screenshots: \"month\" (YYYY-MM subdirs) or \"none\" (flat)\norganize_by = \"",
        );
        s.append(self.storage.organize_by.name());
        s.append(
            "\"\n\n[behavior]\n# Automatically copy screenshot to clipboard after capture\ncopy_to_clipboard = ",
        );
        s.append(bool_name(self.behavior.copy_to_clipboard));
        s.append("\n# Show desktop notification after capture\nnotification = ");
        s.append(bool_name(self.behavior.notification));
        s.append("\n");
        s
    }

    /// The settings rendered for showing to the user: the same text the
    /// configuration file holds.
    pub fn display(&self) -> (r: String)
        ensures
            r@ == self.spec_commented_toml(),
    {
        self.to_commented_toml()
    }

    /// The configuration to use given what the process boundary read: the
    /// parsed file when one existed, else the default, which the boundary
    /// must then write out (the second component says so).
    pub fn load_or_create(existing: Option<Config>, home: Option<String>) -> (r: (Config, bool))
        ensures
            existing matches Option::Some(c) ==> r.0 == c && r.1 == false,
            existing is None ==> r.0.is_default(match home {
                Option::Some(h) => Option::Some(h@),
                Option::None => Option::None,
            }) && r.1 == true,
    {
        match existing {
            Option::Some(c) => (c, false),
            Option::None => (Config::default_with_home(home), true),
        }
    }
}

/// A boolean as the word the configuration file holds.
pub open spec fn spec_bool_name(b: bool) -> Seq<char> {
    if b {
        "true"@
    } else {
        "false"@
    }
}

pub fn bool_name(b: bool) -> (r: &'static str)
    ensures
        r@ == spec_bool_name(b),
{
    if b {
        "true"
    } else {
        "false"
    }
}

/// The boolean a string denotes: exactly `true` or `false`.
pub open spec fn spec_parse_bool(s: Seq<char>) -> Option<bool> {
    if s == "true"@ {
        Option::Some(true)
    } else if s == "false"@ {
        Option::Some(false)
    } else {
        Option::None
    }
}

fn parse_bool(s: &str) -> (r: Option<bool>)
    ensures
        r == spec_parse_bool(s@),
{
    if str_eq(s, "true") {
        Option::Some(true)
    } else if str_eq(s, "false") {
        Option::Some(false)
    } else {
        Option::None
    }
}

/// The quality a string denotes: a byte-sized unsigned numeral.
pub open spec fn spec_parse_quality(s: Seq<char>) -> Option<u8> {
    if is_unsigned_numeral(s) && unsigned_value(s) <= u8::MAX {
        Option::Some(unsigned_value(s) as u8)
    } else {
        Option::None
    }
}

/// The outcome of updating one configuration key: which updates succeed,
/// and the exact message of each rejection.
pub open spec fn spec_set_outcome(key: Seq<char>, value: Seq<char>) -> Result<(), Seq<char>> {
    if key == "storage_dir"@ {
        Ok(())
    } else if key == "image.format"@ || key == "format"@ {
        match ImageFormat::spec_parse(value) {
            Option::Some(_) => Ok(()),
            Option::None => Err("invalid format: "@ + value + ". use: png, jpeg, webp"@),
        }
    } else if key == "image.quality"@ || key == "quality"@ {
        match spec_parse_quality(value) {
            Option::Some(q) => if q == 0 || q > 100 {
                Err("quality must be 1-100"@)
            } else {
                Ok(())
            },
            Option::None => Err("invalid quality: "@ + value + ". use: 1-100"@),
        }
    } else if key == "image.filename_template"@ || key == "filename_template"@ {
        Ok(())
    } else if key == "storage.organize_by"@ || key == "organize_by"@ {
        let t = spec_ascii_lower(value);
        if t == "month"@ || t == "none"@ {
            Ok(())
        } else {
            Err("invalid organize_by: "@ + value + ". use: month, none"@)
        }
    } else if key == "behavior.copy_to_clipboard"@ || key == "copy_to_clipboard"@ || key
        == "behavior.notification"@ || key == "notification"@ {
        match spec_parse_bool(value) {
            Option::Some(_) => Ok(()),
            Option::None => Err("invalid bool: "@ + value + ". use: true/false"@),
        }
    } else {
        Err("unknown config key: "@ + key)
    }
}

/// Two image settings hold the same values.
pub open spec fn eq_image(a: ImageConfig, b: ImageConfig) -> bool {
    a.format == b.format && a.quality == b.quality && a.filename_template@
        == b.filename_template@
}

/// Two configurations hold the same values.
pub open spec fn eq_config(a: Config, b: Config) -> bool {
    a.storage_dir@ == b.storage_dir@ && eq_image(a.image, b.image) && a.storage == b.storage
        && a.behavior == b.behavior
}

/// The keys `set_value` understands.
pub open spec fn is_known_key(key: Seq<char>) -> bool {
    ||| key == "storage_dir"@
    ||| key == "image.format"@
    ||| key == "format"@
    ||| key == "image.quality"@
    ||| key == "quality"@
    ||| key == "image.filename_template"@
    ||| key == "filename_template"@
    ||| key == "storage.organize_by"@
    ||| key == "organize_by"@
    ||| key == "behavior.copy_to_clipboard"@
    ||| key == "copy_to_clipboard"@
    ||| key == "behavior.notification"@
    ||| key == "notification"@
}

impl Config {
    /// Update one setting by its key, parsing the value: `storage_dir`, the
    /// image format, quality and filename template, the storage layout, and
    /// the two behaviour switches, each reachable under its section-prefixed
    /// or bare name.  A malformed value is rejected with a message naming
    /// it; an unknown key likewise.  A quality outside 1 to 100 is rejected
    /// after the parsed value is stored, as the update has always done.
    pub fn set_value(&mut self, key: &str, value: &str) -> (r: Result<(), String>)
        ensures
            r is Ok <==> spec_set_outcome(key@, value@) is Ok,
            r matches Err(e) ==> (spec_set_outcome(key@, value@) matches Err(m) && e@ == m),
            key@ == "storage_dir"@ ==> final(self).storage_dir@ == value@ && eq_image(
                final(self).image,
                old(self).image,
            ) && final(self).storage == old(self).storage && final(self).behavior == old(
                self,
            ).behavior,
            (key@ == "image.format"@ || key@ == "format"@) ==> ({
                &&& final(self).storage_dir@ == old(self).storage_dir@
                &&& final(self).storage == old(self).storage
                &&& final(self).behavior == old(self).behavior
                &&& final(self).image.quality == old(self).image.quality
                &&& final(self).image.filename_template@ == old(self).image.filename_template@
                &&& match ImageFormat::spec_parse(value@) {
                    Option::Some(f) => final(self).image.format == f,
                    Option::None => final(self).image.format == old(self).image.format,
                }
            }),
            (key@ == "image.quality"@ || key@ == "quality"@) ==> ({
                &&& final(self).storage_dir@ == old(self).storage_dir@
                &&& final(self).storage == old(self).storage
                &&& final(self).behavior == old(self).behavior
                &&& final(self).image.format == old(self).image.format
                &&& final(self).image.filename_template@ == old(self).image.filename_template@
                &&& match spec_parse_quality(value@) {
                    Option::Some(q) => final(self).image.quality == q,
                    Option::None => final(self).image.quality == old(self).image.quality,
                }
            }),
            (key@ == "image.filename_template"@ || key@ == "filename_template"@) ==> ({
                &&& final(self).image.filename_template@ == value@
                &&& final(self).storage_dir@ == old(self).storage_dir@
                &&& final(self).storage == old(self).storage
                &&& final(self).behavior == old(self).behavior
                &&& final(self).image.format == old(self).image.format
                &&& final(self).image.quality == old(self).image.quality
            }),
            (key@ == "storage.organize_by"@ || key@ == "organize_by"@) ==> ({
                &&& final(self).storage_dir@ == old(self).storage_dir@
                &&& eq_image(final(self).image, old(self).image)
                &&& final(self).behavior == old(self).behavior
                &&& ({
                    let t = spec_ascii_lower(value@);
                    if t == "month"@ {
                        final(self).storage.organize_by == OrganizeBy::Month
                    } else if t == "none"@ {
                        final(self).storage.organize_by == OrganizeBy::Flat
                    } else {
                        final(self).storage == old(self).storage
                    }
                })
            }),
            (key@ == "behavior.copy_to_clipboard"@ || key@ == "copy_to_clipboard"@) ==> ({
                &&& final(self).storage_dir@ == old(self).storage_dir@
                &&& eq_image(final(self).image, old(self).image)
                &&& final(self).storage == old(self).storage
                &&& final(self).behavior.notification == old(self).behavior.notification
                &&& match spec_parse_bool(value@) {
                    Option::Some(b) => final(self).behavior.copy_to_clipboard == b,
                    Option::None => final(self).behavior.copy_to_clipboard == old(
                        self,
                    ).behavior.copy_to_clipboard,
                }
            }),
            (key@ == "behavior.notification"@ || key@ == "notification"@) ==> ({
                &&& final(self).storage_dir@ == old(self).storage_dir@
                &&& eq_image(final(self).image, old(self).image)
                &&& final(self).storage == old(self).storage
                &&& final(self).behavior.copy_to_clipboard == old(
                    self,
                ).behavior.copy_to_clipboard
                &&& match spec_parse_bool(value@) {
                    Option::Some(b) => final(self).behavior.notification == b,
                    Option::None => final(self).behavior.notification == old(
                        self,
                    ).behavior.notification,
                }
            }),
            !is_known_key(key@) ==> eq_config(*final(self), *old(self)),
    {
        proof {
            reveal_strlit("storage_dir");
            reveal_strlit("image.format");
            reveal_strlit("format");
            reveal_strlit("image.quality");
            reveal_strlit("quality");
            reveal_strlit("image.filename_template");
            reveal_strlit("filename_template");
            reveal_strlit("storage.organize_by");
            reveal_strlit("organize_by");
            reveal_strlit("behavior.copy_to_clipboard");
            reveal_strlit("copy_to_clipboard");
            reveal_strlit("behavior.notification");
            reveal_strlit("notification");
            assert("storage_dir"@.len() == 11);
            assert("image.format"@.len() == 12);
            assert("format"@.len() == 6);
            assert("image.quality"@.len() == 13);
            assert("quality"@.len() == 7);
            assert("image.filename_template"@.len() == 23);
            assert("filename_template"@.len() == 17);
            assert("storage.organize_by"@.len() == 19);
            assert("organize_by"@.len() == 11);
            assert("behavior.copy_to_clipboard"@.len() == 26);
            assert("copy_to_clipboard"@.len() == 17);
            assert("behavior.notification"@.len() == 21);
            assert("notification"@.len() == 12);
            assert("storage_dir"@[0] == 's' && "organize_by"@[0] == 'o');
            assert("image.format"@[0] == 'i' && "notification"@[0] == 'n');
            assert("filename_template"@[0] == 'f' && "copy_to_clipboard"@[0] == 'c');
        }
        if str_eq(key, "storage_dir") {
            self.storage_dir = String::from_str(value);
            return Ok(());
        }
        if str_eq(key, "image.format") || str_eq(key, "format") {
            match ImageFormat::parse(value) {
                Option::Some(f) => {
                    self.image.format = f;
                    return Ok(());
                },
                Option::None => {
                    let mut m = String::from_str("invalid format: ");
                    m.append(value);
                    m.append(". use: png, jpeg, webp");
                    return Err(m);
                },
            }
        }
        if str_eq(key, "image.quality") || str_eq(key, "quality") {
            match parse_quality(value) {
                Option::Some(q) => {
                    self.image.quality = q;
                    if q == 0 || q > 100 {
                        return Err(String::from_str("quality must be 1-100"));
                    }
                    return Ok(());
                },
                Option::None => {
                    let mut m = String::from_str("invalid quality: ");
                    m.append(value);
                    m.append(". use: 1-100");
                    return Err(m);
                },
            }
        }
        if str_eq(key, "image.filename_template") || str_eq(key, "filename_template") {
            self.image.filename_template = String::from_str(value);
            return Ok(());
        }
        if str_eq(key, "storage.organize_by") || str_eq(key, "organize_by") {
            let t = ascii_lower(value);
            if str_eq(t.as_str(), "month") {
                self.storage.organize_by = OrganizeBy::Month;
                return Ok(());
            }
            if str_eq(t.as_str(), "none") {
                self.storage.organize_by = OrganizeBy::Flat;
                return Ok(());
            }
            let mut m = String::from_str("invalid organize_by: ");
            m.append(value);
            m.append(". use: month, none");
            return Err(m);
        }
        if str_eq(key, "behavior.copy_to_clipboard") || str_eq(key, "copy_to_clipboard") {
            match parse_bool(value) {
                Option::Some(b) => {
                    self.behavior.copy_to_clipboard = b;
                    return Ok(());
                },
                Option::None => {
                    let mut m = String::from_str("invalid bool: ");
                    m.append(value);
                    m.append(". use: true/false");
                    return Err(m);
                },
            }
        }
        if str_eq(key, "behavior.notification") || str_eq(key, "notification") {
            match parse_bool(value) {
                Option::Some(b) => {
                    self.behavior.notification = b;
                    return Ok(());
                },
                Option::None => {
                    let mut m = String::from_str("invalid bool: ");
                    m.append(value);
                    m.append(". use: true/false");
                    return Err(m);
                },
            }
        }
        let mut m = String::from_str("unknown config key: ");
        m.append(key);
        Err(m)
    }
}

impl Config {
    /// A field-for-field copy.
    pub fn clone_config(&self) -> (r: Config)
        ensures
            r == *self,
    {
        Config {
            storage_dir: self.storage_dir.clone(),
            image: ImageConfig {
                format: self.image.format,
                quality: self.image.quality,
                filename_template: self.image.filename_template.clone(),
            },
            storage: self.storage,
            behavior: self.behavior,
        }
    }
}

/// Parse a quality value: a byte-sized unsigned numeral.
fn parse_quality(s: &str) -> (r: Option<u8>)
    ensures
        r == spec_parse_quality(s@),
{
    match crate::text::parse_u32(s) {
        Option::Some(v) => {
            if v <= 255 {
                Option::Some(v as u8)
            } else {
                Option::None
            }
        },
        Option::None => Option::None,
    }
}

} // verus!
