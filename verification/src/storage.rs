//! Storage planning: where a captured image goes and under what name.  The
//! plan is computed from the configuration and the capture's circumstances;
//! encoding the image and writing files is the process boundary's job.

use vstd::prelude::*;

use crate::config::{Config, ImageFormat, OrganizeBy};
use crate::dispatch::CaptureMode;
use crate::display::DisplayServer;
use crate::encoding::{hex4, spec_hex4};
use crate::text::str_eq;

verus! {

/// Stored-capture handling, configured once.
pub struct Storage {
    config: Config,
}

impl Storage {
    /// The configuration the storage was built over.
    pub closed spec fn spec_config(&self) -> Config {
        self.config
    }

    pub fn new(config: Config) -> (r: Storage)
        ensures
            r.spec_config() == config,
    {
        Storage { config }
    }

    /// Everything the process boundary needs to save one capture: computed
    /// from the configuration, the capture's mode and display server, the
    /// formatted timestamp, the current year-month, and a random suffix.
    pub fn save_plan(
        &self,
        mode: &CaptureMode,
        server: DisplayServer,
        format_override: Option<ImageFormat>,
        timestamp: &str,
        year_month: &str,
        random: u16,
    ) -> (r: SavePlan)
        ensures
            r.id@ == timestamp@ + "-"@ + spec_hex4(random),
            r.format == match format_override {
                Option::Some(f) => f,
                Option::None => self.spec_config().image.format,
            },
            r.dir@ == if self.spec_config().storage.organize_by == OrganizeBy::Month {
                self.spec_config().storage_dir@ + "/"@ + year_month@
            } else {
                self.spec_config().storage_dir@
            },
            r.filename@ == r.id@ + "."@ + r.format.spec_extension(),
            r.capture_mode_name@ == mode.spec_name(),
            r.display_server_name@ == server.spec_name(),
    {
        let mut id = String::from_str(timestamp);
        id.append("-");
        let suffix = hex4(random);
        id.append(suffix.as_str());

        let format = match format_override {
            Option::Some(f) => f,
            Option::None => self.config.image.format,
        };

        let mut dir = String::new();
        dir.append(self.config.storage_dir.as_str());
        match self.config.storage.organize_by {
            OrganizeBy::Month => {
                dir.append("/");
                dir.append(year_month);
            },
            OrganizeBy::Flat => {},
        }

        let mut filename = String::new();
        filename.append(id.as_str());
        filename.append(".");
        filename.append(format.extension());

        SavePlan {
            id,
            dir,
            filename,
            format,
            capture_mode_name: crate::pixels::string_lit(mode.name()),
            display_server_name: crate::pixels::string_lit(server.name()),
        }
    }
}

/// Where and under what name one capture is saved, and what its metadata
/// records.
pub struct SavePlan {
    /// The capture's unique identifier: timestamp, dash, four hexadecimal
    /// digits of randomness.
    pub id: String,
    /// The directory the file goes into.
    pub dir: String,
    /// The file's name: identifier, dot, format extension.
    pub filename: String,
    /// The format the image is encoded in.
    pub format: ImageFormat,
    /// The capture mode's name, recorded as an opaque string.
    pub capture_mode_name: String,
    /// The display server's name, recorded as an opaque string.
    pub display_server_name: String,
}

/// The index of the last `.` of `s`, or -1 with none.
pub open spec fn spec_last_dot(s: Seq<char>) -> int
    decreases s.len(),
{
    if s.len() == 0 {
        -1
    } else if s.last() == '.' {
        s.len() - 1
    } else {
        spec_last_dot(s.drop_last())
    }
}

/// The extension of a file name: what follows the last `.`, provided that
/// dot is neither the first character (a hidden file has no extension) nor
/// missing.
pub open spec fn spec_file_ext(s: Seq<char>) -> Option<Seq<char>> {
    let i = spec_last_dot(s);
    if i > 0 {
        Option::Some(s.subrange(i + 1, s.len() as int))
    } else {
        Option::None
    }
}

proof fn lemma_last_dot_prefix(s: Seq<char>, j: int)
    requires
        0 <= j <= s.len(),
        forall|k: int| j <= k < s.len() ==> s[k] != '.',
    ensures
        spec_last_dot(s) == spec_last_dot(s.subrange(0, j)),
    decreases s.len() - j,
{
    if j == s.len() {
        assert(s.subrange(0, j) =~= s);
    } else {
        lemma_last_dot_prefix(s.drop_last(), j);
        assert(s.drop_last().subrange(0, j) =~= s.subrange(0, j));
    }
}

/// Whether a file name carries one of the stored image extensions: `png`,
/// `jpg`, `jpeg` or `webp`.
pub fn is_image_file(name: &str) -> (r: bool)
    ensures
        r == match spec_file_ext(name@) {
            Option::Some(e) => e == "png"@ || e == "jpg"@ || e == "jpeg"@ || e == "webp"@,
            Option::None => false,
        },
{
    let n = name.unicode_len();
    let mut j: usize = n;
    while j > 0 && name.get_char(j - 1) != '.'
        invariant
            n == name@.len(),
            j <= n,
            forall|k: int| j <= k < n ==> name@[k] != '.',
        decreases j,
    {
        j = j - 1;
    }
    proof {
        lemma_last_dot_prefix(name@, j as int);
        if j > 0 {
            assert(name@.subrange(0, j as int).last() == name@[j - 1]);
            assert(spec_last_dot(name@) == j - 1);
        } else {
            assert(name@.subrange(0, 0) =~= Seq::<char>::empty());
            assert(spec_last_dot(name@) == -1);
        }
    }
    if j <= 1 {
        // No dot at all, or a leading dot: no extension.
        return false;
    }
    let ext = name.substring_char(j, n);
    proof {
        assert(name@.subrange(j as int, n as int) =~= name@.subrange(
            spec_last_dot(name@) + 1,
            n as int,
        ));
    }
    str_eq(ext, "png") || str_eq(ext, "jpg") || str_eq(ext, "jpeg") || str_eq(ext, "webp")
}

} // verus!
