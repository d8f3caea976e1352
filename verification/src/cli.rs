//! The command-line capture commands, as plain data: the argument parser at
//! the process boundary fills these in, and the library turns them into a
//! capture intent.

use vstd::prelude::*;

use crate::dispatch::CaptureMode;
use crate::geometry::{parse_region, spec_parse_region};

verus! {

/// Options shared by every capture command.
#[derive(Debug, Clone)]
pub struct CaptureOpts {
    /// Image format override; the configuration's format otherwise.
    pub format: Option<crate::config::ImageFormat>,
    /// Copy the capture to the clipboard.
    pub clipboard: bool,
    /// Save to this path instead of the default storage.
    pub output: Option<String>,
    /// Target a specific display, by name or index.
    pub display: Option<String>,
}

/// One capture command.
#[derive(Debug, Clone)]
pub enum CaptureCommand {
    /// Capture the full screen.
    Fullscreen { opts: CaptureOpts },
    /// Capture a region: an explicit geometry string, or interactive
    /// selection without one.
    Region { geometry: Option<String>, opts: CaptureOpts },
    /// Capture the active window.
    Window { opts: CaptureOpts },
}

impl CaptureCommand {
    /// The command's shared options.
    pub fn opts(&self) -> (r: &CaptureOpts)
        ensures
            r == match self {
                CaptureCommand::Fullscreen { opts } => opts,
                CaptureCommand::Region { opts, .. } => opts,
                CaptureCommand::Window { opts } => opts,
            },
    {
        match self {
            CaptureCommand::Fullscreen { opts } => opts,
            CaptureCommand::Region { opts, .. } => opts,
            CaptureCommand::Window { opts } => opts,
        }
    }

    /// The capture intent the command denotes: a region command with a
    /// geometry string parses it, and without one selects interactively.
    pub fn to_capture_mode(&self) -> (r: Result<CaptureMode, String>)
        ensures
            match self {
                CaptureCommand::Fullscreen { .. } => r matches Ok(m) && m
                    == CaptureMode::Fullscreen,
                CaptureCommand::Window { .. } => r matches Ok(m) && m == CaptureMode::ActiveWindow,
                CaptureCommand::Region { geometry, .. } => match geometry {
                    Option::None => r matches Ok(m) && m == CaptureMode::RegionInteractive,
                    Option::Some(g) => match r {
                        Ok(m) => spec_parse_region(g@) matches Ok(reg) && m == CaptureMode::Region(
                            reg,
                        ),
                        Err(e) => spec_parse_region(g@) matches Err(msg) && e@ == msg,
                    },
                },
            },
    {
        match self {
            CaptureCommand::Fullscreen { .. } => Ok(CaptureMode::Fullscreen),
            CaptureCommand::Region { geometry, .. } => match geometry {
                Option::Some(g) => match parse_region(g.as_str()) {
                    Ok(region) => Ok(CaptureMode::Region(region)),
                    Err(e) => Err(e),
                },
                Option::None => Ok(CaptureMode::RegionInteractive),
            },
            CaptureCommand::Window { .. } => Ok(CaptureMode::ActiveWindow),
        }
    }
}

} // verus!
