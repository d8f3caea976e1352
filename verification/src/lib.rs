//! Display-server-abstracted screen capture engine.
//!
//! The library holds the verified logic of the engine: rectangle parsing and
//! normalisation, pixel-format conversion, display-server detection, the
//! interactive-selection state machine, overlay drawing geometry, capture
//! routing, and the planning parts of configuration and storage.  The thin
//! protocol transports (X connections, the desktop portal, the file system)
//! live outside the library and hand it plain values.

pub mod cli;
pub mod config;
pub mod dispatch;
pub mod display;
pub mod encoding;
pub mod errors;
pub mod geometry;
pub mod metadata;
pub mod overlay;
pub mod pixels;
pub mod portal;
pub mod selection;
pub mod state;
pub mod storage;
pub mod text;
pub mod xwindow;
