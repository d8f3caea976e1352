//! The long-lived application state a control panel keeps: the loaded
//! configuration and the storage built over it.

use vstd::prelude::*;

use crate::config::Config;
use crate::storage::Storage;

verus! {

/// The state shared by the control panel's commands.
pub struct AppState {
    pub config: Config,
    pub storage: Storage,
}

impl AppState {
    /// Build the state over a loaded configuration; the storage uses the
    /// same configuration.
    pub fn new(config: Config) -> (r: AppState)
        ensures
            r.config == config,
            r.storage.spec_config() == config,
    {
        let storage = Storage::new(config.clone_config());
        AppState { config, storage }
    }
}

} // verus!
