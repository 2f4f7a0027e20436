//! The commands a user can give, as plain values.

use vstd::prelude::*;

verus! {

/// The parsed command line.
#[derive(Debug)]
pub struct NvCfgArgs {
    pub command: Commands,
}

#[derive(Debug)]
pub enum Commands {
    /// Adds a configuration directory, referenced by name.
    Add { name: String, path: String, description: Option<String> },
    /// Removes a configuration from the registry.
    Remove { name: Option<String> },
    /// Loads a configuration by name, or the default one.
    Load { name: Option<String> },
    /// Makes a configuration the default.
    SetDefault { name: String },
    /// Lists the registered configurations.
    List,
    /// Sets up the registry for the first time.
    Setup,
    /// Archives all, a chosen, or the named configuration.
    Backup { name: Option<String> },
}

} // verus!
