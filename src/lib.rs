//! Manages several named editor configuration trees and switches the live
//! one by pointing the editor's well-known directories at a chosen entry.

pub mod archive;
pub mod args;
pub mod commands;
pub mod configs;
pub mod constants;
pub mod pathname;
pub mod paths;
pub mod settings;
pub mod setup;

pub use args::{Commands, NvCfgArgs};
pub use configs::{BackupInfo, ConfigData, Configs};
pub use pathname::Platform;
pub use paths::{EnvValues, EnvVariables, GenericPaths};
pub use settings::Settings;
