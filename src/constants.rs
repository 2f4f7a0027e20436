//! Fixed names: environment variables, directory leaves and file names.

use vstd::prelude::*;

verus! {

pub const HOME: &'static str = "HOME";
pub const USERPROFILE: &'static str = "USERPROFILE";
pub const APP_DATA_LOCAL: &'static str = "LOCALAPPDATA";
pub const XDG_DATA_HOME: &'static str = "XDG_DATA_HOME";
pub const XDG_CACHE_HOME: &'static str = "XDG_CACHE_HOME";
pub const XDG_STATE_HOME: &'static str = "XDG_STATE_HOME";
pub const XDG_CONFIG_HOME: &'static str = "XDG_CONFIG_HOME";

/// Suffixes appended to the home directory where no override is set.
pub const XDG_DATA_HOME_PATH: &'static str = "/.local/share";
pub const XDG_CACHE_HOME_PATH: &'static str = "/.cache";
pub const XDG_STATE_HOME_PATH: &'static str = "/.local/state";
pub const XDG_CONFIG_HOME_PATH: &'static str = "/.config";
pub const APP_DATA_LOCAL_PATH: &'static str = "\\AppData\\Local";

pub const NCM: &'static str = "ncm";
pub const SETUP_COMPLETE: &'static str = "setup_complete";
pub const BACKUP_PATH: &'static str = "backup_path";

pub const SHARE: &'static str = "share";
pub const CACHE: &'static str = ".cache";
pub const CONFIG: &'static str = ".config";
pub const WIN_DATA: &'static str = "Local";

pub const ZIP: &'static str = "zip";
/// The Unix permission bits of every archive entry.
pub const ENTRY_MODE: u32 = 0o755;
pub const MAIN: &'static str = "main";
pub const NVIM: &'static str = "nvim";
pub const INIT_LUA: &'static str = "init.lua";
pub const INIT_VIM: &'static str = "init.vim";
pub const NVIM_DATA: &'static str = "nvim-data";

pub const NCM_DIR: &'static str = "ncm-rs";
pub const NCM_DATA: &'static str = "nvim-ncm";
pub const NCM_DATA_WIN: &'static str = "nvim-ncm-data";

pub const BACKUPS: &'static str = "backups";
pub const CONFIGS_FILE: &'static str = "configs.json";
pub const SETTINGS_FILE: &'static str = "settings.ini";
pub const SELECT_ALL: &'static str = "all";
pub const DEFAULT_CONFIG_DESC: &'static str = "Main Config";

} // verus!
