//! The decisions behind the commands: which live paths may be replaced,
//! which entry an addition registers, and what an activation links.

use vstd::prelude::*;
use crate::configs::{
    add_config as register, copy_opt, has_name, ConfigData, Configs, Registry, RegistryError,
};
use crate::constants::{CACHE, CONFIG, NCM_DATA, NCM_DATA_WIN, NVIM, NVIM_DATA, SHARE, WIN_DATA};
use crate::pathname::{file_name, file_name_is, join, joined, parent_name, parent_name_is, Platform};
use crate::settings::Settings;

verus! {

/// What was found on disk about a directory.
#[derive(Clone, Copy, Debug, PartialEq, Eq, Structural)]
pub struct DirProbe {
    pub exists: bool,
    pub has_init_lua: bool,
    pub has_init_vim: bool,
}

/// The directory holds one of the editor's initializer files.
pub open spec fn has_marker(p: DirProbe) -> bool {
    p.has_init_lua || p.has_init_vim
}

/// Why a live path was not switched.
#[derive(Clone, Copy, Debug, PartialEq, Eq, Structural)]
pub enum ActivationError {
    /// The live config path or the entry's tree is not as expected.
    ConfigVerification,
    /// The live data path or the entry's data directory is not as expected.
    DataVerification,
    /// The live cache path or the entry's cache directory is not as expected.
    CacheVerification,
    /// The entry names no data directory.
    MissingDataPath,
}

/// The parent that a live config path may have instead of ending in `nvim`.
pub open spec fn config_root_name(platform: Platform, xdg_config_set: bool) -> Seq<char> {
    if platform == Platform::Windows && !xdg_config_set {
        NCM_DATA_WIN@
    } else {
        CONFIG@
    }
}

/// The base name of the editor's data directory.
pub open spec fn data_leaf(platform: Platform) -> Seq<char> {
    if platform == Platform::Windows {
        NVIM_DATA@
    } else {
        NVIM@
    }
}

/// The parent that a live data path may have instead of ending in `data_leaf`.
pub open spec fn data_root_name(platform: Platform, xdg_data_set: bool) -> Seq<char> {
    if platform == Platform::Windows && !xdg_data_set {
        WIN_DATA@
    } else {
        SHARE@
    }
}

/// The parent that an entry's data directory may have instead of ending in its name.
pub open spec fn store_root_name(platform: Platform, xdg_data_set: bool) -> Seq<char> {
    if platform == Platform::Windows && !xdg_data_set {
        NCM_DATA_WIN@
    } else {
        NCM_DATA@
    }
}

/// `path` ends in `leaf`, or its parent directory is called `root`.
pub open spec fn conforms(platform: Platform, path: Seq<char>, leaf: Seq<char>, root: Seq<char>) -> bool {
    file_name(platform, path) == leaf || parent_name(platform, path) == root
}

fn conforms_to(platform: Platform, path: &str, leaf: &str, root: &str) -> (r: bool)
    ensures
        r == conforms(platform, path@, leaf@, root@),
{
    file_name_is(platform, path, leaf) || parent_name_is(platform, path, root)
}

/// Whether the editor's config tree is present: the directory exists and
/// holds an initializer file.
pub fn check_for_nvim(probe: &DirProbe) -> (r: bool)
    ensures
        r == (probe.exists && has_marker(*probe)),
{
    if !probe.exists {
        return false;
    }
    probe.has_init_lua || probe.has_init_vim
}

/// Checks that the live config path `nvim_path` may be replaced by a link
/// to a tree whose contents `source` describes.
pub fn verify_config_directory(
    platform: Platform,
    nvim_path: &str,
    source: &DirProbe,
    xdg_config_set: bool,
) -> (r: Result<(), ActivationError>)
    ensures
        r is Ok <==> conforms(platform, nvim_path@, NVIM@, config_root_name(platform, xdg_config_set))
            && has_marker(*source),
        r is Err ==> r == Err::<(), ActivationError>(ActivationError::ConfigVerification),
{
    let root = if matches!(platform, Platform::Windows) && !xdg_config_set {
        NCM_DATA_WIN
    } else {
        CONFIG
    };
    if !conforms_to(platform, nvim_path, NVIM, root) {
        return Err(ActivationError::ConfigVerification);
    }
    if !source.has_init_lua && !source.has_init_vim {
        return Err(ActivationError::ConfigVerification);
    }
    Ok(())
}

/// Checks that the live data path `nvim_data` (which exists where
/// `nvim_data_exists`) may be replaced by a link to `new_path`, the data
/// directory of the entry called `name`.
pub fn verify_data_directory(
    platform: Platform,
    nvim_data: &str,
    nvim_data_exists: bool,
    new_path: &str,
    name: &str,
    xdg_data_set: bool,
) -> (r: Result<(), ActivationError>)
    ensures
        r is Ok <==> nvim_data_exists && conforms(
            platform,
            nvim_data@,
            data_leaf(platform),
            data_root_name(platform, xdg_data_set),
        ) && conforms(platform, new_path@, name@, store_root_name(platform, xdg_data_set)),
        r is Err ==> r == Err::<(), ActivationError>(ActivationError::DataVerification),
{
    if !nvim_data_exists {
        return Err(ActivationError::DataVerification);
    }
    let windows = matches!(platform, Platform::Windows);
    let leaf = if windows {
        NVIM_DATA
    } else {
        NVIM
    };
    let root = if windows && !xdg_data_set {
        WIN_DATA
    } else {
        SHARE
    };
    if !conforms_to(platform, nvim_data, leaf, root) {
        return Err(ActivationError::DataVerification);
    }
    let store = if windows && !xdg_data_set {
        NCM_DATA_WIN
    } else {
        NCM_DATA
    };
    if !conforms_to(platform, new_path, name, store) {
        return Err(ActivationError::DataVerification);
    }
    Ok(())
}

/// Checks that the live cache path `nvim_cache` (which exists where
/// `nvim_cache_exists`) may be replaced by a link to `new_path`, the cache
/// directory of the entry called `name`.
pub fn _verify_cache_path(
    platform: Platform,
    nvim_cache: &str,
    nvim_cache_exists: bool,
    new_path: &str,
    name: &str,
) -> (r: Result<(), ActivationError>)
    ensures
        r is Ok <==> nvim_cache_exists && conforms(platform, nvim_cache@, NVIM@, CACHE@) && conforms(
            platform,
            new_path@,
            name@,
            NCM_DATA@,
        ),
        r is Err ==> r == Err::<(), ActivationError>(ActivationError::CacheVerification),
{
    if !nvim_cache_exists {
        return Err(ActivationError::CacheVerification);
    }
    if !conforms_to(platform, nvim_cache, NVIM, CACHE) {
        return Err(ActivationError::CacheVerification);
    }
    if !conforms_to(platform, new_path, name, NCM_DATA) {
        return Err(ActivationError::CacheVerification);
    }
    Ok(())
}

/// The entry that `add_config` registers: its data directory is the entry's
/// own directory under `data_root`.
pub open spec fn new_entry(
    platform: Platform,
    name: Seq<char>,
    path: Seq<char>,
    description: Option<String>,
    data_root: Seq<char>,
    cache_path: Option<String>,
    e: ConfigData,
) -> bool {
    &&& e.name@ == name
    &&& e.path@ == path
    &&& e.description == description
    &&& e.data_path matches Some(d) && d@ == joined(platform, data_root, name)
    &&& e.cache_path == cache_path
}

/// Registers a new entry called `name` for the tree at `path`, with its data
/// directory under `data_path` and its cache under `cache_path`. Fails,
/// changing nothing, where no data root or no cache root is given, or the
/// name is taken; returns the entry registered.
pub fn add_config(
    configs: &mut Configs,
    platform: Platform,
    name: &str,
    path: &str,
    description: &Option<String>,
    data_path: &Option<String>,
    cache_path: &Option<String>,
) -> (r: Result<ConfigData, RegistryError>)
    ensures
        data_path is None ==> r == Err::<ConfigData, RegistryError>(RegistryError::MissingDataPath)
            && final(configs)@ == old(configs)@,
        data_path is Some && cache_path is None ==> r == Err::<ConfigData, RegistryError>(
            RegistryError::MissingCachePath,
        ),
        data_path is Some && cache_path is Some ==> (r is Ok <==> !has_name(
            old(configs)@.entries,
            name@,
        )),
        r matches Ok(e) ==> {
            &&& new_entry(platform, name@, path@, *description, data_path->0@, *cache_path, e)
            &&& final(configs)@ == (Registry {
                default: old(configs)@.default,
                entries: old(configs)@.entries.push(e),
            })
        },
        r is Err ==> final(configs)@ == old(configs)@,
        data_path is Some && cache_path is Some ==> (r matches Err(err) ==> (
        err matches RegistryError::DuplicateName(n) && n@ == name@)),
{
    let root = match data_path {
        Some(d) => d,
        None => return Err(RegistryError::MissingDataPath),
    };
    if cache_path.is_none() {
        return Err(RegistryError::MissingCachePath);
    }
    let entry = ConfigData {
        name: String::from_str(name),
        path: String::from_str(path),
        description: copy_opt(description),
        data_path: Some(join(platform, root.as_str(), name)),
        cache_path: copy_opt(cache_path),
    };
    let registered = entry.duplicate();
    match register(configs, entry) {
        Ok(()) => Ok(registered),
        Err(e) => Err(e),
    }
}

/// The directories that adding `entry` creates: its name under its data
/// root and, except on Windows, under its cache root.
pub fn entry_directories(platform: Platform, entry: &ConfigData) -> (r: Vec<String>)
    ensures
        r@.len() == (if entry.data_path is Some { 1int } else { 0 }) + (if entry.cache_path is Some
            && platform != Platform::Windows {
            1int
        } else {
            0
        }),
        entry.data_path matches Some(d) ==> r@[0]@ == joined(platform, d@, entry.name@),
        entry.cache_path matches Some(c) ==> platform != Platform::Windows ==> r@.last()@ == joined(
            platform,
            c@,
            entry.name@,
        ),
{
    let mut r: Vec<String> = Vec::new();
    match &entry.data_path {
        Some(d) => r.push(join(platform, d.as_str(), entry.name.as_str())),
        None => {},
    }
    if !matches!(platform, Platform::Windows) {
        match &entry.cache_path {
            Some(c) => r.push(join(platform, c.as_str(), entry.name.as_str())),
            None => {},
        }
    }
    r
}

/// A link to make: `live` is to point at `source`.
#[derive(Clone, Debug)]
pub struct Link {
    pub live: String,
    pub source: String,
}

/// What was found on disk before an activation.
#[derive(Clone, Copy, Debug, PartialEq, Eq, Structural)]
pub struct ActivationProbe {
    /// The entry's config tree.
    pub source: DirProbe,
    /// Whether the live data path exists.
    pub live_data_exists: bool,
}

/// The two links of an activation, each checked on its own.
#[derive(Debug)]
pub struct ActivationPlan {
    pub config: Result<Link, ActivationError>,
    pub data: Result<Link, ActivationError>,
}

/// Decides which live paths an activation of `entry` switches: the config
/// path to the entry's tree and the data path to its data directory, each
/// only where its own check passes.
pub fn plan_activation(settings: &Settings, entry: &ConfigData, probe: &ActivationProbe) -> (r:
    ActivationPlan)
    ensures
        r.config is Ok <==> conforms(
            settings.platform,
            settings.nvim_path@,
            NVIM@,
            config_root_name(settings.platform, settings.xdg_config_is_set),
        ) && has_marker(probe.source),
        r.config matches Ok(l) ==> l.live@ == settings.nvim_path@ && l.source@ == entry.path@,
        r.config matches Err(e) ==> e == ActivationError::ConfigVerification,
        entry.data_path is None ==> r.data == Err::<Link, ActivationError>(
            ActivationError::MissingDataPath,
        ),
        entry.data_path matches Some(d) ==> (r.data is Ok <==> probe.live_data_exists && conforms(
            settings.platform,
            settings.data_path@,
            data_leaf(settings.platform),
            data_root_name(settings.platform, settings.xdg_data_is_set),
        ) && conforms(
            settings.platform,
            d@,
            entry.name@,
            store_root_name(settings.platform, settings.xdg_data_is_set),
        )),
        entry.data_path matches Some(d) ==> (r.data matches Ok(l) ==> l.live@ == settings.data_path@
            && l.source@ == d@),
        entry.data_path is Some ==> (r.data matches Err(e) ==> e
            == ActivationError::DataVerification),
{
    let config = match verify_config_directory(
        settings.platform,
        settings.nvim_path.as_str(),
        &probe.source,
        settings.xdg_config_is_set,
    ) {
        Ok(()) => Ok(Link { live: settings.nvim_path.clone(), source: entry.path.clone() }),
        Err(e) => Err(e),
    };
    let data = match &entry.data_path {
        None => Err(ActivationError::MissingDataPath),
        Some(d) => match verify_data_directory(
            settings.platform,
            settings.data_path.as_str(),
            probe.live_data_exists,
            d.as_str(),
            entry.name.as_str(),
            settings.xdg_data_is_set,
        ) {
            Ok(()) => Ok(Link { live: settings.data_path.clone(), source: d.clone() }),
            Err(e) => Err(e),
        },
    };
    ActivationPlan { config, data }
}

/// What to do with an existing live path before a link takes its place.
#[derive(Clone, Copy, Debug, PartialEq, Eq, Structural)]
pub enum ClearAction {
    /// Nothing is there.
    Nothing,
    /// A directory is there: remove it with its contents.
    RemoveDir,
    /// A file or a link is there: remove that one entry.
    RemoveFile,
}

/// How to clear a live path, from whether it exists and is a directory.
pub fn clear_live_path(exists: bool, is_dir: bool) -> (r: ClearAction)
    ensures
        !exists ==> r == ClearAction::Nothing,
        exists && is_dir ==> r == ClearAction::RemoveDir,
        exists && !is_dir ==> r == ClearAction::RemoveFile,
{
    if !exists {
        ClearAction::Nothing
    } else if is_dir {
        ClearAction::RemoveDir
    } else {
        ClearAction::RemoveFile
    }
}

} // verus!
