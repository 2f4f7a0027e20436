//! Base directories of the platform and the paths derived from them.

use vstd::prelude::*;
use crate::constants::{
    APP_DATA_LOCAL, APP_DATA_LOCAL_PATH, HOME, NCM_DATA, NCM_DATA_WIN, NVIM, NVIM_DATA, USERPROFILE,
    XDG_CACHE_HOME, XDG_CACHE_HOME_PATH, XDG_CONFIG_HOME, XDG_CONFIG_HOME_PATH, XDG_DATA_HOME,
    XDG_DATA_HOME_PATH, XDG_STATE_HOME, XDG_STATE_HOME_PATH,
};
use crate::pathname::{joined, join, Platform};

verus! {

/// Four directories, one per role.
#[derive(Clone, Debug)]
pub struct GenericPaths {
    /// `.config` or `%LOCALAPPDATA%`
    pub config: String,
    /// `.local/share` or `%LOCALAPPDATA%`
    pub local: String,
    /// `.cache` or `%LOCALAPPDATA%`
    pub cache: String,
    /// `.local/state` or `%LOCALAPPDATA%`
    pub state: String,
}

/// What a `GenericPaths` holds.
pub struct PathSet {
    pub config: Seq<char>,
    pub local: Seq<char>,
    pub cache: Seq<char>,
    pub state: Seq<char>,
}

impl View for GenericPaths {
    type V = PathSet;

    open spec fn view(&self) -> PathSet {
        PathSet { config: self.config@, local: self.local@, cache: self.cache@, state: self.state@ }
    }
}

impl Default for GenericPaths {
    fn default() -> (r: GenericPaths)
        ensures
            r.config@.len() == 0,
            r.local@.len() == 0,
            r.cache@.len() == 0,
            r.state@.len() == 0,
    {
        GenericPaths {
            config: String::new(),
            local: String::new(),
            cache: String::new(),
            state: String::new(),
        }
    }
}

/// The names of the environment variables consulted for each role.
#[derive(Clone, Debug)]
pub struct EnvVariables {
    pub home: String,
    pub xdg_data_home: String,
    pub xdg_cache_home: String,
    pub xdg_state_home: String,
    pub app_data_local: String,
    pub xdg_config_home: String,
}

impl EnvVariables {
    /// The variable names used on `platform`.
    pub fn new(platform: Platform) -> (r: EnvVariables)
        ensures
            r.home@ == (if platform == Platform::Windows { USERPROFILE@ } else { HOME@ }),
            r.xdg_data_home@ == XDG_DATA_HOME@,
            r.xdg_cache_home@ == XDG_CACHE_HOME@,
            r.xdg_state_home@ == XDG_STATE_HOME@,
            r.app_data_local@ == APP_DATA_LOCAL@,
            r.xdg_config_home@ == XDG_CONFIG_HOME@,
    {
        EnvVariables {
            home: match platform {
                Platform::Windows => String::from_str(USERPROFILE),
                Platform::Posix => String::from_str(HOME),
            },
            xdg_data_home: String::from_str(XDG_DATA_HOME),
            xdg_cache_home: String::from_str(XDG_CACHE_HOME),
            xdg_state_home: String::from_str(XDG_STATE_HOME),
            app_data_local: String::from_str(APP_DATA_LOCAL),
            xdg_config_home: String::from_str(XDG_CONFIG_HOME),
        }
    }
}

impl EnvVariables {
    /// A copy equal to this one.
    pub fn duplicate(&self) -> (r: EnvVariables)
        ensures
            r == *self,
    {
        EnvVariables {
            home: self.home.clone(),
            xdg_data_home: self.xdg_data_home.clone(),
            xdg_cache_home: self.xdg_cache_home.clone(),
            xdg_state_home: self.xdg_state_home.clone(),
            app_data_local: self.app_data_local.clone(),
            xdg_config_home: self.xdg_config_home.clone(),
        }
    }
}

/// The values that the variables of an `EnvVariables` held (`None`: unset).
#[derive(Clone, Debug)]
pub struct EnvValues {
    pub home: Option<String>,
    pub xdg_data_home: Option<String>,
    pub xdg_cache_home: Option<String>,
    pub xdg_state_home: Option<String>,
    pub app_data_local: Option<String>,
    pub xdg_config_home: Option<String>,
}

/// The base directories, with whether the config and data roots were overridden.
#[derive(Clone, Debug)]
pub struct BasePaths {
    pub paths: GenericPaths,
    pub xdg_config_is_set: bool,
    pub xdg_data_is_set: bool,
}

/// Why no base directories could be derived.
#[derive(Clone, Copy, Debug, PartialEq, Eq, Structural)]
pub enum PathError {
    /// A role has no override and the home directory is unknown too.
    MissingHome,
}

pub open spec fn opt_view(o: Option<String>) -> Option<Seq<char>> {
    match o {
        Some(v) => Some(v@),
        None => None,
    }
}

/// The single root that Windows uses for every role without an override.
pub open spec fn windows_root(env: EnvValues) -> Option<Seq<char>> {
    match env.app_data_local {
        Some(v) => Some(v@),
        None => match env.home {
            Some(h) => Some(h@ + APP_DATA_LOCAL_PATH@),
            None => None,
        },
    }
}

/// The base directory of one role: its override, else the platform's fallback.
pub open spec fn base_for(
    platform: Platform,
    env: EnvValues,
    over: Option<String>,
    suffix: Seq<char>,
) -> Option<Seq<char>> {
    match over {
        Some(v) => Some(v@),
        None => if platform == Platform::Windows {
            windows_root(env)
        } else {
            match env.home {
                Some(h) => Some(h@ + suffix),
                None => None,
            }
        },
    }
}

pub open spec fn config_base(platform: Platform, env: EnvValues) -> Option<Seq<char>> {
    base_for(platform, env, env.xdg_config_home, XDG_CONFIG_HOME_PATH@)
}

pub open spec fn local_base(platform: Platform, env: EnvValues) -> Option<Seq<char>> {
    base_for(platform, env, env.xdg_data_home, XDG_DATA_HOME_PATH@)
}

pub open spec fn cache_base(platform: Platform, env: EnvValues) -> Option<Seq<char>> {
    base_for(platform, env, env.xdg_cache_home, XDG_CACHE_HOME_PATH@)
}

pub open spec fn state_base(platform: Platform, env: EnvValues) -> Option<Seq<char>> {
    base_for(platform, env, env.xdg_state_home, XDG_STATE_HOME_PATH@)
}

/// Whether every role has a base directory.
pub open spec fn resolvable(platform: Platform, env: EnvValues) -> bool {
    config_base(platform, env) is Some && local_base(platform, env) is Some
        && cache_base(platform, env) is Some && state_base(platform, env) is Some
}

/// An override of the config root is used as it is; without one, the
/// POSIX fallback is the home directory followed by `/.config`.
pub proof fn lemma_config_base_resolution(platform: Platform, env: EnvValues)
    ensures
        env.xdg_config_home matches Some(v) ==> config_base(platform, env) == Some(v@),
        env.xdg_config_home is None && platform == Platform::Posix ==> (env.home matches Some(h)
            ==> config_base(platform, env) == Some(h@ + XDG_CONFIG_HOME_PATH@)),
        env.xdg_config_home is None && env.home is None && platform == Platform::Posix
            ==> config_base(platform, env) is None,
{
}

/// The editor's own locations under the base directories.
pub open spec fn nvim_paths_of(platform: Platform, base: PathSet) -> PathSet {
    PathSet {
        config: joined(platform, base.config, NVIM@),
        local: joined(
            platform,
            base.local,
            if platform == Platform::Windows { NVIM_DATA@ } else { NVIM@ },
        ),
        cache: joined(platform, base.cache, NVIM@),
        state: joined(platform, base.state, NVIM@),
    }
}

/// Where the managed trees are kept, under the base directories.
pub open spec fn ncm_paths_of(platform: Platform, base: PathSet, xdg_data_is_set: bool) -> PathSet {
    PathSet {
        config: joined(platform, base.config, NCM_DATA@),
        local: joined(
            platform,
            base.local,
            if platform == Platform::Windows && !xdg_data_is_set { NCM_DATA_WIN@ } else { NCM_DATA@ },
        ),
        cache: joined(platform, base.cache, NCM_DATA@),
        state: joined(platform, base.state, NCM_DATA@),
    }
}

fn windows_root_of(env: &EnvValues) -> (r: Option<String>)
    ensures
        opt_view(r) == windows_root(*env),
{
    match &env.app_data_local {
        Some(v) => Some(v.clone()),
        None => match &env.home {
            Some(h) => {
                let mut r = h.clone();
                r.append(APP_DATA_LOCAL_PATH);
                Some(r)
            },
            None => None,
        },
    }
}

fn base_of(platform: Platform, env: &EnvValues, over: &Option<String>, suffix: &str) -> (r: Option<
    String,
>)
    ensures
        opt_view(r) == base_for(platform, *env, *over, suffix@),
{
    match over {
        Some(v) => Some(v.clone()),
        None => match platform {
            Platform::Windows => windows_root_of(env),
            Platform::Posix => match &env.home {
                Some(h) => {
                    let mut r = h.clone();
                    r.append(suffix);
                    Some(r)
                },
                None => None,
            },
        },
    }
}

/// Resolves the four base directories from the environment's values.
/// Fails only where a role has no override and its fallback needs an
/// unknown home directory.
pub fn create_paths(platform: Platform, env: &EnvValues) -> (r: Result<BasePaths, PathError>)
    ensures
        r is Ok <==> resolvable(platform, *env),
        r is Err ==> r == Err::<BasePaths, PathError>(PathError::MissingHome),
        r matches Ok(b) ==> {
            &&& Some(b.paths.config@) == config_base(platform, *env)
            &&& Some(b.paths.local@) == local_base(platform, *env)
            &&& Some(b.paths.cache@) == cache_base(platform, *env)
            &&& Some(b.paths.state@) == state_base(platform, *env)
            &&& b.xdg_config_is_set == env.xdg_config_home is Some
            &&& b.xdg_data_is_set == env.xdg_data_home is Some
        },
{
    let config = base_of(platform, env, &env.xdg_config_home, XDG_CONFIG_HOME_PATH);
    let local = base_of(platform, env, &env.xdg_data_home, XDG_DATA_HOME_PATH);
    let cache = base_of(platform, env, &env.xdg_cache_home, XDG_CACHE_HOME_PATH);
    let state = base_of(platform, env, &env.xdg_state_home, XDG_STATE_HOME_PATH);
    match (config, local, cache, state) {
        (Some(config), Some(local), Some(cache), Some(state)) => Ok(
            BasePaths {
                paths: GenericPaths { config, local, cache, state },
                xdg_config_is_set: env.xdg_config_home.is_some(),
                xdg_data_is_set: env.xdg_data_home.is_some(),
            },
        ),
        _ => Err(PathError::MissingHome),
    }
}

/// Same as `create_paths`.
pub fn get_base_paths(platform: Platform, env: &EnvValues) -> (r: Result<BasePaths, PathError>)
    ensures
        r is Ok <==> resolvable(platform, *env),
        r matches Ok(b) ==> {
            &&& Some(b.paths.config@) == config_base(platform, *env)
            &&& Some(b.paths.local@) == local_base(platform, *env)
            &&& Some(b.paths.cache@) == cache_base(platform, *env)
            &&& Some(b.paths.state@) == state_base(platform, *env)
            &&& b.xdg_config_is_set == env.xdg_config_home is Some
            &&& b.xdg_data_is_set == env.xdg_data_home is Some
        },
{
    create_paths(platform, env)
}

/// The default locations of the editor's own directories.
pub fn get_nvim_paths(platform: Platform, base: &GenericPaths) -> (r: GenericPaths)
    ensures
        r@ == nvim_paths_of(platform, base@),
{
    let data_dir = match platform {
        Platform::Windows => NVIM_DATA,
        Platform::Posix => NVIM,
    };
    GenericPaths {
        config: join(platform, base.config.as_str(), NVIM),
        local: join(platform, base.local.as_str(), data_dir),
        cache: join(platform, base.cache.as_str(), NVIM),
        state: join(platform, base.state.as_str(), NVIM),
    }
}

/// The locations under which managed configuration trees are kept.
pub fn get_ncm_paths(platform: Platform, base: &GenericPaths, xdg_data_is_set: bool) -> (r:
    GenericPaths)
    ensures
        r@ == ncm_paths_of(platform, base@, xdg_data_is_set),
{
    let data_dir = if matches!(platform, Platform::Windows) && !xdg_data_is_set {
        NCM_DATA_WIN
    } else {
        NCM_DATA
    };
    GenericPaths {
        config: join(platform, base.config.as_str(), NCM_DATA),
        local: join(platform, base.local.as_str(), data_dir),
        cache: join(platform, base.cache.as_str(), NCM_DATA),
        state: join(platform, base.state.as_str(), NCM_DATA),
    }
}

} // verus!
