//! The settings of one run: resolved directories and the persisted flags.

use vstd::prelude::*;
use crate::constants::{CONFIGS_FILE, NCM_DIR, SETTINGS_FILE};
use crate::pathname::{join, joined, Platform};
use crate::paths::{
    cache_base, config_base, create_paths, get_ncm_paths, get_nvim_paths, local_base, ncm_paths_of,
    nvim_paths_of, resolvable, state_base, EnvValues, EnvVariables, GenericPaths, PathError,
};

verus! {

/// Everything a command needs to know about where things are.
#[derive(Clone, Debug)]
pub struct Settings {
    pub platform: Platform,
    /// Whether first-run setup has finished.
    pub setup_complete: bool,
    /// Where setup put its archives, once it has.
    pub backup_path: Option<String>,
    pub dot_path: String,
    pub nvim_path: String,
    pub data_path: String,
    pub cache_path: String,
    pub ncm_cfg_path: String,
    pub configs_path: String,
    pub settings_path: String,
    pub env_vars: EnvVariables,
    /// Where moved editor trees are kept.
    pub ncm_paths: GenericPaths,
    pub base_paths: GenericPaths,
    /// The editor's own locations.
    pub nvim_paths: GenericPaths,
    pub xdg_data_is_set: bool,
    pub xdg_config_is_set: bool,
}

impl Settings {
    /// Every derived path follows from `base_paths` and the override flags.
    pub open spec fn paths_derived(&self) -> bool {
        &&& self.nvim_paths@ == nvim_paths_of(self.platform, self.base_paths@)
        &&& self.ncm_paths@ == ncm_paths_of(self.platform, self.base_paths@, self.xdg_data_is_set)
        &&& self.dot_path@ == self.base_paths.config@
        &&& self.ncm_cfg_path@ == joined(self.platform, self.base_paths.config@, NCM_DIR@)
        &&& self.nvim_path@ == self.nvim_paths.config@
        &&& self.data_path@ == self.nvim_paths.local@
        &&& self.cache_path@ == self.nvim_paths.cache@
        &&& self.settings_path@ == joined(self.platform, self.ncm_cfg_path@, SETTINGS_FILE@)
        &&& self.configs_path@ == joined(self.platform, self.ncm_cfg_path@, CONFIGS_FILE@)
    }

    /// Settings with every path empty and setup not done.
    pub fn new(env_vars: &EnvVariables, platform: Platform) -> (r: Settings)
        ensures
            r.platform == platform,
            r.env_vars == *env_vars,
            !r.setup_complete,
            r.backup_path is None,
            !r.xdg_data_is_set,
            !r.xdg_config_is_set,
            r.dot_path@.len() == 0,
            r.nvim_path@.len() == 0,
            r.data_path@.len() == 0,
            r.cache_path@.len() == 0,
            r.ncm_cfg_path@.len() == 0,
            r.configs_path@.len() == 0,
            r.settings_path@.len() == 0,
            r.base_paths@.config.len() == 0 && r.base_paths@.local.len() == 0,
            r.base_paths@.cache.len() == 0 && r.base_paths@.state.len() == 0,
    {
        Settings {
            platform,
            setup_complete: false,
            backup_path: None,
            dot_path: String::new(),
            nvim_path: String::new(),
            data_path: String::new(),
            cache_path: String::new(),
            ncm_cfg_path: String::new(),
            configs_path: String::new(),
            settings_path: String::new(),
            env_vars: env_vars.duplicate(),
            ncm_paths: GenericPaths::default(),
            base_paths: GenericPaths::default(),
            nvim_paths: GenericPaths::default(),
            xdg_data_is_set: false,
            xdg_config_is_set: false,
        }
    }

    /// Resolves the base directories from the environment's values and
    /// derives every other path from them. Fails, changing nothing, where
    /// `create_paths` fails.
    pub fn get_paths(&mut self, env: &EnvValues) -> (r: Result<(), PathError>)
        ensures
            r is Ok <==> resolvable(old(self).platform, *env),
            r is Err ==> *final(self) == *old(self),
            r is Ok ==> {
                &&& final(self).paths_derived()
                &&& Some(final(self).base_paths.config@) == config_base(old(self).platform, *env)
                &&& Some(final(self).base_paths.local@) == local_base(old(self).platform, *env)
                &&& Some(final(self).base_paths.cache@) == cache_base(old(self).platform, *env)
                &&& Some(final(self).base_paths.state@) == state_base(old(self).platform, *env)
                &&& final(self).xdg_config_is_set == env.xdg_config_home is Some
                &&& final(self).xdg_data_is_set == env.xdg_data_home is Some
                &&& final(self).platform == old(self).platform
                &&& final(self).env_vars == old(self).env_vars
                &&& final(self).setup_complete == old(self).setup_complete
                &&& final(self).backup_path == old(self).backup_path
            },
    {
        let platform = self.platform;
        let base = match create_paths(platform, env) {
            Ok(b) => b,
            Err(e) => return Err(e),
        };
        self.xdg_config_is_set = base.xdg_config_is_set;
        self.xdg_data_is_set = base.xdg_data_is_set;
        self.nvim_paths = get_nvim_paths(platform, &base.paths);
        self.ncm_paths = get_ncm_paths(platform, &base.paths, base.xdg_data_is_set);
        self.dot_path = base.paths.config.clone();
        self.ncm_cfg_path = join(platform, base.paths.config.as_str(), NCM_DIR);
        self.nvim_path = self.nvim_paths.config.clone();
        self.data_path = self.nvim_paths.local.clone();
        self.cache_path = self.nvim_paths.cache.clone();
        self.settings_path = join(platform, self.ncm_cfg_path.as_str(), SETTINGS_FILE);
        self.configs_path = join(platform, self.ncm_cfg_path.as_str(), CONFIGS_FILE);
        self.base_paths = base.paths;
        Ok(())
    }
}

} // verus!
