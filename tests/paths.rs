use ncm::constants::{CONFIGS_FILE, NCM_DIR, NVIM, SETTINGS_FILE};
use ncm::paths::{create_paths, get_base_paths, get_ncm_paths, get_nvim_paths, PathError};
use ncm::pathname::{file_name_is, join, parent_name_is};
use ncm::{EnvValues, EnvVariables, GenericPaths, Platform, Settings};

fn env(home: Option<&str>, config: Option<&str>) -> EnvValues {
    EnvValues {
        home: home.map(|s| s.to_string()),
        xdg_data_home: None,
        xdg_cache_home: None,
        xdg_state_home: None,
        app_data_local: None,
        xdg_config_home: config.map(|s| s.to_string()),
    }
}

fn run_get_config(values: &EnvValues, dot_path: &str) {
    let env_vars = EnvVariables::new(Platform::Posix);
    let mut settings = Settings::new(&env_vars, Platform::Posix);
    assert!(settings.get_paths(values).is_ok());
    let ncm_dir = format!("{dot_path}/{NCM_DIR}");
    assert_eq!(settings.ncm_cfg_path, ncm_dir);
    assert_eq!(settings.nvim_path, format!("{dot_path}/{NVIM}"));
    assert_eq!(settings.settings_path, format!("{ncm_dir}/{SETTINGS_FILE}"));
    assert_eq!(settings.configs_path, format!("{ncm_dir}/{CONFIGS_FILE}"));
    assert!(!settings.setup_complete);
}

#[test]
fn test_create_settings() {
    let dir = "/tmp/ncm_tmp_config";
    // First run: no XDG_CONFIG_HOME.
    run_get_config(&env(Some(dir), None), &format!("{dir}/.config"));
    // Second run: XDG_CONFIG_HOME set.
    let dot = format!("{dir}/.config");
    run_get_config(&env(Some(dir), Some(&dot)), &dot);
}

#[test]
fn config_override_is_used_verbatim() {
    let b = create_paths(Platform::Posix, &env(Some("/tmp/h"), Some("/tmp/x"))).unwrap();
    assert_eq!(b.paths.config, "/tmp/x");
    assert!(b.xdg_config_is_set);
    assert!(!b.xdg_data_is_set);
}

#[test]
fn config_falls_back_to_home() {
    let b = create_paths(Platform::Posix, &env(Some("/tmp/h"), None)).unwrap();
    assert_eq!(b.paths.config, "/tmp/h/.config");
    assert_eq!(b.paths.local, "/tmp/h/.local/share");
    assert_eq!(b.paths.cache, "/tmp/h/.cache");
    assert_eq!(b.paths.state, "/tmp/h/.local/state");
    assert!(!b.xdg_config_is_set);
}

#[test]
fn missing_home_without_overrides_fails() {
    let r = create_paths(Platform::Posix, &env(None, Some("/tmp/x")));
    assert!(matches!(r, Err(PathError::MissingHome)));
    let all = EnvValues {
        home: None,
        xdg_data_home: Some("/d".to_string()),
        xdg_cache_home: Some("/c".to_string()),
        xdg_state_home: Some("/s".to_string()),
        app_data_local: None,
        xdg_config_home: Some("/x".to_string()),
    };
    let b = get_base_paths(Platform::Posix, &all).unwrap();
    assert_eq!(b.paths.local, "/d");
    assert!(b.xdg_data_is_set);
}

#[test]
fn windows_uses_one_root() {
    let mut e = env(Some("C:\\Users\\me"), None);
    let b = create_paths(Platform::Windows, &e).unwrap();
    assert_eq!(b.paths.config, "C:\\Users\\me\\AppData\\Local");
    assert_eq!(b.paths.cache, "C:\\Users\\me\\AppData\\Local");
    e.app_data_local = Some("D:\\Local".to_string());
    let b = create_paths(Platform::Windows, &e).unwrap();
    assert_eq!(b.paths.state, "D:\\Local");
    let none = env(None, None);
    assert!(create_paths(Platform::Windows, &none).is_err());
}

#[test]
fn derived_editor_and_store_paths() {
    let base = GenericPaths {
        config: "/h/.config".to_string(),
        local: "/h/.local/share".to_string(),
        cache: "/h/.cache".to_string(),
        state: "/h/.local/state".to_string(),
    };
    let nvim = get_nvim_paths(Platform::Posix, &base);
    assert_eq!(nvim.config, "/h/.config/nvim");
    assert_eq!(nvim.local, "/h/.local/share/nvim");
    let ncm = get_ncm_paths(Platform::Posix, &base, false);
    assert_eq!(ncm.local, "/h/.local/share/nvim-ncm");
    assert_eq!(ncm.cache, "/h/.cache/nvim-ncm");
    let wbase = GenericPaths {
        config: "C:\\L".to_string(),
        local: "C:\\L".to_string(),
        cache: "C:\\L".to_string(),
        state: "C:\\L".to_string(),
    };
    assert_eq!(get_nvim_paths(Platform::Windows, &wbase).local, "C:\\L\\nvim-data");
    assert_eq!(get_ncm_paths(Platform::Windows, &wbase, false).local, "C:\\L\\nvim-ncm-data");
    assert_eq!(get_ncm_paths(Platform::Windows, &wbase, true).local, "C:\\L\\nvim-ncm");
}

#[test]
fn variable_names_per_platform() {
    assert_eq!(EnvVariables::new(Platform::Posix).home, "HOME");
    assert_eq!(EnvVariables::new(Platform::Windows).home, "USERPROFILE");
    assert_eq!(EnvVariables::new(Platform::Posix).xdg_config_home, "XDG_CONFIG_HOME");
    let d = GenericPaths::default();
    assert!(d.config.is_empty() && d.state.is_empty());
}

#[test]
fn failed_resolution_leaves_settings_alone() {
    let mut s = Settings::new(&EnvVariables::new(Platform::Posix), Platform::Posix);
    assert!(s.get_paths(&env(None, None)).is_err());
    assert!(s.nvim_path.is_empty());
}

#[test]
fn join_and_component_names() {
    assert_eq!(join(Platform::Posix, "/a", "b"), "/a/b");
    assert_eq!(join(Platform::Posix, "/a/", "b"), "/a/b");
    assert_eq!(join(Platform::Posix, "", "b"), "b");
    assert_eq!(join(Platform::Windows, "C:\\a", "b"), "C:\\a\\b");
    assert!(file_name_is(Platform::Posix, "/h/.config/nvim/", "nvim"));
    assert!(!file_name_is(Platform::Posix, "/h/.config/nvimx", "nvim"));
    assert!(parent_name_is(Platform::Posix, "/h/.config//nvim", ".config"));
    assert!(!parent_name_is(Platform::Posix, "/nvim", ".config"));
    assert!(parent_name_is(Platform::Windows, "C:\\x\\Local\\nvim-data", "Local"));
}
