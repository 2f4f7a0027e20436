use ncm::commands::{
    _verify_cache_path, add_config, check_for_nvim, clear_live_path, entry_directories,
    plan_activation, verify_config_directory, verify_data_directory, ActivationError,
    ActivationProbe, ClearAction, DirProbe,
};
use ncm::configs::RegistryError;
use ncm::{ConfigData, Configs, EnvValues, EnvVariables, Platform, Settings};

fn probe(exists: bool, lua: bool, vim: bool) -> DirProbe {
    DirProbe { exists, has_init_lua: lua, has_init_vim: vim }
}

fn settings() -> Settings {
    let mut s = Settings::new(&EnvVariables::new(Platform::Posix), Platform::Posix);
    let env = EnvValues {
        home: Some("/h".to_string()),
        xdg_data_home: None,
        xdg_cache_home: None,
        xdg_state_home: None,
        app_data_local: None,
        xdg_config_home: None,
    };
    s.get_paths(&env).unwrap();
    s
}

#[test]
fn nvim_presence_needs_a_marker() {
    assert!(check_for_nvim(&probe(true, true, false)));
    assert!(check_for_nvim(&probe(true, false, true)));
    assert!(!check_for_nvim(&probe(true, false, false)));
    assert!(!check_for_nvim(&probe(false, true, true)));
}

#[test]
fn config_directory_checks() {
    let ok = probe(true, true, false);
    assert!(verify_config_directory(Platform::Posix, "/h/.config/nvim", &ok, false).is_ok());
    assert!(verify_config_directory(Platform::Posix, "/h/.config/other", &ok, false).is_ok());
    assert_eq!(
        verify_config_directory(Platform::Posix, "/h/elsewhere/other", &ok, false),
        Err(ActivationError::ConfigVerification)
    );
    assert_eq!(
        verify_config_directory(Platform::Posix, "/h/.config/nvim", &probe(true, false, false), false),
        Err(ActivationError::ConfigVerification)
    );
    assert!(verify_config_directory(Platform::Windows, "C:\\L\\nvim-ncm-data\\x", &ok, false).is_ok());
}

#[test]
fn data_directory_checks() {
    let live = "/h/.local/share/nvim";
    assert!(verify_data_directory(Platform::Posix, live, true, "/h/.local/share/nvim-ncm/main", "main", false).is_ok());
    assert!(verify_data_directory(Platform::Posix, live, true, "/x/nvim-ncm/other", "main", false).is_ok());
    assert_eq!(
        verify_data_directory(Platform::Posix, live, false, "/d/main", "main", false),
        Err(ActivationError::DataVerification)
    );
    assert_eq!(
        verify_data_directory(Platform::Posix, "/h/somewhere/else", true, "/d/main", "main", false),
        Err(ActivationError::DataVerification)
    );
    assert_eq!(
        verify_data_directory(Platform::Posix, live, true, "/d/other", "main", false),
        Err(ActivationError::DataVerification)
    );
}

#[test]
fn cache_path_checks() {
    assert!(_verify_cache_path(Platform::Posix, "/h/.cache/nvim", true, "/c/main", "main").is_ok());
    assert_eq!(
        _verify_cache_path(Platform::Posix, "/h/.cache/nvim", false, "/c/main", "main"),
        Err(ActivationError::CacheVerification)
    );
    assert_eq!(
        _verify_cache_path(Platform::Posix, "/h/.cache/nvim", true, "/c/x", "main"),
        Err(ActivationError::CacheVerification)
    );
}

#[test]
fn add_config_puts_data_under_its_name() {
    let mut configs = Configs::empty();
    let e = add_config(
        &mut configs,
        Platform::Posix,
        "lazy",
        "/src/lazy",
        &Some("d".to_string()),
        &Some("/h/.local/share/nvim-ncm".to_string()),
        &Some("/h/.cache/nvim-ncm".to_string()),
    )
    .unwrap();
    assert_eq!(e.data_path.as_deref(), Some("/h/.local/share/nvim-ncm/lazy"));
    assert_eq!(e.cache_path.as_deref(), Some("/h/.cache/nvim-ncm"));
    assert_eq!(configs.configs.len(), 1);
    let dirs = entry_directories(Platform::Posix, &e);
    assert_eq!(dirs, vec![
        "/h/.local/share/nvim-ncm/lazy/lazy".to_string(),
        "/h/.cache/nvim-ncm/lazy".to_string(),
    ]);
    assert_eq!(entry_directories(Platform::Windows, &e).len(), 1);
}

#[test]
fn add_config_without_data_root_fails() {
    let mut configs = Configs::empty();
    let r = add_config(&mut configs, Platform::Posix, "x", "/x", &None, &None, &None);
    assert_eq!(r.unwrap_err(), RegistryError::MissingDataPath);
    assert!(configs.configs.is_empty());
    let r = add_config(&mut configs, Platform::Posix, "x", "/x", &None, &Some("/d".to_string()), &None);
    assert_eq!(r.unwrap_err(), RegistryError::MissingCachePath);
    assert!(configs.configs.is_empty());
    let some = |s: &str| Some(s.to_string());
    assert!(add_config(&mut configs, Platform::Posix, "x", "/x", &None, &some("/d"), &some("/c")).is_ok());
    let r = add_config(&mut configs, Platform::Posix, "x", "/y", &None, &some("/d"), &some("/c"));
    assert_eq!(r.unwrap_err(), RegistryError::DuplicateName("x".to_string()));
    assert_eq!(configs.configs.len(), 1);
}

#[test]
fn activation_checks_each_link_on_its_own() {
    let s = settings();
    let entry = ConfigData {
        name: "main".to_string(),
        path: "/store/main".to_string(),
        description: None,
        data_path: Some("/h/.local/share/nvim-ncm/main".to_string()),
        cache_path: None,
    };
    let good = ActivationProbe { source: probe(true, true, false), live_data_exists: true };
    let plan = plan_activation(&s, &entry, &good);
    let config = plan.config.unwrap();
    assert_eq!(config.live, "/h/.config/nvim");
    assert_eq!(config.source, "/store/main");
    let data = plan.data.unwrap();
    assert_eq!(data.live, "/h/.local/share/nvim");
    assert_eq!(data.source, "/h/.local/share/nvim-ncm/main");

    let no_marker = ActivationProbe { source: probe(true, false, false), live_data_exists: true };
    let plan = plan_activation(&s, &entry, &no_marker);
    assert_eq!(plan.config.unwrap_err(), ActivationError::ConfigVerification);
    assert!(plan.data.is_ok());

    let bare = ConfigData { data_path: None, ..entry };
    let plan = plan_activation(&s, &bare, &good);
    assert!(plan.config.is_ok());
    assert_eq!(plan.data.unwrap_err(), ActivationError::MissingDataPath);
}

#[test]
fn live_path_clearing() {
    assert_eq!(clear_live_path(false, false), ClearAction::Nothing);
    assert_eq!(clear_live_path(true, true), ClearAction::RemoveDir);
    assert_eq!(clear_live_path(true, false), ClearAction::RemoveFile);
}
