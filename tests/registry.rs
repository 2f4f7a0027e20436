use ncm::configs::{
    add_config, find_config, load_configs, remove_config, set_default, RegistryError,
};
use ncm::{BackupInfo, ConfigData, Configs};

const DATA: &str = "/tmp/ncm_tmp/data";
const CACHE: &str = "/tmp/ncm_tmp/cache";

fn entry(name: &str, path: &str, description: &str, data: &str, cache: &str) -> ConfigData {
    ConfigData {
        name: name.to_string(),
        path: path.to_string(),
        description: Some(description.to_string()),
        data_path: Some(data.to_string()),
        cache_path: Some(cache.to_string()),
    }
}

fn test_data() -> Configs {
    let mut configs = Configs { configs: Vec::new(), configs_default: String::new() };
    configs.configs_default = "default".to_string();
    configs.configs.push(entry(
        "default",
        &format!("{DATA}/config_one"),
        "Default configuration",
        &format!("{DATA}/config_one_data"),
        &format!("{CACHE}/config_one_cache"),
    ));
    configs.configs.push(entry(
        "test",
        &format!("{DATA}/config_two"),
        "Test configuration",
        &format!("{DATA}/config_two_data"),
        &format!("{CACHE}/config_two_cache"),
    ));
    configs
}

#[test]
fn load_config_test() {
    let mut configs = test_data();
    let config = load_configs(&mut configs, "test");
    assert!(config.is_ok());
    let config = config.unwrap();
    assert_eq!(config.name, "test");
    assert_eq!(config.path, format!("{DATA}/config_two"));
    assert_eq!(config.cache_path.unwrap(), format!("{CACHE}/config_two_cache"));
    assert_eq!(configs.configs_default, "test");
}

#[test]
fn add_config_test() {
    let mut configs = test_data();
    let config = ConfigData {
        name: "test3".to_string(),
        path: format!("{DATA}/config_three"),
        description: Some("test3".to_string()),
        data_path: Some(format!("{DATA}/config_three")),
        cache_path: Some(format!("{DATA}/config_three")),
    };
    let result = add_config(&mut configs, config);
    assert!(result.is_ok());
    assert_eq!(configs.configs.len(), 3);
    assert_eq!(configs.configs[2].name, "test3");
    assert_eq!(configs.configs[2].path, format!("{DATA}/config_three"));
}

#[test]
fn remove_config_test() {
    let mut configs = test_data();
    remove_config(&mut configs, "default");
    assert_eq!(configs.configs.len(), 1);
    assert_eq!(configs.configs[0].name, "test");
    assert_eq!(configs.configs[0].path, format!("{DATA}/config_two"));
}

#[test]
fn added_entry_is_listed_once() {
    let mut configs = test_data();
    let e = entry("fresh", "/cfg/fresh", "a fresh one", "/d", "/c");
    assert!(add_config(&mut configs, e).is_ok());
    let found: Vec<&ConfigData> = configs.configs.iter().filter(|c| c.name == "fresh").collect();
    assert_eq!(found.len(), 1);
    assert_eq!(found[0].path, "/cfg/fresh");
    assert_eq!(found[0].description.as_deref(), Some("a fresh one"));
}

#[test]
fn adding_a_taken_name_fails_and_changes_nothing() {
    let mut configs = test_data();
    let e = entry("test", "/elsewhere", "dup", "/d", "/c");
    let r = add_config(&mut configs, e);
    assert_eq!(r, Err(RegistryError::DuplicateName("test".to_string())));
    assert_eq!(configs.configs.len(), 2);
    assert_eq!(configs.configs[1].path, format!("{DATA}/config_two"));
}

#[test]
fn remove_twice_equals_remove_once() {
    let mut once = test_data();
    remove_config(&mut once, "test");
    let mut twice = test_data();
    remove_config(&mut twice, "test");
    remove_config(&mut twice, "test");
    assert_eq!(once.configs.len(), twice.configs.len());
    assert_eq!(once.configs[0].name, twice.configs[0].name);
    assert_eq!(once.configs_default, twice.configs_default);
}

#[test]
fn remove_missing_name_is_a_no_op() {
    let mut configs = test_data();
    remove_config(&mut configs, "absent");
    assert_eq!(configs.configs.len(), 2);
    assert_eq!(configs.configs_default, "default");
}

#[test]
fn remove_keeps_a_dangling_default() {
    let mut configs = test_data();
    remove_config(&mut configs, "default");
    assert_eq!(configs.configs_default, "default");
    let r = load_configs(&mut configs, "");
    assert_eq!(r.unwrap_err(), RegistryError::NotFound("default".to_string()));
}

#[test]
fn load_empty_name_uses_default_and_keeps_it() {
    let mut configs = test_data();
    configs.configs_default = "test".to_string();
    let e = load_configs(&mut configs, "").unwrap();
    assert_eq!(e.name, "test");
    assert_eq!(configs.configs_default, "test");
}

#[test]
fn load_other_name_makes_it_default() {
    let mut configs = test_data();
    configs.configs_default = "test".to_string();
    let e = load_configs(&mut configs, "default").unwrap();
    assert_eq!(e.name, "default");
    assert_eq!(configs.configs_default, "default");
}

#[test]
fn load_unknown_name_fails_and_keeps_default() {
    let mut configs = test_data();
    let r = load_configs(&mut configs, "nope");
    assert_eq!(r.unwrap_err(), RegistryError::NotFound("nope".to_string()));
    assert_eq!(configs.configs_default, "default");
}

#[test]
fn load_with_no_default_fails() {
    let mut configs = test_data();
    configs.configs_default = String::new();
    let r = load_configs(&mut configs, "");
    assert_eq!(r.unwrap_err(), RegistryError::NotFound(String::new()));
}

#[test]
fn load_then_reread_registry_document_shows_new_default() {
    let text = r#"{"default":"default","configs":[{"name":"default","path":"/a"},{"name":"test","path":"/b"}]}"#;
    let doc: serde_json::Value = serde_json::from_str(text).unwrap();
    let mut configs = Configs::empty();
    configs.configs_default = doc["default"].as_str().unwrap().to_string();
    for c in doc["configs"].as_array().unwrap() {
        configs.configs.push(ConfigData {
            name: c["name"].as_str().unwrap().to_string(),
            path: c["path"].as_str().unwrap().to_string(),
            description: None,
            data_path: None,
            cache_path: None,
        });
    }
    let e = load_configs(&mut configs, "test").unwrap();
    assert_eq!(e.path, "/b");
    let mut out = serde_json::Map::new();
    out.insert("default".to_string(), serde_json::Value::String(configs.configs_default.clone()));
    let written = serde_json::Value::Object(out).to_string();
    let reread: serde_json::Value = serde_json::from_str(&written).unwrap();
    assert_eq!(reread["default"], "test");
}

#[test]
fn find_config_returns_first_match() {
    let mut configs = test_data();
    configs.configs.push(entry("test", "/second", "again", "/d", "/c"));
    let e = find_config(&configs.configs, "test").unwrap();
    assert_eq!(e.path, format!("{DATA}/config_two"));
    assert!(find_config(&configs.configs, "zzz").is_err());
}

#[test]
fn set_default_known_and_unknown() {
    let mut configs = test_data();
    assert!(set_default(&mut configs, "test").is_ok());
    assert_eq!(configs.configs_default, "test");
    let r = set_default(&mut configs, "ghost");
    assert_eq!(r, Err(RegistryError::NotFound("ghost".to_string())));
    assert_eq!(configs.configs_default, "test");
}

#[test]
fn empty_registry_and_backup_info() {
    let c = Configs::empty();
    assert!(c.configs.is_empty());
    assert!(c.configs_default.is_empty());
    let b = BackupInfo::new();
    assert!(b.name.is_empty() && b.path.is_empty());
}

#[test]
fn duplicate_copies_every_field() {
    let e = entry("n", "/p", "d", "/dp", "/cp");
    let c = e.duplicate();
    assert_eq!(c.name, "n");
    assert_eq!(c.path, "/p");
    assert_eq!(c.description.as_deref(), Some("d"));
    assert_eq!(c.data_path.as_deref(), Some("/dp"));
    assert_eq!(c.cache_path.as_deref(), Some("/cp"));
}
