use ncm::commands::DirProbe;
use ncm::configs::RegistryError;
use ncm::setup::{
    backup_selected, check_setup, initiate_backup, step, SetupAction, SetupEvent, SetupFailure,
    SetupStart, SetupState,
};
use ncm::{BackupInfo, ConfigData, Configs, EnvValues, EnvVariables, Platform, Settings};

fn settings() -> Settings {
    let mut s = Settings::new(&EnvVariables::new(Platform::Posix), Platform::Posix);
    let env = EnvValues {
        home: Some("/h".to_string()),
        xdg_data_home: None,
        xdg_cache_home: None,
        xdg_state_home: None,
        app_data_local: None,
        xdg_config_home: None,
    };
    s.get_paths(&env).unwrap();
    s
}

#[test]
fn setup_runs_only_on_a_plain_unconfigured_tree() {
    let present = DirProbe { exists: true, has_init_lua: true, has_init_vim: false };
    let absent = DirProbe { exists: false, has_init_lua: false, has_init_vim: false };
    assert_eq!(check_setup(&absent, false, false), SetupStart::NvimMissing);
    assert_eq!(check_setup(&present, false, false), SetupStart::NeedsSetup);
    assert_eq!(check_setup(&present, true, false), SetupStart::Ready);
    assert_eq!(check_setup(&present, false, true), SetupStart::Ready);
}

#[test]
fn setup_walks_every_state_to_completion() {
    let s = settings();
    let (st, act) = step(&s, SetupState::AwaitingConfirmation, SetupEvent::Confirmed(true));
    assert!(matches!(st, SetupState::AwaitingLocation));
    match act {
        SetupAction::PromptLocation { default_root, default_name } => {
            assert_eq!(default_root, "/h/.config/nvim-ncm");
            assert_eq!(default_name, "main");
        }
        other => panic!("unexpected {other:?}"),
    }
    let loc = SetupEvent::Location(BackupInfo { name: "main".to_string(), path: "/store".to_string() });
    let (st, act) = step(&s, st, loc);
    match act {
        SetupAction::Backup { source, archive_dir, archive } => {
            assert_eq!(source, "/h/.config/nvim");
            assert_eq!(archive_dir, "/h/.config/ncm-rs/backups");
            assert_eq!(archive, "/h/.config/ncm-rs/backups/main.zip");
        }
        other => panic!("unexpected {other:?}"),
    }
    let (st, act) = step(&s, st, SetupEvent::BackedUp(true));
    match act {
        SetupAction::Relocate { moved, renamed, data_from, data_to, atomic, .. } => {
            assert_eq!(moved, "/store/nvim");
            assert_eq!(renamed, "/store/main");
            assert_eq!(data_from, "/h/.local/share/nvim");
            assert_eq!(data_to, "/h/.local/share/nvim-ncm/main");
            assert!(atomic);
        }
        other => panic!("unexpected {other:?}"),
    }
    let (st, act) = step(&s, st, SetupEvent::Relocated { ok: true, has_marker: true });
    match act {
        SetupAction::Register(e) => {
            assert_eq!(e.name, "main");
            assert_eq!(e.path, "/store/main");
            assert_eq!(e.description.as_deref(), Some("Main Config"));
            assert_eq!(e.cache_path.as_deref(), Some("/h/.cache/nvim-ncm"));
        }
        other => panic!("unexpected {other:?}"),
    }
    let (st, act) = step(&s, st, SetupEvent::Registered(true));
    assert!(matches!(act, SetupAction::Activate { ref name } if name == "main"));
    let (st, act) = step(&s, st, SetupEvent::Activated(true));
    assert!(matches!(st, SetupState::Complete));
    assert!(matches!(act, SetupAction::PersistComplete));
}

#[test]
fn setup_stops_on_each_failure() {
    let s = settings();
    let (st, act) = step(&s, SetupState::AwaitingConfirmation, SetupEvent::Confirmed(false));
    assert!(matches!(st, SetupState::Aborted(SetupFailure::Declined)));
    assert!(matches!(act, SetupAction::Report(SetupFailure::Declined)));
    let info = || BackupInfo { name: "n".to_string(), path: "/r".to_string() };
    let backing = || SetupState::BackingUp(info());
    let relocating = || SetupState::Relocating(info());
    let (st, _) = step(&s, backing(), SetupEvent::BackedUp(false));
    assert!(matches!(st, SetupState::Aborted(SetupFailure::BackupFailed)));
    let (st, _) = step(&s, relocating(), SetupEvent::Relocated { ok: false, has_marker: true });
    assert!(matches!(st, SetupState::Aborted(SetupFailure::RelocateFailed)));
    let (st, _) = step(&s, relocating(), SetupEvent::Relocated { ok: true, has_marker: false });
    assert!(matches!(st, SetupState::Aborted(SetupFailure::MarkerMissing)));
    let reg = SetupState::Registering(info());
    let (st, _) = step(&s, reg, SetupEvent::Registered(false));
    assert!(matches!(st, SetupState::Aborted(SetupFailure::RegisterFailed)));
    let act_state = SetupState::Activating { name: "n".to_string() };
    let (st, act) = step(&s, act_state, SetupEvent::Activated(false));
    assert!(matches!(st, SetupState::Aborted(SetupFailure::ActivateFailed)));
    assert!(!matches!(act, SetupAction::PersistComplete));
    let (st, _) = step(&s, backing(), SetupEvent::Confirmed(true));
    assert!(matches!(st, SetupState::Aborted(SetupFailure::OutOfOrder)));
}

#[test]
fn backups_for_one_or_all() {
    let s = settings();
    let mut configs = Configs::empty();
    for (n, p) in [("one", "/c/one"), ("two", "/c/two")] {
        configs.configs.push(ConfigData {
            name: n.to_string(),
            path: p.to_string(),
            description: None,
            data_path: None,
            cache_path: None,
        });
    }
    let job = backup_selected(&s, &configs, "two");
    assert_eq!(job.source.as_deref(), Some("/c/two"));
    assert_eq!(job.archive, "/h/.config/ncm-rs/backups/two.zip");
    assert!(backup_selected(&s, &configs, "zzz").source.is_none());
    let all = initiate_backup(&s, &configs, "all");
    assert_eq!(all.len(), 2);
    assert_eq!(all[0].name, "one");
    assert_eq!(all[1].archive, "/h/.config/ncm-rs/backups/two.zip");
    assert_eq!(initiate_backup(&s, &configs, "one").len(), 1);
    configs.configs.push(ConfigData {
        name: "one".to_string(),
        path: "/c/one-again".to_string(),
        description: None,
        data_path: None,
        cache_path: None,
    });
    assert_eq!(backup_selected(&s, &configs, "one").source.as_deref(), Some("/c/one-again"));
    let _ = RegistryError::MissingDataPath;
}
