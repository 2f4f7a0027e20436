//! First-run setup as a state machine, and the planning of backups.
//! The caller performs each action and feeds back what came of it.

use vstd::prelude::*;
use crate::commands::{check_for_nvim, has_marker, DirProbe};
use crate::configs::{last_index, last_position_of, BackupInfo, ConfigData, Configs};
use crate::constants::{BACKUPS, DEFAULT_CONFIG_DESC, MAIN, NVIM, SELECT_ALL, ZIP};
use crate::pathname::{join, joined, Platform};
use crate::settings::Settings;

verus! {

/// Where the editor's installation stands before setup.
#[derive(Clone, Copy, Debug, PartialEq, Eq, Structural)]
pub enum SetupStart {
    /// No config tree with an initializer file is at the live path.
    NvimMissing,
    /// The live path is a link already, or setup finished before.
    Ready,
    /// Setup is to run, starting with a confirmation.
    NeedsSetup,
}

/// Why setup stopped.
#[derive(Clone, Copy, Debug, PartialEq, Eq, Structural)]
pub enum SetupFailure {
    Declined,
    BackupFailed,
    RelocateFailed,
    MarkerMissing,
    RegisterFailed,
    ActivateFailed,
    /// An event came that the current state does not expect.
    OutOfOrder,
}

#[derive(Debug)]
pub enum SetupState {
    AwaitingConfirmation,
    AwaitingLocation,
    /// The record holds where the tree goes (`path`) and its name.
    BackingUp(BackupInfo),
    Relocating(BackupInfo),
    Registering(BackupInfo),
    Activating { name: String },
    Complete,
    Aborted(SetupFailure),
}

#[derive(Debug)]
pub enum SetupEvent {
    /// The user's answer to the confirmation.
    Confirmed(bool),
    /// The directory to keep configurations in (`path`), and the name of this one.
    Location(BackupInfo),
    /// Whether the archive was written.
    BackedUp(bool),
    /// Whether the move succeeded, and whether the moved tree holds an initializer file.
    Relocated { ok: bool, has_marker: bool },
    /// Whether the entry was registered.
    Registered(bool),
    /// Whether the entry was activated.
    Activated(bool),
}

#[derive(Debug)]
pub enum SetupAction {
    /// Ask whether to go on.
    PromptConfirm,
    /// Ask for a directory and a name, offering these defaults.
    PromptLocation { default_root: String, default_name: String },
    /// Archive `source` into `archive`, creating `archive_dir`.
    Backup { source: String, archive_dir: String, archive: String },
    /// Move the tree at `config_from` into `config_into`, where it lands at
    /// `moved` and is renamed `renamed`; copy `data_from` into `data_to`
    /// leaving links out. `atomic`: move rather than copy.
    Relocate {
        config_from: String,
        config_into: String,
        moved: String,
        renamed: String,
        data_from: String,
        data_to: String,
        atomic: bool,
    },
    /// Add this entry to the registry.
    Register(ConfigData),
    /// Load the entry with this name.
    Activate { name: String },
    /// Record that setup finished.
    PersistComplete,
    /// Tell why setup stopped.
    Report(SetupFailure),
}

/// Decides whether setup runs: only where the tree is present, is no link,
/// and setup has not finished before.
pub fn check_setup(live: &DirProbe, live_is_symlink: bool, setup_complete: bool) -> (r: SetupStart)
    ensures
        !(live.exists && has_marker(*live)) ==> r == SetupStart::NvimMissing,
        live.exists && has_marker(*live) ==> (r == SetupStart::NeedsSetup <==> !live_is_symlink
            && !setup_complete),
        live.exists && has_marker(*live) ==> (r == SetupStart::Ready <==> live_is_symlink
            || setup_complete),
{
    if !check_for_nvim(live) {
        SetupStart::NvimMissing
    } else if !live_is_symlink && !setup_complete {
        SetupStart::NeedsSetup
    } else {
        SetupStart::Ready
    }
}

/// The file name of the archive of the configuration called `name`.
pub open spec fn archive_name(name: Seq<char>) -> Seq<char> {
    name + seq!['.'] + ZIP@
}

/// Where archives are kept.
pub open spec fn backups_dir(s: Settings) -> Seq<char> {
    joined(s.platform, s.ncm_cfg_path@, BACKUPS@)
}

fn archive_path(settings: &Settings, name: &str) -> (r: (String, String))
    ensures
        r.0@ == backups_dir(*settings),
        r.1@ == joined(settings.platform, backups_dir(*settings), archive_name(name@)),
{
    let dir = join(settings.platform, settings.ncm_cfg_path.as_str(), BACKUPS);
    let mut file = String::from_str(name);
    proof {
        reveal_strlit(".");
    }
    file.append(".");
    file.append(ZIP);
    assert(file@ =~= archive_name(name@));
    let path = join(settings.platform, dir.as_str(), file.as_str());
    (dir, path)
}

/// The entry that setup registers for the tree moved to `root` and named `name`.
pub open spec fn registered_entry(s: Settings, root: Seq<char>, name: Seq<char>, e: ConfigData) -> bool {
    &&& e.name@ == name
    &&& e.path@ == joined(s.platform, root, name)
    &&& e.description matches Some(d) && d@ == DEFAULT_CONFIG_DESC@
    &&& e.data_path matches Some(dp) && dp@ == joined(s.platform, s.ncm_paths.local@, name)
    &&& e.cache_path matches Some(cp) && cp@ == s.ncm_paths.cache@
}

/// One step of setup: the next state and the action to perform.
pub fn step(settings: &Settings, state: SetupState, event: SetupEvent) -> (r: (
    SetupState,
    SetupAction,
))
    ensures
        state is AwaitingConfirmation ==> (event == SetupEvent::Confirmed(false) ==> r.0
            == SetupState::Aborted(SetupFailure::Declined) && r.1 == SetupAction::Report(
            SetupFailure::Declined,
        )),
        state is AwaitingConfirmation ==> (event == SetupEvent::Confirmed(true) ==> r.0
            == SetupState::AwaitingLocation && (r.1 matches SetupAction::PromptLocation {
            default_root,
            default_name,
        } && default_root@ == settings.ncm_paths.config@ && default_name@ == MAIN@)),
        state is AwaitingLocation ==> (event matches SetupEvent::Location(info) ==> r.0
            == SetupState::BackingUp(info) && (r.1 matches SetupAction::Backup {
            source,
            archive_dir,
            archive,
        } && source@ == settings.nvim_path@ && archive_dir@ == backups_dir(*settings) && archive@
            == joined(settings.platform, backups_dir(*settings), archive_name(info.name@)))),
        state is BackingUp ==> (event == SetupEvent::BackedUp(false) ==> r.0 == SetupState::Aborted(
            SetupFailure::BackupFailed,
        ) && r.1 == SetupAction::Report(SetupFailure::BackupFailed)),
        state matches SetupState::BackingUp(info) ==> (event == SetupEvent::BackedUp(true) ==> r.0
            == SetupState::Relocating(info) && (r.1 matches SetupAction::Relocate {
            config_from,
            config_into,
            moved,
            renamed,
            data_from,
            data_to,
            atomic,
        } && config_from@ == settings.nvim_path@ && config_into@ == info.path@ && moved@ == joined(
            settings.platform,
            info.path@,
            NVIM@,
        ) && renamed@ == joined(settings.platform, info.path@, info.name@) && data_from@
            == settings.nvim_paths.local@ && data_to@ == joined(
            settings.platform,
            settings.ncm_paths.local@,
            info.name@,
        ) && atomic == (settings.platform == Platform::Posix))),
        state is Relocating ==> (event matches SetupEvent::Relocated { ok, .. } ==> (!ok ==> r.0
            == SetupState::Aborted(SetupFailure::RelocateFailed) && r.1 == SetupAction::Report(
            SetupFailure::RelocateFailed,
        ))),
        state is Relocating ==> (event == (SetupEvent::Relocated { ok: true, has_marker: false })
            ==> r.0 == SetupState::Aborted(SetupFailure::MarkerMissing) && r.1
            == SetupAction::Report(SetupFailure::MarkerMissing)),
        state matches SetupState::Relocating(info) ==> (event == (SetupEvent::Relocated {
            ok: true,
            has_marker: true,
        }) ==> r.0 == SetupState::Registering(info) && (r.1 matches SetupAction::Register(e)
            && registered_entry(*settings, info.path@, info.name@, e))),
        state is Registering ==> (event == SetupEvent::Registered(false) ==> r.0
            == SetupState::Aborted(SetupFailure::RegisterFailed) && r.1 == SetupAction::Report(
            SetupFailure::RegisterFailed,
        )),
        state matches SetupState::Registering(info) ==> (event == SetupEvent::Registered(true) ==> r.0
            == (SetupState::Activating { name: info.name }) && r.1 == (SetupAction::Activate {
            name: info.name,
        })),
        state is Activating ==> (event == SetupEvent::Activated(false) ==> r.0
            == SetupState::Aborted(SetupFailure::ActivateFailed) && r.1 == SetupAction::Report(
            SetupFailure::ActivateFailed,
        )),
        state is Activating ==> (event == SetupEvent::Activated(true) ==> r.0 == SetupState::Complete
            && r.1 == SetupAction::PersistComplete),
        r.1 == SetupAction::PersistComplete ==> state is Activating && event
            == SetupEvent::Activated(true),
        !expected(state, event) ==> r.0 == SetupState::Aborted(SetupFailure::OutOfOrder) && r.1
            == SetupAction::Report(SetupFailure::OutOfOrder),
{
    match (state, event) {
        (SetupState::AwaitingConfirmation, SetupEvent::Confirmed(yes)) => {
            if yes {
                (
                    SetupState::AwaitingLocation,
                    SetupAction::PromptLocation {
                        default_root: settings.ncm_paths.config.clone(),
                        default_name: String::from_str(MAIN),
                    },
                )
            } else {
                (
                    SetupState::Aborted(SetupFailure::Declined),
                    SetupAction::Report(SetupFailure::Declined),
                )
            }
        },
        (SetupState::AwaitingLocation, SetupEvent::Location(info)) => {
            let (archive_dir, archive) = archive_path(settings, info.name.as_str());
            (
                SetupState::BackingUp(info),
                SetupAction::Backup { source: settings.nvim_path.clone(), archive_dir, archive },
            )
        },
        (SetupState::BackingUp(info), SetupEvent::BackedUp(ok)) => {
            if !ok {
                return (
                    SetupState::Aborted(SetupFailure::BackupFailed),
                    SetupAction::Report(SetupFailure::BackupFailed),
                );
            }
            let p = settings.platform;
            let action = SetupAction::Relocate {
                config_from: settings.nvim_path.clone(),
                config_into: info.path.clone(),
                moved: join(p, info.path.as_str(), NVIM),
                renamed: join(p, info.path.as_str(), info.name.as_str()),
                data_from: settings.nvim_paths.local.clone(),
                data_to: join(p, settings.ncm_paths.local.as_str(), info.name.as_str()),
                atomic: matches!(p, Platform::Posix),
            };
            (SetupState::Relocating(info), action)
        },
        (SetupState::Relocating(info), SetupEvent::Relocated { ok, has_marker }) => {
            if !ok {
                return (
                    SetupState::Aborted(SetupFailure::RelocateFailed),
                    SetupAction::Report(SetupFailure::RelocateFailed),
                );
            }
            if !has_marker {
                return (
                    SetupState::Aborted(SetupFailure::MarkerMissing),
                    SetupAction::Report(SetupFailure::MarkerMissing),
                );
            }
            let p = settings.platform;
            let entry = ConfigData {
                name: info.name.clone(),
                path: join(p, info.path.as_str(), info.name.as_str()),
                description: Some(String::from_str(DEFAULT_CONFIG_DESC)),
                data_path: Some(join(p, settings.ncm_paths.local.as_str(), info.name.as_str())),
                cache_path: Some(settings.ncm_paths.cache.clone()),
            };
            (SetupState::Registering(info), SetupAction::Register(entry))
        },
        (SetupState::Registering(info), SetupEvent::Registered(ok)) => {
            if ok {
                let n = info.name.clone();
                (SetupState::Activating { name: info.name }, SetupAction::Activate { name: n })
            } else {
                (
                    SetupState::Aborted(SetupFailure::RegisterFailed),
                    SetupAction::Report(SetupFailure::RegisterFailed),
                )
            }
        },
        (SetupState::Activating { name: _ }, SetupEvent::Activated(ok)) => {
            if ok {
                (SetupState::Complete, SetupAction::PersistComplete)
            } else {
                (
                    SetupState::Aborted(SetupFailure::ActivateFailed),
                    SetupAction::Report(SetupFailure::ActivateFailed),
                )
            }
        },
        _ => (
            SetupState::Aborted(SetupFailure::OutOfOrder),
            SetupAction::Report(SetupFailure::OutOfOrder),
        ),
    }
}

/// The events that each state waits for.
pub open spec fn expected(state: SetupState, event: SetupEvent) -> bool {
    ||| (state matches SetupState::AwaitingConfirmation && event matches SetupEvent::Confirmed(_))
    ||| (state matches SetupState::AwaitingLocation && event matches SetupEvent::Location(_))
    ||| (state matches SetupState::BackingUp(_) && event matches SetupEvent::BackedUp(_))
    ||| (state matches SetupState::Relocating(_) && event matches SetupEvent::Relocated { .. })
    ||| (state matches SetupState::Registering(_) && event matches SetupEvent::Registered(_))
    ||| (state matches SetupState::Activating { .. } && event matches SetupEvent::Activated(_))
}

/// An archive to make of one registered configuration.
#[derive(Debug)]
pub struct BackupJob {
    pub name: String,
    /// The tree to archive; `None` where no entry has the name.
    pub source: Option<String>,
    pub archive_dir: String,
    pub archive: String,
}

/// The job that archives the configuration called `name`: where several
/// entries share the name, the last one's tree.
pub open spec fn job_for(settings: Settings, configs: Configs, name: Seq<char>, job: BackupJob) -> bool {
    &&& job.name@ == name
    &&& last_index(configs@.entries, name) >= 0 ==> (job.source matches Some(s) && s@
        == configs@.entries[last_index(configs@.entries, name)].path@)
    &&& last_index(configs@.entries, name) < 0 ==> job.source is None
    &&& job.archive_dir@ == backups_dir(settings)
    &&& job.archive@ == joined(settings.platform, backups_dir(settings), archive_name(name))
}

/// The archive job for the configuration called `name`.
pub fn backup_selected(settings: &Settings, configs: &Configs, name: &str) -> (r: BackupJob)
    ensures
        job_for(*settings, *configs, name@, r),
{
    let n = String::from_str(name);
    let source = match last_position_of(&configs.configs, &n) {
        Some(i) => Some(configs.configs[i].path.clone()),
        None => None,
    };
    let (archive_dir, archive) = archive_path(settings, name);
    BackupJob { name: n, source, archive_dir, archive }
}

/// The archive jobs for a choice: every entry, in order, for `all`, else
/// the entry called `choice`.
pub fn initiate_backup(settings: &Settings, configs: &Configs, choice: &str) -> (r: Vec<BackupJob>)
    ensures
        choice@ == SELECT_ALL@ ==> r@.len() == configs@.entries.len() && forall|i: int|
            0 <= i < r@.len() ==> job_for(
                *settings,
                *configs,
                configs@.entries[i].name@,
                #[trigger] r@[i],
            ),
        choice@ != SELECT_ALL@ ==> r@.len() == 1 && job_for(*settings, *configs, choice@, r@[0]),
{
    let mut jobs: Vec<BackupJob> = Vec::new();
    let all = String::from_str(SELECT_ALL);
    if String::from_str(choice) == all {
        let mut i: usize = 0;
        while i < configs.configs.len()
            invariant
                i <= configs.configs.len(),
                jobs@.len() == i,
                forall|k: int|
                    0 <= k < i ==> job_for(
                        *settings,
                        *configs,
                        configs@.entries[k].name@,
                        #[trigger] jobs@[k],
                    ),
            decreases configs.configs.len() - i,
        {
            jobs.push(backup_selected(settings, configs, configs.configs[i].name.as_str()));
            i = i + 1;
        }
    } else {
        jobs.push(backup_selected(settings, configs, choice));
    }
    jobs
}

} // verus!
