//! The user actions and backend replies the pages react to, the shared
//! confirm-dialog spec, and the derived counts the pages read.
use vstd::prelude::*;
use crate::model::{
    AppConfig, AppInfo, ContainerInfo, ContainerList, EnvGuard, EnvMode, ExportedBinary, Failure,
    PackageInfo, PackageManager, SnapshotInfo, TaskId,
};
use crate::activity::ActivityFilter;
use crate::tasks::TaskKind;
use crate::views::Page;
use crate::msg::Msg;

verus! {

/// Everything the application reacts to: a user action or a backend reply.
/// `S` is the container-usage snapshot the Stats page shows; the logic only
/// stores and drops it.
#[derive(Debug)]
pub enum Message<S> {
    NavSelect(Page),
    Containers(ContainerMsg),
    Details(DetailsMsg),
    Dialog(DialogMsg),
    Wizard(WizardMsg),
    Images(ImageMsg),
    Packages(PackagesMsg),
    Updates(UpdatesMsg),
    Terminal(TerminalMsg),
    Apps(AppMsg),
    Stats(StatsMsg<S>),
    Tasks(TaskMsg),
    Env(EnvMsg),
    Ui(UiMsg),
    Backups(BackupsMsg),
    Activity(ActivityMsg),
    Settings(SettingsMsg),
}

/// The container list and the short container mutations.
#[derive(Debug)]
pub enum ContainerMsg {
    RefreshRequested,
    Loaded(Result<ContainerList, Failure>),
    Selected(Option<ContainerInfo>),
    /// A short mutation finished: the message to toast, or why it failed.
    ActionFinished(Result<Msg, Failure>),
    StopRequested(String),
    RemoveRequested(String),
    StopAllRequested,
    /// Upgrade the named container. `label` is the rendered text the upgrade
    /// task is labelled with: an unfinished task with that label means an
    /// upgrade of the container is already running.
    UpgradeRequested { name: String, label: String },
    StartRequested(String),
    ViewAllRequested,
    NewContainerRequested,
    UpgradeAllRequested,
}

/// The details page pushed over the Containers page.
#[derive(Debug)]
pub enum DetailsMsg {
    OpenRequested(ContainerInfo),
    Closed,
    StopRequested(String),
    RemoveRequested(String),
    /// As `ContainerMsg::UpgradeRequested`.
    UpgradeRequested { name: String, label: String },
    CloneRequested(String),
    CloneNameChanged(String),
    CloneConfirmed { source: String, name: String },
    CopyImageRequested(String),
    AppsRequested(String),
    TerminalRequested(String),
}

/// The Apps page and the per-container app mirrors.
#[derive(Debug)]
pub enum AppMsg {
    Loaded(String, Result<Vec<AppInfo>, Failure>),
    BinariesLoaded(String, Result<Vec<ExportedBinary>, Failure>),
    SearchChanged(String),
    BinaryDialogRequested,
    BinaryDialogClosed,
    BinaryPathChanged(String),
    BinaryExportConfirmed,
    ReloadRequested(String),
    /// Export the desktop entry (second field) of the container (first).
    ExportRequested(String, String),
    UnexportRequested(String, String),
    ActionFinished(String, Result<Msg, Failure>),
}

/// The Images page.
#[derive(Debug)]
pub enum ImageMsg {
    LoadRequested,
    Loaded(Result<Vec<String>, Failure>),
    SearchChanged(String),
    CustomChanged(String),
    CustomSubmitted,
    DetailsRequested(String),
    DetailsClosed,
    CreateWithImage(String),
}

/// The Stats page.
#[derive(Debug)]
pub enum StatsMsg<S> {
    LoadRequested(String),
    Loaded(Result<S, Failure>),
}

/// The task lifecycle.
#[derive(Debug)]
pub enum TaskMsg {
    /// A task was asked to start: its id, or why it could not start. `at`
    /// is the application clock's reading, in seconds.
    Started { label: String, kind: TaskKind, at: u64, result: Result<TaskId, Failure> },
    Output { id: TaskId, lines: Vec<String> },
    Completed { id: TaskId, success: bool },
    CancelRequested(TaskId),
    /// The registry accepted a cancel.
    CancelAccepted(TaskId),
    Cancelled(TaskId),
    ClearCompleted,
    Expired(Vec<TaskId>),
    ExpiredTick,
}

/// The environment re-probe.
#[derive(Debug)]
pub enum EnvMsg {
    ReprobeRequested,
    Probed(EnvGuard),
}

/// Banner and clipboard feedback.
#[derive(Debug)]
pub enum UiMsg {
    DismissError,
    CopiedToClipboard(String),
}

/// The Backups page.
#[derive(Debug)]
pub enum BackupsMsg {
    ContainerSelected(usize),
    TabSelected(bool),
    DeleteFinished(Result<(), Failure>),
    ReloadRequested,
    SnapshotsLoaded(String, Result<Vec<SnapshotInfo>, Failure>),
    CreateDialogRequested,
    CreateNameChanged(String),
    CreateConfirmed,
    CreateFinished(Result<(), Failure>),
    DeleteRequested(String),
    RestoreDialogRequested(String),
    RestoreNameChanged(String),
    RestoreConfirmed,
    ExportDialogRequested,
    ExportPathChanged(String),
    ExportBrowseRequested,
    /// The save chooser's answer (`Err`: cancelled).
    ExportPathPicked(Result<String, String>),
    ExportConfirmed,
    ImportDialogRequested,
    ImportPathChanged(String),
    ImportImageChanged(String),
    ImportPathPicked(Result<String, String>),
    ImportBrowseRequested,
    ImportConfirmed,
    CloneDialogRequested,
    DialogCancelled,
}

/// The Packages page.
#[derive(Debug)]
pub enum PackagesMsg {
    ContainerSelected(usize),
    TabSelected(bool),
    QueryChanged(String),
    SearchSubmitted,
    SearchCleared,
    ReloadRequested(String),
    ManagerDetected(String, Result<PackageManager, Failure>),
    InstalledLoaded(String, Result<Vec<PackageInfo>, Failure>),
    SearchLoaded(Result<Vec<PackageInfo>, Failure>),
    InstallFromBox,
    InstallRequested(String),
    RemoveRequested(String),
    UpgradeAllRequested,
    ManualCmdChanged(String),
    ManualRunRequested,
}

/// The terminal page.
#[derive(Debug)]
pub enum TerminalMsg {
    OpenRequested(String),
    Closed,
    CommandReloadRequested(String),
    CommandLoaded(String, Result<Vec<String>, Failure>),
    CopyRequested(String),
    TerminalSelected(usize),
    LaunchRequested(String),
    /// The launch of `terminal` (its name) into `container` returned.
    Launched { terminal: String, container: String, result: Result<(), Failure> },
    LaunchFinished(Result<Msg, Failure>),
}

/// The Settings page and the preference store.
#[derive(Debug)]
pub enum SettingsMsg {
    VersionReloadRequested,
    VersionLoaded(Result<String, Failure>),
    RefreshAllRequested,
    StopAllRequested,
    UpgradeAllRequested,
    ClearCompleted,
    DeleteAllRequested,
    TerminalSelected(usize),
    ConfirmToggled(bool),
    ShowSkippedLinesToggled(bool),
    SnapshotPrefixChanged(String),
    ExportDirChanged(String),
    OpenUrl(String),
    /// Opening the link failed.
    UrlOpenFailed { url: String, error: Failure },
    /// The stored preferences changed outside the application.
    ConfigChanged(AppConfig),
    /// The one-time import of older settings answered: whether it found
    /// anything, and the loaded preferences with what it found applied.
    LegacyImported { found: bool, applied: AppConfig },
    /// Writing the preferences failed.
    SaveFailed,
}

/// The Activity page.
#[derive(Debug)]
pub enum ActivityMsg {
    SearchChanged(String),
    FilterSelected(ActivityFilter),
    Expanded(TaskId),
    DrawerClosed,
}

/// Single active modal: dismissed or confirmed.
#[derive(Clone, Copy, Debug, PartialEq, Eq, Structural)]
pub enum DialogMsg {
    Cancelled,
    Confirmed,
}

/// Shared confirm spec: title, consequence body, verb label, whether the
/// action is destructive, and the follow-up to run on confirm.
#[derive(Clone, Debug, PartialEq, Eq)]
pub struct ConfirmSpec {
    pub title: Msg,
    pub body: Msg,
    pub confirm_label: Msg,
    pub destructive: bool,
    pub action: ConfirmAction,
}

/// Follow-up for a confirmed dialog.
#[derive(Clone, Debug, PartialEq, Eq)]
pub enum ConfirmAction {
    RemoveContainer(String),
    StopAll,
    UpgradeAll,
    InstallPackage { container: String, package: String },
    RemovePackage { container: String, package: String },
    UpgradeContainer(String),
    DeleteSnapshot(String),
    DeleteAllContainers,
}

/// The Updates page's own messages (it reads shared state and needs none
/// today).
#[derive(Clone, Copy, Debug, PartialEq, Eq, Structural)]
pub enum UpdatesMsg {
    Noop,
}

/// Create-wizard messages: every control on the image, config and progress
/// steps.
#[derive(Clone, Debug, PartialEq, Eq)]
pub enum WizardMsg {
    Closed,
    ImageSelected(String),
    CustomChanged(String),
    SearchChanged(String),
    NextFromImage,
    NameChanged(String),
    InitToggled(bool),
    NvidiaToggled(bool),
    AdvancedToggled,
    HomeChanged(String),
    VolumeAddRequested,
    VolumeDialogHostChanged(String),
    VolumeDialogContainerChanged(String),
    VolumeDialogReadOnlyToggled(bool),
    VolumeDialogConfirmed,
    VolumeDialogCancelled,
    VolumeRemoved(usize),
    BackToImage,
    CreateRequested,
    ProgressCancelRequested,
    ProgressDone,
}

/// Number of running containers among `s`.
pub open spec fn running_in(s: Seq<ContainerInfo>) -> nat
    decreases s.len(),
{
    if s.len() == 0 {
        0
    } else {
        running_in(s.drop_last()) + if s.last().status is Up { 1nat } else { 0nat }
    }
}

/// No more containers run than there are.
pub proof fn lemma_running_in_bounded(s: Seq<ContainerInfo>)
    ensures
        running_in(s) <= s.len(),
    decreases s.len(),
{
    if s.len() > 0 {
        lemma_running_in_bounded(s.drop_last());
    }
}

/// Number of running containers.
pub fn running_count(containers: &[ContainerInfo]) -> (r: usize)
    ensures
        r == running_in(containers@),
{
    let mut n: usize = 0;
    let mut i: usize = 0;
    while i < containers.len()
        invariant
            i <= containers@.len(),
            n == running_in(containers@.take(i as int)),
            n <= i,
        decreases containers@.len() - i,
    {
        assert(containers@.take(i + 1).drop_last() =~= containers@.take(i as int));
        if crate::icons::is_running(&containers[i].status) {
            n += 1;
        }
        i += 1;
    }
    assert(containers@.take(containers@.len() as int) =~= containers@);
    n
}

/// Number of containers that are not running.
pub fn stopped_count(containers: &[ContainerInfo]) -> (r: usize)
    ensures
        r == containers@.len() - running_in(containers@),
        r + running_in(containers@) == containers@.len(),
{
    proof {
        lemma_running_in_bounded(containers@);
    }
    containers.len() - running_count(containers)
}

/// Whether the environment guard blocks all backend access.
pub fn is_blocked(env: &EnvGuard) -> (r: bool)
    ensures
        r == (env.mode == EnvMode::Blocked),
{
    match env.mode {
        EnvMode::Blocked => true,
        _ => false,
    }
}

} // verus!
