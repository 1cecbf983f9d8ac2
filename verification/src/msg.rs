//! User-visible copy, as the message to show rather than its rendered text:
//! each variant is one catalogue message and carries the values its
//! placeables take. The application renders a `Msg` through its catalogue
//! in the user's language; counts stay integers so plural selection works.
use vstd::prelude::*;
use crate::model::Failure;

verus! {

#[allow(inconsistent_fields)]
#[derive(Clone, Debug, PartialEq, Eq)]
pub enum Msg {
    /// Text that is data rather than copy (a name, a path, an error the
    /// backend reported), shown as it is.
    Raw(String),

    NavDashboard,
    NavContainers,
    NavImages,
    NavPackages,
    NavUpdates,
    NavBackups,
    NavActivity,
    NavApps,
    NavSettings,
    NavStats,

    ActivityStateRunning,
    ActivityStateSuccess,
    ActivityStateFailed,
    ActivityTimeJustNow,
    ActivityTimeMinutes { count: u64 },
    ActivityTimeHours { count: u64 },
    ActivityTimeDays { count: u64 },
    ActivityEmptyTitle,
    ActivityEmptyBody,
    ActivityEmptyMatchTitle,
    ActivityEmptyMatchBody,

    DashNoContainers,
    DashRowsUnreadableTitle { count: usize },
    DashRowsUnreadableBody { count: usize },
    DashAllRowsFailed { count: usize },
    DashNoContainersConfigured,
    DashStatusRunning { running: usize, total: usize },
    DashPreviewEmptyTitle,
    DashPreviewEmptyBody,
    DashPreviewUnreadableTitle,
    DashSkippedRows { count: usize },
    DashEnvBlockedTitle,
    DashDistroboxMissingTitle,
    DashDistroboxMissingBody,

    AppsEmptyNoAppsTitle,
    AppsEmptyNoMatchTitle,

    PleaseSelectAnImage,
    HostPathRequired,
    ContainerPathRequired,
    PleaseEnterContainerName,
    InvalidContainerName { error: String },
    CouldNotStartCreation { error: Failure },

    /// The backend's refusal in a blocked environment.
    BlockedEnvironment,
    /// A command that exited with an error, and what it printed.
    CommandFailed { command: String, stderr: String },
    VersionUnknown,

    ActionFailed { error: Failure },
    ContainerStopped { name: String },
    ContainerStarted { name: String },
    ContainerDeleted { name: String },
    AllContainersStopped,
    AllContainersDeleted { count: usize },
    ContainersDeletedPartial { done: usize, total: usize, failures: String },
    DeleteContainerTitle,
    ConfirmDeleteContainer { name: String },
    DeleteLabel,
    NoRunningToStop,
    StopAllContainersTitle,
    ConfirmStopAll { count: usize },
    StopAllLabel,
    NoRunningToUpgrade,
    UpgradeAllContainersTitle,
    ConfirmUpgradeAll { count: usize },
    UpgradeAllLabel,
    LabelUpgrade { name: String },
    UpgradingContainer { name: String },
    CloneNameInvalid { name: String },
    LabelClone { name: String },
    CloningContainer { source: String, name: String },
    CopiedToClipboard { what: String },

    BinaryPathRequired,
    BinaryExported { path: String },
    ApplicationExported,
    ApplicationUnexported,
    CustomImageUrlFirst,

    CouldNotStart { label: String, error: Failure },
    /// A task failed; `None` when its mirror entry is gone (the copy then
    /// names it generically).
    TaskFailed { label: Option<String> },

    SnapshotDeleted,
    CouldNotDeleteSnapshot { error: Failure },
    SelectContainerFirst,
    SnapshotNameRequired,
    SnapshotCreated,
    CouldNotCreateSnapshot { error: Failure },
    DeleteSnapshotTitle,
    ConfirmDeleteSnapshot { name: String },
    NewContainerNameRequired,
    LabelRestore { snapshot: String, name: String },
    OutputPathRequired,
    LabelExport { container: String, path: String },
    ArchiveAndImageRequired,
    LabelImport { path: String, image: String },

    NoTerminalAvailable,
    LaunchedTerminal { terminal: String, container: String },
    CouldNotLaunchTerminal { error: Failure },
    LaunchFailed { error: Failure },

    CouldNotReadVersion { error: Failure },
    DataRefreshed,
    CompletedTasksCleared,
    DeleteAllContainersTitle,
    ConfirmDeleteAllContainers,
    DeleteAllLabel,
    CouldNotOpen { url: String, error: Failure },
    ImportedSettings,
    SettingsNoPersist,

    SearchFailed { error: Failure },
    RemovePackageTitle,
    ConfirmRemovePackage { package: String, container: String },
    RemoveLabel,
    UpgradeAllPackagesTitle,
    ConfirmUpgradePackages { container: String },
    ManualCommandsPending,
    InstallPackageTitle,
    ConfirmInstallPackage { package: String, container: String },
    InstallLabel,
    LabelInstall { package: String, container: String },
    LabelRemovePackage { package: String, container: String },
    LabelCreate { name: String },
}

} // verus!
