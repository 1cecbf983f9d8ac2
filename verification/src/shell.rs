//! The application's state and its decisions: what each message does to the
//! state, and which backend calls, toasts and clipboard writes follow. The
//! application performs the effects and feeds their answers back as
//! messages; nothing here waits on the backend.
use vstd::prelude::*;
use crate::activity::ActivityState;
use crate::backups::{BackupsState, backups_blank};
use crate::message::{ConfirmAction, ConfirmSpec};
use crate::model::{
    AppConfig, AppInfo, ContainerInfo, ContainerList, ExportedBinary, Failure, TaskId, Terminal,
};
use crate::msg::Msg;
use crate::packages::{PackagesState, packages_blank};
use crate::tasks::{TaskKind, TaskMirror, has_id};
use crate::terminal::{TerminalState, terminal_closed};
use crate::views::Page;
use crate::wizard::{CreateRequest, WizardState};

verus! {

/// The single modal slot.
#[derive(Clone, Debug, PartialEq, Eq)]
pub enum ActiveDialog {
    Confirm(ConfirmSpec),
    /// The clone dialog: the container to copy and the new name typed.
    Clone { source: String, name: String },
}

/// The per-domain spinners.
#[derive(Clone, Copy, Debug, PartialEq, Eq, Structural)]
pub struct Loading {
    pub containers: bool,
    pub images: bool,
    pub apps: bool,
    pub binaries: bool,
    pub stats: bool,
}

/// What the application reads from the backend before handing a message
/// over: whether the environment blocks all access (and the guard's own
/// words), whether distrobox is installed, the terminal table the pickers
/// index, the configured terminal resolved to its full command id, and
/// the cap on mirrored output lines.
#[derive(Clone, Debug, PartialEq, Eq)]
pub struct BackendView {
    pub blocked: bool,
    pub blocked_message: Option<String>,
    pub distrobox_installed: bool,
    pub terminals: Vec<Terminal>,
    pub configured_terminal: Option<String>,
    pub max_output_lines: usize,
}

/// A long-running backend operation, run as a task.
#[derive(Clone, Debug, PartialEq, Eq)]
pub enum Job {
    Upgrade(String),
    Clone { source: String, name: String },
    Restore { snapshot: String, name: String },
    Export { container: String, path: String },
    Import { path: String, image: String },
    Install { container: String, package: String },
    RemovePackage { container: String, package: String },
    Create(CreateRequest),
}

/// What the application does after a message. Loads answer with the
/// matching `Loaded` message; short mutations answer with `ActionFinished`
/// carrying `done` on success; spawns answer with `TaskMsg::Started`,
/// labelled with the rendered `label`.
#[derive(Clone, Debug, PartialEq, Eq)]
pub enum Effect {
    Toast(Msg),
    LoadContainers,
    LoadVersion,
    LoadImages,
    LoadApps(String),
    LoadBinaries(String),
    LoadStats(String),
    LoadSnapshots(String),
    DetectPackageManager(String),
    LoadInstalledPackages(String),
    SearchPackages { container: String, query: String },
    StopContainer { name: String, done: Msg },
    StartContainer { name: String, done: Msg },
    RemoveContainer { name: String, done: Msg },
    StopAllContainers { done: Msg },
    /// Remove each named container, then report with `deletion_report`.
    DeleteContainers(Vec<String>),
    ExportApp { container: String, desktop: String, done: Msg },
    UnexportApp { container: String, desktop: String, done: Msg },
    ExportBinary { container: String, path: String, done: Msg },
    CreateSnapshot { container: String, name: String },
    DeleteSnapshot(String),
    Spawn { kind: TaskKind, label: Msg, job: Job },
    /// Validate `name` as a container name, then answer `clone_name_checked`.
    CheckCloneName { source: String, name: String },
    /// Validate the request's name, then answer `create_name_checked`.
    CheckCreateName(CreateRequest),
    CopyToClipboard(String),
    Reprobe,
    LoadEnterCommand(String),
    LaunchTerminal { container: String, terminal: Terminal },
    OpenUrl(String),
    /// Persist the current preferences.
    SaveConfig,
    /// Hand the current preferences' custom terminals to the backend.
    SyncTerminals,
    ImportLegacy,
    CancelTask(TaskId),
    SweepExpired,
    PickExportPath,
    PickImportArchive,
}

/// The application's state. `S` is the container-usage snapshot.
pub struct Shell<S> {
    /// The active nav page.
    pub page: Page,
    /// The error banner.
    pub error: Option<Msg>,
    pub containers: ContainerList,
    pub selected_container: Option<String>,
    pub images: Vec<String>,
    pub images_error: Option<Msg>,
    pub apps_search: String,
    pub apps_binary_path: String,
    pub apps_binary_error: Option<Msg>,
    pub apps_error: Option<Msg>,
    pub apps_binary_dialog: bool,
    pub images_search: String,
    pub images_custom: String,
    pub image_details: Option<String>,
    /// The create wizard, when open (pushed over the Containers page).
    pub wizard: Option<WizardState>,
    pub packages: PackagesState,
    pub backups: BackupsState,
    pub activity: ActivityState,
    pub terminal: TerminalState,
    /// The preferences; `None` when the store is unavailable.
    pub config: Option<AppConfig>,
    /// The one-time import of older settings has not answered yet.
    pub legacy_import_pending: bool,
    pub distrobox_version: Msg,
    pub loading_version: bool,
    pub apps: Vec<AppInfo>,
    pub exported_binaries: Vec<ExportedBinary>,
    pub stats: Option<S>,
    pub stats_for: Option<String>,
    pub loading: Loading,
    pub tasks: TaskMirror,
    /// The details page, when open (pushed over the Containers page).
    pub details_for: Option<ContainerInfo>,
    pub dialog: Option<ActiveDialog>,
    /// Keys of the short mutations in flight; a second press is ignored.
    pub busy: Vec<String>,
}

/// The banner a blocked environment shows: the guard's own words.
pub open spec fn blocked_banner(bd: BackendView) -> Option<Msg> {
    match bd.blocked_message {
        Some(m) => Some(Msg::Raw(m)),
        None => None,
    }
}

/// The text a failure is shown with.
pub open spec fn failure_text(f: Failure) -> Msg {
    match f {
        Failure::BlockedEnvironment => Msg::BlockedEnvironment,
        Failure::CommandFailed { command, stderr } => Msg::CommandFailed { command, stderr },
        Failure::Other(s) => Msg::Raw(s),
    }
}

/// The text a failure is shown with.
pub fn error_text(f: &Failure) -> (r: Msg)
    ensures
        r == failure_text(*f),
{
    match f {
        Failure::BlockedEnvironment => Msg::BlockedEnvironment,
        Failure::CommandFailed { command, stderr } => Msg::CommandFailed {
            command: command.clone(),
            stderr: stderr.clone(),
        },
        Failure::Other(s) => Msg::Raw(s.clone()),
    }
}

pub(crate) fn banner_of(bd: &BackendView) -> (r: Option<Msg>)
    ensures
        r == blocked_banner(*bd),
{
    match &bd.blocked_message {
        Some(m) => Some(Msg::Raw(m.clone())),
        None => None,
    }
}

/// Whether a busy key is held.
pub open spec fn busy_has(busy: Seq<String>, key: Seq<char>) -> bool {
    exists|i: int| 0 <= i < busy.len() && busy[i]@ == key
}

/// `new` is `old` with `key` added at the end.
pub open spec fn busy_added(old: Seq<String>, new: Seq<String>, key: Seq<char>) -> bool {
    &&& new.len() == old.len() + 1
    &&& new.drop_last() == old
    &&& new.last()@ == key
}

/// The busy key of a container stop.
pub open spec fn stop_key(name: Seq<char>) -> Seq<char> {
    "stop:"@ + name
}

/// The busy key of a container start.
pub open spec fn start_key(name: Seq<char>) -> Seq<char> {
    "start:"@ + name
}

/// The busy key of a container removal.
pub open spec fn remove_key(name: Seq<char>) -> Seq<char> {
    "remove:"@ + name
}

/// The busy key of an app export.
pub open spec fn export_key(container: Seq<char>, desktop: Seq<char>) -> Seq<char> {
    "export:"@ + container + ":"@ + desktop
}

/// The busy key of an app unexport.
pub open spec fn unexport_key(container: Seq<char>, desktop: Seq<char>) -> Seq<char> {
    "unexport:"@ + container + ":"@ + desktop
}

/// The busy key of stop-all.
pub open spec fn stop_all_key() -> Seq<char> {
    "stop-all"@
}

/// The busy key of delete-all.
pub open spec fn delete_all_key() -> Seq<char> {
    "delete-all"@
}

/// A blocked environment refuses the operation: the banner shows the guard's
/// words and nothing else happens.
pub open spec fn refused<S>(old: Shell<S>, new: Shell<S>, bd: BackendView, r: Seq<Effect>) -> bool {
    &&& new == Shell { error: blocked_banner(bd), ..old }
    &&& r == Seq::<Effect>::empty()
}

/// A guarded short mutation: refused in a blocked environment, ignored
/// while its key is held, else the key is taken and `e` runs.
pub open spec fn guarded<S>(
    old: Shell<S>,
    new: Shell<S>,
    bd: BackendView,
    key: Seq<char>,
    e: Effect,
    r: Seq<Effect>,
) -> bool {
    if bd.blocked {
        refused(old, new, bd, r)
    } else if busy_has(old.busy@, key) {
        new == old && r == Seq::<Effect>::empty()
    } else {
        &&& busy_added(old.busy@, new.busy@, key)
        &&& new == Shell { busy: new.busy, ..old }
        &&& r == seq![e]
    }
}

/// Nothing changes and nothing follows.
pub open spec fn unchanged<S>(old: Shell<S>, new: Shell<S>, r: Seq<Effect>) -> bool {
    new == old && r == Seq::<Effect>::empty()
}

/// The destructive-confirm preference (on when the store is unavailable).
pub open spec fn confirms_enabled<S>(s: Shell<S>) -> bool {
    match s.config {
        Some(c) => c.confirm_destructive_actions,
        None => true,
    }
}

/// The running containers' names, in list order.
pub open spec fn running_names(s: Seq<ContainerInfo>) -> Seq<Seq<char>>
    decreases s.len(),
{
    if s.len() == 0 {
        Seq::empty()
    } else if s.last().status is Up {
        running_names(s.drop_last()).push(s.last().name@)
    } else {
        running_names(s.drop_last())
    }
}

/// The effect spawns the upgrade of the named container.
pub open spec fn upgrade_spawn_of(e: Effect, name: Seq<char>) -> bool {
    match e {
        Effect::Spawn { kind, label, job } => match job {
            Job::Upgrade(n) => kind == TaskKind::Upgrade && n@ == name && label == (
            Msg::LabelUpgrade { name: n }),
            _ => false,
        },
        _ => false,
    }
}

/// One upgrade spawn per name, in order.
pub open spec fn upgrade_spawns(names: Seq<Seq<char>>, r: Seq<Effect>) -> bool {
    &&& r.len() == names.len()
    &&& forall|i: int| 0 <= i < r.len() ==> upgrade_spawn_of(#[trigger] r[i], names[i])
}

/// The effect removes every listed container, in order.
pub open spec fn deletes_all(e: Effect, containers: Seq<ContainerInfo>) -> bool {
    match e {
        Effect::DeleteContainers(names) => names@.len() == containers.len() && forall|i: int|
            0 <= i < names@.len() ==> #[trigger] names@[i]@ == containers[i].name@,
        _ => false,
    }
}

/// What a confirmed action does.
pub open spec fn dispatch_post<S>(
    old: Shell<S>,
    new: Shell<S>,
    bd: BackendView,
    action: ConfirmAction,
    r: Seq<Effect>,
) -> bool {
    match action {
        ConfirmAction::RemoveContainer(name) => guarded(
            old,
            new,
            bd,
            remove_key(name@),
            Effect::RemoveContainer { name, done: Msg::ContainerDeleted { name } },
            r,
        ),
        ConfirmAction::StopAll => guarded(
            old,
            new,
            bd,
            stop_all_key(),
            Effect::StopAllContainers { done: Msg::AllContainersStopped },
            r,
        ),
        ConfirmAction::DeleteAllContainers => if bd.blocked {
            refused(old, new, bd, r)
        } else if busy_has(old.busy@, delete_all_key()) {
            unchanged(old, new, r)
        } else {
            &&& busy_added(old.busy@, new.busy@, delete_all_key())
            &&& new == Shell { busy: new.busy, ..old }
            &&& r.len() == 1
            &&& deletes_all(r[0], old.containers.containers@)
        },
        ConfirmAction::UpgradeAll => if bd.blocked {
            refused(old, new, bd, r)
        } else {
            new == old && upgrade_spawns(running_names(old.containers.containers@), r)
        },
        ConfirmAction::InstallPackage { container, package } => if bd.blocked {
            refused(old, new, bd, r)
        } else {
            new == old && r == seq![
                Effect::Spawn {
                    kind: TaskKind::Other,
                    label: Msg::LabelInstall { package, container },
                    job: Job::Install { container, package },
                },
            ]
        },
        ConfirmAction::RemovePackage { container, package } => if bd.blocked {
            refused(old, new, bd, r)
        } else {
            new == old && r == seq![
                Effect::Spawn {
                    kind: TaskKind::Other,
                    label: Msg::LabelRemovePackage { package, container },
                    job: Job::RemovePackage { container, package },
                },
            ]
        },
        ConfirmAction::DeleteSnapshot(id) => if bd.blocked {
            refused(old, new, bd, r)
        } else {
            new == old && r == seq![Effect::DeleteSnapshot(id)]
        },
        ConfirmAction::UpgradeContainer(container) => if bd.blocked {
            refused(old, new, bd, r)
        } else {
            new == old && r == seq![
                Effect::Spawn {
                    kind: TaskKind::Upgrade,
                    label: Msg::LabelUpgrade { name: container },
                    job: Job::Upgrade(container),
                },
            ]
        },
    }
}

/// The destructive-confirm gate: a destructive action with confirms turned
/// off runs at once (the dialog slot clears); anything else opens the
/// dialog.
pub open spec fn confirm_post<S>(
    old: Shell<S>,
    new: Shell<S>,
    bd: BackendView,
    spec: ConfirmSpec,
    r: Seq<Effect>,
) -> bool {
    if spec.destructive && !confirms_enabled(old) {
        dispatch_post(Shell { dialog: None, ..old }, new, bd, spec.action, r)
    } else {
        new == Shell { dialog: Some(ActiveDialog::Confirm(spec)), ..old } && r == Seq::<
            Effect,
        >::empty()
    }
}

pub(crate) fn one(e: Effect) -> (r: Vec<Effect>)
    ensures
        r@ == seq![e],
{
    let mut v: Vec<Effect> = Vec::new();
    v.push(e);
    v
}

pub(crate) fn two(a: Effect, b: Effect) -> (r: Vec<Effect>)
    ensures
        r@ == seq![a, b],
{
    let mut v: Vec<Effect> = Vec::new();
    v.push(a);
    v.push(b);
    v
}

pub(crate) fn three(a: Effect, b: Effect, c: Effect) -> (r: Vec<Effect>)
    ensures
        r@ == seq![a, b, c],
{
    let mut v: Vec<Effect> = Vec::new();
    v.push(a);
    v.push(b);
    v.push(c);
    v
}

pub(crate) fn key_of(prefix: &str, name: &str) -> (r: String)
    ensures
        r@ == prefix@ + name@,
{
    String::from_str(prefix).concat(name)
}

fn running_names_of(containers: &[ContainerInfo]) -> (r: Vec<String>)
    ensures
        r@.len() == running_names(containers@).len(),
        forall|i: int| 0 <= i < r@.len() ==> r@[i]@ == running_names(containers@)[i],
{
    let mut out: Vec<String> = Vec::new();
    let mut i: usize = 0;
    while i < containers.len()
        invariant
            i <= containers@.len(),
            out@.len() == running_names(containers@.take(i as int)).len(),
            forall|k: int|
                0 <= k < out@.len() ==> out@[k]@ == running_names(containers@.take(i as int))[k],
        decreases containers@.len() - i,
    {
        assert(containers@.take(i + 1).drop_last() =~= containers@.take(i as int));
        if crate::icons::is_running(&containers[i].status) {
            out.push(containers[i].name.clone());
        }
        i += 1;
    }
    assert(containers@.take(containers@.len() as int) =~= containers@);
    out
}

pub(crate) fn names_of(containers: &[ContainerInfo]) -> (r: Vec<String>)
    ensures
        r@.len() == containers@.len(),
        forall|i: int| 0 <= i < r@.len() ==> r@[i]@ == containers@[i].name@,
{
    let mut out: Vec<String> = Vec::new();
    let mut i: usize = 0;
    while i < containers.len()
        invariant
            i <= containers@.len(),
            out@.len() == i,
            forall|k: int| 0 <= k < i ==> out@[k]@ == containers@[k].name@,
        decreases containers@.len() - i,
    {
        out.push(containers[i].name.clone());
        i += 1;
    }
    out
}

/// The output drawer is closed, or open on a task the mirror holds.
pub open spec fn drawer_on_mirrored<S>(s: Shell<S>) -> bool {
    match s.activity.expanded {
        Some(id) => has_id(s.tasks@, id),
        None => true,
    }
}

impl<S> Shell<S> {
    /// The shell's invariant: the task mirror holds each id once, in id
    /// order, and the output drawer is open only on a mirrored task.
    pub open spec fn wf(&self) -> bool {
        &&& self.tasks.wf()
        &&& drawer_on_mirrored(*self)
    }

    /// Whether the busy key is held.
    pub(crate) fn busy_contains(&self, key: &str) -> (r: bool)
        ensures
            r == busy_has(self.busy@, key@),
    {
        let mut i: usize = 0;
        while i < self.busy.len()
            invariant
                i <= self.busy@.len(),
                forall|j: int| 0 <= j < i ==> self.busy@[j]@ != key@,
            decreases self.busy@.len() - i,
        {
            if crate::text::same_text(self.busy[i].as_str(), key) {
                return true;
            }
            i += 1;
        }
        false
    }

    /// Take a busy key: `false`, with nothing changed, when it is held.
    pub(crate) fn take_busy(&mut self, key: String) -> (r: bool)
        ensures
            r == !busy_has(old(self).busy@, key@),
            r ==> busy_added(old(self).busy@, final(self).busy@, key@) && *final(self) == (
            Shell { busy: final(self).busy, ..*old(self) }),
            !r ==> *final(self) == *old(self),
    {
        if self.busy_contains(key.as_str()) {
            false
        } else {
            self.busy.push(key);
            proof {
                assert(self.busy@.drop_last() =~= old(self).busy@);
            }
            true
        }
    }

    pub(crate) fn refuse(&mut self, bd: &BackendView) -> (r: Vec<Effect>)
        ensures
            refused(*old(self), *final(self), *bd, r@),
    {
        self.error = banner_of(bd);
        Vec::new()
    }

    pub(crate) fn run_guarded(&mut self, bd: &BackendView, key: String, e: Effect) -> (r: Vec<Effect>)
        ensures
            guarded(*old(self), *final(self), *bd, key@, e, r@),
    {
        if bd.blocked {
            return self.refuse(bd);
        }
        if self.take_busy(key) {
            one(e)
        } else {
            Vec::new()
        }
    }

    /// Run a confirmed action.
    pub fn dispatch_confirm_action(&mut self, action: ConfirmAction, bd: &BackendView) -> (r: Vec<
        Effect,
    >)
        ensures
            dispatch_post(*old(self), *final(self), *bd, action, r@),
    {
        match action {
            ConfirmAction::RemoveContainer(name) => {
                proof {
                    reveal_strlit("remove:");
                }
                let key = key_of("remove:", name.as_str());
                let done = Msg::ContainerDeleted { name: name.clone() };
                self.run_guarded(bd, key, Effect::RemoveContainer { name, done })
            },
            ConfirmAction::StopAll => {
                proof {
                    reveal_strlit("stop-all");
                }
                self.run_guarded(
                    bd,
                    String::from_str("stop-all"),
                    Effect::StopAllContainers { done: Msg::AllContainersStopped },
                )
            },
            ConfirmAction::DeleteAllContainers => {
                if bd.blocked {
                    return self.refuse(bd);
                }
                proof {
                    reveal_strlit("delete-all");
                }
                if !self.take_busy(String::from_str("delete-all")) {
                    return Vec::new();
                }
                let names = names_of(self.containers.containers.as_slice());
                one(Effect::DeleteContainers(names))
            },
            ConfirmAction::UpgradeAll => {
                if bd.blocked {
                    return self.refuse(bd);
                }
                let running = running_names_of(self.containers.containers.as_slice());
                let mut out: Vec<Effect> = Vec::new();
                let mut i: usize = 0;
                while i < running.len()
                    invariant
                        i <= running@.len(),
                        out@.len() == i,
                        forall|k: int| 0 <= k < i ==> upgrade_spawn_of(#[trigger] out@[k], running@[k]@),
                    decreases running@.len() - i,
                {
                    let name = running[i].clone();
                    out.push(
                        Effect::Spawn {
                            kind: TaskKind::Upgrade,
                            label: Msg::LabelUpgrade { name: name.clone() },
                            job: Job::Upgrade(name),
                        },
                    );
                    i += 1;
                }
                out
            },
            ConfirmAction::InstallPackage { container, package } => {
                if bd.blocked {
                    return self.refuse(bd);
                }
                one(
                    Effect::Spawn {
                        kind: TaskKind::Other,
                        label: Msg::LabelInstall {
                            package: package.clone(),
                            container: container.clone(),
                        },
                        job: Job::Install { container, package },
                    },
                )
            },
            ConfirmAction::RemovePackage { container, package } => {
                if bd.blocked {
                    return self.refuse(bd);
                }
                one(
                    Effect::Spawn {
                        kind: TaskKind::Other,
                        label: Msg::LabelRemovePackage {
                            package: package.clone(),
                            container: container.clone(),
                        },
                        job: Job::RemovePackage { container, package },
                    },
                )
            },
            ConfirmAction::DeleteSnapshot(id) => {
                if bd.blocked {
                    return self.refuse(bd);
                }
                one(Effect::DeleteSnapshot(id))
            },
            ConfirmAction::UpgradeContainer(container) => {
                if bd.blocked {
                    return self.refuse(bd);
                }
                one(
                    Effect::Spawn {
                        kind: TaskKind::Upgrade,
                        label: Msg::LabelUpgrade { name: container.clone() },
                        job: Job::Upgrade(container),
                    },
                )
            },
        }
    }

    /// The destructive-confirm gate: open the dialog, or run a destructive
    /// action at once when the user turned confirms off.
    pub fn confirm_or_run(&mut self, spec: ConfirmSpec, bd: &BackendView) -> (r: Vec<Effect>)
        ensures
            confirm_post(*old(self), *final(self), *bd, spec, r@),
    {
        let enabled = match &self.config {
            Some(c) => c.confirm_destructive_actions,
            None => true,
        };
        if spec.destructive && !enabled {
            self.dialog = None;
            return self.dispatch_confirm_action(spec.action, bd);
        }
        self.dialog = Some(ActiveDialog::Confirm(spec));
        Vec::new()
    }
}

} // verus!
