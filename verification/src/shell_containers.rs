//! The container list, the details page, the confirm dialog and the
//! terminal page opening: what their messages do to the shell.
use vstd::prelude::*;
use crate::activity::ActivityState;
use crate::backups::{BackupsState, backups_blank};
use crate::message::{
    ConfirmAction, ConfirmSpec, ContainerMsg, DetailsMsg, DialogMsg, running_count, running_in,
};
use crate::model::{
    AppConfig, ContainerInfo, ContainerList, Failure, first_named, lemma_first_named,
    position_named,
};
use crate::msg::Msg;
use crate::packages::{PackagesState, packages_blank};
use crate::shell::{
    ActiveDialog, BackendView, Effect, Job, Loading, Shell, confirm_post, dispatch_post, guarded,
    one, refused, start_key, stop_key, three, two, unchanged, key_of,
};
use crate::tasks::{TaskKind, TaskMirror};
use crate::terminal::{TerminalState, terminal_closed};
use crate::text::{trim, trimmed};
use crate::views::Page;
use crate::wizard::{WizardState, wizard_fresh};

verus! {

/// An optional string by its characters.
pub open spec fn opt_text(o: Option<String>) -> Option<Seq<char>> {
    match o {
        Some(s) => Some(s@),
        None => None,
    }
}

fn same_opt_text(a: &Option<String>, b: &Option<String>) -> (r: bool)
    ensures
        r == (opt_text(*a) == opt_text(*b)),
{
    match (a, b) {
        (Some(x), Some(y)) => *x == *y,
        (None, None) => true,
        _ => false,
    }
}

/// Whether some row of the list has the name.
pub open spec fn has_named(s: Seq<ContainerInfo>, name: Seq<char>) -> bool {
    first_named(s, name) is Some
}

/// The first row with the name, if any.
pub open spec fn row_named(s: Seq<ContainerInfo>, name: Seq<char>) -> Option<ContainerInfo> {
    match first_named(s, name) {
        Some(i) => Some(s[i]),
        None => None,
    }
}

/// The shell a fresh start shows: the Dashboard, nothing loaded.
pub open spec fn shell_initial<S>(
    s: Shell<S>,
    config: Option<AppConfig>,
    legacy_import_pending: bool,
) -> bool {
    &&& s.page == Page::Dashboard
    &&& s.containers.containers@.len() == 0 && s.containers.skipped@.len() == 0
    &&& s.selected_container is None
    &&& s.images@.len() == 0 && s.images_error is None
    &&& s.apps_search@.len() == 0 && s.apps_binary_path@.len() == 0
    &&& s.apps_binary_error is None && s.apps_error is None && !s.apps_binary_dialog
    &&& s.images_search@.len() == 0 && s.images_custom@.len() == 0 && s.image_details is None
    &&& s.wizard is None
    &&& packages_blank(s.packages)
    &&& backups_blank(s.backups)
    &&& s.activity.search@.len() == 0 && s.activity.expanded is None
    &&& terminal_closed(s.terminal)
    &&& s.config == config
    &&& s.legacy_import_pending == (legacy_import_pending && config is Some)
    &&& s.distrobox_version == Msg::VersionUnknown
    &&& s.apps@.len() == 0 && s.exported_binaries@.len() == 0
    &&& s.stats is None && s.stats_for is None
    &&& !s.loading.images && !s.loading.apps && !s.loading.binaries && !s.loading.stats
    &&& s.tasks@.len() == 0
    &&& s.details_for is None && s.dialog is None && s.busy@.len() == 0
}

/// What a container message does.
pub open spec fn containers_post<S>(
    old: Shell<S>,
    new: Shell<S>,
    bd: BackendView,
    msg: ContainerMsg,
    r: Seq<Effect>,
) -> bool {
    match msg {
        ContainerMsg::RefreshRequested => {
            &&& new == Shell {
                loading: Loading { containers: true, ..old.loading },
                error: None,
                ..old
            }
            &&& r == if bd.blocked || !bd.distrobox_installed {
                seq![Effect::Reprobe]
            } else {
                seq![Effect::LoadContainers]
            }
        },
        ContainerMsg::Loaded(result) => match result {
            Ok(list) => list_reconciled(old, new, list) && r == Seq::<Effect>::empty(),
            Err(e) => new == Shell {
                loading: Loading { containers: false, ..old.loading },
                error: Some(crate::shell::failure_text(e)),
                ..old
            } && r == Seq::<Effect>::empty(),
        },
        ContainerMsg::Selected(sel) => selected_post(old, new, sel, r),
        ContainerMsg::ActionFinished(result) => {
            &&& new.busy@.len() == 0
            &&& match result {
                Ok(m) => new == Shell {
                    busy: new.busy,
                    loading: Loading { containers: true, ..old.loading },
                    ..old
                } && r == seq![Effect::Toast(m), Effect::LoadContainers],
                Err(e) => new == Shell { busy: new.busy, ..old } && r == seq![
                    Effect::Toast(Msg::ActionFailed { error: e }),
                ],
            }
        },
        ContainerMsg::StopRequested(name) => guarded(
            old,
            new,
            bd,
            stop_key(name@),
            Effect::StopContainer { name, done: Msg::ContainerStopped { name } },
            r,
        ),
        ContainerMsg::StartRequested(name) => guarded(
            old,
            new,
            bd,
            start_key(name@),
            Effect::StartContainer { name, done: Msg::ContainerStarted { name } },
            r,
        ),
        ContainerMsg::RemoveRequested(name) => confirm_post(
            old,
            new,
            bd,
            ConfirmSpec {
                title: Msg::DeleteContainerTitle,
                body: Msg::ConfirmDeleteContainer { name },
                confirm_label: Msg::DeleteLabel,
                destructive: true,
                action: ConfirmAction::RemoveContainer(name),
            },
            r,
        ),
        ContainerMsg::StopAllRequested => {
            let count = running_in(old.containers.containers@);
            if count == 0 {
                new == old && r == seq![Effect::Toast(Msg::NoRunningToStop)]
            } else {
                confirm_post(
                    old,
                    new,
                    bd,
                    ConfirmSpec {
                        title: Msg::StopAllContainersTitle,
                        body: Msg::ConfirmStopAll { count: count as usize },
                        confirm_label: Msg::StopAllLabel,
                        destructive: true,
                        action: ConfirmAction::StopAll,
                    },
                    r,
                )
            }
        },
        ContainerMsg::UpgradeRequested { name, label } => upgrade_post(old, new, bd, name, label, r),
        ContainerMsg::ViewAllRequested => new == Shell { page: Page::Containers, ..old } && r
            == Seq::<Effect>::empty(),
        ContainerMsg::NewContainerRequested => {
            &&& new.wizard is Some && wizard_fresh(new.wizard->0)
            &&& terminal_closed(new.terminal)
            &&& new == Shell {
                details_for: None,
                terminal: new.terminal,
                page: Page::Containers,
                wizard: new.wizard,
                ..old
            }
            &&& r == Seq::<Effect>::empty()
        },
        ContainerMsg::UpgradeAllRequested => {
            let count = running_in(old.containers.containers@);
            if count == 0 {
                new == old && r == seq![Effect::Toast(Msg::NoRunningToUpgrade)]
            } else {
                confirm_post(
                    old,
                    new,
                    bd,
                    ConfirmSpec {
                        title: Msg::UpgradeAllContainersTitle,
                        body: Msg::ConfirmUpgradeAll { count: count as usize },
                        confirm_label: Msg::UpgradeAllLabel,
                        destructive: false,
                        action: ConfirmAction::UpgradeAll,
                    },
                    r,
                )
            }
        },
    }
}

/// A fresh list replaces the old one: selections that name a container no
/// longer listed are dropped with what they loaded, and the details page
/// follows its container by name (closing when it is gone).
pub open spec fn list_reconciled<S>(old: Shell<S>, new: Shell<S>, list: ContainerList) -> bool {
    let rows = list.containers@;
    let sel_gone = old.selected_container is Some && !has_named(
        rows,
        old.selected_container->0@,
    );
    let pkg_gone = old.packages.container is Some && !has_named(rows, old.packages.container->0@);
    let bk_gone = old.backups.container is Some && !has_named(rows, old.backups.container->0@);
    &&& new.loading == Loading { containers: false, ..old.loading }
    &&& new.containers == list
    &&& new.error is None
    &&& if sel_gone {
        &&& new.selected_container is None
        &&& new.apps@.len() == 0 && new.exported_binaries@.len() == 0
        &&& new.stats is None && new.stats_for is None
    } else {
        &&& new.selected_container == old.selected_container
        &&& new.apps == old.apps && new.exported_binaries == old.exported_binaries
        &&& new.stats == old.stats && new.stats_for == old.stats_for
    }
    &&& new.details_for == match old.details_for {
        Some(v) => row_named(rows, v.name@),
        None => None,
    }
    &&& if pkg_gone {
        &&& new.packages.installed@.len() == 0 && new.packages.results@.len() == 0
        &&& new.packages == PackagesState {
            container: None,
            installed: new.packages.installed,
            results: new.packages.results,
            manager: None,
            error: None,
            ..old.packages
        }
    } else {
        new.packages == old.packages
    }
    &&& if bk_gone {
        &&& new.backups.snapshots@.len() == 0
        &&& new.backups == BackupsState {
            container: None,
            snapshots: new.backups.snapshots,
            error: None,
            ..old.backups
        }
    } else {
        new.backups == old.backups
    }
    &&& new == Shell {
        loading: new.loading,
        containers: new.containers,
        error: new.error,
        selected_container: new.selected_container,
        apps: new.apps,
        exported_binaries: new.exported_binaries,
        stats: new.stats,
        stats_for: new.stats_for,
        details_for: new.details_for,
        packages: new.packages,
        backups: new.backups,
        ..old
    }
}

/// Selecting a container: a different selection drops the app, binary
/// and stats mirrors and loads them for the new one.
pub open spec fn selected_post<S>(
    old: Shell<S>,
    new: Shell<S>,
    sel: Option<ContainerInfo>,
    r: Seq<Effect>,
) -> bool {
    let name = match sel {
        Some(c) => Some(c.name),
        None => None,
    };
    if opt_text(name) == opt_text(old.selected_container) {
        unchanged(old, new, r)
    } else {
        &&& new.selected_container == name
        &&& new.apps@.len() == 0 && new.exported_binaries@.len() == 0
        &&& new.apps_error is None && new.stats is None && new.stats_for is None
        &&& match name {
            Some(c) => {
                &&& new.loading == Loading { apps: true, binaries: true, stats: true, ..old.loading }
                &&& r == seq![Effect::LoadApps(c), Effect::LoadBinaries(c), Effect::LoadStats(c)]
            },
            None => new.loading == old.loading && r == Seq::<Effect>::empty(),
        }
        &&& new == Shell {
            selected_container: new.selected_container,
            apps: new.apps,
            exported_binaries: new.exported_binaries,
            apps_error: None,
            stats: new.stats,
            stats_for: None,
            loading: new.loading,
            ..old
        }
    }
}

/// An upgrade request: refused in a blocked environment, ignored while an
/// upgrade with the same label is unfinished, else toasted and spawned.
pub open spec fn upgrade_post<S>(
    old: Shell<S>,
    new: Shell<S>,
    bd: BackendView,
    name: String,
    label: String,
    r: Seq<Effect>,
) -> bool {
    if bd.blocked {
        refused(old, new, bd, r)
    } else if exists|i: int|
        0 <= i < old.tasks@.len() && !old.tasks@[i].1.completed && old.tasks@[i].1.label@
            == label@ {
        unchanged(old, new, r)
    } else {
        new == old && r == seq![
            Effect::Toast(Msg::UpgradingContainer { name }),
            Effect::Spawn {
                kind: TaskKind::Upgrade,
                label: Msg::LabelUpgrade { name },
                job: Job::Upgrade(name),
            },
        ]
    }
}

/// Opening the terminal page for a container: the picker starts on the
/// configured terminal and the enter command loads.
pub open spec fn terminal_open_post<S>(
    old: Shell<S>,
    new: Shell<S>,
    bd: BackendView,
    name: String,
    r: Seq<Effect>,
) -> bool {
    &&& new == Shell {
        terminal: TerminalState {
            container: Some(name),
            terminal_id: if old.config is Some {
                bd.configured_terminal
            } else {
                None
            },
            enter_argv: None,
            command_error: None,
            loading_command: true,
        },
        ..old
    }
    &&& r == seq![Effect::LoadEnterCommand(name)]
}

/// What a details-page message does.
pub open spec fn details_post<S>(
    old: Shell<S>,
    new: Shell<S>,
    bd: BackendView,
    msg: DetailsMsg,
    r: Seq<Effect>,
) -> bool {
    match msg {
        DetailsMsg::OpenRequested(c) => selected_post(
            Shell { page: Page::Containers, details_for: Some(c), ..old },
            new,
            Some(c),
            r,
        ),
        DetailsMsg::Closed => terminal_closed(new.terminal) && new == Shell {
            details_for: None,
            terminal: new.terminal,
            ..old
        } && r == Seq::<Effect>::empty(),
        DetailsMsg::StopRequested(name) => containers_post(
            old,
            new,
            bd,
            ContainerMsg::StopRequested(name),
            r,
        ),
        DetailsMsg::RemoveRequested(name) => containers_post(
            old,
            new,
            bd,
            ContainerMsg::RemoveRequested(name),
            r,
        ),
        DetailsMsg::UpgradeRequested { name, label } => upgrade_post(old, new, bd, name, label, r),
        DetailsMsg::CloneRequested(source) => match new.dialog {
            Some(ActiveDialog::Clone { source: s, name }) => s == source && name@ == source@
                + "-clone"@ && new == Shell { dialog: new.dialog, ..old } && r == Seq::<
                Effect,
            >::empty(),
            _ => false,
        },
        DetailsMsg::CloneNameChanged(name) => match old.dialog {
            Some(ActiveDialog::Clone { source, name: _ }) => new == Shell {
                dialog: Some(ActiveDialog::Clone { source, name }),
                ..old
            } && r == Seq::<Effect>::empty(),
            _ => unchanged(old, new, r),
        },
        DetailsMsg::CloneConfirmed { source, name } => if bd.blocked {
            refused(old, new, bd, r)
        } else {
            new == old && r.len() == 1 && match r[0] {
                Effect::CheckCloneName { source: s, name: n } => s == source && n@ == trimmed(
                    name@,
                ),
                _ => false,
            }
        },
        DetailsMsg::CopyImageRequested(image) => new == old && r == seq![
            Effect::CopyToClipboard(image),
            Effect::Toast(Msg::CopiedToClipboard { what: image }),
        ],
        DetailsMsg::AppsRequested(name) => match row_named(old.containers.containers@, name@) {
            Some(c) => selected_post(Shell { page: Page::Apps, ..old }, new, Some(c), r),
            None => unchanged(old, new, r),
        },
        DetailsMsg::TerminalRequested(name) => terminal_open_post(old, new, bd, name, r),
    }
}

/// What a validated clone name does: an invalid one is toasted; a valid
/// one closes the dialog and spawns the clone.
pub open spec fn clone_checked_post<S>(
    old: Shell<S>,
    new: Shell<S>,
    source: String,
    name: String,
    valid: bool,
    r: Seq<Effect>,
) -> bool {
    if valid {
        new == Shell { dialog: None, ..old } && r == seq![
            Effect::Toast(Msg::CloningContainer { source, name }),
            Effect::Spawn {
                kind: TaskKind::Other,
                label: Msg::LabelClone { name },
                job: Job::Clone { source, name },
            },
        ]
    } else {
        new == old && r == seq![Effect::Toast(Msg::CloneNameInvalid { name })]
    }
}

/// What a dialog button does.
pub open spec fn dialog_post<S>(
    old: Shell<S>,
    new: Shell<S>,
    bd: BackendView,
    msg: DialogMsg,
    r: Seq<Effect>,
) -> bool {
    match msg {
        DialogMsg::Cancelled => new == Shell { dialog: None, ..old } && r == Seq::<Effect>::empty(),
        DialogMsg::Confirmed => match old.dialog {
            None => unchanged(old, new, r),
            Some(ActiveDialog::Confirm(spec)) => dispatch_post(
                Shell { dialog: None, ..old },
                new,
                bd,
                spec.action,
                r,
            ),
            Some(ActiveDialog::Clone { .. }) => new == Shell { dialog: None, ..old } && r == Seq::<
                Effect,
            >::empty(),
        },
    }
}

fn find_named(list: &[ContainerInfo], name: &str) -> (r: Option<ContainerInfo>)
    ensures
        r == row_named(list@, name@),
{
    proof {
        lemma_first_named(list@, name@);
    }
    match position_named(list, name) {
        Some(i) => Some(list[i].copy()),
        None => None,
    }
}

impl<S> Shell<S> {
    /// A fresh start: the Dashboard page, the given preferences, nothing
    /// loaded. The effects sync the custom terminals, then (unless the
    /// environment blocks everything, which shows its banner instead) load
    /// the containers and the distrobox version, and run the one-time import
    /// of older settings when it is pending and the preferences can be
    /// stored. The version shows as loading from the start, also in a
    /// blocked environment, where no load is started to end it.
    pub fn new(config: Option<AppConfig>, legacy_import_pending: bool, bd: &BackendView) -> (r: (
        Self,
        Vec<Effect>,
    ))
        ensures
            r.0.wf(),
            shell_initial(r.0, config, legacy_import_pending),
            r.0.loading_version,
            bd.blocked ==> r.0.error == crate::shell::blocked_banner(*bd) && !r.0.loading.containers
                && r.1@ == seq![Effect::SyncTerminals],
            !bd.blocked ==> r.0.error is None && r.0.loading.containers && r.0.loading_version
                && r.1@ == if legacy_import_pending && config is Some {
                seq![Effect::SyncTerminals, Effect::LoadContainers, Effect::LoadVersion, Effect::ImportLegacy]
            } else {
                seq![Effect::SyncTerminals, Effect::LoadContainers, Effect::LoadVersion]
            },
    {
        let pending = legacy_import_pending && config.is_some();
        let mut s = Shell {
            page: Page::Dashboard,
            error: None,
            containers: ContainerList::new(),
            selected_container: None,
            images: Vec::new(),
            images_error: None,
            apps_search: String::new(),
            apps_binary_path: String::new(),
            apps_binary_error: None,
            apps_error: None,
            apps_binary_dialog: false,
            images_search: String::new(),
            images_custom: String::new(),
            image_details: None,
            wizard: None,
            packages: PackagesState::default(),
            backups: BackupsState::default(),
            activity: ActivityState::default(),
            terminal: TerminalState::default(),
            config,
            legacy_import_pending: pending,
            distrobox_version: Msg::VersionUnknown,
            loading_version: true,
            apps: Vec::new(),
            exported_binaries: Vec::new(),
            stats: None,
            stats_for: None,
            loading: Loading {
                containers: false,
                images: false,
                apps: false,
                binaries: false,
                stats: false,
            },
            tasks: TaskMirror::new(),
            details_for: None,
            dialog: None,
            busy: Vec::new(),
        };
        let mut effects: Vec<Effect> = Vec::new();
        effects.push(Effect::SyncTerminals);
        if bd.blocked {
            s.error = crate::shell::banner_of(bd);
            return (s, effects);
        }
        s.loading.containers = true;
        s.loading_version = true;
        effects.push(Effect::LoadContainers);
        effects.push(Effect::LoadVersion);
        if pending {
            effects.push(Effect::ImportLegacy);
        }
        (s, effects)
    }

    fn drop_gone_selection(&mut self, rows: &[ContainerInfo])
        ensures
            ({
                let sel_gone = old(self).selected_container is Some && !has_named(
                    rows@,
                    old(self).selected_container->0@,
                );
                if sel_gone {
                    &&& final(self).apps@.len() == 0 && final(self).exported_binaries@.len() == 0
                    &&& *final(self) == (Shell {
                        selected_container: None,
                        apps: final(self).apps,
                        exported_binaries: final(self).exported_binaries,
                        stats: None,
                        stats_for: None,
                        ..*old(self)
                    })
                } else {
                    *final(self) == *old(self)
                }
            }),
    {
        let gone = match &self.selected_container {
            Some(sel) => position_named(rows, sel.as_str()).is_none(),
            None => false,
        };
        if gone {
            self.selected_container = None;
            self.apps = Vec::new();
            self.exported_binaries = Vec::new();
            self.stats = None;
            self.stats_for = None;
        }
    }

    fn follow_details(&mut self, rows: &[ContainerInfo])
        ensures
            *final(self) == (Shell {
                details_for: match old(self).details_for {
                    Some(v) => row_named(rows@, v.name@),
                    None => None,
                },
                ..*old(self)
            }),
    {
        let viewing = self.details_for.take();
        if let Some(v) = viewing {
            self.details_for = find_named(rows, v.name.as_str());
        }
    }

    fn drop_gone_pickers(&mut self, rows: &[ContainerInfo])
        ensures
            ({
                let pkg_gone = old(self).packages.container is Some && !has_named(
                    rows@,
                    old(self).packages.container->0@,
                );
                let bk_gone = old(self).backups.container is Some && !has_named(
                    rows@,
                    old(self).backups.container->0@,
                );
                &&& if pkg_gone {
                    &&& final(self).packages.installed@.len() == 0
                    &&& final(self).packages.results@.len() == 0
                    &&& final(self).packages == (PackagesState {
                        container: None,
                        installed: final(self).packages.installed,
                        results: final(self).packages.results,
                        manager: None,
                        error: None,
                        ..old(self).packages
                    })
                } else {
                    final(self).packages == old(self).packages
                }
                &&& if bk_gone {
                    &&& final(self).backups.snapshots@.len() == 0
                    &&& final(self).backups == (BackupsState {
                        container: None,
                        snapshots: final(self).backups.snapshots,
                        error: None,
                        ..old(self).backups
                    })
                } else {
                    final(self).backups == old(self).backups
                }
                &&& *final(self) == (Shell {
                    packages: final(self).packages,
                    backups: final(self).backups,
                    ..*old(self)
                })
            }),
    {
        let pkg_gone = match &self.packages.container {
            Some(c) => position_named(rows, c.as_str()).is_none(),
            None => false,
        };
        if pkg_gone {
            self.packages.container = None;
            self.packages.installed = Vec::new();
            self.packages.results = Vec::new();
            self.packages.manager = None;
            self.packages.error = None;
        }
        let bk_gone = match &self.backups.container {
            Some(c) => position_named(rows, c.as_str()).is_none(),
            None => false,
        };
        if bk_gone {
            self.backups.container = None;
            self.backups.snapshots = Vec::new();
            self.backups.error = None;
        }
    }

    fn containers_loaded(&mut self, list: ContainerList)
        ensures
            list_reconciled(*old(self), *final(self), list),
    {
        self.loading.containers = false;
        self.drop_gone_selection(list.containers.as_slice());
        self.follow_details(list.containers.as_slice());
        self.drop_gone_pickers(list.containers.as_slice());
        self.containers = list;
        self.error = None;
    }

    /// Select a container (or none).
    #[verifier::rlimit(40)]
    pub fn select_container(&mut self, sel: Option<ContainerInfo>) -> (r: Vec<Effect>)
        ensures
            selected_post(*old(self), *final(self), sel, r@),
    {
        let name = match sel {
            Some(c) => Some(c.name),
            None => None,
        };
        if same_opt_text(&name, &self.selected_container) {
            return Vec::new();
        }
        self.selected_container = match &name {
            Some(n) => Some(n.clone()),
            None => None,
        };
        self.apps = Vec::new();
        self.exported_binaries = Vec::new();
        self.apps_error = None;
        self.stats = None;
        self.stats_for = None;
        match name {
            Some(c) => {
                self.loading.apps = true;
                self.loading.binaries = true;
                self.loading.stats = true;
                three(Effect::LoadApps(c.clone()), Effect::LoadBinaries(c.clone()), Effect::LoadStats(c))
            },
            None => Vec::new(),
        }
    }

    fn upgrade_requested(&mut self, name: String, label: String, bd: &BackendView) -> (r: Vec<
        Effect,
    >)
        ensures
            upgrade_post(*old(self), *final(self), *bd, name, label, r@),
    {
        if bd.blocked {
            return self.refuse(bd);
        }
        if self.tasks.has_unfinished_label(label.as_str()) {
            return Vec::new();
        }
        two(
            Effect::Toast(Msg::UpgradingContainer { name: name.clone() }),
            Effect::Spawn {
                kind: TaskKind::Upgrade,
                label: Msg::LabelUpgrade { name: name.clone() },
                job: Job::Upgrade(name),
            },
        )
    }

    /// Handle a container message.
    #[verifier::rlimit(40)]
    pub fn update_containers(&mut self, msg: ContainerMsg, bd: &BackendView) -> (r: Vec<Effect>)
        ensures
            containers_post(*old(self), *final(self), *bd, msg, r@),
    {
        match msg {
            ContainerMsg::RefreshRequested => {
                self.loading.containers = true;
                self.error = None;
                if bd.blocked || !bd.distrobox_installed {
                    one(Effect::Reprobe)
                } else {
                    one(Effect::LoadContainers)
                }
            },
            ContainerMsg::Loaded(result) => {
                match result {
                    Ok(list) => self.containers_loaded(list),
                    Err(e) => {
                        self.loading.containers = false;
                        self.error = Some(crate::shell::error_text(&e));
                    },
                }
                Vec::new()
            },
            ContainerMsg::Selected(sel) => self.select_container(sel),
            ContainerMsg::ActionFinished(result) => {
                self.busy = Vec::new();
                match result {
                    Ok(m) => {
                        self.loading.containers = true;
                        two(Effect::Toast(m), Effect::LoadContainers)
                    },
                    Err(e) => one(Effect::Toast(Msg::ActionFailed { error: e })),
                }
            },
            ContainerMsg::StopRequested(name) => {
                proof {
                    reveal_strlit("stop:");
                }
                let key = key_of("stop:", name.as_str());
                let done = Msg::ContainerStopped { name: name.clone() };
                self.run_guarded(bd, key, Effect::StopContainer { name, done })
            },
            ContainerMsg::StartRequested(name) => {
                proof {
                    reveal_strlit("start:");
                }
                let key = key_of("start:", name.as_str());
                let done = Msg::ContainerStarted { name: name.clone() };
                self.run_guarded(bd, key, Effect::StartContainer { name, done })
            },
            ContainerMsg::RemoveRequested(name) => {
                let spec = ConfirmSpec {
                    title: Msg::DeleteContainerTitle,
                    body: Msg::ConfirmDeleteContainer { name: name.clone() },
                    confirm_label: Msg::DeleteLabel,
                    destructive: true,
                    action: ConfirmAction::RemoveContainer(name),
                };
                self.confirm_or_run(spec, bd)
            },
            ContainerMsg::StopAllRequested => {
                let count = running_count(self.containers.containers.as_slice());
                if count == 0 {
                    return one(Effect::Toast(Msg::NoRunningToStop));
                }
                let spec = ConfirmSpec {
                    title: Msg::StopAllContainersTitle,
                    body: Msg::ConfirmStopAll { count },
                    confirm_label: Msg::StopAllLabel,
                    destructive: true,
                    action: ConfirmAction::StopAll,
                };
                self.confirm_or_run(spec, bd)
            },
            ContainerMsg::UpgradeRequested { name, label } => self.upgrade_requested(name, label, bd),
            ContainerMsg::ViewAllRequested => {
                self.page = Page::Containers;
                Vec::new()
            },
            ContainerMsg::NewContainerRequested => {
                self.details_for = None;
                self.terminal = TerminalState::default();
                self.page = Page::Containers;
                self.wizard = Some(WizardState::default());
                Vec::new()
            },
            ContainerMsg::UpgradeAllRequested => {
                let count = running_count(self.containers.containers.as_slice());
                if count == 0 {
                    return one(Effect::Toast(Msg::NoRunningToUpgrade));
                }
                let spec = ConfirmSpec {
                    title: Msg::UpgradeAllContainersTitle,
                    body: Msg::ConfirmUpgradeAll { count },
                    confirm_label: Msg::UpgradeAllLabel,
                    destructive: false,
                    action: ConfirmAction::UpgradeAll,
                };
                self.confirm_or_run(spec, bd)
            },
        }
    }

    /// Open the terminal page for a container.
    pub fn open_terminal(&mut self, name: String, bd: &BackendView) -> (r: Vec<Effect>)
        ensures
            terminal_open_post(*old(self), *final(self), *bd, name, r@),
    {
        let id = if self.config.is_some() {
            match &bd.configured_terminal {
                Some(t) => Some(t.clone()),
                None => None,
            }
        } else {
            None
        };
        self.terminal = TerminalState {
            container: Some(name.clone()),
            terminal_id: id,
            enter_argv: None,
            command_error: None,
            loading_command: true,
        };
        one(Effect::LoadEnterCommand(name))
    }

    /// Handle a details-page message.
    #[verifier::rlimit(40)]
    pub fn update_details(&mut self, msg: DetailsMsg, bd: &BackendView) -> (r: Vec<Effect>)
        ensures
            details_post(*old(self), *final(self), *bd, msg, r@),
    {
        match msg {
            DetailsMsg::OpenRequested(c) => {
                self.page = Page::Containers;
                self.details_for = Some(c.copy());
                self.select_container(Some(c))
            },
            DetailsMsg::Closed => {
                self.details_for = None;
                self.terminal = TerminalState::default();
                Vec::new()
            },
            DetailsMsg::StopRequested(name) => self.update_containers(
                ContainerMsg::StopRequested(name),
                bd,
            ),
            DetailsMsg::RemoveRequested(name) => self.update_containers(
                ContainerMsg::RemoveRequested(name),
                bd,
            ),
            DetailsMsg::UpgradeRequested { name, label } => self.upgrade_requested(name, label, bd),
            DetailsMsg::CloneRequested(source) => {
                let name = String::from_str(source.as_str()).concat("-clone");
                self.dialog = Some(ActiveDialog::Clone { source, name });
                Vec::new()
            },
            DetailsMsg::CloneNameChanged(name) => {
                let source = match &self.dialog {
                    Some(ActiveDialog::Clone { source, .. }) => Some(source.clone()),
                    _ => None,
                };
                if let Some(source) = source {
                    self.dialog = Some(ActiveDialog::Clone { source, name });
                }
                Vec::new()
            },
            DetailsMsg::CloneConfirmed { source, name } => {
                let name = String::from_str(trim(name.as_str()));
                if bd.blocked {
                    return self.refuse(bd);
                }
                one(Effect::CheckCloneName { source, name })
            },
            DetailsMsg::CopyImageRequested(image) => two(
                Effect::CopyToClipboard(image.clone()),
                Effect::Toast(Msg::CopiedToClipboard { what: image }),
            ),
            DetailsMsg::AppsRequested(name) => {
                match find_named(self.containers.containers.as_slice(), name.as_str()) {
                    Some(c) => {
                        self.page = Page::Apps;
                        self.select_container(Some(c))
                    },
                    None => Vec::new(),
                }
            },
            DetailsMsg::TerminalRequested(name) => self.open_terminal(name, bd),
        }
    }

    /// The answer to `Effect::CheckCloneName`: whether `name` is a valid
    /// container name.
    pub fn clone_name_checked(&mut self, source: String, name: String, valid: bool) -> (r: Vec<
        Effect,
    >)
        ensures
            clone_checked_post(*old(self), *final(self), source, name, valid, r@),
    {
        if !valid {
            return one(Effect::Toast(Msg::CloneNameInvalid { name }));
        }
        self.dialog = None;
        two(
            Effect::Toast(Msg::CloningContainer { source: source.clone(), name: name.clone() }),
            Effect::Spawn {
                kind: TaskKind::Other,
                label: Msg::LabelClone { name: name.clone() },
                job: Job::Clone { source, name },
            },
        )
    }

    /// Handle a dialog button.
    pub fn update_dialog(&mut self, msg: DialogMsg, bd: &BackendView) -> (r: Vec<Effect>)
        ensures
            dialog_post(*old(self), *final(self), *bd, msg, r@),
    {
        match msg {
            DialogMsg::Cancelled => {
                self.dialog = None;
                Vec::new()
            },
            DialogMsg::Confirmed => {
                let dialog = self.dialog.take();
                match dialog {
                    None => Vec::new(),
                    Some(ActiveDialog::Confirm(spec)) => self.dispatch_confirm_action(
                        spec.action,
                        bd,
                    ),
                    Some(ActiveDialog::Clone { .. }) => Vec::new(),
                }
            },
        }
    }
}

} // verus!
