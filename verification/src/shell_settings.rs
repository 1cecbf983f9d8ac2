//! The terminal page, the Settings page and the preferences, the create
//! wizard's routing, and the nav bar: what their messages do to the shell.
use vstd::prelude::*;
use crate::message::{
    ConfirmAction, ConfirmSpec, ContainerMsg, SettingsMsg, TaskMsg, TerminalMsg, WizardMsg,
};
use crate::model::{AppConfig, ContainerInfo, Failure, Terminal, same_config};
use crate::msg::Msg;
use crate::shell::{
    BackendView, Effect, Job, Loading, Shell, confirm_post, failure_text, one, refused, three, two,
    unchanged,
};
use crate::shell_backups::package_pick_post;
use crate::shell_containers::{containers_post, opt_text, terminal_open_post};
use crate::shell_pages::tasks_post;
use crate::tasks::{TaskKind, unfinished};
use crate::terminal::{TerminalState, selected_position, terminal_closed};
use crate::views::Page;
use crate::wizard::{CreateRequest, WizardEffect, WizardState, WizardStep, wizard_step};

verus! {

/// What a terminal-page message does.
pub open spec fn terminal_post<S>(
    old: Shell<S>,
    new: Shell<S>,
    bd: BackendView,
    msg: TerminalMsg,
    r: Seq<Effect>,
) -> bool {
    let t = old.terminal;
    match msg {
        TerminalMsg::OpenRequested(name) => terminal_open_post(old, new, bd, name, r),
        TerminalMsg::Closed => terminal_closed(new.terminal) && new == Shell {
            terminal: new.terminal,
            ..old
        } && r == Seq::<Effect>::empty(),
        TerminalMsg::CommandReloadRequested(name) => new == Shell {
            terminal: TerminalState { loading_command: true, command_error: None, ..t },
            ..old
        } && r == seq![Effect::LoadEnterCommand(name)],
        TerminalMsg::CommandLoaded(name, result) => if opt_text(t.container) != Some(name@) {
            unchanged(old, new, r)
        } else {
            r == Seq::<Effect>::empty() && match result {
                Ok(argv) => new == Shell {
                    terminal: TerminalState { loading_command: false, enter_argv: Some(argv), ..t },
                    ..old
                },
                Err(e) => new == Shell {
                    terminal: TerminalState {
                        loading_command: false,
                        command_error: Some(failure_text(e)),
                        ..t
                    },
                    ..old
                },
            }
        },
        TerminalMsg::CopyRequested(cmd) => new == old && r == seq![
            Effect::CopyToClipboard(cmd),
            Effect::Toast(Msg::CopiedToClipboard { what: cmd }),
        ],
        TerminalMsg::TerminalSelected(i) => new == Shell {
            terminal: TerminalState {
                terminal_id: if i < bd.terminals@.len() {
                    Some(bd.terminals@[i as int].id)
                } else {
                    None
                },
                ..t
            },
            ..old
        } && r == Seq::<Effect>::empty(),
        TerminalMsg::LaunchRequested(container) => if bd.blocked {
            refused(old, new, bd, r)
        } else {
            new == old && match selected_position(t.terminal_id, bd.terminals@) {
                Some(i) => r == seq![
                    Effect::LaunchTerminal { container, terminal: bd.terminals@[i] },
                ],
                None => r == seq![Effect::Toast(Msg::NoTerminalAvailable)],
            }
        },
        TerminalMsg::Launched { terminal, container, result } => new == old && r == seq![
            match result {
                Ok(_) => Effect::Toast(Msg::LaunchedTerminal { terminal, container }),
                Err(e) => Effect::Toast(Msg::CouldNotLaunchTerminal { error: e }),
            },
        ],
        TerminalMsg::LaunchFinished(result) => new == old && r == seq![
            match result {
                Ok(m) => Effect::Toast(m),
                Err(e) => Effect::Toast(Msg::LaunchFailed { error: e }),
            },
        ],
    }
}

/// A preference write: applied and persisted when the store is available,
/// else a toast says it cannot be kept.
pub open spec fn config_written<S>(
    old: Shell<S>,
    new: Shell<S>,
    change: spec_fn(AppConfig) -> AppConfig,
    r: Seq<Effect>,
) -> bool {
    match old.config {
        Some(c) => new == Shell { config: Some(change(c)), ..old } && r == seq![Effect::SaveConfig],
        None => new == old && r == seq![Effect::Toast(Msg::SettingsNoPersist)],
    }
}

/// What a Settings message does.
pub open spec fn settings_post<S>(
    old: Shell<S>,
    new: Shell<S>,
    bd: BackendView,
    msg: SettingsMsg,
    r: Seq<Effect>,
) -> bool {
    match msg {
        SettingsMsg::VersionReloadRequested => new == Shell { loading_version: true, ..old } && r
            == seq![Effect::LoadVersion],
        SettingsMsg::VersionLoaded(result) => match result {
            Ok(v) => new == Shell {
                loading_version: false,
                distrobox_version: Msg::Raw(v),
                ..old
            } && r == Seq::<Effect>::empty(),
            Err(e) => new == Shell {
                loading_version: false,
                distrobox_version: Msg::VersionUnknown,
                ..old
            } && r == seq![Effect::Toast(Msg::CouldNotReadVersion { error: e })],
        },
        SettingsMsg::RefreshAllRequested => new == Shell {
            loading: Loading { containers: true, ..old.loading },
            loading_version: true,
            ..old
        } && r == seq![
            Effect::Toast(Msg::DataRefreshed),
            Effect::LoadContainers,
            Effect::LoadVersion,
        ],
        SettingsMsg::StopAllRequested => containers_post(
            old,
            new,
            bd,
            ContainerMsg::StopAllRequested,
            r,
        ),
        SettingsMsg::UpgradeAllRequested => containers_post(
            old,
            new,
            bd,
            ContainerMsg::UpgradeAllRequested,
            r,
        ),
        SettingsMsg::ClearCompleted => r == seq![Effect::Toast(Msg::CompletedTasksCleared)]
            && tasks_post(old, new, bd, TaskMsg::ClearCompleted, Seq::<Effect>::empty()),
        SettingsMsg::DeleteAllRequested => confirm_post(
            old,
            new,
            bd,
            ConfirmSpec {
                title: Msg::DeleteAllContainersTitle,
                body: Msg::ConfirmDeleteAllContainers,
                confirm_label: Msg::DeleteAllLabel,
                destructive: true,
                action: ConfirmAction::DeleteAllContainers,
            },
            r,
        ),
        SettingsMsg::TerminalSelected(i) => if i < bd.terminals@.len() {
            let id = bd.terminals@[i as int].id;
            match old.config {
                Some(c) => new == Shell {
                    config: Some(AppConfig { selected_terminal: id, ..c }),
                    terminal: TerminalState { terminal_id: Some(id), ..old.terminal },
                    ..old
                } && r == seq![Effect::SaveConfig],
                None => {
                    &&& new.terminal.terminal_id is Some
                    &&& new.terminal.terminal_id->0@.len() == 0
                    &&& new == Shell {
                        terminal: TerminalState {
                            terminal_id: new.terminal.terminal_id,
                            ..old.terminal
                        },
                        ..old
                    }
                    &&& r == seq![Effect::Toast(Msg::SettingsNoPersist)]
                },
            }
        } else {
            unchanged(old, new, r)
        },
        SettingsMsg::ConfirmToggled(v) => config_written(
            old,
            new,
            |c: AppConfig| AppConfig { confirm_destructive_actions: v, ..c },
            r,
        ),
        SettingsMsg::ShowSkippedLinesToggled(v) => config_written(
            old,
            new,
            |c: AppConfig| AppConfig { show_skipped_lines: v, ..c },
            r,
        ),
        SettingsMsg::SnapshotPrefixChanged(p) => config_written(
            old,
            new,
            |c: AppConfig| AppConfig { snapshot_prefix: p, ..c },
            r,
        ),
        SettingsMsg::ExportDirChanged(d) => config_written(
            old,
            new,
            |c: AppConfig| AppConfig { default_export_dir: d, ..c },
            r,
        ),
        SettingsMsg::OpenUrl(url) => new == old && r == seq![Effect::OpenUrl(url)],
        SettingsMsg::UrlOpenFailed { url, error } => new == old && r == seq![
            Effect::Toast(Msg::CouldNotOpen { url, error }),
        ],
        SettingsMsg::ConfigChanged(cfg) => match old.config {
            Some(c) if same_config(c, cfg) => unchanged(old, new, r),
            _ => new == Shell { legacy_import_pending: false, config: Some(cfg), ..old } && r
                == seq![Effect::SyncTerminals],
        },
        SettingsMsg::LegacyImported { found, applied } => if !old.legacy_import_pending {
            unchanged(old, new, r)
        } else if !found || old.config is None {
            new == Shell { legacy_import_pending: false, ..old } && r == Seq::<Effect>::empty()
        } else {
            new == Shell { legacy_import_pending: false, config: Some(applied), ..old } && r
                == seq![
                Effect::SyncTerminals,
                Effect::Toast(Msg::ImportedSettings),
                Effect::SaveConfig,
            ]
        },
        SettingsMsg::SaveFailed => new == old && r == seq![Effect::Toast(Msg::SettingsNoPersist)],
    }
}

/// What a wizard message does: the wizard's own step (nothing when it is
/// closed), refused creation in a blocked environment, and the effects its
/// answer asks for.
pub open spec fn wizard_post<S>(
    old: Shell<S>,
    new: Shell<S>,
    bd: BackendView,
    msg: WizardMsg,
    r: Seq<Effect>,
) -> bool {
    match msg {
        WizardMsg::Closed => new == Shell { wizard: None, ..old } && r == Seq::<Effect>::empty(),
        WizardMsg::ProgressDone => new == Shell {
            wizard: None,
            loading: Loading { containers: true, ..old.loading },
            ..old
        } && r == seq![Effect::LoadContainers],
        _ => if msg is CreateRequested && bd.blocked {
            refused(old, new, bd, r)
        } else {
            match old.wizard {
                None => unchanged(old, new, r),
                Some(w) => {
                    &&& new.wizard is Some
                    &&& new == Shell { wizard: new.wizard, ..old }
                    &&& exists|e: WizardEffect|
                        wizard_step(w, new.wizard->0, msg, e) && r == match e {
                            WizardEffect::Create(req) => seq![Effect::CheckCreateName(req)],
                            WizardEffect::CancelTask(id) => seq![Effect::CancelTask(id)],
                            _ => Seq::<Effect>::empty(),
                        }
                },
            }
        },
    }
}

/// The answer to `Effect::CheckCreateName`: a rejected name shows inline; an
/// accepted one moves the wizard to its progress step and spawns the create.
pub open spec fn create_checked_post<S>(
    old: Shell<S>,
    new: Shell<S>,
    req: CreateRequest,
    verdict: Result<(), String>,
    r: Seq<Effect>,
) -> bool {
    match verdict {
        Err(error) => r == Seq::<Effect>::empty() && new == Shell {
            wizard: match old.wizard {
                Some(w) => Some(
                    WizardState { inline_error: Some(Msg::InvalidContainerName { error }), ..w },
                ),
                None => None,
            },
            ..old
        },
        Ok(_) => new == Shell {
            wizard: match old.wizard {
                Some(w) => Some(WizardState { step: WizardStep::Progress, inline_error: None, ..w }),
                None => None,
            },
            ..old
        } && r == seq![
            Effect::Spawn {
                kind: TaskKind::Create,
                label: Msg::LabelCreate { name: req.name },
                job: Job::Create(req),
            },
        ],
    }
}

/// The first running container's name, else the first container's.
pub open spec fn package_default(s: Seq<ContainerInfo>) -> Option<String> {
    if exists|i: int| 0 <= i < s.len() && s[i].status is Up {
        Some(
            s[choose|i: int|
                0 <= i < s.len() && s[i].status is Up && forall|j: int|
                    0 <= j < i ==> !(s[j].status is Up)].name,
        )
    } else if s.len() > 0 {
        Some(s[0].name)
    } else {
        None
    }
}

/// What choosing a nav page does: leaving the Containers page pops its
/// pushed pages, and a page whose data was never loaded loads it.
pub open spec fn nav_post<S>(old: Shell<S>, new: Shell<S>, page: Page, r: Seq<Effect>) -> bool {
    let mid = if page != Page::Containers {
        Shell { page, details_for: None, terminal: new.terminal, ..old }
    } else {
        Shell { page, ..old }
    };
    &&& page != Page::Containers ==> terminal_closed(new.terminal)
    &&& match page {
        Page::Dashboard | Page::Containers | Page::Updates => if mid.containers.containers@.len()
            == 0 && !mid.loading.containers {
            new == Shell { loading: Loading { containers: true, ..mid.loading }, ..mid } && r
                == seq![Effect::LoadContainers]
        } else {
            new == mid && r == Seq::<Effect>::empty()
        },
        Page::Images => if mid.images@.len() == 0 && !mid.loading.images {
            new == Shell { loading: Loading { images: true, ..mid.loading }, ..mid } && r
                == seq![Effect::LoadImages]
        } else {
            new == mid && r == Seq::<Effect>::empty()
        },
        Page::Backups => if mid.backups.container is None && mid.containers.containers@.len() > 0 {
            let c = mid.containers.containers@[0].name;
            new == Shell {
                backups: crate::backups::BackupsState {
                    container: Some(c),
                    loading: true,
                    ..mid.backups
                },
                ..mid
            } && r == seq![Effect::LoadSnapshots(c)]
        } else {
            new == mid && r == Seq::<Effect>::empty()
        },
        Page::Packages => if mid.packages.container is None && mid.containers.containers@.len()
            > 0 {
            package_pick_post(
                mid,
                new,
                package_default(mid.containers.containers@)->0,
                r,
            )
        } else {
            new == mid && r == Seq::<Effect>::empty()
        },
        _ => new == mid && r == Seq::<Effect>::empty(),
    }
}

fn first_running_or_first(s: &[ContainerInfo]) -> (r: Option<String>)
    ensures
        r == package_default(s@),
{
    let mut i: usize = 0;
    while i < s.len()
        invariant
            i <= s@.len(),
            forall|j: int| 0 <= j < i ==> !(s@[j].status is Up),
        decreases s@.len() - i,
    {
        if crate::icons::is_running(&s[i].status) {
            proof {
                let k = choose|k: int|
                    0 <= k < s@.len() && s@[k].status is Up && forall|j: int|
                        0 <= j < k ==> !(s@[j].status is Up);
                assert(s@[i as int].status is Up && forall|j: int|
                    0 <= j < i ==> !(s@[j].status is Up));
                if k < i {
                    assert(!(s@[k].status is Up));
                } else if k > i {
                    assert(s@[i as int].status is Up);
                }
            }
            return Some(s[i].name.clone());
        }
        i += 1;
    }
    if s.len() > 0 {
        Some(s[0].name.clone())
    } else {
        None
    }
}

impl<S> Shell<S> {
    #[verifier::rlimit(40)]
    fn terminal_command(&mut self, msg: TerminalMsg, bd: &BackendView) -> (r: Vec<Effect>)
        requires
            msg is OpenRequested || msg is Closed || msg is CommandReloadRequested
                || msg is CommandLoaded || msg is CopyRequested,
        ensures
            terminal_post(*old(self), *final(self), *bd, msg, r@),
    {
        match msg {
            TerminalMsg::OpenRequested(name) => self.open_terminal(name, bd),
            TerminalMsg::Closed => {
                self.terminal = TerminalState::default();
                Vec::new()
            },
            TerminalMsg::CommandReloadRequested(name) => {
                self.terminal.loading_command = true;
                self.terminal.command_error = None;
                one(Effect::LoadEnterCommand(name))
            },
            TerminalMsg::CommandLoaded(name, result) => {
                let current = match &self.terminal.container {
                    Some(c) => *c == name,
                    None => false,
                };
                if !current {
                    return Vec::new();
                }
                self.terminal.loading_command = false;
                match result {
                    Ok(argv) => {
                        self.terminal.enter_argv = Some(argv);
                    },
                    Err(e) => {
                        self.terminal.command_error = Some(crate::shell::error_text(&e));
                    },
                }
                Vec::new()
            },
            TerminalMsg::CopyRequested(cmd) => two(
                Effect::CopyToClipboard(cmd.clone()),
                Effect::Toast(Msg::CopiedToClipboard { what: cmd }),
            ),
            _ => Vec::new(),
        }
    }

    #[verifier::rlimit(40)]
    fn terminal_launch(&mut self, msg: TerminalMsg, bd: &BackendView) -> (r: Vec<Effect>)
        requires
            msg is TerminalSelected || msg is LaunchRequested || msg is Launched
                || msg is LaunchFinished,
        ensures
            terminal_post(*old(self), *final(self), *bd, msg, r@),
    {
        match msg {
            TerminalMsg::TerminalSelected(i) => {
                self.terminal.terminal_id = if i < bd.terminals.len() {
                    Some(bd.terminals[i].id.clone())
                } else {
                    None
                };
                Vec::new()
            },
            TerminalMsg::LaunchRequested(container) => {
                if bd.blocked {
                    return self.refuse(bd);
                }
                match self.terminal.selected(bd.terminals.as_slice()) {
                    Some(t) => one(Effect::LaunchTerminal { container, terminal: t.copy() }),
                    None => one(Effect::Toast(Msg::NoTerminalAvailable)),
                }
            },
            TerminalMsg::Launched { terminal, container, result } => one(
                match result {
                    Ok(_) => Effect::Toast(Msg::LaunchedTerminal { terminal, container }),
                    Err(e) => Effect::Toast(Msg::CouldNotLaunchTerminal { error: e }),
                },
            ),
            TerminalMsg::LaunchFinished(result) => one(
                match result {
                    Ok(m) => Effect::Toast(m),
                    Err(e) => Effect::Toast(Msg::LaunchFailed { error: e }),
                },
            ),
            _ => Vec::new(),
        }
    }

    /// Handle a terminal-page message.
    pub fn update_terminal(&mut self, msg: TerminalMsg, bd: &BackendView) -> (r: Vec<Effect>)
        ensures
            terminal_post(*old(self), *final(self), *bd, msg, r@),
    {
        match msg {
            TerminalMsg::OpenRequested(_)
            | TerminalMsg::Closed
            | TerminalMsg::CommandReloadRequested(_)
            | TerminalMsg::CommandLoaded(_, _)
            | TerminalMsg::CopyRequested(_) => self.terminal_command(msg, bd),
            TerminalMsg::TerminalSelected(_)
            | TerminalMsg::LaunchRequested(_)
            | TerminalMsg::Launched { .. }
            | TerminalMsg::LaunchFinished(_) => self.terminal_launch(msg, bd),
        }
    }

    #[verifier::rlimit(40)]
    fn settings_actions(&mut self, msg: SettingsMsg, bd: &BackendView) -> (r: Vec<Effect>)
        requires
            old(self).wf(),
            msg is VersionReloadRequested || msg is VersionLoaded || msg is RefreshAllRequested
                || msg is StopAllRequested || msg is UpgradeAllRequested || msg is ClearCompleted
                || msg is DeleteAllRequested || msg is OpenUrl || msg is UrlOpenFailed
                || msg is SaveFailed,
        ensures
            final(self).wf(),
            settings_post(*old(self), *final(self), *bd, msg, r@),
    {
        match msg {
            SettingsMsg::VersionReloadRequested => {
                self.loading_version = true;
                one(Effect::LoadVersion)
            },
            SettingsMsg::VersionLoaded(result) => {
                self.loading_version = false;
                match result {
                    Ok(v) => {
                        self.distrobox_version = Msg::Raw(v);
                        Vec::new()
                    },
                    Err(e) => {
                        self.distrobox_version = Msg::VersionUnknown;
                        one(Effect::Toast(Msg::CouldNotReadVersion { error: e }))
                    },
                }
            },
            SettingsMsg::RefreshAllRequested => {
                self.loading.containers = true;
                self.loading_version = true;
                three(
                    Effect::Toast(Msg::DataRefreshed),
                    Effect::LoadContainers,
                    Effect::LoadVersion,
                )
            },
            SettingsMsg::StopAllRequested => self.update_containers(
                ContainerMsg::StopAllRequested,
                bd,
            ),
            SettingsMsg::UpgradeAllRequested => self.update_containers(
                ContainerMsg::UpgradeAllRequested,
                bd,
            ),
            SettingsMsg::ClearCompleted => {
                let _ = self.update_tasks(TaskMsg::ClearCompleted, bd);
                one(Effect::Toast(Msg::CompletedTasksCleared))
            },
            SettingsMsg::DeleteAllRequested => {
                let spec = ConfirmSpec {
                    title: Msg::DeleteAllContainersTitle,
                    body: Msg::ConfirmDeleteAllContainers,
                    confirm_label: Msg::DeleteAllLabel,
                    destructive: true,
                    action: ConfirmAction::DeleteAllContainers,
                };
                self.confirm_or_run(spec, bd)
            },
            SettingsMsg::OpenUrl(url) => one(Effect::OpenUrl(url)),
            SettingsMsg::UrlOpenFailed { url, error } => one(
                Effect::Toast(Msg::CouldNotOpen { url, error }),
            ),
            SettingsMsg::SaveFailed => one(Effect::Toast(Msg::SettingsNoPersist)),
            _ => Vec::new(),
        }
    }

    #[verifier::rlimit(40)]
    fn settings_preferences(&mut self, msg: SettingsMsg, bd: &BackendView) -> (r: Vec<Effect>)
        requires
            msg is TerminalSelected || msg is ConfirmToggled || msg is ShowSkippedLinesToggled
                || msg is SnapshotPrefixChanged || msg is ExportDirChanged || msg is ConfigChanged
                || msg is LegacyImported,
        ensures
            settings_post(*old(self), *final(self), *bd, msg, r@),
    {
        match msg {
            SettingsMsg::TerminalSelected(i) => {
                if i >= bd.terminals.len() {
                    return Vec::new();
                }
                let id = bd.terminals[i].id.clone();
                match self.config.take() {
                    Some(mut c) => {
                        c.selected_terminal = id.clone();
                        self.config = Some(c);
                        self.terminal.terminal_id = Some(id);
                        one(Effect::SaveConfig)
                    },
                    None => {
                        self.terminal.terminal_id = Some(String::new());
                        one(Effect::Toast(Msg::SettingsNoPersist))
                    },
                }
            },
            SettingsMsg::ConfirmToggled(v) => match self.config.take() {
                Some(mut c) => {
                    c.confirm_destructive_actions = v;
                    self.config = Some(c);
                    one(Effect::SaveConfig)
                },
                None => one(Effect::Toast(Msg::SettingsNoPersist)),
            },
            SettingsMsg::ShowSkippedLinesToggled(v) => match self.config.take() {
                Some(mut c) => {
                    c.show_skipped_lines = v;
                    self.config = Some(c);
                    one(Effect::SaveConfig)
                },
                None => one(Effect::Toast(Msg::SettingsNoPersist)),
            },
            SettingsMsg::SnapshotPrefixChanged(p) => match self.config.take() {
                Some(mut c) => {
                    c.snapshot_prefix = p;
                    self.config = Some(c);
                    one(Effect::SaveConfig)
                },
                None => one(Effect::Toast(Msg::SettingsNoPersist)),
            },
            SettingsMsg::ExportDirChanged(d) => match self.config.take() {
                Some(mut c) => {
                    c.default_export_dir = d;
                    self.config = Some(c);
                    one(Effect::SaveConfig)
                },
                None => one(Effect::Toast(Msg::SettingsNoPersist)),
            },
            SettingsMsg::ConfigChanged(cfg) => {
                let same = match &self.config {
                    Some(c) => c.same_as(&cfg),
                    None => false,
                };
                if same {
                    return Vec::new();
                }
                self.legacy_import_pending = false;
                self.config = Some(cfg);
                one(Effect::SyncTerminals)
            },
            SettingsMsg::LegacyImported { found, applied } => {
                if !self.legacy_import_pending {
                    return Vec::new();
                }
                self.legacy_import_pending = false;
                if !found || self.config.is_none() {
                    return Vec::new();
                }
                self.config = Some(applied);
                three(
                    Effect::SyncTerminals,
                    Effect::Toast(Msg::ImportedSettings),
                    Effect::SaveConfig,
                )
            },
            _ => Vec::new(),
        }
    }

    /// Handle a Settings message.
    pub fn update_settings(&mut self, msg: SettingsMsg, bd: &BackendView) -> (r: Vec<Effect>)
        requires
            old(self).wf(),
        ensures
            final(self).wf(),
            settings_post(*old(self), *final(self), *bd, msg, r@),
    {
        match msg {
            SettingsMsg::TerminalSelected(_)
            | SettingsMsg::ConfirmToggled(_)
            | SettingsMsg::ShowSkippedLinesToggled(_)
            | SettingsMsg::SnapshotPrefixChanged(_)
            | SettingsMsg::ExportDirChanged(_)
            | SettingsMsg::ConfigChanged(_)
            | SettingsMsg::LegacyImported { .. } => self.settings_preferences(msg, bd),
            _ => self.settings_actions(msg, bd),
        }
    }

    /// Handle a wizard message.
    pub fn update_wizard(&mut self, msg: WizardMsg, bd: &BackendView) -> (r: Vec<Effect>)
        ensures
            wizard_post(*old(self), *final(self), *bd, msg, r@),
    {
        match msg {
            WizardMsg::Closed => {
                self.wizard = None;
                return Vec::new();
            },
            WizardMsg::ProgressDone => {
                self.wizard = None;
                self.loading.containers = true;
                return one(Effect::LoadContainers);
            },
            _ => {},
        }
        let creating = match msg {
            WizardMsg::CreateRequested => true,
            _ => false,
        };
        if creating && bd.blocked {
            return self.refuse(bd);
        }
        let ghost m = msg;
        match self.wizard.take() {
            None => Vec::new(),
            Some(mut w) => {
                let e = w.update(msg);
                self.wizard = Some(w);
                let ghost eg = e;
                let r = match e {
                    WizardEffect::Create(req) => one(Effect::CheckCreateName(req)),
                    WizardEffect::CancelTask(id) => one(Effect::CancelTask(id)),
                    _ => Vec::new(),
                };
                proof {
                    assert(wizard_step(old(self).wizard->0, self.wizard->0, m, eg));
                }
                r
            },
        }
    }

    /// The answer to `Effect::CheckCreateName`: `Err` carries why the name is
    /// not a valid container name.
    pub fn create_name_checked(&mut self, req: CreateRequest, verdict: Result<(), String>) -> (r: Vec<
        Effect,
    >)
        ensures
            create_checked_post(*old(self), *final(self), req, verdict, r@),
    {
        match verdict {
            Err(error) => {
                if let Some(mut w) = self.wizard.take() {
                    w.name_rejected(error);
                    self.wizard = Some(w);
                }
                Vec::new()
            },
            Ok(_) => {
                if let Some(mut w) = self.wizard.take() {
                    w.creation_started();
                    self.wizard = Some(w);
                }
                let label = Msg::LabelCreate { name: req.name.clone() };
                one(Effect::Spawn { kind: TaskKind::Create, label, job: Job::Create(req) })
            },
        }
    }

    /// Choose a nav page.
    #[verifier::rlimit(40)]
    pub fn on_nav_select(&mut self, page: Page) -> (r: Vec<Effect>)
        ensures
            nav_post(*old(self), *final(self), page, r@),
    {
        self.page = page;
        if page != Page::Containers {
            self.details_for = None;
            self.terminal = TerminalState::default();
        }
        match page {
            Page::Dashboard | Page::Containers | Page::Updates => {
                if self.containers.containers.len() == 0 && !self.loading.containers {
                    self.loading.containers = true;
                    return one(Effect::LoadContainers);
                }
                Vec::new()
            },
            Page::Images => {
                if self.images.len() == 0 && !self.loading.images {
                    self.loading.images = true;
                    return one(Effect::LoadImages);
                }
                Vec::new()
            },
            Page::Backups => {
                if self.backups.container.is_none() && self.containers.containers.len() > 0 {
                    let c = self.containers.containers[0].name.clone();
                    self.backups.container = Some(c.clone());
                    self.backups.loading = true;
                    return one(Effect::LoadSnapshots(c));
                }
                Vec::new()
            },
            Page::Packages => {
                if self.packages.container.is_none() && self.containers.containers.len() > 0 {
                    match first_running_or_first(self.containers.containers.as_slice()) {
                        Some(name) => {
                            return self.select_package_container(name);
                        },
                        None => {},
                    }
                }
                Vec::new()
            },
            _ => Vec::new(),
        }
    }
}

} // verus!
