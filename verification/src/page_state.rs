//! What the Packages, Backups, Stats, terminal and details pages show for
//! the shell's state: the list states, which buttons are live, the
//! picker's position, and the enter command as one line.
use vstd::prelude::*;
use crate::model::{ContainerInfo, PackageManager};
use crate::terminal::TerminalState;
use crate::shell::Shell;
use crate::shell_backups::container_running;
use crate::shell_containers::row_named;
use crate::text::trimmed;

verus! {

/// The state of a package list.
#[derive(Clone, Copy, Debug, PartialEq, Eq, Structural)]
pub enum ListState {
    /// The container is stopped (installed list only).
    NotRunning,
    /// Nothing searched yet (search list only).
    Prompt,
    Loading,
    /// The load failed (installed list only; the error shows with Retry).
    Failed,
    Empty,
    /// This many rows.
    Rows(usize),
}

/// What the Packages page shows.
#[derive(Clone, Copy, Debug, PartialEq, Eq, Structural)]
pub enum PackagesView {
    /// No container listed: the container-list empty state.
    NoContainers,
    Page {
        running: bool,
        /// The not-running banner.
        banner: bool,
        install_enabled: bool,
        upgrade_enabled: bool,
        /// The manual-command box for an unknown manager.
        manual_box: bool,
        list: ListState,
    },
}

/// The installed list's state.
pub open spec fn installed_state<S>(s: Shell<S>, running: bool) -> ListState {
    if !running {
        ListState::NotRunning
    } else if s.packages.loading {
        ListState::Loading
    } else if s.packages.error is Some {
        ListState::Failed
    } else if s.packages.installed@.len() == 0 {
        ListState::Empty
    } else {
        ListState::Rows(s.packages.installed@.len() as usize)
    }
}

/// The search list's state.
pub open spec fn search_state<S>(s: Shell<S>) -> ListState {
    if !s.packages.searching {
        ListState::Prompt
    } else if s.packages.loading {
        ListState::Loading
    } else if s.packages.results@.len() == 0 {
        ListState::Empty
    } else {
        ListState::Rows(s.packages.results@.len() as usize)
    }
}

/// What the Packages page shows for the shell.
pub open spec fn packages_view_of<S>(s: Shell<S>) -> PackagesView {
    if s.containers.containers@.len() == 0 {
        PackagesView::NoContainers
    } else {
        let running = s.packages.container is Some && container_running(
            s.containers.containers@,
            s.packages.container->0@,
        );
        PackagesView::Page {
            running,
            banner: !running && s.packages.container is Some,
            install_enabled: running && trimmed(s.packages.query@).len() > 0,
            upgrade_enabled: running,
            manual_box: running && s.packages.manager == Some(PackageManager::Unknown),
            list: if s.packages.search_tab {
                search_state(s)
            } else {
                installed_state(s, running)
            },
        }
    }
}

/// The state of the snapshot list.
#[derive(Clone, Copy, Debug, PartialEq, Eq, Structural)]
pub enum SnapshotsState {
    Loading,
    /// The load failed (the error shows with Retry).
    Failed,
    /// No snapshots; `can_create` when a container is picked.
    Empty { can_create: bool },
    Rows(usize),
}

/// The snapshot list's state.
pub open spec fn snapshots_state_of<S>(s: Shell<S>) -> SnapshotsState {
    if s.backups.loading {
        SnapshotsState::Loading
    } else if s.backups.error is Some {
        SnapshotsState::Failed
    } else if s.backups.snapshots@.len() == 0 {
        SnapshotsState::Empty { can_create: s.backups.container is Some }
    } else {
        SnapshotsState::Rows(s.backups.snapshots@.len() as usize)
    }
}

/// What the Stats page shows.
#[derive(Clone, Debug, PartialEq, Eq)]
pub enum StatsView {
    SelectContainer,
    Loading(String),
    NoStats(String),
    Show(String),
}

/// The Stats page's view: nothing selected, loading, no figures, or the
/// figures of the selected container.
pub open spec fn stats_view_of<S>(s: Shell<S>) -> StatsView {
    match s.selected_container {
        None => StatsView::SelectContainer,
        Some(c) => if s.loading.stats {
            StatsView::Loading(c)
        } else if s.stats is None {
            StatsView::NoStats(c)
        } else {
            StatsView::Show(c)
        },
    }
}

/// The picker's position for `selected` and whether that container runs
/// (the status pill).
pub open spec fn picker_of(containers: Seq<ContainerInfo>, selected: Option<String>) -> (
    Option<int>,
    bool,
) {
    match selected {
        Some(name) => (
            crate::model::first_named(containers, name@),
            container_running(containers, name@),
        ),
        None => (None, false),
    }
}

/// The argument vector joined by single spaces.
pub open spec fn joined(argv: Seq<String>) -> Seq<char>
    decreases argv.len(),
{
    if argv.len() == 0 {
        Seq::empty()
    } else if argv.len() == 1 {
        argv[0]@
    } else {
        joined(argv.drop_last()) + " "@ + argv.last()@
    }
}

/// The access section of the terminal page.
#[derive(Clone, Debug, PartialEq, Eq)]
pub enum TerminalAccess {
    /// The container is stopped: a warning and Start.
    NotRunning,
    Loading,
    /// Loading the enter command failed: the state's error with Retry.
    Failed,
    /// The enter command, as one line, with Copy.
    Command(String),
    /// Nothing loaded yet.
    Nothing,
}

/// What the terminal page of a container shows and which of its buttons
/// are live.
#[derive(Clone, Debug, PartialEq, Eq)]
pub struct TerminalView {
    pub access: TerminalAccess,
    /// The terminal picker and Launch show only for a running container.
    pub can_launch: bool,
    /// Upgrade packages: a running container not already upgrading.
    pub upgrade_enabled: bool,
    /// Stop shows only for a running container.
    pub can_stop: bool,
}

/// The terminal page's access section for the state and the container.
pub open spec fn terminal_access_of(state: TerminalState, running: bool) -> TerminalAccess {
    if !running {
        TerminalAccess::NotRunning
    } else if state.loading_command {
        TerminalAccess::Loading
    } else if state.command_error is Some {
        TerminalAccess::Failed
    } else if state.enter_argv is Some {
        TerminalAccess::Command(arbitrary())
    } else {
        TerminalAccess::Nothing
    }
}

/// What the terminal page shows: the access section in order (stopped,
/// loading, failed, the command), the picker and Stop for a running
/// container, and Upgrade live for a running container not upgrading.
pub fn terminal_view(state: &TerminalState, container: &ContainerInfo, upgrading: bool) -> (r:
    TerminalView)
    ensures
        ({
            let running = container.status is Up;
            &&& match terminal_access_of(*state, running) {
                TerminalAccess::Command(_) => r.access matches TerminalAccess::Command(t) && t@
                    == joined(state.enter_argv->0@),
                other => r.access == other,
            }
            &&& r.can_launch == running
            &&& r.upgrade_enabled == (running && !upgrading)
            &&& r.can_stop == running
        }),
{
    let running = crate::icons::is_running(&container.status);
    let access = if !running {
        TerminalAccess::NotRunning
    } else if state.loading_command {
        TerminalAccess::Loading
    } else if state.command_error.is_some() {
        TerminalAccess::Failed
    } else if let Some(argv) = &state.enter_argv {
        TerminalAccess::Command(enter_command_text(argv))
    } else {
        TerminalAccess::Nothing
    };
    TerminalView { access, can_launch: running, upgrade_enabled: running && !upgrading, can_stop: running }
}

/// Which buttons of a container's details page are live.
#[derive(Clone, Copy, Debug, PartialEq, Eq, Structural)]
pub struct DetailsView {
    /// Stop shows only for a running container.
    pub can_stop: bool,
    /// Open Terminal is live only for a running container.
    pub can_open_terminal: bool,
    /// Upgrade is live unless an upgrade of the container is in flight.
    pub upgrade_enabled: bool,
}

/// The details page's live buttons for the container.
pub fn details_view(container: &ContainerInfo, upgrading: bool) -> (r: DetailsView)
    ensures
        r.can_stop == (container.status is Up),
        r.can_open_terminal == (container.status is Up),
        r.upgrade_enabled == !upgrading,
{
    let running = crate::icons::is_running(&container.status);
    DetailsView { can_stop: running, can_open_terminal: running, upgrade_enabled: !upgrading }
}

/// The enter command as one line, for display and copying.
pub fn enter_command_text(argv: &[String]) -> (r: String)
    ensures
        r@ == joined(argv@),
{
    let mut text = String::new();
    let mut i: usize = 0;
    while i < argv.len()
        invariant
            i <= argv@.len(),
            text@ == joined(argv@.take(i as int)),
        decreases argv@.len() - i,
    {
        proof {
            reveal_strlit(" ");
            assert(argv@.take(i + 1).drop_last() =~= argv@.take(i as int));
        }
        if i > 0 {
            text.append(" ");
        }
        text.append(argv[i].as_str());
        proof {
            if i == 0 {
                assert(text@ =~= joined(argv@.take(1)));
            } else {
                assert(text@ =~= joined(argv@.take(i + 1)));
            }
        }
        i += 1;
    }
    proof {
        assert(argv@.take(argv@.len() as int) =~= argv@);
    }
    text
}

/// The container picker's position and status pill.
pub fn picker_state(containers: &[ContainerInfo], selected: &Option<String>) -> (r: (
    Option<usize>,
    bool,
))
    ensures
        r.0 == match picker_of(containers@, *selected).0 {
            Some(i) => Some(i as usize),
            None => None,
        },
        r.1 == picker_of(containers@, *selected).1,
{
    match selected {
        Some(name) => {
            proof {
                crate::model::lemma_first_named(containers@, name@);
            }
            match crate::model::position_named(containers, name.as_str()) {
                Some(i) => (Some(i), crate::icons::is_running(&containers[i].status)),
                None => (None, false),
            }
        },
        None => (None, false),
    }
}

impl<S> Shell<S> {
    /// What the Packages page shows.
    pub fn packages_view(&self) -> (r: PackagesView)
        ensures
            r == packages_view_of(*self),
    {
        if self.containers.containers.len() == 0 {
            return PackagesView::NoContainers;
        }
        let (_, running) = picker_state(self.containers.containers.as_slice(), &self.packages.container);
        let has_query = !crate::text::trim(self.packages.query.as_str()).is_empty();
        let list = if self.packages.search_tab {
            if !self.packages.searching {
                ListState::Prompt
            } else if self.packages.loading {
                ListState::Loading
            } else if self.packages.results.len() == 0 {
                ListState::Empty
            } else {
                ListState::Rows(self.packages.results.len())
            }
        } else if !running {
            ListState::NotRunning
        } else if self.packages.loading {
            ListState::Loading
        } else if self.packages.error.is_some() {
            ListState::Failed
        } else if self.packages.installed.len() == 0 {
            ListState::Empty
        } else {
            ListState::Rows(self.packages.installed.len())
        };
        let unknown = match self.packages.manager {
            Some(PackageManager::Unknown) => true,
            _ => false,
        };
        PackagesView::Page {
            running,
            banner: !running && self.packages.container.is_some(),
            install_enabled: running && has_query,
            upgrade_enabled: running,
            manual_box: running && unknown,
            list,
        }
    }

    /// The snapshot list's state.
    pub fn snapshots_state(&self) -> (r: SnapshotsState)
        ensures
            r == snapshots_state_of(*self),
    {
        if self.backups.loading {
            SnapshotsState::Loading
        } else if self.backups.error.is_some() {
            SnapshotsState::Failed
        } else if self.backups.snapshots.len() == 0 {
            SnapshotsState::Empty { can_create: self.backups.container.is_some() }
        } else {
            SnapshotsState::Rows(self.backups.snapshots.len())
        }
    }

    /// What the Stats page shows.
    pub fn stats_view(&self) -> (r: StatsView)
        ensures
            r == stats_view_of(*self),
    {
        match &self.selected_container {
            None => StatsView::SelectContainer,
            Some(c) => if self.loading.stats {
                StatsView::Loading(c.clone())
            } else if self.stats.is_none() {
                StatsView::NoStats(c.clone())
            } else {
                StatsView::Show(c.clone())
            },
        }
    }
}

} // verus!
