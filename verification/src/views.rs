//! Page-level decisions shared by the views: the nav pages and their
//! titles, the empty-state copy of container lists (a list that is empty
//! because nothing parsed is not an empty account), the Dashboard status
//! copy, the global gates, the task-row affordance and the header routing.
use vstd::prelude::*;
use crate::message::{
    AppMsg, BackupsMsg, ContainerMsg, Message, running_count, running_in, stopped_count,
};
use crate::model::{ContainerList, EnvGuard, EnvMode};
use crate::msg::Msg;

verus! {

/// Pages in the nav bar, Dashboard first.
#[derive(Clone, Copy, Debug, PartialEq, Eq, Structural)]
pub enum Page {
    Dashboard,
    Containers,
    Images,
    Packages,
    Updates,
    Backups,
    Activity,
    Apps,
    Settings,
    Stats,
}

/// A page's place in the nav order.
pub open spec fn page_index(page: Page) -> int {
    match page {
        Page::Dashboard => 0,
        Page::Containers => 1,
        Page::Images => 2,
        Page::Packages => 3,
        Page::Updates => 4,
        Page::Backups => 5,
        Page::Activity => 6,
        Page::Apps => 7,
        Page::Settings => 8,
        Page::Stats => 9,
    }
}

/// A page's nav title.
pub open spec fn page_title(page: Page) -> Msg {
    match page {
        Page::Dashboard => Msg::NavDashboard,
        Page::Containers => Msg::NavContainers,
        Page::Images => Msg::NavImages,
        Page::Packages => Msg::NavPackages,
        Page::Updates => Msg::NavUpdates,
        Page::Backups => Msg::NavBackups,
        Page::Activity => Msg::NavActivity,
        Page::Apps => Msg::NavApps,
        Page::Settings => Msg::NavSettings,
        Page::Stats => Msg::NavStats,
    }
}

impl Page {
    /// Every page, in nav order (the nav model's index space).
    pub const ALL: [Page; 10] = [
        Page::Dashboard,
        Page::Containers,
        Page::Images,
        Page::Packages,
        Page::Updates,
        Page::Backups,
        Page::Activity,
        Page::Apps,
        Page::Settings,
        Page::Stats,
    ];

    /// The nav title.
    pub fn title(self) -> (r: Msg)
        ensures
            r == page_title(self),
    {
        match self {
            Page::Dashboard => Msg::NavDashboard,
            Page::Containers => Msg::NavContainers,
            Page::Images => Msg::NavImages,
            Page::Packages => Msg::NavPackages,
            Page::Updates => Msg::NavUpdates,
            Page::Backups => Msg::NavBackups,
            Page::Activity => Msg::NavActivity,
            Page::Apps => Msg::NavApps,
            Page::Settings => Msg::NavSettings,
            Page::Stats => Msg::NavStats,
        }
    }

    /// The position to activate for this page in the nav model.
    pub fn position(self) -> (r: usize)
        ensures
            r == page_index(self),
            r < 10,
    {
        match self {
            Page::Dashboard => 0,
            Page::Containers => 1,
            Page::Images => 2,
            Page::Packages => 3,
            Page::Updates => 4,
            Page::Backups => 5,
            Page::Activity => 6,
            Page::Apps => 7,
            Page::Settings => 8,
            Page::Stats => 9,
        }
    }
}

/// Every page sits at its own position in `Page::ALL`, so activating a page
/// by position activates that page, and no two pages share a title.
pub proof fn lemma_nav_order(page: Page, other: Page)
    ensures
        0 <= page_index(page) < 10,
        Page::ALL@[page_index(page)] == page,
        page != other ==> page_title(page) != page_title(other),
        page != other ==> page_index(page) != page_index(other),
{
}

/// The one-line account of a list where every row came back and none could
/// be read. Not gated by the skipped-rows preference.
pub fn all_rows_failed_copy(skipped: usize) -> (r: Msg)
    ensures
        r == (Msg::DashAllRowsFailed { count: skipped }),
{
    Msg::DashAllRowsFailed { count: skipped }
}

/// Icon, title and body for the empty state of a container list: the
/// caller's advice for a genuinely empty account; for a list whose rows all
/// failed to parse, a warning that states how many rows could not be read.
pub fn container_list_copy(containers: &ContainerList, clean_body: Msg) -> (r: (
    &'static str,
    Msg,
    Msg,
))
    ensures
        containers.containers@.len() == 0 && containers.skipped@.len() == 0 ==> r.0@
            == "document-open-symbolic"@ && r.1 == Msg::DashNoContainers && r.2 == clean_body,
        !(containers.containers@.len() == 0 && containers.skipped@.len() == 0) ==> r.0@
            == "dialog-warning-symbolic"@ && r.1 == (Msg::DashRowsUnreadableTitle {
            count: containers.skipped@.len() as usize,
        }) && r.2 == (Msg::DashRowsUnreadableBody { count: containers.skipped@.len() as usize }),
{
    if containers.is_clean_empty() {
        return ("document-open-symbolic", Msg::DashNoContainers, clean_body);
    }
    let n = containers.skipped.len();
    (
        "dialog-warning-symbolic",
        Msg::DashRowsUnreadableTitle { count: n },
        Msg::DashRowsUnreadableBody { count: n },
    )
}

/// The Dashboard status card's body line: running of total for a working
/// list; for an empty list, the all-rows-failed account when rows were
/// skipped, and "no containers configured" only when nothing was.
pub open spec fn status_body(running: usize, total: usize, skipped: usize) -> Msg {
    if total == 0 {
        if skipped == 0 {
            Msg::DashNoContainersConfigured
        } else {
            Msg::DashAllRowsFailed { count: skipped }
        }
    } else {
        Msg::DashStatusRunning { running, total }
    }
}

/// The Dashboard container-preview empty state (icon, title, body), by the
/// same rule as the status card.
pub open spec fn preview_copy(skipped: usize) -> (Seq<char>, Msg, Msg) {
    if skipped == 0 {
        ("document-open-symbolic"@, Msg::DashPreviewEmptyTitle, Msg::DashPreviewEmptyBody)
    } else {
        (
            "dialog-warning-symbolic"@,
            Msg::DashPreviewUnreadableTitle,
            Msg::DashAllRowsFailed { count: skipped },
        )
    }
}

/// The Dashboard status card's body line.
pub fn dashboard_status_body(running: usize, total: usize, skipped: usize) -> (r: Msg)
    ensures
        r == status_body(running, total, skipped),
{
    if total == 0 {
        if skipped == 0 {
            Msg::DashNoContainersConfigured
        } else {
            all_rows_failed_copy(skipped)
        }
    } else {
        Msg::DashStatusRunning { running, total }
    }
}

/// The Dashboard container-preview empty state (icon, title, body).
pub fn dashboard_preview_copy(skipped: usize) -> (r: (&'static str, Msg, Msg))
    ensures
        (r.0@, r.1, r.2) == preview_copy(skipped),
{
    if skipped == 0 {
        ("document-open-symbolic", Msg::DashPreviewEmptyTitle, Msg::DashPreviewEmptyBody)
    } else {
        ("dialog-warning-symbolic", Msg::DashPreviewUnreadableTitle, all_rows_failed_copy(skipped))
    }
}

/// The skipped-rows caption of a working list: only when the preference is
/// on and something was skipped.
pub fn skipped_summary(skipped: usize, show: bool) -> (r: Option<Msg>)
    ensures
        !show || skipped == 0 ==> r is None,
        show && skipped != 0 ==> r == Some(Msg::DashSkippedRows { count: skipped }),
{
    if !show || skipped == 0 {
        return None;
    }
    Some(Msg::DashSkippedRows { count: skipped })
}

/// Neither Dashboard surface calls an unreadable list empty: when nothing
/// parsed but rows were skipped, the status line and the preview body give
/// the same all-rows-failed account, whatever the skipped-rows preference
/// says, and neither is the empty-account copy; the Containers page's own
/// empty state says the same thing.
pub proof fn lemma_dashboard_surfaces_agree(running: usize, skipped: usize)
    requires
        skipped != 0,
    ensures
        status_body(running, 0, skipped) == preview_copy(skipped).2,
        status_body(running, 0, skipped) != Msg::DashNoContainersConfigured,
        preview_copy(skipped).1 != Msg::DashPreviewEmptyTitle,
        preview_copy(skipped).0 == "dialog-warning-symbolic"@,
{
}

/// The numbers the Dashboard status card is built from.
#[derive(Debug, Clone, Copy, PartialEq, Eq)]
pub struct DashboardCounts {
    pub running: usize,
    pub stopped: usize,
    pub total: usize,
    /// Rows the listing could not parse.
    pub skipped: usize,
    /// The skipped-rows preference (default off).
    pub show_skipped: bool,
}

impl DashboardCounts {
    /// Derive the card's numbers from the list.
    pub fn from_list(list: &ContainerList, show_skipped: bool) -> (r: Self)
        ensures
            r.running == running_in(list.containers@),
            r.stopped == list.containers@.len() - running_in(list.containers@),
            r.total == list.containers@.len(),
            r.skipped == list.skipped@.len(),
            r.running + r.stopped == r.total,
            r.show_skipped == show_skipped,
    {
        DashboardCounts {
            running: running_count(list.containers.as_slice()),
            stopped: stopped_count(list.containers.as_slice()),
            total: list.len(),
            skipped: list.skipped.len(),
            show_skipped,
        }
    }
}

/// What a global gate shows instead of the page: icon, title, body.
#[derive(Clone, Debug, PartialEq, Eq)]
pub struct GateCopy {
    pub icon: &'static str,
    pub title: Msg,
    pub body: Msg,
}

/// The global gates, in order: a blocked environment (with the guard's own
/// message), then distrobox missing once nothing is loading. `None` renders
/// the page.
pub fn gate(blocked: Option<String>, distrobox_installed: bool, loading_anything: bool) -> (r:
    Option<GateCopy>)
    ensures
        blocked is Some ==> r == Some(
            GateCopy {
                icon: r->0.icon,
                title: Msg::DashEnvBlockedTitle,
                body: Msg::Raw(blocked->0),
            },
        ) && r->0.icon@ == "dialog-error-symbolic"@,
        blocked is None && !distrobox_installed && !loading_anything ==> r == Some(
            GateCopy {
                icon: r->0.icon,
                title: Msg::DashDistroboxMissingTitle,
                body: Msg::DashDistroboxMissingBody,
            },
        ) && r->0.icon@ == "dialog-warning-symbolic"@,
        blocked is None && (distrobox_installed || loading_anything) ==> r is None,
{
    if let Some(message) = blocked {
        return Some(
            GateCopy {
                icon: "dialog-error-symbolic",
                title: Msg::DashEnvBlockedTitle,
                body: Msg::Raw(message),
            },
        );
    }
    if !distrobox_installed && !loading_anything {
        return Some(
            GateCopy {
                icon: "dialog-warning-symbolic",
                title: Msg::DashDistroboxMissingTitle,
                body: Msg::DashDistroboxMissingBody,
            },
        );
    }
    None
}

/// The trailing affordance of a task row.
#[derive(Clone, Copy, Debug, PartialEq, Eq, Structural)]
pub enum TaskAffordance {
    /// Spinner plus Cancel.
    Running,
    /// A success check.
    Succeeded,
    /// A failure icon.
    Failed,
}

/// A task row's affordance: running until completed, whatever `success`
/// says; a completed task shows a check only when it succeeded.
pub fn task_affordance(completed: bool, success: bool) -> (r: TaskAffordance)
    ensures
        !completed ==> r == TaskAffordance::Running,
        completed && success ==> r == TaskAffordance::Succeeded,
        completed && !success ==> r == TaskAffordance::Failed,
{
    if !completed {
        TaskAffordance::Running
    } else if success {
        TaskAffordance::Succeeded
    } else {
        TaskAffordance::Failed
    }
}

/// The theme icon of a finished task row.
pub fn task_done_icon(success: bool) -> (r: &'static str)
    ensures
        success ==> r@ == "object-select-symbolic"@,
        !success ==> r@ == "dialog-error-symbolic"@,
{
    if success {
        "object-select-symbolic"
    } else {
        "dialog-error-symbolic"
    }
}

/// What the header Refresh reloads on a page.
#[derive(Clone, Copy, Debug, PartialEq, Eq, Structural)]
pub enum HeaderRefresh {
    Containers,
    Images,
}

/// The header Refresh of each page: Images reloads the catalogue; Updates
/// and Apps own their header actions, so the generic button hides; every
/// other page reloads the container list.
pub fn header_refresh(page: Page) -> (r: Option<HeaderRefresh>)
    ensures
        page == Page::Images ==> r == Some(HeaderRefresh::Images),
        page == Page::Updates || page == Page::Apps ==> r is None,
        page != Page::Images && page != Page::Updates && page != Page::Apps ==> r == Some(
            HeaderRefresh::Containers,
        ),
{
    match page {
        Page::Images => Some(HeaderRefresh::Images),
        Page::Updates | Page::Apps => None,
        _ => Some(HeaderRefresh::Containers),
    }
}

/// The header actions that need a working backend.
pub open spec fn needs_backend<S>(msg: Message<S>) -> bool {
    match msg {
        Message::Containers(ContainerMsg::NewContainerRequested) => true,
        Message::Containers(ContainerMsg::UpgradeAllRequested) => true,
        Message::Backups(BackupsMsg::CreateDialogRequested) => true,
        Message::Apps(AppMsg::ReloadRequested(_)) => true,
        _ => false,
    }
}

/// Gate a header action: in a blocked or not-installed environment the
/// actions that need the backend disable (`None`); the re-probing Refresh,
/// the local Clear Completed and any other message pass through.
pub fn gate_header_message<S>(msg: Message<S>, blocked: bool, installed: bool) -> (r: Option<
    Message<S>,
>)
    ensures
        (blocked || !installed) && needs_backend(msg) ==> r is None,
        !((blocked || !installed) && needs_backend(msg)) ==> r == Some(msg),
{
    let gated = blocked || !installed;
    let needs = match &msg {
        Message::Containers(ContainerMsg::NewContainerRequested) => true,
        Message::Containers(ContainerMsg::UpgradeAllRequested) => true,
        Message::Backups(BackupsMsg::CreateDialogRequested) => true,
        Message::Apps(AppMsg::ReloadRequested(_)) => true,
        _ => false,
    };
    if gated && needs {
        None
    } else {
        Some(msg)
    }
}

/// What a re-probe of the environment owes the user.
#[derive(Clone, Debug, PartialEq, Eq)]
pub enum ReprobeOutcome {
    /// The environment is usable.
    Recovered,
    /// Still gated; the banner shows `error` (the blocked guard's message).
    StillGated { error: Option<String> },
}

/// A blocked guard stays gated with its own message as the banner, even if
/// it claims distrobox is installed; otherwise an installed distrobox
/// recovers in any mode, and a missing one stays gated with no banner.
pub fn reprobe_outcome(guard: &EnvGuard) -> (r: ReprobeOutcome)
    ensures
        guard.mode == EnvMode::Blocked ==> r == (ReprobeOutcome::StillGated {
            error: guard.message,
        }),
        guard.mode != EnvMode::Blocked && guard.distrobox_installed ==> r
            == ReprobeOutcome::Recovered,
        guard.mode != EnvMode::Blocked && !guard.distrobox_installed ==> r == (
        ReprobeOutcome::StillGated { error: None }),
{
    if crate::message::is_blocked(guard) {
        ReprobeOutcome::StillGated { error: guard.message.clone() }
    } else if guard.distrobox_installed {
        ReprobeOutcome::Recovered
    } else {
        ReprobeOutcome::StillGated { error: None }
    }
}

} // verus!
