//! The backend's data as plain values: container rows, the parsed list with
//! its unreadable rows, task ids, the environment guard, and the records the
//! pages list (apps, snapshots, packages, terminals).
use vstd::prelude::*;

verus! {

/// A task's identity in the UI mirror.
pub type TaskId = u64;

/// A container's status as distrobox reports it, with the detail text that
/// follows the state word (`Up 2 hours` → `Up("2 hours")`).
#[derive(Clone, Debug, PartialEq, Eq)]
pub enum Status {
    Up(String),
    Created(String),
    Exited(String),
    Other(String),
}

/// One container row.
#[derive(Clone, Debug, PartialEq, Eq)]
pub struct ContainerInfo {
    pub id: String,
    pub name: String,
    pub status: Status,
    pub image: String,
}

impl Status {
    /// The same status, copied.
    pub fn copy(&self) -> (r: Self)
        ensures
            r == *self,
    {
        match self {
            Status::Up(d) => Status::Up(d.clone()),
            Status::Created(d) => Status::Created(d.clone()),
            Status::Exited(d) => Status::Exited(d.clone()),
            Status::Other(d) => Status::Other(d.clone()),
        }
    }
}

impl ContainerInfo {
    /// The same row, copied.
    pub fn copy(&self) -> (r: Self)
        ensures
            r == *self,
    {
        ContainerInfo {
            id: self.id.clone(),
            name: self.name.clone(),
            status: self.status.copy(),
            image: self.image.clone(),
        }
    }
}

/// The first container in `s` with this name, if any.
pub open spec fn first_named(s: Seq<ContainerInfo>, name: Seq<char>) -> Option<int>
    decreases s.len(),
{
    if s.len() == 0 {
        None
    } else {
        match first_named(s.drop_last(), name) {
            Some(i) => Some(i),
            None => if s.last().name@ == name {
                Some(s.len() - 1)
            } else {
                None
            },
        }
    }
}

/// `first_named` finds the first row with the name, and only fails when no
/// row has it.
pub proof fn lemma_first_named(s: Seq<ContainerInfo>, name: Seq<char>)
    ensures
        match first_named(s, name) {
            Some(i) => 0 <= i < s.len() && s[i].name@ == name && forall|j: int|
                0 <= j < i ==> s[j].name@ != name,
            None => forall|j: int| 0 <= j < s.len() ==> s[j].name@ != name,
        },
    decreases s.len(),
{
    if s.len() > 0 {
        let d = s.drop_last();
        lemma_first_named(d, name);
        assert forall|j: int| 0 <= j < d.len() implies d[j] == s[j] by {}
    }
}

/// The position of the first container with this name.
pub fn position_named(s: &[ContainerInfo], name: &str) -> (r: Option<usize>)
    ensures
        match first_named(s@, name@) {
            Some(i) => r == Some(i as usize),
            None => r is None,
        },
{
    let mut i: usize = 0;
    while i < s.len()
        invariant
            i <= s@.len(),
            forall|j: int| 0 <= j < i ==> s@[j].name@ != name@,
        decreases s@.len() - i,
    {
        if crate::text::same_text(s[i].name.as_str(), name) {
            proof {
                lemma_first_named(s@, name@);
                let k = first_named(s@, name@);
                if k is Some {
                    let kk = k->0;
                    if kk < i {
                        assert(s@[kk].name@ != name@);
                    } else if kk > i {
                        assert(s@[i as int].name@ != name@);
                    }
                }
            }
            return Some(i);
        }
        i += 1;
    }
    proof {
        lemma_first_named(s@, name@);
    }
    None
}

/// A row of the container listing that could not be parsed.
#[derive(Clone, Debug, PartialEq, Eq)]
pub struct ParseIssue {
    pub line: String,
    pub error: String,
}

/// The parsed container list plus the rows that did not parse.
#[derive(Clone, Debug, PartialEq, Eq)]
pub struct ContainerList {
    pub containers: Vec<ContainerInfo>,
    pub skipped: Vec<ParseIssue>,
}

impl ContainerList {
    /// An empty list with nothing skipped.
    pub fn new() -> (r: Self)
        ensures
            r.containers@.len() == 0,
            r.skipped@.len() == 0,
    {
        ContainerList { containers: Vec::new(), skipped: Vec::new() }
    }

    /// Number of parsed rows.
    pub fn len(&self) -> (r: usize)
        ensures
            r == self.containers@.len(),
    {
        self.containers.len()
    }

    /// No parsed rows (rows may still have been skipped).
    pub fn is_empty(&self) -> (r: bool)
        ensures
            r == (self.containers@.len() == 0),
    {
        self.containers.len() == 0
    }

    /// A genuinely empty account: no parsed rows and nothing skipped.
    pub fn is_clean_empty(&self) -> (r: bool)
        ensures
            r == (self.containers@.len() == 0 && self.skipped@.len() == 0),
    {
        self.containers.len() == 0 && self.skipped.len() == 0
    }
}

/// How the backend reaches distrobox.
#[derive(Clone, Copy, Debug, PartialEq, Eq, Structural)]
pub enum EnvMode {
    Native,
    FlatpakHost,
    DistroboxHostExec,
    Blocked,
}

/// The environment probe's verdict.
#[derive(Clone, Debug, PartialEq, Eq)]
pub struct EnvGuard {
    pub mode: EnvMode,
    pub message: Option<String>,
    pub distrobox_installed: bool,
}

/// An application found inside a container.
#[derive(Clone, Debug, PartialEq, Eq)]
pub struct AppInfo {
    pub name: String,
    /// The `Exec=` line of the desktop entry.
    pub command: String,
    pub icon: String,
    pub desktop_file_path: String,
    pub is_exported: bool,
}

/// A committed snapshot image.
#[derive(Clone, Debug, PartialEq, Eq)]
pub struct SnapshotInfo {
    pub id: String,
    pub name: String,
    pub created: String,
    pub size: String,
}

/// A package row (installed list or search result).
#[derive(Clone, Debug, PartialEq, Eq)]
pub struct PackageInfo {
    pub name: String,
    pub version: String,
    pub description: String,
    pub installed: bool,
}

/// The package manager detected inside a container.
#[derive(Clone, Copy, Debug, PartialEq, Eq, Structural)]
pub enum PackageManager {
    Apt,
    Dnf,
    Yum,
    Pacman,
    Apk,
    Zypper,
    Xbps,
    Emerge,
    Unknown,
}

/// A terminal emulator that can be launched into a container; `id` is its
/// full command id, the value the preference stores.
#[derive(Clone, Debug, PartialEq, Eq)]
pub struct Terminal {
    pub name: String,
    pub program: String,
    pub id: String,
}

impl Terminal {
    /// The same terminal, copied.
    pub fn copy(&self) -> (r: Self)
        ensures
            r == *self,
    {
        Terminal { name: self.name.clone(), program: self.program.clone(), id: self.id.clone() }
    }
}

/// A binary exported from a container to the host.
#[derive(Clone, Debug, PartialEq, Eq)]
pub struct ExportedBinary {
    pub path: String,
}

/// Why a backend call failed: the environment blocks all access, a command
/// exited with an error (the command line and its stderr), or anything
/// else, carried as the backend's own description.
#[derive(Clone, Debug, PartialEq, Eq)]
pub enum Failure {
    BlockedEnvironment,
    CommandFailed { command: String, stderr: String },
    Other(String),
}

impl Failure {
    /// The same failure, copied.
    pub fn copy(&self) -> (r: Self)
        ensures
            r == *self,
    {
        match self {
            Failure::BlockedEnvironment => Failure::BlockedEnvironment,
            Failure::CommandFailed { command, stderr } => Failure::CommandFailed {
                command: command.clone(),
                stderr: stderr.clone(),
            },
            Failure::Other(s) => Failure::Other(s.clone()),
        }
    }
}

/// A terminal the user added to the built-in table.
#[derive(Clone, Debug, PartialEq, Eq)]
pub struct CustomTerminal {
    pub name: String,
    pub program: String,
    pub extra_args: Vec<String>,
    pub separator_arg: String,
    pub read_only: bool,
}

/// The persisted preferences.
#[derive(Clone, Debug, PartialEq, Eq)]
pub struct AppConfig {
    /// The chosen terminal's full command id (or a bare program name from
    /// an older version).
    pub selected_terminal: String,
    pub confirm_destructive_actions: bool,
    pub snapshot_prefix: String,
    pub default_export_dir: String,
    /// Whether the dashboard mentions rows the list parser skipped.
    pub show_skipped_lines: bool,
    pub custom_terminals: Vec<CustomTerminal>,
}

/// Two terminals with the same contents.
pub open spec fn same_terminal(a: CustomTerminal, b: CustomTerminal) -> bool {
    &&& a.name@ == b.name@
    &&& a.program@ == b.program@
    &&& a.extra_args@.len() == b.extra_args@.len()
    &&& forall|i: int| 0 <= i < a.extra_args@.len() ==> a.extra_args@[i]@ == b.extra_args@[i]@
    &&& a.separator_arg@ == b.separator_arg@
    &&& a.read_only == b.read_only
}

/// Two configurations with the same contents.
pub open spec fn same_config(a: AppConfig, b: AppConfig) -> bool {
    &&& a.selected_terminal@ == b.selected_terminal@
    &&& a.confirm_destructive_actions == b.confirm_destructive_actions
    &&& a.snapshot_prefix@ == b.snapshot_prefix@
    &&& a.default_export_dir@ == b.default_export_dir@
    &&& a.show_skipped_lines == b.show_skipped_lines
    &&& a.custom_terminals@.len() == b.custom_terminals@.len()
    &&& forall|i: int|
        0 <= i < a.custom_terminals@.len() ==> same_terminal(
            #[trigger] a.custom_terminals@[i],
            b.custom_terminals@[i],
        )
}

fn same_strings(a: &Vec<String>, b: &Vec<String>) -> (r: bool)
    ensures
        r == (a@.len() == b@.len() && forall|i: int| 0 <= i < a@.len() ==> a@[i]@ == b@[i]@),
{
    if a.len() != b.len() {
        return false;
    }
    let mut i: usize = 0;
    while i < a.len()
        invariant
            a@.len() == b@.len(),
            i <= a@.len(),
            forall|j: int| 0 <= j < i ==> a@[j]@ == b@[j]@,
        decreases a@.len() - i,
    {
        if a[i] != b[i] {
            return false;
        }
        i += 1;
    }
    true
}

impl CustomTerminal {
    /// Whether the two terminals have the same contents.
    pub fn same_as(&self, other: &CustomTerminal) -> (r: bool)
        ensures
            r == same_terminal(*self, *other),
    {
        self.name == other.name && self.program == other.program && same_strings(
            &self.extra_args,
            &other.extra_args,
        ) && self.separator_arg == other.separator_arg && self.read_only == other.read_only
    }
}

impl AppConfig {
    /// The defaults a fresh install starts from.
    pub fn defaults() -> (r: Self)
        ensures
            r.selected_terminal@ == "gnome-terminal"@,
            r.confirm_destructive_actions,
            r.snapshot_prefix@ == "gdm"@,
            r.default_export_dir@.len() == 0,
            !r.show_skipped_lines,
            r.custom_terminals@.len() == 0,
    {
        proof {
            reveal_strlit("gnome-terminal");
            reveal_strlit("gdm");
        }
        AppConfig {
            selected_terminal: String::from_str("gnome-terminal"),
            confirm_destructive_actions: true,
            snapshot_prefix: String::from_str("gdm"),
            default_export_dir: String::new(),
            show_skipped_lines: false,
            custom_terminals: Vec::new(),
        }
    }

    /// Whether the two configurations have the same contents.
    pub fn same_as(&self, other: &AppConfig) -> (r: bool)
        ensures
            r == same_config(*self, *other),
    {
        if !(self.selected_terminal == other.selected_terminal
            && self.confirm_destructive_actions == other.confirm_destructive_actions
            && self.snapshot_prefix == other.snapshot_prefix
            && self.default_export_dir == other.default_export_dir
            && self.show_skipped_lines == other.show_skipped_lines
            && self.custom_terminals.len() == other.custom_terminals.len()) {
            return false;
        }
        let mut i: usize = 0;
        while i < self.custom_terminals.len()
            invariant
                self.custom_terminals@.len() == other.custom_terminals@.len(),
                i <= self.custom_terminals@.len(),
                forall|j: int|
                    0 <= j < i ==> same_terminal(
                        #[trigger] self.custom_terminals@[j],
                        other.custom_terminals@[j],
                    ),
            decreases self.custom_terminals@.len() - i,
        {
            if !self.custom_terminals[i].same_as(&other.custom_terminals[i]) {
                return false;
            }
            i += 1;
        }
        true
    }
}

} // verus!
