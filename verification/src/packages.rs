//! The Packages page's state: the container it works on, the detected
//! package manager, the installed list, the search and its results.
use vstd::prelude::*;
use crate::model::{PackageInfo, PackageManager};
use crate::msg::Msg;

verus! {

/// Package page state; it survives leaving and returning to the page.
#[derive(Clone, Debug, PartialEq, Eq)]
pub struct PackagesState {
    /// The container the page works on.
    pub container: Option<String>,
    /// Search tab (`false`: the installed tab).
    pub search_tab: bool,
    pub query: String,
    /// A search has run and its results are shown.
    pub searching: bool,
    pub installed: Vec<PackageInfo>,
    pub results: Vec<PackageInfo>,
    /// `None` while the manager is being detected.
    pub manager: Option<PackageManager>,
    pub loading: bool,
    pub error: Option<Msg>,
    /// The command typed for a container whose manager is unknown.
    pub manual_cmd: String,
}

/// The page before any container is picked: everything empty.
pub open spec fn packages_blank(s: PackagesState) -> bool {
    &&& s.container is None
    &&& !s.search_tab
    &&& s.query@.len() == 0
    &&& !s.searching
    &&& s.installed@.len() == 0
    &&& s.results@.len() == 0
    &&& s.manager is None
    &&& !s.loading
    &&& s.error is None
    &&& s.manual_cmd@.len() == 0
}

impl Default for PackagesState {
    fn default() -> (r: Self)
        ensures
            packages_blank(r),
    {
        PackagesState {
            container: None,
            search_tab: false,
            query: String::new(),
            searching: false,
            installed: Vec::new(),
            results: Vec::new(),
            manager: None,
            loading: false,
            error: None,
            manual_cmd: String::new(),
        }
    }
}

/// The badge word for a package manager: its name in capitals.
pub open spec fn manager_badge(pm: PackageManager) -> Seq<char> {
    match pm {
        PackageManager::Apt => "APT"@,
        PackageManager::Dnf => "DNF"@,
        PackageManager::Yum => "YUM"@,
        PackageManager::Pacman => "PACMAN"@,
        PackageManager::Apk => "APK"@,
        PackageManager::Zypper => "ZYPPER"@,
        PackageManager::Xbps => "XBPS"@,
        PackageManager::Emerge => "EMERGE"@,
        PackageManager::Unknown => "UNKNOWN"@,
    }
}

impl PackageManager {
    /// The badge word for this manager.
    pub fn badge(self) -> (r: &'static str)
        ensures
            r@ == manager_badge(self),
    {
        match self {
            PackageManager::Apt => "APT",
            PackageManager::Dnf => "DNF",
            PackageManager::Yum => "YUM",
            PackageManager::Pacman => "PACMAN",
            PackageManager::Apk => "APK",
            PackageManager::Zypper => "ZYPPER",
            PackageManager::Xbps => "XBPS",
            PackageManager::Emerge => "EMERGE",
            PackageManager::Unknown => "UNKNOWN",
        }
    }
}

impl PackagesState {
    /// The package-manager badge: the manager's word, or `Detecting…` while
    /// it is not known yet.
    pub fn badge(manager: Option<PackageManager>) -> (r: String)
        ensures
            match manager {
                Some(pm) => r@ == manager_badge(pm),
                None => r@ == "Detecting…"@,
            },
    {
        match manager {
            Some(pm) => String::from_str(pm.badge()),
            None => String::from_str("Detecting…"),
        }
    }
}

} // verus!
