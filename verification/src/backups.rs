//! The Backups page's state: the container it is scoped to, the snapshot
//! list, and the fields of its create, restore, export and import dialogs.
use vstd::prelude::*;
use crate::model::SnapshotInfo;
use crate::msg::Msg;

verus! {

/// Which backups dialog is open.
#[derive(Clone, Debug, PartialEq, Eq)]
pub enum BackupsDialog {
    Create,
    /// Restore the named snapshot.
    Restore(String),
    Export,
    Import,
}

/// Backups page state.
#[derive(Clone, Debug, PartialEq, Eq)]
pub struct BackupsState {
    /// The container snapshots, export and clone are scoped to.
    pub container: Option<String>,
    /// Export/Import tab (`false`: the snapshots tab).
    pub transfer_tab: bool,
    pub snapshots: Vec<SnapshotInfo>,
    pub loading: bool,
    pub error: Option<Msg>,
    /// Create-snapshot dialog: the name field and its error.
    pub create_name: String,
    pub create_error: Option<Msg>,
    /// Restore dialog: the snapshot and the new container's name.
    pub restore: Option<(String, String)>,
    pub restore_error: Option<Msg>,
    /// Export dialog: the output path.
    pub export_path: String,
    pub export_error: Option<Msg>,
    /// Import dialog: the archive path and the image name.
    pub import_path: String,
    pub import_image: String,
    pub import_error: Option<Msg>,
    pub dialog: Option<BackupsDialog>,
}

/// The page before any container is picked: everything empty.
pub open spec fn backups_blank(s: BackupsState) -> bool {
    &&& s.container is None
    &&& !s.transfer_tab
    &&& s.snapshots@.len() == 0
    &&& !s.loading
    &&& s.error is None
    &&& s.create_name@.len() == 0
    &&& s.create_error is None
    &&& s.restore is None
    &&& s.restore_error is None
    &&& s.export_path@.len() == 0
    &&& s.export_error is None
    &&& s.import_path@.len() == 0
    &&& s.import_image@.len() == 0
    &&& s.import_error is None
    &&& s.dialog is None
}

impl Default for BackupsState {
    fn default() -> (r: Self)
        ensures
            backups_blank(r),
    {
        BackupsState {
            container: None,
            transfer_tab: false,
            snapshots: Vec::new(),
            loading: false,
            error: None,
            create_name: String::new(),
            create_error: None,
            restore: None,
            restore_error: None,
            export_path: String::new(),
            export_error: None,
            import_path: String::new(),
            import_image: String::new(),
            import_error: None,
            dialog: None,
        }
    }
}

impl BackupsState {
    /// The create dialog's prefilled name: `{container}-snapshot`.
    pub fn default_snapshot_name(container: &str) -> (r: String)
        ensures
            r@ == container@ + "-snapshot"@,
    {
        String::from_str(container).concat("-snapshot")
    }

    /// The export dialog's prefilled path: `/tmp/{container}-export.tar`.
    pub fn default_export_path(container: &str) -> (r: String)
        ensures
            r@ == "/tmp/"@ + container@ + "-export.tar"@,
    {
        String::from_str("/tmp/").concat(container).concat("-export.tar")
    }
}

} // verus!
