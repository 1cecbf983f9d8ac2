//! The Backups and Packages pages: what their messages do to the shell.
use vstd::prelude::*;
use crate::backups::{BackupsDialog, BackupsState};
use crate::message::{BackupsMsg, ConfirmAction, ConfirmSpec, PackagesMsg};
use crate::model::{ContainerInfo, SnapshotInfo, Status};
use crate::msg::Msg;
use crate::packages::PackagesState;
use crate::shell::{
    ActiveDialog, BackendView, Effect, Job, Shell, confirm_post, failure_text, one, refused, two,
    unchanged,
};
use crate::shell_containers::{opt_text, row_named};
use crate::tasks::TaskKind;
use crate::text::{trim, trimmed};

verus! {

/// The scoped container's name, or nothing.
pub open spec fn name_or_empty(o: Option<String>) -> Seq<char> {
    match o {
        Some(s) => s@,
        None => Seq::empty(),
    }
}

/// A reload of the snapshot list for the scoped container, after `toast`.
pub open spec fn snapshots_reload<S>(old: Shell<S>, new: Shell<S>, toast: Effect, r: Seq<Effect>) -> bool {
    &&& new == Shell { backups: BackupsState { loading: true, ..old.backups }, ..old }
    &&& r.len() == 2 && r[0] == toast
    &&& match r[1] {
        Effect::LoadSnapshots(n) => n@ == name_or_empty(old.backups.container),
        _ => false,
    }
}

/// The name a snapshot id is confirmed with: the listed snapshot's name,
/// else the id itself.
pub open spec fn snapshot_name(snapshots: Seq<SnapshotInfo>, id: String) -> String {
    if exists|i: int| 0 <= i < snapshots.len() && snapshots[i].id@ == id@ {
        snapshots[choose|i: int|
            0 <= i < snapshots.len() && snapshots[i].id@ == id@ && forall|j: int|
                0 <= j < i ==> snapshots[j].id@ != id@].name
    } else {
        id
    }
}

/// A spawn with the given kind, label and job is the only effect.
pub open spec fn spawns(r: Seq<Effect>, label: Msg, job: Job) -> bool {
    r == seq![Effect::Spawn { kind: TaskKind::Other, label, job }]
}

/// What a Backups message does.
pub open spec fn backups_post<S>(
    old: Shell<S>,
    new: Shell<S>,
    bd: BackendView,
    msg: BackupsMsg,
    r: Seq<Effect>,
) -> bool {
    let b = old.backups;
    match msg {
        BackupsMsg::ContainerSelected(i) => if i < old.containers.containers@.len() {
            let c = old.containers.containers@[i as int].name;
            new == Shell {
                backups: BackupsState { container: Some(c), loading: true, error: None, ..b },
                ..old
            } && r == seq![Effect::LoadSnapshots(c)]
        } else {
            unchanged(old, new, r)
        },
        BackupsMsg::TabSelected(t) => new == Shell {
            backups: BackupsState { transfer_tab: t, ..b },
            ..old
        } && r == Seq::<Effect>::empty(),
        BackupsMsg::DeleteFinished(result) => snapshots_reload(
            old,
            new,
            match result {
                Ok(_) => Effect::Toast(Msg::SnapshotDeleted),
                Err(e) => Effect::Toast(Msg::CouldNotDeleteSnapshot { error: e }),
            },
            r,
        ),
        BackupsMsg::ReloadRequested => {
            &&& new == Shell { backups: BackupsState { loading: true, error: None, ..b }, ..old }
            &&& r.len() == 1 && match r[0] {
                Effect::LoadSnapshots(n) => n@ == name_or_empty(b.container),
                _ => false,
            }
        },
        BackupsMsg::SnapshotsLoaded(name, result) => if opt_text(b.container) != Some(name@) {
            unchanged(old, new, r)
        } else {
            r == Seq::<Effect>::empty() && match result {
                Ok(list) => new == Shell {
                    backups: BackupsState { loading: false, snapshots: list, error: None, ..b },
                    ..old
                },
                Err(e) => new == Shell {
                    backups: BackupsState { loading: false, error: Some(failure_text(e)), ..b },
                    ..old
                },
            }
        },
        BackupsMsg::CreateDialogRequested => match b.container {
            None => new == old && r == seq![Effect::Toast(Msg::SelectContainerFirst)],
            Some(c) => {
                &&& new.backups.create_name@ == c@ + "-snapshot"@
                &&& new == Shell {
                    backups: BackupsState {
                        create_name: new.backups.create_name,
                        create_error: None,
                        dialog: Some(BackupsDialog::Create),
                        ..b
                    },
                    ..old
                }
                &&& r == Seq::<Effect>::empty()
            },
        },
        BackupsMsg::CreateNameChanged(n) => new == Shell {
            backups: BackupsState { create_name: n, create_error: None, ..b },
            ..old
        } && r == Seq::<Effect>::empty(),
        BackupsMsg::CreateConfirmed => {
            let name = trimmed(b.create_name@);
            if b.container is None || name.len() == 0 {
                new == Shell {
                    backups: BackupsState { create_error: Some(Msg::SnapshotNameRequired), ..b },
                    ..old
                } && r == Seq::<Effect>::empty()
            } else if bd.blocked {
                refused(old, new, bd, r)
            } else {
                &&& new == Shell { backups: BackupsState { dialog: None, ..b }, ..old }
                &&& r.len() == 1 && match r[0] {
                    Effect::CreateSnapshot { container, name: n } => container == b.container->0
                        && n@ == name,
                    _ => false,
                }
            }
        },
        BackupsMsg::CreateFinished(result) => snapshots_reload(
            old,
            new,
            match result {
                Ok(_) => Effect::Toast(Msg::SnapshotCreated),
                Err(e) => Effect::Toast(Msg::CouldNotCreateSnapshot { error: e }),
            },
            r,
        ),
        BackupsMsg::DeleteRequested(id) => confirm_post(
            old,
            new,
            bd,
            ConfirmSpec {
                title: Msg::DeleteSnapshotTitle,
                body: Msg::ConfirmDeleteSnapshot { name: snapshot_name(b.snapshots@, id) },
                confirm_label: Msg::DeleteLabel,
                destructive: true,
                action: ConfirmAction::DeleteSnapshot(id),
            },
            r,
        ),
        BackupsMsg::RestoreDialogRequested(snapshot) => {
            &&& new.backups.restore is Some
            &&& (new.backups.restore->0).0 == snapshot
            &&& (new.backups.restore->0).1@ == "restored-container"@
            &&& new == Shell {
                backups: BackupsState {
                    restore: new.backups.restore,
                    restore_error: None,
                    dialog: Some(BackupsDialog::Restore(snapshot)),
                    ..b
                },
                ..old
            }
            &&& r == Seq::<Effect>::empty()
        },
        BackupsMsg::RestoreNameChanged(n) => new == Shell {
            backups: BackupsState {
                restore: match b.restore {
                    Some(p) => Some((p.0, n)),
                    None => None,
                },
                restore_error: None,
                ..b
            },
            ..old
        } && r == Seq::<Effect>::empty(),
        BackupsMsg::RestoreConfirmed => match b.restore {
            Some(p) if trimmed(p.1@).len() > 0 => if bd.blocked {
                refused(old, new, bd, r)
            } else {
                &&& new == Shell { backups: BackupsState { dialog: None, ..b }, ..old }
                &&& r.len() == 1 && match r[0] {
                    Effect::Spawn { kind, label, job } => kind == TaskKind::Other && match job {
                        Job::Restore { snapshot, name } => snapshot == p.0 && name@ == trimmed(
                            p.1@,
                        ) && label == (Msg::LabelRestore { snapshot, name }),
                        _ => false,
                    },
                    _ => false,
                }
            },
            _ => new == Shell {
                backups: BackupsState { restore_error: Some(Msg::NewContainerNameRequired), ..b },
                ..old
            } && r == Seq::<Effect>::empty(),
        },
        BackupsMsg::ExportDialogRequested => match b.container {
            Some(c) => {
                &&& new.backups.export_path@ == "/tmp/"@ + c@ + "-export.tar"@
                &&& new == Shell {
                    backups: BackupsState {
                        export_path: new.backups.export_path,
                        export_error: None,
                        dialog: Some(BackupsDialog::Export),
                        ..b
                    },
                    ..old
                }
                &&& r == Seq::<Effect>::empty()
            },
            None => new == old && r == seq![Effect::Toast(Msg::SelectContainerFirst)],
        },
        BackupsMsg::ExportPathChanged(p) => new == Shell {
            backups: BackupsState { export_path: p, export_error: None, ..b },
            ..old
        } && r == Seq::<Effect>::empty(),
        BackupsMsg::ExportBrowseRequested => new == old && r == seq![Effect::PickExportPath],
        BackupsMsg::ExportPathPicked(result) => r == Seq::<Effect>::empty() && match result {
            Ok(p) => new == Shell {
                backups: BackupsState { export_path: p, export_error: None, ..b },
                ..old
            },
            Err(_) => new == old,
        },
        BackupsMsg::ExportConfirmed => {
            let path = trimmed(b.export_path@);
            if b.container is None || path.len() == 0 {
                new == Shell {
                    backups: BackupsState { export_error: Some(Msg::OutputPathRequired), ..b },
                    ..old
                } && r == Seq::<Effect>::empty()
            } else if bd.blocked {
                refused(old, new, bd, r)
            } else {
                &&& new == Shell { backups: BackupsState { dialog: None, ..b }, ..old }
                &&& r.len() == 1 && match r[0] {
                    Effect::Spawn { kind, label, job } => kind == TaskKind::Other && match job {
                        Job::Export { container, path: p } => container == b.container->0 && p@
                            == path && label == (Msg::LabelExport { container, path: p }),
                        _ => false,
                    },
                    _ => false,
                }
            }
        },
        BackupsMsg::ImportDialogRequested => {
            &&& new.backups.import_path@.len() == 0 && new.backups.import_image@.len() == 0
            &&& new == Shell {
                backups: BackupsState {
                    import_path: new.backups.import_path,
                    import_image: new.backups.import_image,
                    import_error: None,
                    dialog: Some(BackupsDialog::Import),
                    ..b
                },
                ..old
            }
            &&& r == Seq::<Effect>::empty()
        },
        BackupsMsg::ImportPathChanged(p) => new == Shell {
            backups: BackupsState { import_path: p, import_error: None, ..b },
            ..old
        } && r == Seq::<Effect>::empty(),
        BackupsMsg::ImportImageChanged(i) => new == Shell {
            backups: BackupsState { import_image: i, import_error: None, ..b },
            ..old
        } && r == Seq::<Effect>::empty(),
        BackupsMsg::ImportPathPicked(result) => r == Seq::<Effect>::empty() && match result {
            Ok(p) => new == Shell {
                backups: BackupsState { import_path: p, import_error: None, ..b },
                ..old
            },
            Err(_) => new == old,
        },
        BackupsMsg::ImportBrowseRequested => new == old && r == seq![Effect::PickImportArchive],
        BackupsMsg::ImportConfirmed => {
            let path = trimmed(b.import_path@);
            let image = trimmed(b.import_image@);
            if path.len() == 0 || image.len() == 0 {
                new == Shell {
                    backups: BackupsState {
                        import_error: Some(Msg::ArchiveAndImageRequired),
                        ..b
                    },
                    ..old
                } && r == Seq::<Effect>::empty()
            } else if bd.blocked {
                refused(old, new, bd, r)
            } else {
                &&& new == Shell { backups: BackupsState { dialog: None, ..b }, ..old }
                &&& r.len() == 1 && match r[0] {
                    Effect::Spawn { kind, label, job } => kind == TaskKind::Other && match job {
                        Job::Import { path: p, image: i } => p@ == path && i@ == image && label
                            == (Msg::LabelImport { path: p, image: i }),
                        _ => false,
                    },
                    _ => false,
                }
            }
        },
        BackupsMsg::CloneDialogRequested => match b.container {
            Some(c) => match new.dialog {
                Some(ActiveDialog::Clone { source, name }) => source == c && name@ == c@
                    + "-clone"@ && new == Shell { dialog: new.dialog, ..old } && r == Seq::<
                    Effect,
                >::empty(),
                _ => false,
            },
            None => new == old && r == seq![Effect::Toast(Msg::SelectContainerFirst)],
        },
        BackupsMsg::DialogCancelled => new == Shell {
            backups: BackupsState { dialog: None, ..b },
            ..old
        } && r == Seq::<Effect>::empty(),
    }
}

/// Picking a package container: detect its manager and list what it has
/// installed, starting on the installed tab.
pub open spec fn package_pick_post<S>(old: Shell<S>, new: Shell<S>, name: String, r: Seq<Effect>) -> bool {
    &&& new == Shell {
        packages: PackagesState {
            container: Some(name),
            manager: None,
            error: None,
            search_tab: false,
            searching: false,
            loading: true,
            ..old.packages
        },
        ..old
    }
    &&& r == seq![Effect::DetectPackageManager(name), Effect::LoadInstalledPackages(name)]
}

/// Whether the named container is listed and running.
pub open spec fn container_running(s: Seq<ContainerInfo>, name: Seq<char>) -> bool {
    match row_named(s, name) {
        Some(c) => c.status is Up,
        None => false,
    }
}

/// The install confirm for a package.
pub open spec fn install_spec(container: String, package: String) -> ConfirmSpec {
    ConfirmSpec {
        title: Msg::InstallPackageTitle,
        body: Msg::ConfirmInstallPackage { package, container },
        confirm_label: Msg::InstallLabel,
        destructive: false,
        action: ConfirmAction::InstallPackage { container, package },
    }
}

/// What a Packages message does.
pub open spec fn packages_post<S>(
    old: Shell<S>,
    new: Shell<S>,
    bd: BackendView,
    msg: PackagesMsg,
    r: Seq<Effect>,
) -> bool {
    let p = old.packages;
    match msg {
        PackagesMsg::ContainerSelected(i) => if i < old.containers.containers@.len() {
            package_pick_post(old, new, old.containers.containers@[i as int].name, r)
        } else {
            unchanged(old, new, r)
        },
        PackagesMsg::TabSelected(t) => new == Shell {
            packages: PackagesState { search_tab: t, ..p },
            ..old
        } && r == Seq::<Effect>::empty(),
        PackagesMsg::QueryChanged(q) => new == Shell {
            packages: PackagesState { query: q, ..p },
            ..old
        } && r == Seq::<Effect>::empty(),
        PackagesMsg::SearchSubmitted => {
            let query = trimmed(p.query@);
            if p.container is None || query.len() == 0 || !container_running(
                old.containers.containers@,
                p.container->0@,
            ) {
                unchanged(old, new, r)
            } else {
                &&& new == Shell {
                    packages: PackagesState {
                        searching: true,
                        search_tab: true,
                        loading: true,
                        ..p
                    },
                    ..old
                }
                &&& r.len() == 1 && match r[0] {
                    Effect::SearchPackages { container, query: q } => container == p.container->0
                        && q@ == query,
                    _ => false,
                }
            }
        },
        PackagesMsg::SearchCleared => {
            &&& new.packages.query@.len() == 0 && new.packages.results@.len() == 0
            &&& new == Shell {
                packages: PackagesState {
                    query: new.packages.query,
                    results: new.packages.results,
                    searching: false,
                    search_tab: false,
                    ..p
                },
                ..old
            }
            &&& r == Seq::<Effect>::empty()
        },
        PackagesMsg::ReloadRequested(name) => package_pick_post(old, new, name, r),
        PackagesMsg::ManagerDetected(name, result) => if opt_text(p.container) != Some(name@) {
            unchanged(old, new, r)
        } else {
            r == Seq::<Effect>::empty() && match result {
                Ok(pm) => new == Shell {
                    packages: PackagesState { manager: Some(pm), ..p },
                    ..old
                },
                Err(e) => new == Shell {
                    packages: PackagesState { manager: None, error: Some(failure_text(e)), ..p },
                    ..old
                },
            }
        },
        PackagesMsg::InstalledLoaded(name, result) => if opt_text(p.container) != Some(name@) {
            unchanged(old, new, r)
        } else {
            r == Seq::<Effect>::empty() && match result {
                Ok(list) => new == Shell {
                    packages: PackagesState { loading: false, installed: list, error: None, ..p },
                    ..old
                },
                Err(e) => new == Shell {
                    packages: PackagesState { loading: false, error: Some(failure_text(e)), ..p },
                    ..old
                },
            }
        },
        PackagesMsg::SearchLoaded(result) => match result {
            Ok(list) => new == Shell {
                packages: PackagesState { loading: false, results: list, ..p },
                ..old
            } && r == Seq::<Effect>::empty(),
            Err(e) => new == Shell { packages: PackagesState { loading: false, ..p }, ..old } && r
                == seq![Effect::Toast(Msg::SearchFailed { error: e })],
        },
        PackagesMsg::InstallFromBox => {
            let query = trimmed(p.query@);
            if p.container is None || query.len() == 0 {
                unchanged(old, new, r)
            } else {
                exists|package: String|
                    package@ == query && confirm_post(
                        old,
                        new,
                        bd,
                        install_spec(p.container->0, package),
                        r,
                    )
            }
        },
        PackagesMsg::InstallRequested(name) => match p.container {
            Some(c) => confirm_post(old, new, bd, install_spec(c, name), r),
            None => unchanged(old, new, r),
        },
        PackagesMsg::RemoveRequested(name) => match p.container {
            Some(c) => confirm_post(
                old,
                new,
                bd,
                ConfirmSpec {
                    title: Msg::RemovePackageTitle,
                    body: Msg::ConfirmRemovePackage { package: name, container: c },
                    confirm_label: Msg::RemoveLabel,
                    destructive: true,
                    action: ConfirmAction::RemovePackage { container: c, package: name },
                },
                r,
            ),
            None => unchanged(old, new, r),
        },
        PackagesMsg::UpgradeAllRequested => match p.container {
            Some(c) => confirm_post(
                old,
                new,
                bd,
                ConfirmSpec {
                    title: Msg::UpgradeAllPackagesTitle,
                    body: Msg::ConfirmUpgradePackages { container: c },
                    confirm_label: Msg::UpgradeAllLabel,
                    destructive: false,
                    action: ConfirmAction::UpgradeContainer(c),
                },
                r,
            ),
            None => unchanged(old, new, r),
        },
        PackagesMsg::ManualCmdChanged(c) => new == Shell {
            packages: PackagesState { manual_cmd: c, ..p },
            ..old
        } && r == Seq::<Effect>::empty(),
        PackagesMsg::ManualRunRequested => new == old && r == seq![
            Effect::Toast(Msg::ManualCommandsPending),
        ],
    }
}

fn same_container(a: &Option<String>, name: &String) -> (r: bool)
    ensures
        r == (opt_text(*a) == Some(name@)),
{
    match a {
        Some(x) => *x == *name,
        None => false,
    }
}

fn name_of(o: &Option<String>) -> (r: String)
    ensures
        r@ == name_or_empty(*o),
{
    match o {
        Some(s) => s.clone(),
        None => String::new(),
    }
}

fn find_snapshot_name(snapshots: &Vec<SnapshotInfo>, id: &String) -> (r: String)
    ensures
        r == snapshot_name(snapshots@, *id),
{
    let mut i: usize = 0;
    while i < snapshots.len()
        invariant
            i <= snapshots@.len(),
            forall|j: int| 0 <= j < i ==> snapshots@[j].id@ != id@,
        decreases snapshots@.len() - i,
    {
        if snapshots[i].id == *id {
            proof {
                let k = choose|k: int|
                    0 <= k < snapshots@.len() && snapshots@[k].id@ == id@ && forall|j: int|
                        0 <= j < k ==> snapshots@[j].id@ != id@;
                assert(snapshots@[i as int].id@ == id@ && forall|j: int|
                    0 <= j < i ==> snapshots@[j].id@ != id@);
                if k < i {
                    assert(snapshots@[k].id@ != id@);
                } else if k > i {
                    assert(snapshots@[i as int].id@ != id@);
                }
            }
            return snapshots[i].name.clone();
        }
        i += 1;
    }
    id.clone()
}

fn is_running_named(containers: &[ContainerInfo], name: &str) -> (r: bool)
    ensures
        r == container_running(containers@, name@),
{
    proof {
        crate::model::lemma_first_named(containers@, name@);
    }
    match crate::model::position_named(containers, name) {
        Some(i) => crate::icons::is_running(&containers[i].status),
        None => false,
    }
}

impl<S> Shell<S> {
    fn reload_snapshots(&mut self, toast: Effect) -> (r: Vec<Effect>)
        ensures
            snapshots_reload(*old(self), *final(self), toast, r@),
    {
        self.backups.loading = true;
        let name = name_of(&self.backups.container);
        two(toast, Effect::LoadSnapshots(name))
    }

    #[verifier::rlimit(40)]
    fn backups_list(&mut self, msg: BackupsMsg, bd: &BackendView) -> (r: Vec<Effect>)
        requires
            msg is ContainerSelected || msg is TabSelected || msg is DeleteFinished || msg is ReloadRequested || msg is SnapshotsLoaded,
        ensures
            backups_post(*old(self), *final(self), *bd, msg, r@),
    {
        match msg {
            BackupsMsg::ContainerSelected(i) => {
                if i < self.containers.containers.len() {
                    let c = self.containers.containers[i].name.clone();
                    self.backups.container = Some(c.clone());
                    self.backups.loading = true;
                    self.backups.error = None;
                    one(Effect::LoadSnapshots(c))
                } else {
                    Vec::new()
                }
            },
            BackupsMsg::TabSelected(t) => {
                self.backups.transfer_tab = t;
                Vec::new()
            },
            BackupsMsg::DeleteFinished(result) => {
                let toast = match result {
                    Ok(_) => Effect::Toast(Msg::SnapshotDeleted),
                    Err(e) => Effect::Toast(Msg::CouldNotDeleteSnapshot { error: e }),
                };
                self.reload_snapshots(toast)
            },
            BackupsMsg::ReloadRequested => {
                self.backups.loading = true;
                self.backups.error = None;
                let name = name_of(&self.backups.container);
                one(Effect::LoadSnapshots(name))
            },
            BackupsMsg::SnapshotsLoaded(name, result) => {
                if !same_container(&self.backups.container, &name) {
                    return Vec::new();
                }
                self.backups.loading = false;
                match result {
                    Ok(list) => {
                        self.backups.snapshots = list;
                        self.backups.error = None;
                    },
                    Err(e) => {
                        self.backups.error = Some(crate::shell::error_text(&e));
                    },
                }
                Vec::new()
            },
            _ => Vec::new(),
        }
    }

    #[verifier::rlimit(40)]
    fn backups_create(&mut self, msg: BackupsMsg, bd: &BackendView) -> (r: Vec<Effect>)
        requires
            msg is CreateDialogRequested || msg is CreateNameChanged || msg is CreateConfirmed || msg is CreateFinished || msg is DeleteRequested,
        ensures
            backups_post(*old(self), *final(self), *bd, msg, r@),
    {
        match msg {
            BackupsMsg::CreateDialogRequested => {
                let container = match &self.backups.container {
                    Some(c) => c.clone(),
                    None => return one(Effect::Toast(Msg::SelectContainerFirst)),
                };
                self.backups.create_name = BackupsState::default_snapshot_name(container.as_str());
                self.backups.create_error = None;
                self.backups.dialog = Some(BackupsDialog::Create);
                Vec::new()
            },
            BackupsMsg::CreateNameChanged(n) => {
                self.backups.create_name = n;
                self.backups.create_error = None;
                Vec::new()
            },
            BackupsMsg::CreateConfirmed => {
                let name = String::from_str(trim(self.backups.create_name.as_str()));
                let container = match &self.backups.container {
                    Some(c) if !name.as_str().is_empty() => c.clone(),
                    _ => {
                        self.backups.create_error = Some(Msg::SnapshotNameRequired);
                        return Vec::new();
                    },
                };
                if bd.blocked {
                    return self.refuse(bd);
                }
                self.backups.dialog = None;
                one(Effect::CreateSnapshot { container, name })
            },
            BackupsMsg::CreateFinished(result) => {
                let toast = match result {
                    Ok(_) => Effect::Toast(Msg::SnapshotCreated),
                    Err(e) => Effect::Toast(Msg::CouldNotCreateSnapshot { error: e }),
                };
                self.reload_snapshots(toast)
            },
            BackupsMsg::DeleteRequested(id) => {
                let name = find_snapshot_name(&self.backups.snapshots, &id);
                let spec = ConfirmSpec {
                    title: Msg::DeleteSnapshotTitle,
                    body: Msg::ConfirmDeleteSnapshot { name },
                    confirm_label: Msg::DeleteLabel,
                    destructive: true,
                    action: ConfirmAction::DeleteSnapshot(id),
                };
                self.confirm_or_run(spec, bd)
            },
            _ => Vec::new(),
        }
    }

    #[verifier::rlimit(40)]
    fn backups_restore(&mut self, msg: BackupsMsg, bd: &BackendView) -> (r: Vec<Effect>)
        requires
            msg is RestoreDialogRequested || msg is RestoreNameChanged || msg is RestoreConfirmed || msg is CloneDialogRequested || msg is DialogCancelled,
        ensures
            backups_post(*old(self), *final(self), *bd, msg, r@),
    {
        match msg {
            BackupsMsg::RestoreDialogRequested(snapshot) => {
                self.backups.restore = Some(
                    (snapshot.clone(), String::from_str("restored-container")),
                );
                self.backups.restore_error = None;
                self.backups.dialog = Some(BackupsDialog::Restore(snapshot));
                Vec::new()
            },
            BackupsMsg::RestoreNameChanged(n) => {
                let restore = self.backups.restore.take();
                self.backups.restore = match restore {
                    Some((s, _)) => Some((s, n)),
                    None => None,
                };
                self.backups.restore_error = None;
                Vec::new()
            },
            BackupsMsg::RestoreConfirmed => {
                let pair = match &self.backups.restore {
                    Some((s, n)) => {
                        let t = String::from_str(trim(n.as_str()));
                        if t.as_str().is_empty() {
                            None
                        } else {
                            Some((s.clone(), t))
                        }
                    },
                    None => None,
                };
                let (snapshot, name) = match pair {
                    Some(p) => p,
                    None => {
                        self.backups.restore_error = Some(Msg::NewContainerNameRequired);
                        return Vec::new();
                    },
                };
                if bd.blocked {
                    return self.refuse(bd);
                }
                self.backups.dialog = None;
                let label = Msg::LabelRestore { snapshot: snapshot.clone(), name: name.clone() };
                one(
                    Effect::Spawn {
                        kind: TaskKind::Other,
                        label,
                        job: Job::Restore { snapshot, name },
                    },
                )
            },
            BackupsMsg::CloneDialogRequested => {
                match &self.backups.container {
                    Some(c) => {
                        let name = String::from_str(c.as_str()).concat("-clone");
                        self.dialog = Some(ActiveDialog::Clone { source: c.clone(), name });
                        Vec::new()
                    },
                    None => one(Effect::Toast(Msg::SelectContainerFirst)),
                }
            },
            BackupsMsg::DialogCancelled => {
                self.backups.dialog = None;
                Vec::new()
            },            _ => Vec::new(),
        }
    }

    #[verifier::rlimit(40)]
    fn backups_export(&mut self, msg: BackupsMsg, bd: &BackendView) -> (r: Vec<Effect>)
        requires
            msg is ExportDialogRequested || msg is ExportPathChanged || msg is ExportBrowseRequested || msg is ExportPathPicked || msg is ExportConfirmed,
        ensures
            backups_post(*old(self), *final(self), *bd, msg, r@),
    {
        match msg {
            BackupsMsg::ExportDialogRequested => {
                match &self.backups.container {
                    Some(c) => {
                        let path = BackupsState::default_export_path(c.as_str());
                        self.backups.export_path = path;
                        self.backups.export_error = None;
                        self.backups.dialog = Some(BackupsDialog::Export);
                        Vec::new()
                    },
                    None => one(Effect::Toast(Msg::SelectContainerFirst)),
                }
            },
            BackupsMsg::ExportPathChanged(p) => {
                self.backups.export_path = p;
                self.backups.export_error = None;
                Vec::new()
            },
            BackupsMsg::ExportBrowseRequested => one(Effect::PickExportPath),
            BackupsMsg::ExportPathPicked(result) => {
                if let Ok(p) = result {
                    self.backups.export_path = p;
                    self.backups.export_error = None;
                }
                Vec::new()
            },
            BackupsMsg::ExportConfirmed => {
                let path = String::from_str(trim(self.backups.export_path.as_str()));
                let container = match &self.backups.container {
                    Some(c) if !path.as_str().is_empty() => c.clone(),
                    _ => {
                        self.backups.export_error = Some(Msg::OutputPathRequired);
                        return Vec::new();
                    },
                };
                if bd.blocked {
                    return self.refuse(bd);
                }
                self.backups.dialog = None;
                let label = Msg::LabelExport { container: container.clone(), path: path.clone() };
                one(
                    Effect::Spawn {
                        kind: TaskKind::Other,
                        label,
                        job: Job::Export { container, path },
                    },
                )
            },
            _ => Vec::new(),
        }
    }

    #[verifier::rlimit(40)]
    fn backups_import(&mut self, msg: BackupsMsg, bd: &BackendView) -> (r: Vec<Effect>)
        requires
            msg is ImportDialogRequested || msg is ImportPathChanged || msg is ImportImageChanged || msg is ImportPathPicked || msg is ImportBrowseRequested || msg is ImportConfirmed,
        ensures
            backups_post(*old(self), *final(self), *bd, msg, r@),
    {
        match msg {
            BackupsMsg::ImportDialogRequested => {
                self.backups.import_path = String::new();
                self.backups.import_image = String::new();
                self.backups.import_error = None;
                self.backups.dialog = Some(BackupsDialog::Import);
                Vec::new()
            },
            BackupsMsg::ImportPathChanged(p) => {
                self.backups.import_path = p;
                self.backups.import_error = None;
                Vec::new()
            },
            BackupsMsg::ImportImageChanged(i) => {
                self.backups.import_image = i;
                self.backups.import_error = None;
                Vec::new()
            },
            BackupsMsg::ImportPathPicked(result) => {
                if let Ok(p) = result {
                    self.backups.import_path = p;
                    self.backups.import_error = None;
                }
                Vec::new()
            },
            BackupsMsg::ImportBrowseRequested => one(Effect::PickImportArchive),
            BackupsMsg::ImportConfirmed => {
                let path = String::from_str(trim(self.backups.import_path.as_str()));
                let image = String::from_str(trim(self.backups.import_image.as_str()));
                if path.as_str().is_empty() || image.as_str().is_empty() {
                    self.backups.import_error = Some(Msg::ArchiveAndImageRequired);
                    return Vec::new();
                }
                if bd.blocked {
                    return self.refuse(bd);
                }
                self.backups.dialog = None;
                let label = Msg::LabelImport { path: path.clone(), image: image.clone() };
                one(Effect::Spawn { kind: TaskKind::Other, label, job: Job::Import { path, image } })
            },
            _ => Vec::new(),
        }
    }

    /// Handle a Backups message.
    #[verifier::rlimit(60)]
    pub fn update_backups(&mut self, msg: BackupsMsg, bd: &BackendView) -> (r: Vec<Effect>)
        ensures
            backups_post(*old(self), *final(self), *bd, msg, r@),
    {
        match msg {
            BackupsMsg::ContainerSelected(_) => self.backups_list(msg, bd),
            BackupsMsg::TabSelected(_) => self.backups_list(msg, bd),
            BackupsMsg::DeleteFinished(_) => self.backups_list(msg, bd),
            BackupsMsg::ReloadRequested => self.backups_list(msg, bd),
            BackupsMsg::SnapshotsLoaded(_, _) => self.backups_list(msg, bd),
            BackupsMsg::CreateDialogRequested => self.backups_create(msg, bd),
            BackupsMsg::CreateNameChanged(_) => self.backups_create(msg, bd),
            BackupsMsg::CreateConfirmed => self.backups_create(msg, bd),
            BackupsMsg::CreateFinished(_) => self.backups_create(msg, bd),
            BackupsMsg::DeleteRequested(_) => self.backups_create(msg, bd),
            BackupsMsg::RestoreDialogRequested(_) => self.backups_restore(msg, bd),
            BackupsMsg::RestoreNameChanged(_) => self.backups_restore(msg, bd),
            BackupsMsg::RestoreConfirmed => self.backups_restore(msg, bd),
            BackupsMsg::CloneDialogRequested => self.backups_restore(msg, bd),
            BackupsMsg::DialogCancelled => self.backups_restore(msg, bd),
            BackupsMsg::ExportDialogRequested => self.backups_export(msg, bd),
            BackupsMsg::ExportPathChanged(_) => self.backups_export(msg, bd),
            BackupsMsg::ExportBrowseRequested => self.backups_export(msg, bd),
            BackupsMsg::ExportPathPicked(_) => self.backups_export(msg, bd),
            BackupsMsg::ExportConfirmed => self.backups_export(msg, bd),
            BackupsMsg::ImportDialogRequested => self.backups_import(msg, bd),
            BackupsMsg::ImportPathChanged(_) => self.backups_import(msg, bd),
            BackupsMsg::ImportImageChanged(_) => self.backups_import(msg, bd),
            BackupsMsg::ImportPathPicked(_) => self.backups_import(msg, bd),
            BackupsMsg::ImportBrowseRequested => self.backups_import(msg, bd),
            BackupsMsg::ImportConfirmed => self.backups_import(msg, bd),

        }
    }

    /// Pick the package container: detect its manager and load its list.
    pub fn select_package_container(&mut self, name: String) -> (r: Vec<Effect>)
        ensures
            package_pick_post(*old(self), *final(self), name, r@),
    {
        self.packages.container = Some(name.clone());
        self.packages.manager = None;
        self.packages.error = None;
        self.packages.search_tab = false;
        self.packages.searching = false;
        self.packages.loading = true;
        two(Effect::DetectPackageManager(name.clone()), Effect::LoadInstalledPackages(name))
    }

    fn confirm_install(&mut self, container: String, package: String, bd: &BackendView) -> (r: Vec<
        Effect,
    >)
        ensures
            confirm_post(*old(self), *final(self), *bd, install_spec(container, package), r@),
    {
        let spec = ConfirmSpec {
            title: Msg::InstallPackageTitle,
            body: Msg::ConfirmInstallPackage { package: package.clone(), container: container.clone() },
            confirm_label: Msg::InstallLabel,
            destructive: false,
            action: ConfirmAction::InstallPackage { container, package },
        };
        self.confirm_or_run(spec, bd)
    }

    #[verifier::rlimit(40)]
    fn packages_list(&mut self, msg: PackagesMsg, bd: &BackendView) -> (r: Vec<Effect>)
        requires
            msg is ContainerSelected || msg is TabSelected || msg is QueryChanged || msg is ReloadRequested || msg is ManagerDetected || msg is InstalledLoaded,
        ensures
            packages_post(*old(self), *final(self), *bd, msg, r@),
    {
        match msg {
            PackagesMsg::ContainerSelected(i) => {
                if i < self.containers.containers.len() {
                    let c = self.containers.containers[i].name.clone();
                    self.select_package_container(c)
                } else {
                    Vec::new()
                }
            },
            PackagesMsg::TabSelected(t) => {
                self.packages.search_tab = t;
                Vec::new()
            },
            PackagesMsg::QueryChanged(q) => {
                self.packages.query = q;
                Vec::new()
            },
            PackagesMsg::ReloadRequested(name) => self.select_package_container(name),
            PackagesMsg::ManagerDetected(name, result) => {
                if !same_container(&self.packages.container, &name) {
                    return Vec::new();
                }
                match result {
                    Ok(pm) => {
                        self.packages.manager = Some(pm);
                    },
                    Err(e) => {
                        self.packages.manager = None;
                        self.packages.error = Some(crate::shell::error_text(&e));
                    },
                }
                Vec::new()
            },
            PackagesMsg::InstalledLoaded(name, result) => {
                if !same_container(&self.packages.container, &name) {
                    return Vec::new();
                }
                self.packages.loading = false;
                match result {
                    Ok(list) => {
                        self.packages.installed = list;
                        self.packages.error = None;
                    },
                    Err(e) => {
                        self.packages.error = Some(crate::shell::error_text(&e));
                    },
                }
                Vec::new()
            },
            _ => Vec::new(),
        }
    }

    #[verifier::rlimit(40)]
    fn packages_search(&mut self, msg: PackagesMsg, bd: &BackendView) -> (r: Vec<Effect>)
        requires
            msg is SearchSubmitted || msg is SearchCleared || msg is SearchLoaded || msg is ManualCmdChanged || msg is ManualRunRequested,
        ensures
            packages_post(*old(self), *final(self), *bd, msg, r@),
    {
        match msg {
            PackagesMsg::SearchSubmitted => {
                let query = String::from_str(trim(self.packages.query.as_str()));
                if query.as_str().is_empty() {
                    return Vec::new();
                }
                let container = match &self.packages.container {
                    Some(c) => c.clone(),
                    None => return Vec::new(),
                };
                if !is_running_named(self.containers.containers.as_slice(), container.as_str()) {
                    return Vec::new();
                }
                self.packages.searching = true;
                self.packages.search_tab = true;
                self.packages.loading = true;
                one(Effect::SearchPackages { container, query })
            },
            PackagesMsg::SearchCleared => {
                self.packages.query = String::new();
                self.packages.results = Vec::new();
                self.packages.searching = false;
                self.packages.search_tab = false;
                Vec::new()
            },
            PackagesMsg::SearchLoaded(result) => {
                self.packages.loading = false;
                match result {
                    Ok(list) => {
                        self.packages.results = list;
                        Vec::new()
                    },
                    Err(e) => one(Effect::Toast(Msg::SearchFailed { error: e })),
                }
            },
            PackagesMsg::ManualCmdChanged(c) => {
                self.packages.manual_cmd = c;
                Vec::new()
            },
            PackagesMsg::ManualRunRequested => one(Effect::Toast(Msg::ManualCommandsPending)),            _ => Vec::new(),
        }
    }

    #[verifier::rlimit(40)]
    fn packages_confirm(&mut self, msg: PackagesMsg, bd: &BackendView) -> (r: Vec<Effect>)
        requires
            msg is InstallFromBox || msg is InstallRequested || msg is RemoveRequested || msg is UpgradeAllRequested,
        ensures
            packages_post(*old(self), *final(self), *bd, msg, r@),
    {
        match msg {
            PackagesMsg::InstallFromBox => {
                let query = String::from_str(trim(self.packages.query.as_str()));
                if query.as_str().is_empty() {
                    return Vec::new();
                }
                let c = match &self.packages.container {
                    Some(c) => c.clone(),
                    None => return Vec::new(),
                };
                let ghost q = query;
                let r = self.confirm_install(c, query, bd);
                assert(q@ == trimmed(old(self).packages.query@));
                assert(confirm_post(*old(self), *final(self), *bd, install_spec(old(self).packages.container->0, q), r@));
                r
            },
            PackagesMsg::InstallRequested(name) => {
                match &self.packages.container {
                    Some(c) => {
                        let c = c.clone();
                        self.confirm_install(c, name, bd)
                    },
                    None => Vec::new(),
                }
            },
            PackagesMsg::RemoveRequested(name) => {
                match &self.packages.container {
                    Some(c) => {
                        let c = c.clone();
                        let spec = ConfirmSpec {
                            title: Msg::RemovePackageTitle,
                            body: Msg::ConfirmRemovePackage {
                                package: name.clone(),
                                container: c.clone(),
                            },
                            confirm_label: Msg::RemoveLabel,
                            destructive: true,
                            action: ConfirmAction::RemovePackage { container: c, package: name },
                        };
                        self.confirm_or_run(spec, bd)
                    },
                    None => Vec::new(),
                }
            },
            PackagesMsg::UpgradeAllRequested => {
                match &self.packages.container {
                    Some(c) => {
                        let c = c.clone();
                        let spec = ConfirmSpec {
                            title: Msg::UpgradeAllPackagesTitle,
                            body: Msg::ConfirmUpgradePackages { container: c.clone() },
                            confirm_label: Msg::UpgradeAllLabel,
                            destructive: false,
                            action: ConfirmAction::UpgradeContainer(c),
                        };
                        self.confirm_or_run(spec, bd)
                    },
                    None => Vec::new(),
                }
            },
            _ => Vec::new(),
        }
    }

    /// Handle a Packages message.
    #[verifier::rlimit(60)]
    pub fn update_packages(&mut self, msg: PackagesMsg, bd: &BackendView) -> (r: Vec<Effect>)
        ensures
            packages_post(*old(self), *final(self), *bd, msg, r@),
    {
        match msg {
            PackagesMsg::ContainerSelected(_) => self.packages_list(msg, bd),
            PackagesMsg::TabSelected(_) => self.packages_list(msg, bd),
            PackagesMsg::QueryChanged(_) => self.packages_list(msg, bd),
            PackagesMsg::ReloadRequested(_) => self.packages_list(msg, bd),
            PackagesMsg::ManagerDetected(_, _) => self.packages_list(msg, bd),
            PackagesMsg::InstalledLoaded(_, _) => self.packages_list(msg, bd),
            PackagesMsg::SearchSubmitted => self.packages_search(msg, bd),
            PackagesMsg::SearchCleared => self.packages_search(msg, bd),
            PackagesMsg::SearchLoaded(_) => self.packages_search(msg, bd),
            PackagesMsg::ManualCmdChanged(_) => self.packages_search(msg, bd),
            PackagesMsg::ManualRunRequested => self.packages_search(msg, bd),
            PackagesMsg::InstallFromBox => self.packages_confirm(msg, bd),
            PackagesMsg::InstallRequested(_) => self.packages_confirm(msg, bd),
            PackagesMsg::RemoveRequested(_) => self.packages_confirm(msg, bd),
            PackagesMsg::UpgradeAllRequested => self.packages_confirm(msg, bd),

        }
    }
}

} // verus!
