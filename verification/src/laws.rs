//! Properties of the shell that span messages: what a sequence of messages
//! does, proved from the handlers' contracts.
use vstd::prelude::*;
use crate::message::{
    AppMsg, BackupsMsg, ConfirmSpec, ContainerMsg, DialogMsg, PackagesMsg, SettingsMsg, TaskMsg,
    TerminalMsg, running_in,
};
use crate::model::{AppConfig, AppInfo, ContainerInfo, Failure, SnapshotInfo, TaskId, same_config};
use crate::shell::{
    ActiveDialog, BackendView, Effect, Shell, busy_has, confirm_post, confirms_enabled,
    dispatch_post, guarded, running_names,
};
use crate::shell_backups::{backups_post, packages_post};
use crate::shell_containers::{clone_checked_post, containers_post, details_post, dialog_post, opt_text};
use crate::shell_pages::{apps_post, images_post, tasks_post, without_all};
use crate::shell_settings::{create_checked_post, nav_post, settings_post, terminal_post};
use crate::wizard::CreateRequest;
use crate::tasks::{
    TaskView, has_id, keep, lemma_keep, not_completed, ring_append, unfinished, without,
};
use crate::terminal::terminal_closed;
use crate::views::Page;
use crate::wizard::{WizardEffect, WizardState, WizardStep, effective_image_of, wizard_step};
use crate::message::{DetailsMsg, ImageMsg, WizardMsg};
use crate::text::{is_white_space, trimmed, trim_start, trim_end};
use crate::shell::{Job, delete_all_key, remove_key, start_key, stop_all_key, stop_key};

verus! {

/// A second press of a guarded mutation while the first is in flight does
/// nothing: the first press took the key, so the second is ignored.
pub proof fn lemma_second_press_ignored<S>(
    s0: Shell<S>,
    s1: Shell<S>,
    s2: Shell<S>,
    bd: BackendView,
    key: Seq<char>,
    e1: Effect,
    e2: Effect,
    r1: Seq<Effect>,
    r2: Seq<Effect>,
)
    requires
        guarded(s0, s1, bd, key, e1, r1),
        guarded(s1, s2, bd, key, e2, r2),
        !bd.blocked,
    ensures
        s2 == s1,
        r2.len() == 0,
{
    assert(busy_has(s1.busy@, key)) by {
        if !busy_has(s0.busy@, key) {
            assert(s1.busy@[s1.busy@.len() - 1]@ == key);
        }
    }
}

/// A finished short mutation releases every key, so the next press runs.
pub proof fn lemma_finish_releases_keys<S>(
    s0: Shell<S>,
    s1: Shell<S>,
    bd: BackendView,
    result: Result<crate::msg::Msg, Failure>,
    r: Seq<Effect>,
    key: Seq<char>,
)
    requires
        containers_post(s0, s1, bd, ContainerMsg::ActionFinished(result), r),
    ensures
        !busy_has(s1.busy@, key),
{
}

/// Confirming an opened confirm dialog does exactly what running the action
/// at once would have done, and cancelling it only closes the dialog.
pub proof fn lemma_confirm_then_dispatch<S>(
    s0: Shell<S>,
    s1: Shell<S>,
    s2: Shell<S>,
    s3: Shell<S>,
    bd: BackendView,
    spec: ConfirmSpec,
    r1: Seq<Effect>,
    r2: Seq<Effect>,
    r3: Seq<Effect>,
)
    requires
        !(spec.destructive && !confirms_enabled(s0)),
        confirm_post(s0, s1, bd, spec, r1),
        dialog_post(s1, s2, bd, DialogMsg::Confirmed, r2),
        dialog_post(s1, s3, bd, DialogMsg::Cancelled, r3),
    ensures
        r1.len() == 0,
        s1.dialog == Some(ActiveDialog::Confirm(spec)),
        dispatch_post((Shell { dialog: None, ..s0 }), s2, bd, spec.action, r2),
        s3 == (Shell { dialog: None, ..s0 }),
        r3.len() == 0,
{
    assert(Shell { dialog: None, ..s1 } == Shell { dialog: None, ..s0 });
}

/// With destructive confirms turned off, a destructive action runs at once.
pub proof fn lemma_confirms_off_runs_at_once<S>(
    s0: Shell<S>,
    s1: Shell<S>,
    bd: BackendView,
    spec: ConfirmSpec,
    r: Seq<Effect>,
)
    requires
        spec.destructive,
        s0.config is Some,
        !s0.config->0.confirm_destructive_actions,
        confirm_post(s0, s1, bd, spec, r),
    ensures
        dispatch_post((Shell { dialog: None, ..s0 }), s1, bd, spec.action, r),
{
}

/// A reply for a container other than the one on screen changes nothing:
/// app lists, snapshot lists, package lists and the enter command all drop
/// stale answers.
pub proof fn lemma_stale_replies_ignored<S>(
    s: Shell<S>,
    bd: BackendView,
    container: String,
    apps: Result<Vec<AppInfo>, Failure>,
    snapshots: Result<Vec<SnapshotInfo>, Failure>,
    argv: Result<Vec<String>, Failure>,
    a: Shell<S>,
    ra: Seq<Effect>,
    b: Shell<S>,
    rb: Seq<Effect>,
    t: Shell<S>,
    rt: Seq<Effect>,
)
    requires
        apps_post(s, a, bd, AppMsg::Loaded(container, apps), ra),
        backups_post(s, b, bd, BackupsMsg::SnapshotsLoaded(container, snapshots), rb),
        terminal_post(s, t, bd, TerminalMsg::CommandLoaded(container, argv), rt),
    ensures
        opt_text(s.selected_container) != Some(container@) ==> a == s && ra.len() == 0,
        opt_text(s.backups.container) != Some(container@) ==> b == s && rb.len() == 0,
        opt_text(s.terminal.container) != Some(container@) ==> t == s && rt.len() == 0,
{
}

/// A preferences notice equal to what is loaded (the echo of the shell's own
/// write) changes nothing; any other replaces the preferences and re-syncs
/// the custom terminals.
pub proof fn lemma_config_echo_is_quiet<S>(
    s0: Shell<S>,
    s1: Shell<S>,
    bd: BackendView,
    cfg: AppConfig,
    r: Seq<Effect>,
)
    requires
        settings_post(s0, s1, bd, SettingsMsg::ConfigChanged(cfg), r),
    ensures
        s0.config is Some && same_config(s0.config->0, cfg) ==> s1 == s0 && r.len() == 0,
        !(s0.config is Some && same_config(s0.config->0, cfg)) ==> s1.config == Some(cfg) && r
            == seq![Effect::SyncTerminals],
{
}

/// A dropped entry is gone, and dropping keeps only entries that were there.
proof fn lemma_without_all(s: Seq<(TaskId, TaskView)>, ids: Seq<TaskId>)
    ensures
        forall|k: int|
            0 <= k < without_all(s, ids).len() ==> !ids.contains(#[trigger] without_all(s, ids)[k].0),
    decreases ids.len(),
{
    if ids.len() > 0 {
        let d = ids.drop_last();
        lemma_without_all(s, d);
        let w = without_all(s, d);
        let p = |e: (TaskId, TaskView)| e.0 != ids.last();
        lemma_keep(w, p);
        assert forall|k: int|
            0 <= k < without_all(s, ids).len() implies !ids.contains(
            #[trigger] without_all(s, ids)[k].0,
        ) by {
            let x = without_all(s, ids)[k];
            let i = choose|i: int| 0 <= i < w.len() && keep(w, p)[k] == w[i];
            assert(!d.contains(w[i].0));
            assert(x.0 != ids.last());
            if ids.contains(x.0) {
                let j = choose|j: int| 0 <= j < ids.len() && ids[j] == x.0;
                if j < ids.len() - 1 {
                    assert(d[j] == x.0);
                }
            }
        }
    }
}

/// The wizard's progress step survives the sweep of its task: once the task
/// completed, expiring it leaves the wizard on the outcome it latched, with
/// the dead id dropped, and the mirror no longer holds the task.
pub proof fn lemma_wizard_latch_survives_sweep<S>(
    s0: Shell<S>,
    s1: Shell<S>,
    s2: Shell<S>,
    bd: BackendView,
    id: TaskId,
    success: bool,
    ids: Vec<TaskId>,
    r1: Seq<Effect>,
    r2: Seq<Effect>,
)
    requires
        s0.wizard is Some,
        s0.wizard->0.task_id == Some(id),
        tasks_post(s0, s1, bd, TaskMsg::Completed { id, success }, r1),
        tasks_post(s1, s2, bd, TaskMsg::Expired(ids), r2),
        ids@.contains(id),
    ensures
        s2.wizard is Some,
        s2.wizard->0.task_completed,
        s2.wizard->0.task_success == success,
        s2.wizard->0.task_id is None,
        !has_id(s2.tasks@, id),
{
    lemma_without_all(s1.tasks@, ids@);
    if has_id(s2.tasks@, id) {
        let k = choose|k: int| 0 <= k < s2.tasks@.len() && s2.tasks@[k].0 == id;
        assert(!ids@.contains(s2.tasks@[k].0));
    }
}

/// A cancelled task never reads as a success on the wizard's progress step.
pub proof fn lemma_cancel_latches_failure<S>(
    s0: Shell<S>,
    s1: Shell<S>,
    bd: BackendView,
    id: TaskId,
    r: Seq<Effect>,
)
    requires
        s0.wizard is Some,
        s0.wizard->0.task_id == Some(id),
        tasks_post(s0, s1, bd, TaskMsg::CancelAccepted(id), r),
    ensures
        s1.wizard is Some,
        s1.wizard->0.task_completed,
        !s1.wizard->0.task_success,
{
}

/// The output buffer keeps the newest lines: exactly `cap` of them once there
/// are more, all of them otherwise, and always a suffix of what was streamed.
pub proof fn lemma_ring_keeps_newest(output: Seq<String>, lines: Seq<String>, cap: nat)
    ensures
        ring_append(output, lines, cap).len() == if output.len() + lines.len() > cap {
            cap
        } else {
            output.len() + lines.len()
        },
        ({
            let all = output + lines;
            let r = ring_append(output, lines, cap);
            forall|i: int| 0 <= i < r.len() ==> #[trigger] r[i] == all[all.len() - r.len() + i]
        }),
{
}

/// Clearing completed tasks keeps exactly the unfinished ones: nothing
/// completed survives and every unfinished task does.
pub proof fn lemma_clear_completed_keeps_running(s: Seq<(TaskId, TaskView)>)
    ensures
        forall|k: int| 0 <= k < unfinished(s).len() ==> !(#[trigger] unfinished(s)[k]).1.completed,
        forall|i: int|
            0 <= i < s.len() && !s[i].1.completed ==> exists|k: int|
                0 <= k < unfinished(s).len() && #[trigger] unfinished(s)[k] == s[i],
    decreases s.len(),
{
    lemma_keep(s, not_completed());
    if s.len() > 0 {
        let d = s.drop_last();
        lemma_clear_completed_keeps_running(d);
        assert forall|i: int| 0 <= i < s.len() && !s[i].1.completed implies exists|k: int|
            0 <= k < unfinished(s).len() && #[trigger] unfinished(s)[k] == s[i] by {
            if i == s.len() - 1 {
                assert(unfinished(s)[unfinished(s).len() - 1] == s[i]);
            } else {
                assert(d[i] == s[i]);
                let k = choose|k: int| 0 <= k < unfinished(d).len() && unfinished(d)[k] == d[i];
                assert(unfinished(s)[k] == s[i]);
            }
        }
    }
}

/// Leaving the Containers page pops the pages pushed over it.
pub proof fn lemma_leaving_containers_pops<S>(
    s0: Shell<S>,
    s1: Shell<S>,
    page: Page,
    r: Seq<Effect>,
)
    requires
        page != Page::Containers,
        nav_post(s0, s1, page, r),
    ensures
        s1.page == page,
        s1.details_for is None,
        terminal_closed(s1.terminal),
{
}

/// Upgrade All spawns exactly one upgrade per running container.
pub proof fn lemma_upgrade_all_counts(s: Seq<ContainerInfo>)
    ensures
        running_names(s).len() == running_in(s),
    decreases s.len(),
{
    if s.len() > 0 {
        lemma_upgrade_all_counts(s.drop_last());
    }
}

/// A refresh from a gated environment re-probes instead of listing; a
/// healthy one lists. Either way the banner clears and the spinner shows.
pub proof fn lemma_gated_refresh_reprobes<S>(
    s0: Shell<S>,
    s1: Shell<S>,
    bd: BackendView,
    r: Seq<Effect>,
)
    requires
        containers_post(s0, s1, bd, ContainerMsg::RefreshRequested, r),
    ensures
        s1.error is None,
        s1.loading.containers,
        (bd.blocked || !bd.distrobox_installed) ==> r == seq![Effect::Reprobe],
        !(bd.blocked || !bd.distrobox_installed) ==> r == seq![Effect::LoadContainers],
{
}

/// Going on from the image step never overwrites a name the user typed:
/// with an image chosen the wizard moves to the configuration step, and the
/// default name is filled in only when the name was empty (so the step
/// always ends with a name); without an image the wizard stays where it is
/// and the name is untouched.
pub proof fn lemma_next_keeps_typed_name(old: WizardState, new: WizardState, r: WizardEffect)
    requires
        wizard_step(old, new, WizardMsg::NextFromImage, r),
    ensures
        old.name@.len() > 0 ==> new.name@ == old.name@,
        effective_image_of(old).len() > 0 ==> new.step == WizardStep::Config && new.name@.len() > 0,
        effective_image_of(old).len() == 0 ==> new.step == old.step && new.name@ == old.name@,
        new.selected_image == old.selected_image && new.custom_image == old.custom_image,
{
    reveal_strlit("-container");
}

/// Start starts the container it was pressed for and nothing else: on a
/// usable backend, with no start of that container in flight, the press
/// asks for exactly one effect, a start of that very container, and holds
/// the container's start key until it finishes. Stop likewise stops exactly
/// the container it was pressed for.
pub proof fn lemma_start_and_stop_act_on_their_container<S>(
    old: Shell<S>,
    started: Shell<S>,
    stopped: Shell<S>,
    bd: BackendView,
    name: String,
    r_start: Seq<Effect>,
    r_stop: Seq<Effect>,
)
    requires
        !bd.blocked,
        containers_post(old, started, bd, ContainerMsg::StartRequested(name), r_start),
        containers_post(old, stopped, bd, ContainerMsg::StopRequested(name), r_stop),
    ensures
        !busy_has(old.busy@, start_key(name@)) ==> r_start.len() == 1 && (match r_start[0] {
            Effect::StartContainer { name: n, .. } => n == name,
            _ => false,
        }) && busy_has(started.busy@, start_key(name@)) && started.containers == old.containers,
        !busy_has(old.busy@, stop_key(name@)) ==> r_stop.len() == 1 && (match r_stop[0] {
            Effect::StopContainer { name: n, .. } => n == name,
            _ => false,
        }) && busy_has(stopped.busy@, stop_key(name@)) && stopped.containers == old.containers,
{
}

/// Text without white space at either end is its own trimmed form.
proof fn lemma_trimmed_unpadded(s: Seq<char>)
    requires
        s.len() > 0,
        !is_white_space(s[0]),
        !is_white_space(s.last()),
    ensures
        trimmed(s) == s,
{
    reveal(trimmed);
    assert(trim_start(s) == s);
    assert(trim_end(s) == s);
}

/// A snapshot is created under the name the user typed: typing a name and
/// confirming, for a picked container on a usable backend, creates exactly
/// one snapshot, of that container, named by the typed text without its
/// surrounding blanks, so a name typed without them is used as typed.
pub proof fn lemma_snapshot_takes_the_typed_name<S>(
    s0: Shell<S>,
    s1: Shell<S>,
    s2: Shell<S>,
    bd: BackendView,
    typed: String,
    r1: Seq<Effect>,
    r2: Seq<Effect>,
)
    requires
        !bd.blocked,
        s0.backups.container is Some,
        trimmed(typed@).len() > 0,
        backups_post(s0, s1, bd, BackupsMsg::CreateNameChanged(typed), r1),
        backups_post(s1, s2, bd, BackupsMsg::CreateConfirmed, r2),
    ensures
        r1.len() == 0,
        r2.len() == 1,
        match r2[0] {
            Effect::CreateSnapshot { container, name } => container == s0.backups.container->0
                && name@ == trimmed(typed@),
            _ => false,
        },
        typed@.len() > 0 && !is_white_space(typed@[0]) && !is_white_space(typed@.last()) ==> match r2[0] {
            Effect::CreateSnapshot { name, .. } => name@ == typed@,
            _ => false,
        },
{
    if typed@.len() > 0 && !is_white_space(typed@[0]) && !is_white_space(typed@.last()) {
        lemma_trimmed_unpadded(typed@);
    }
}

/// The effects are exactly one removal of the named container.
pub open spec fn removes_only(r: Seq<Effect>, name: String) -> bool {
    r.len() == 1 && match r[0] {
        Effect::RemoveContainer { name: n, .. } => n == name,
        _ => false,
    }
}

/// The effects are exactly one task running `job`.
pub open spec fn spawns_only(r: Seq<Effect>, job: Job) -> bool {
    r.len() == 1 && match r[0] {
        Effect::Spawn { job: j, .. } => j == job,
        _ => false,
    }
}

/// Deleting a container removes that container and nothing else: on a
/// usable backend with no removal of it in flight, the press opens the
/// confirm dialog and confirming asks for exactly one removal of that
/// container; with confirms turned off the press itself does.
pub proof fn lemma_delete_removes_that_container<S>(
    s0: Shell<S>,
    s1: Shell<S>,
    s2: Shell<S>,
    bd: BackendView,
    name: String,
    r1: Seq<Effect>,
    r2: Seq<Effect>,
)
    requires
        !bd.blocked,
        !busy_has(s0.busy@, remove_key(name@)),
        containers_post(s0, s1, bd, ContainerMsg::RemoveRequested(name), r1),
        dialog_post(s1, s2, bd, DialogMsg::Confirmed, r2),
    ensures
        confirms_enabled(s0) ==> r1.len() == 0 && removes_only(r2, name),
        !confirms_enabled(s0) ==> removes_only(r1, name),
{
}

/// Removing a package removes that package from the picked container:
/// confirming the press (or the press alone, with confirms off) runs
/// exactly one removal task for that package in that container; installing
/// always asks first, and confirming runs exactly one install of that
/// package in that container.
pub proof fn lemma_package_actions_act_on_that_package<S>(
    s0: Shell<S>,
    s1: Shell<S>,
    s2: Shell<S>,
    t1: Shell<S>,
    t2: Shell<S>,
    bd: BackendView,
    package: String,
    r1: Seq<Effect>,
    r2: Seq<Effect>,
    q1: Seq<Effect>,
    q2: Seq<Effect>,
)
    requires
        !bd.blocked,
        s0.packages.container is Some,
        packages_post(s0, s1, bd, PackagesMsg::RemoveRequested(package), r1),
        dialog_post(s1, s2, bd, DialogMsg::Confirmed, r2),
        packages_post(s0, t1, bd, PackagesMsg::InstallRequested(package), q1),
        dialog_post(t1, t2, bd, DialogMsg::Confirmed, q2),
    ensures
        confirms_enabled(s0) ==> r1.len() == 0 && spawns_only(
            r2,
            Job::RemovePackage { container: s0.packages.container->0, package },
        ),
        !confirms_enabled(s0) ==> spawns_only(
            r1,
            Job::RemovePackage { container: s0.packages.container->0, package },
        ),
        q1.len() == 0,
        spawns_only(q2, Job::Install { container: s0.packages.container->0, package }),
{
}

/// Deleting a snapshot deletes the snapshot pressed: confirming the press
/// (or the press alone, with confirms off) asks for exactly one deletion,
/// of that snapshot id.
pub proof fn lemma_delete_snapshot_deletes_it<S>(
    s0: Shell<S>,
    s1: Shell<S>,
    s2: Shell<S>,
    bd: BackendView,
    id: String,
    r1: Seq<Effect>,
    r2: Seq<Effect>,
)
    requires
        !bd.blocked,
        backups_post(s0, s1, bd, BackupsMsg::DeleteRequested(id), r1),
        dialog_post(s1, s2, bd, DialogMsg::Confirmed, r2),
    ensures
        confirms_enabled(s0) ==> r1.len() == 0 && r2 == seq![Effect::DeleteSnapshot(id)],
        !confirms_enabled(s0) ==> r1 == seq![Effect::DeleteSnapshot(id)],
{
}

/// A restore creates the container under the name the user typed: typing
/// a name in an open restore dialog and confirming, on a usable backend,
/// runs exactly one restore of that snapshot named by the typed text
/// without its surrounding blanks (as typed when it has none).
pub proof fn lemma_restore_takes_the_typed_name<S>(
    s0: Shell<S>,
    s1: Shell<S>,
    s2: Shell<S>,
    bd: BackendView,
    typed: String,
    r1: Seq<Effect>,
    r2: Seq<Effect>,
)
    requires
        !bd.blocked,
        s0.backups.restore is Some,
        trimmed(typed@).len() > 0,
        backups_post(s0, s1, bd, BackupsMsg::RestoreNameChanged(typed), r1),
        backups_post(s1, s2, bd, BackupsMsg::RestoreConfirmed, r2),
    ensures
        r2.len() == 1,
        match r2[0] {
            Effect::Spawn { job: Job::Restore { snapshot, name }, .. } => snapshot
                == (s0.backups.restore->0).0 && name@ == trimmed(typed@),
            _ => false,
        },
        typed@.len() > 0 && !is_white_space(typed@[0]) && !is_white_space(typed@.last()) ==> match r2[0] {
            Effect::Spawn { job: Job::Restore { name, .. }, .. } => name@ == typed@,
            _ => false,
        },
{
    if typed@.len() > 0 && !is_white_space(typed@[0]) && !is_white_space(typed@.last()) {
        lemma_trimmed_unpadded(typed@);
    }
}

/// Empty text trims to empty text.
proof fn lemma_trimmed_empty(s: Seq<char>)
    requires
        s.len() == 0,
    ensures
        trimmed(s).len() == 0,
{
    reveal(trimmed);
}

/// The wizard creates what the user chose: picking an image, going on,
/// typing a name and pressing Create asks for a container of exactly that
/// image, named by the typed text without its surrounding blanks, with the
/// init and GPU switches as they were.
pub proof fn lemma_wizard_creates_what_was_chosen(
    s0: WizardState,
    s1: WizardState,
    s2: WizardState,
    s3: WizardState,
    s4: WizardState,
    image: String,
    name: String,
    e1: WizardEffect,
    e2: WizardEffect,
    e3: WizardEffect,
    r: WizardEffect,
)
    requires
        image@.len() > 0,
        trimmed(name@).len() > 0,
        wizard_step(s0, s1, WizardMsg::ImageSelected(image), e1),
        wizard_step(s1, s2, WizardMsg::NextFromImage, e2),
        wizard_step(s2, s3, WizardMsg::NameChanged(name), e3),
        wizard_step(s3, s4, WizardMsg::CreateRequested, r),
    ensures
        s2.step == WizardStep::Config,
        r is Create,
        r->Create_0.image@ == image@,
        r->Create_0.name@ == trimmed(name@),
        r->Create_0.init == s0.init_system,
        r->Create_0.nvidia == s0.nvidia,
{
    lemma_trimmed_empty(s1.custom_image@);
    assert(effective_image_of(s1) == image@);
}

/// Going back to the image step keeps every choice made: only the step
/// and the inline error change.
pub proof fn lemma_back_keeps_choices(old: WizardState, new: WizardState, r: WizardEffect)
    requires
        wizard_step(old, new, WizardMsg::BackToImage, r),
    ensures
        new.step == WizardStep::Image,
        new.name == old.name && new.selected_image == old.selected_image
            && new.custom_image == old.custom_image && new.volumes == old.volumes
            && new.init_system == old.init_system && new.nvidia == old.nvidia,
{
}

/// An export writes the picked container to the path the user gave: typing
/// a path (or picking one in the file chooser) and confirming, on a usable
/// backend, runs exactly one export of that container to that path without
/// its surrounding blanks.
pub proof fn lemma_export_goes_to_the_given_path<S>(
    s0: Shell<S>,
    s1: Shell<S>,
    s2: Shell<S>,
    t1: Shell<S>,
    t2: Shell<S>,
    bd: BackendView,
    path: String,
    r1: Seq<Effect>,
    r2: Seq<Effect>,
    q1: Seq<Effect>,
    q2: Seq<Effect>,
)
    requires
        !bd.blocked,
        s0.backups.container is Some,
        trimmed(path@).len() > 0,
        backups_post(s0, s1, bd, BackupsMsg::ExportPathChanged(path), r1),
        backups_post(s1, s2, bd, BackupsMsg::ExportConfirmed, r2),
        backups_post(s0, t1, bd, BackupsMsg::ExportPathPicked(Ok(path)), q1),
        backups_post(t1, t2, bd, BackupsMsg::ExportConfirmed, q2),
    ensures
        r2.len() == 1,
        match r2[0] {
            Effect::Spawn { job: Job::Export { container, path: p }, .. } => container
                == s0.backups.container->0 && p@ == trimmed(path@),
            _ => false,
        },
        q2.len() == 1,
        match q2[0] {
            Effect::Spawn { job: Job::Export { container, path: p }, .. } => container
                == s0.backups.container->0 && p@ == trimmed(path@),
            _ => false,
        },
{
    assert(t1 == s1);
}

/// An import reads the archive the user gave into the image name the user
/// gave: with both typed and confirmed on a usable backend, exactly one
/// import of that archive path as that image runs.
pub proof fn lemma_import_uses_the_given_archive_and_image<S>(
    s0: Shell<S>,
    s1: Shell<S>,
    s2: Shell<S>,
    s3: Shell<S>,
    bd: BackendView,
    path: String,
    image: String,
    r1: Seq<Effect>,
    r2: Seq<Effect>,
    r3: Seq<Effect>,
)
    requires
        !bd.blocked,
        trimmed(path@).len() > 0,
        trimmed(image@).len() > 0,
        backups_post(s0, s1, bd, BackupsMsg::ImportPathChanged(path), r1),
        backups_post(s1, s2, bd, BackupsMsg::ImportImageChanged(image), r2),
        backups_post(s2, s3, bd, BackupsMsg::ImportConfirmed, r3),
    ensures
        r3.len() == 1,
        match r3[0] {
            Effect::Spawn { job: Job::Import { path: p, image: i }, .. } => p@ == trimmed(path@)
                && i@ == trimmed(image@),
            _ => false,
        },
{
}

/// The effects run exactly one task for `job`, whatever else they say.
pub open spec fn spawns_once(r: Seq<Effect>, job: Job) -> bool {
    &&& exists|i: int| 0 <= i < r.len() && #[trigger] is_spawn_of(r[i], job)
    &&& forall|i: int, k: int|
        #![trigger r[i], r[k]]
        0 <= i < r.len() && 0 <= k < r.len() && (r[i] is Spawn) && (r[k] is Spawn) ==> i == k
}

/// The effect runs a task for `job`.
pub open spec fn is_spawn_of(e: Effect, job: Job) -> bool {
    match e {
        Effect::Spawn { job: j, .. } => j == job,
        _ => false,
    }
}

/// Upgrading upgrades the container pressed, once: on a usable backend with
/// no unfinished task of that upgrade label, the press (from the list or
/// from the details page) runs exactly one upgrade task, of that container;
/// while one is unfinished the press does nothing.
pub proof fn lemma_upgrade_upgrades_that_container<S>(
    old: Shell<S>,
    a: Shell<S>,
    b: Shell<S>,
    bd: BackendView,
    name: String,
    label: String,
    ra: Seq<Effect>,
    rb: Seq<Effect>,
)
    requires
        !bd.blocked,
        containers_post(old, a, bd, ContainerMsg::UpgradeRequested { name, label }, ra),
        details_post(old, b, bd, DetailsMsg::UpgradeRequested { name, label }, rb),
    ensures
        !old.tasks.has_unfinished_label_spec(label@) ==> spawns_once(ra, Job::Upgrade(name))
            && spawns_once(rb, Job::Upgrade(name)),
        old.tasks.has_unfinished_label_spec(label@) ==> ra.len() == 0 && rb.len() == 0 && a == old
            && b == old,
{
    if !old.tasks.has_unfinished_label_spec(label@) {
        assert(is_spawn_of(ra[1], Job::Upgrade(name)));
        assert(is_spawn_of(rb[1], Job::Upgrade(name)));
    }
}

/// Cloning copies the container pressed under the name typed: confirming
/// asks for a check of that name (without surrounding blanks) for that
/// source, and once the name is valid exactly one clone of that source
/// under that name runs; an invalid name runs nothing.
pub proof fn lemma_clone_copies_under_the_typed_name<S>(
    s0: Shell<S>,
    s1: Shell<S>,
    s2: Shell<S>,
    bd: BackendView,
    source: String,
    typed: String,
    checked: String,
    valid: bool,
    r1: Seq<Effect>,
    r2: Seq<Effect>,
)
    requires
        !bd.blocked,
        details_post(s0, s1, bd, DetailsMsg::CloneConfirmed { source, name: typed }, r1),
        clone_checked_post(s1, s2, source, checked, valid, r2),
    ensures
        r1.len() == 1,
        match r1[0] {
            Effect::CheckCloneName { source: s, name: n } => s == source && n@ == trimmed(typed@),
            _ => false,
        },
        valid ==> spawns_once(r2, Job::Clone { source, name: checked }),
        !valid ==> forall|i: int| 0 <= i < r2.len() ==> !(r2[i] is Spawn),
{
    if valid {
        assert(is_spawn_of(r2[1], Job::Clone { source, name: checked }));
    }
}

/// Launch opens the picked terminal on the container pressed: on a usable
/// backend, when the picked id is in the terminal table exactly one launch
/// runs, of a terminal with that id, on that container; with nothing picked
/// the first listed terminal is launched; with no terminal at all nothing
/// is launched.
pub proof fn lemma_launch_uses_the_picked_terminal<S>(
    old: Shell<S>,
    new: Shell<S>,
    bd: BackendView,
    container: String,
    r: Seq<Effect>,
)
    requires
        !bd.blocked,
        terminal_post(old, new, bd, TerminalMsg::LaunchRequested(container), r),
    ensures
        new == old,
        (match old.terminal.terminal_id {
            Some(id) => exists|i: int| 0 <= i < bd.terminals@.len() && #[trigger] bd.terminals@[i].id@ == id@,
            None => false,
        }) ==> r.len() == 1 && match r[0] {
            Effect::LaunchTerminal { container: c, terminal } => c == container && terminal.id@
                == old.terminal.terminal_id->0@,
            _ => false,
        },
        old.terminal.terminal_id is None && bd.terminals@.len() > 0 ==> r == seq![
            Effect::LaunchTerminal { container, terminal: bd.terminals@[0] },
        ],
        bd.terminals@.len() == 0 ==> forall|i: int| 0 <= i < r.len() ==> !(r[i] is LaunchTerminal),
{
    if let Some(id) = old.terminal.terminal_id {
        crate::terminal::lemma_first_with_id(bd.terminals@, id@);
    }
}

/// Exporting or unexporting an application acts on that application of
/// that container: on a usable backend with no such action in flight, the
/// toggle asks for exactly one export (or unexport) of that desktop entry
/// in that container.
pub proof fn lemma_app_toggle_acts_on_that_app<S>(
    old: Shell<S>,
    a: Shell<S>,
    b: Shell<S>,
    bd: BackendView,
    container: String,
    desktop: String,
    ra: Seq<Effect>,
    rb: Seq<Effect>,
)
    requires
        !bd.blocked,
        apps_post(old, a, bd, AppMsg::ExportRequested(container, desktop), ra),
        apps_post(old, b, bd, AppMsg::UnexportRequested(container, desktop), rb),
    ensures
        ra.len() <= 1 && rb.len() <= 1,
        ra.len() == 1 ==> match ra[0] {
            Effect::ExportApp { container: c, desktop: d, .. } => c == container && d == desktop,
            _ => false,
        },
        rb.len() == 1 ==> match rb[0] {
            Effect::UnexportApp { container: c, desktop: d, .. } => c == container && d == desktop,
            _ => false,
        },
        !busy_has(old.busy@, crate::shell::export_key(container@, desktop@)) ==> ra.len() == 1,
        !busy_has(old.busy@, crate::shell::unexport_key(container@, desktop@)) ==> rb.len() == 1,
{
}

/// A package search looks for what was typed in the picked container:
/// typing a query and submitting it, for a running picked container, asks
/// for exactly one search, in that container, for the typed text without
/// its surrounding blanks; a stopped or missing container searches nothing.
pub proof fn lemma_search_looks_for_the_typed_query<S>(
    s0: Shell<S>,
    s1: Shell<S>,
    s2: Shell<S>,
    bd: BackendView,
    query: String,
    r1: Seq<Effect>,
    r2: Seq<Effect>,
)
    requires
        s0.packages.container is Some,
        trimmed(query@).len() > 0,
        packages_post(s0, s1, bd, PackagesMsg::QueryChanged(query), r1),
        packages_post(s1, s2, bd, PackagesMsg::SearchSubmitted, r2),
    ensures
        crate::shell_backups::container_running(
            s0.containers.containers@,
            s0.packages.container->0@,
        ) ==> r2.len() == 1 && match r2[0] {
            Effect::SearchPackages { container, query: q } => container == s0.packages.container->0
                && q@ == trimmed(query@),
            _ => false,
        },
        !crate::shell_backups::container_running(
            s0.containers.containers@,
            s0.packages.container->0@,
        ) ==> r2.len() == 0,
{
}

/// Installing from the search box installs what was typed: typing a package
/// name, pressing Install and confirming runs exactly one install, into the
/// picked container, of the typed name without its surrounding blanks.
pub proof fn lemma_install_from_box_installs_the_typed_name<S>(
    s0: Shell<S>,
    s1: Shell<S>,
    s2: Shell<S>,
    s3: Shell<S>,
    bd: BackendView,
    typed: String,
    r1: Seq<Effect>,
    r2: Seq<Effect>,
    r3: Seq<Effect>,
)
    requires
        !bd.blocked,
        s0.packages.container is Some,
        trimmed(typed@).len() > 0,
        packages_post(s0, s1, bd, PackagesMsg::QueryChanged(typed), r1),
        packages_post(s1, s2, bd, PackagesMsg::InstallFromBox, r2),
        dialog_post(s2, s3, bd, DialogMsg::Confirmed, r3),
    ensures
        r2.len() == 0,
        r3.len() == 1,
        match r3[0] {
            Effect::Spawn { job: Job::Install { container, package }, .. } => container
                == s0.packages.container->0 && package@ == trimmed(typed@),
            _ => false,
        },
{
}

/// Creating from the catalogue opens the wizard on that image: pressing
/// Create on an image (or submitting a custom reference) leaves the
/// Containers page showing a fresh wizard whose chosen image is exactly it.
pub proof fn lemma_create_with_image_preselects_it<S>(
    old: Shell<S>,
    new: Shell<S>,
    image: String,
    r: Seq<Effect>,
)
    requires
        images_post(old, new, ImageMsg::CreateWithImage(image), r),
    ensures
        new.page == Page::Containers,
        new.wizard is Some,
        new.wizard->0.selected_image == Some(image),
        new.wizard->0.custom_image == image,
        new.wizard->0.step == WizardStep::Image,
        new.wizard->0.name@.len() == 0,
        r.len() == 0,
{
}

/// A name the system accepts starts the creation of exactly the requested
/// container and moves the wizard to its progress step; a refused name
/// starts nothing and shows why on the wizard.
pub proof fn lemma_checked_create_runs_the_request<S>(
    old: Shell<S>,
    ok: Shell<S>,
    bad: Shell<S>,
    req: CreateRequest,
    why: String,
    r_ok: Seq<Effect>,
    r_bad: Seq<Effect>,
)
    requires
        old.wizard is Some,
        create_checked_post(old, ok, req, Ok(()), r_ok),
        create_checked_post(old, bad, req, Err(why), r_bad),
    ensures
        spawns_only(r_ok, Job::Create(req)),
        ok.wizard->0.step == WizardStep::Progress,
        r_bad.len() == 0,
        bad.wizard->0.inline_error == Some(crate::msg::Msg::InvalidContainerName { error: why }),
        bad.wizard->0.step == old.wizard->0.step,
{
}

/// Stop All stops every running container, and only when there is one:
/// with none running it only says so; otherwise, on a usable backend with
/// no stop-all in flight, confirming the press (or the press alone, with
/// confirms off) asks for exactly one stop-all.
pub proof fn lemma_stop_all_stops_all<S>(
    s0: Shell<S>,
    s1: Shell<S>,
    s2: Shell<S>,
    bd: BackendView,
    r1: Seq<Effect>,
    r2: Seq<Effect>,
)
    requires
        !bd.blocked,
        !busy_has(s0.busy@, stop_all_key()),
        containers_post(s0, s1, bd, ContainerMsg::StopAllRequested, r1),
        dialog_post(s1, s2, bd, DialogMsg::Confirmed, r2),
    ensures
        running_in(s0.containers.containers@) == 0 ==> forall|i: int|
            0 <= i < r1.len() ==> !(r1[i] is StopAllContainers),
        running_in(s0.containers.containers@) > 0 && confirms_enabled(s0) ==> r1.len() == 0
            && r2.len() == 1 && r2[0] is StopAllContainers,
        running_in(s0.containers.containers@) > 0 && !confirms_enabled(s0) ==> r1.len() == 1
            && r1[0] is StopAllContainers,
{
}

/// Delete All deletes every listed container, in list order: confirming
/// the press (or the press alone, with confirms off), on a usable backend
/// with no delete-all in flight, asks for exactly one deletion naming each
/// listed container once, in order.
pub proof fn lemma_delete_all_names_every_container<S>(
    s0: Shell<S>,
    s1: Shell<S>,
    s2: Shell<S>,
    bd: BackendView,
    r1: Seq<Effect>,
    r2: Seq<Effect>,
)
    requires
        !bd.blocked,
        !busy_has(s0.busy@, delete_all_key()),
        settings_post(s0, s1, bd, SettingsMsg::DeleteAllRequested, r1),
        dialog_post(s1, s2, bd, DialogMsg::Confirmed, r2),
    ensures
        confirms_enabled(s0) ==> r1.len() == 0 && r2.len() == 1 && match r2[0] {
            Effect::DeleteContainers(names) => names@.len() == s0.containers.containers@.len()
                && forall|i: int|
                0 <= i < names@.len() ==> #[trigger] names@[i]@ == s0.containers.containers@[i].name@,
            _ => false,
        },
        !confirms_enabled(s0) ==> r1.len() == 1 && match r1[0] {
            Effect::DeleteContainers(names) => names@.len() == s0.containers.containers@.len()
                && forall|i: int|
                0 <= i < names@.len() ==> #[trigger] names@[i]@ == s0.containers.containers@[i].name@,
            _ => false,
        },
{
}

} // verus!
