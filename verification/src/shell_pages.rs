//! The Apps, Images, Stats and Activity pages, the task lifecycle, the
//! environment re-probe and the banner: what their messages do to the
//! shell.
use vstd::prelude::*;
use crate::activity::ActivityState;
use crate::message::{ActivityMsg, AppMsg, EnvMsg, ImageMsg, StatsMsg, TaskMsg, UiMsg};
use crate::model::{EnvGuard, EnvMode, Failure, TaskId};
use crate::msg::Msg;
use crate::shell::{
    BackendView, Effect, Loading, Shell, export_key, failure_text, guarded, key_of, one, refused,
    two, unchanged, unexport_key,
};
use crate::shell_containers::opt_text;
use crate::tasks::{
    TaskKind, TaskView, completion_recorded, cancel_recorded, has_id, lines_recorded, unfinished,
    view_of, without, unique_ids, id_slot,
};
use crate::text::{trim, trimmed};
use crate::views::Page;
use crate::wizard::{WizardState, WizardStep, wizard_preselected};

verus! {

/// A reload of the app mirrors for `container`: the spinners show only when
/// there is nothing on screen to keep.
pub open spec fn apps_reload_post<S>(
    old: Shell<S>,
    new: Shell<S>,
    container: String,
    r: Seq<Effect>,
) -> bool {
    let first_load = old.apps@.len() == 0 && old.apps_error is None;
    &&& new == Shell {
        loading: Loading { apps: first_load, binaries: first_load, ..old.loading },
        apps_error: None,
        ..old
    }
    &&& r == seq![Effect::LoadApps(container), Effect::LoadBinaries(container)]
}

/// What an Apps message does.
pub open spec fn apps_post<S>(
    old: Shell<S>,
    new: Shell<S>,
    bd: BackendView,
    msg: AppMsg,
    r: Seq<Effect>,
) -> bool {
    match msg {
        AppMsg::Loaded(container, result) => if opt_text(old.selected_container) != Some(
            container@,
        ) {
            unchanged(old, new, r)
        } else {
            r == Seq::<Effect>::empty() && match result {
                Ok(apps) => new == Shell {
                    loading: Loading { apps: false, ..old.loading },
                    apps,
                    apps_error: None,
                    ..old
                },
                Err(e) => new == Shell {
                    loading: Loading { apps: false, ..old.loading },
                    apps_error: Some(failure_text(e)),
                    ..old
                },
            }
        },
        AppMsg::BinariesLoaded(container, result) => if opt_text(old.selected_container) != Some(
            container@,
        ) {
            unchanged(old, new, r)
        } else {
            r == Seq::<Effect>::empty() && match result {
                Ok(bins) => new == Shell {
                    loading: Loading { binaries: false, ..old.loading },
                    exported_binaries: bins,
                    apps_error: None,
                    ..old
                },
                Err(e) => new == Shell {
                    loading: Loading { binaries: false, ..old.loading },
                    apps_error: Some(failure_text(e)),
                    ..old
                },
            }
        },
        AppMsg::SearchChanged(q) => new == Shell { apps_search: q, ..old } && r == Seq::<
            Effect,
        >::empty(),
        AppMsg::BinaryDialogRequested => {
            &&& new.apps_binary_path@.len() == 0
            &&& new == Shell {
                apps_binary_path: new.apps_binary_path,
                apps_binary_error: None,
                apps_binary_dialog: true,
                ..old
            }
            &&& r == Seq::<Effect>::empty()
        },
        AppMsg::BinaryDialogClosed => new == Shell {
            apps_binary_dialog: false,
            apps_binary_error: None,
            ..old
        } && r == Seq::<Effect>::empty(),
        AppMsg::BinaryPathChanged(p) => new == Shell {
            apps_binary_path: p,
            apps_binary_error: None,
            ..old
        } && r == Seq::<Effect>::empty(),
        AppMsg::BinaryExportConfirmed => {
            let path = trimmed(old.apps_binary_path@);
            if old.selected_container is None || path.len() == 0 {
                new == Shell { apps_binary_error: Some(Msg::BinaryPathRequired), ..old } && r
                    == Seq::<Effect>::empty()
            } else if bd.blocked {
                refused(old, new, bd, r)
            } else {
                &&& new == Shell { apps_binary_dialog: false, ..old }
                &&& r.len() == 1
                &&& match r[0] {
                    Effect::ExportBinary { container, path: p, done } => container
                        == old.selected_container->0 && p@ == path && done == (
                    Msg::BinaryExported { path: p }),
                    _ => false,
                }
            }
        },
        AppMsg::ReloadRequested(container) => apps_reload_post(old, new, container, r),
        AppMsg::ExportRequested(container, desktop) => guarded(
            old,
            new,
            bd,
            export_key(container@, desktop@),
            Effect::ExportApp { container, desktop, done: Msg::ApplicationExported },
            r,
        ),
        AppMsg::UnexportRequested(container, desktop) => guarded(
            old,
            new,
            bd,
            unexport_key(container@, desktop@),
            Effect::UnexportApp { container, desktop, done: Msg::ApplicationUnexported },
            r,
        ),
        AppMsg::ActionFinished(container, result) => {
            let toast = match result {
                Ok(m) => Effect::Toast(m),
                Err(e) => Effect::Toast(Msg::ActionFailed { error: e }),
            };
            &&& new.busy@.len() == 0
            &&& r.len() == 3 && r[0] == toast
            &&& apps_reload_post(Shell { busy: new.busy, ..old }, new, container, r.drop_first())
        },
    }
}

/// What an Images message does.
pub open spec fn images_post<S>(old: Shell<S>, new: Shell<S>, msg: ImageMsg, r: Seq<Effect>) -> bool {
    match msg {
        ImageMsg::LoadRequested => new == Shell {
            loading: Loading { images: true, ..old.loading },
            images_error: None,
            ..old
        } && r == seq![Effect::LoadImages],
        ImageMsg::Loaded(result) => r == Seq::<Effect>::empty() && match result {
            Ok(images) => new == Shell {
                loading: Loading { images: false, ..old.loading },
                images,
                images_error: None,
                ..old
            },
            Err(e) => new == Shell {
                loading: Loading { images: false, ..old.loading },
                images_error: Some(failure_text(e)),
                ..old
            },
        },
        ImageMsg::SearchChanged(q) => new == Shell { images_search: q, ..old } && r == Seq::<
            Effect,
        >::empty(),
        ImageMsg::CustomChanged(u) => new == Shell { images_custom: u, ..old } && r == Seq::<
            Effect,
        >::empty(),
        ImageMsg::CustomSubmitted => {
            let url = trimmed(old.images_custom@);
            if url.len() == 0 {
                new == old && r == seq![Effect::Toast(Msg::CustomImageUrlFirst)]
            } else {
                &&& new.wizard is Some
                &&& new.wizard->0.custom_image@ == url
                &&& wizard_preselected(new.wizard->0, new.wizard->0.custom_image)
                &&& new == Shell {
                    wizard: new.wizard,
                    details_for: None,
                    page: Page::Containers,
                    ..old
                }
                &&& r == Seq::<Effect>::empty()
            }
        },
        ImageMsg::DetailsRequested(image) => new == Shell { image_details: Some(image), ..old }
            && r == Seq::<Effect>::empty(),
        ImageMsg::DetailsClosed => new == Shell { image_details: None, ..old } && r == Seq::<
            Effect,
        >::empty(),
        ImageMsg::CreateWithImage(image) => {
            &&& new.wizard is Some
            &&& wizard_preselected(new.wizard->0, image)
            &&& new == Shell {
                image_details: None,
                wizard: new.wizard,
                details_for: None,
                page: Page::Containers,
                ..old
            }
            &&& r == Seq::<Effect>::empty()
        },
    }
}

/// What a Stats message does.
pub open spec fn stats_post<S>(old: Shell<S>, new: Shell<S>, msg: StatsMsg<S>, r: Seq<Effect>) -> bool {
    match msg {
        StatsMsg::LoadRequested(container) => new == Shell {
            loading: Loading { stats: true, ..old.loading },
            stats_for: Some(container),
            ..old
        } && r == seq![Effect::LoadStats(container)],
        StatsMsg::Loaded(result) => r == Seq::<Effect>::empty() && match result {
            Ok(st) => new == Shell {
                loading: Loading { stats: false, ..old.loading },
                stats: Some(st),
                ..old
            },
            Err(e) => new == Shell {
                loading: Loading { stats: false, ..old.loading },
                error: Some(failure_text(e)),
                ..old
            },
        },
    }
}

/// The wizard as a task's completion leaves it: the wizard's own task
/// latches the outcome.
pub open spec fn wizard_completed(w: Option<WizardState>, id: TaskId, success: bool) -> Option<
    WizardState,
> {
    match w {
        Some(w) => if w.task_id == Some(id) {
            Some(WizardState { task_completed: true, task_success: success, ..w })
        } else {
            Some(w)
        },
        None => None,
    }
}

/// The mirror with `id`'s entry marked by `rec`, others unchanged.
pub open spec fn marked(
    old: Seq<(TaskId, TaskView)>,
    new: Seq<(TaskId, TaskView)>,
    id: TaskId,
    rec: spec_fn(TaskView, TaskView) -> bool,
) -> bool {
    &&& new.len() == old.len()
    &&& forall|i: int|
        0 <= i < old.len() ==> #[trigger] new[i].0 == old[i].0 && if old[i].0 == id {
            rec(old[i].1, new[i].1)
        } else {
            new[i] == old[i]
        }
}

/// After `id` expires, the drawer is closed or open on a task still
/// mirrored.
proof fn lemma_drawer_after_expiry(tasks: Seq<(TaskId, TaskView)>, a: ActivityState, id: TaskId)
    requires
        match a.expanded {
            Some(x) => has_id(tasks, x),
            None => true,
        },
    ensures
        match drawer_after(a, id).expanded {
            Some(x) => has_id(without(tasks, id), x),
            None => true,
        },
{
    if let Some(x) = drawer_after(a, id).expanded {
        crate::tasks::lemma_without_keeps_ids(tasks, id, x);
    }
}

/// The drawer closes when it shows `id`.
pub open spec fn drawer_after(a: ActivityState, id: TaskId) -> ActivityState {
    if a.expanded == Some(id) {
        ActivityState { expanded: None, ..a }
    } else {
        a
    }
}

/// The mirror after dropping each of `ids` in turn.
pub open spec fn without_all(s: Seq<(TaskId, TaskView)>, ids: Seq<TaskId>) -> Seq<(TaskId, TaskView)>
    decreases ids.len(),
{
    if ids.len() == 0 {
        s
    } else {
        without(without_all(s, ids.drop_last()), ids.last())
    }
}

/// A cancel the registry accepted: the mirror entry is marked completed
/// (its success flag untouched), the wizard's own task latches as failed,
/// and a drawer on it closes.
pub open spec fn cancel_accepted_post<S>(old: Shell<S>, new: Shell<S>, id: TaskId, r: Seq<Effect>) -> bool {
    &&& marked(old.tasks@, new.tasks@, id, |a: TaskView, b: TaskView| cancel_recorded(a, b))
    &&& new.wizard == wizard_completed(old.wizard, id, false)
    &&& new == Shell {
        tasks: new.tasks,
        wizard: new.wizard,
        activity: drawer_after(old.activity, id),
        ..old
    }
    &&& r == Seq::<Effect>::empty()
}

/// A freshly started task's view.
pub open spec fn fresh_view(v: TaskView, label: String, kind: TaskKind, at: u64) -> bool {
    &&& v.label == label
    &&& v.kind == kind
    &&& v.output@.len() == 0
    &&& !v.completed
    &&& !v.success
    &&& v.started_at == at
}

/// A task start: a failure is toasted and sends a waiting wizard back to
/// its config step (else it shows in the banner); a started task enters
/// the mirror, and a waiting wizard follows it.
pub open spec fn started_post<S>(
    old: Shell<S>,
    new: Shell<S>,
    label: String,
    kind: TaskKind,
    at: u64,
    result: Result<TaskId, Failure>,
    r: Seq<Effect>,
) -> bool {
    match result {
        Err(e) => {
            let wizard_waits = kind == TaskKind::Create && old.wizard is Some
                && old.wizard->0.step == WizardStep::Progress;
            &&& r == seq![Effect::Toast(Msg::CouldNotStart { label, error: e })]
            &&& if wizard_waits {
                new == Shell {
                    wizard: Some(
                        WizardState {
                            step: WizardStep::Config,
                            inline_error: Some(Msg::CouldNotStartCreation { error: e }),
                            task_id: None,
                            ..old.wizard->0
                        },
                    ),
                    ..old
                }
            } else {
                new == Shell { error: Some(failure_text(e)), ..old }
            }
        },
        Ok(id) => {
            let attaches = kind == TaskKind::Create && old.wizard is Some && old.wizard->0.step
                == WizardStep::Progress && old.wizard->0.task_id is None;
            &&& r == Seq::<Effect>::empty()
            &&& new.wizard == if attaches {
                Some(WizardState { task_id: Some(id), ..old.wizard->0 })
            } else {
                old.wizard
            }
            &&& if has_id(old.tasks@, id) {
                forall|i: int|
                    0 <= i < old.tasks@.len() && old.tasks@[i].0 == id ==> new.tasks@ == old.tasks@.update(
                        i,
                        (id, new.tasks@[i].1),
                    ) && fresh_view(new.tasks@[i].1, label, kind, at)
            } else {
                &&& new.tasks@.len() == old.tasks@.len() + 1
                &&& new.tasks@ == old.tasks@.insert(
                    id_slot(old.tasks@, id),
                    (id, new.tasks@[id_slot(old.tasks@, id)].1),
                )
                &&& fresh_view(new.tasks@[id_slot(old.tasks@, id)].1, label, kind, at)
            }
            &&& new == Shell { tasks: new.tasks, wizard: new.wizard, ..old }
        },
    }
}

/// A completion: the mirror entry records it, the wizard's own task
/// latches it, and a failure is toasted with the task's label.
pub open spec fn completed_post<S>(old: Shell<S>, new: Shell<S>, id: TaskId, success: bool, r: Seq<Effect>) -> bool {
    &&& marked(
        old.tasks@,
        new.tasks@,
        id,
        |a: TaskView, b: TaskView| completion_recorded(a, b, success),
    )
    &&& new == Shell {
        tasks: new.tasks,
        wizard: wizard_completed(old.wizard, id, success),
        ..old
    }
    &&& r == if success {
        Seq::<Effect>::empty()
    } else {
        seq![
            Effect::Toast(
                Msg::TaskFailed {
                    label: match view_of(old.tasks@, id) {
                        Some(v) => Some(v.label),
                        None => None,
                    },
                },
            ),
        ]
    }
}

/// What a task-lifecycle message does.
pub open spec fn tasks_post<S>(
    old: Shell<S>,
    new: Shell<S>,
    bd: BackendView,
    msg: TaskMsg,
    r: Seq<Effect>,
) -> bool {
    match msg {
        TaskMsg::Started { label, kind, at, result } => started_post(old, new, label, kind, at, result, r),
        TaskMsg::Output { id, lines } => {
            &&& marked(
                old.tasks@,
                new.tasks@,
                id,
                |a: TaskView, b: TaskView| lines_recorded(a, b, lines@, bd.max_output_lines as nat),
            )
            &&& new == Shell { tasks: new.tasks, ..old }
            &&& r == Seq::<Effect>::empty()
        },
        TaskMsg::Completed { id, success } => completed_post(old, new, id, success, r),
        TaskMsg::CancelRequested(id) => new == old && r == seq![Effect::CancelTask(id)],
        TaskMsg::CancelAccepted(id) => cancel_accepted_post(old, new, id, r),
        TaskMsg::Cancelled(id) => new == Shell { activity: drawer_after(old.activity, id), ..old }
            && r == Seq::<Effect>::empty(),
        TaskMsg::ClearCompleted => {
            &&& new.tasks@ == unfinished(old.tasks@)
            &&& new.activity == match old.activity.expanded {
                Some(id) => if has_id(new.tasks@, id) {
                    old.activity
                } else {
                    ActivityState { expanded: None, ..old.activity }
                },
                None => old.activity,
            }
            &&& new == Shell { tasks: new.tasks, activity: new.activity, ..old }
            &&& r == Seq::<Effect>::empty()
        },
        TaskMsg::Expired(ids) => {
            &&& new.tasks@ == without_all(old.tasks@, ids@)
            &&& new.activity == match old.activity.expanded {
                Some(x) => if ids@.contains(x) {
                    ActivityState { expanded: None, ..old.activity }
                } else {
                    old.activity
                },
                None => old.activity,
            }
            &&& new.wizard == match old.wizard {
                Some(w) => match w.task_id {
                    Some(x) => if ids@.contains(x) {
                        Some(WizardState { task_id: None, ..w })
                    } else {
                        Some(w)
                    },
                    None => Some(w),
                },
                None => None,
            }
            &&& new == Shell { tasks: new.tasks, activity: new.activity, wizard: new.wizard, ..old }
            &&& r == Seq::<Effect>::empty()
        },
        TaskMsg::ExpiredTick => new == old && r == seq![Effect::SweepExpired],
    }
}

/// What a re-probe message does.
pub open spec fn env_post<S>(old: Shell<S>, new: Shell<S>, msg: EnvMsg, r: Seq<Effect>) -> bool {
    match msg {
        EnvMsg::ReprobeRequested => new == Shell {
            loading: Loading { containers: true, ..old.loading },
            error: None,
            ..old
        } && r == seq![Effect::Reprobe],
        EnvMsg::Probed(guard) => if guard.mode != EnvMode::Blocked && guard.distrobox_installed {
            new == Shell {
                error: None,
                loading: Loading { containers: true, ..old.loading },
                loading_version: true,
                ..old
            } && r == seq![Effect::LoadContainers, Effect::LoadVersion]
        } else {
            new == Shell {
                loading: Loading { containers: false, ..old.loading },
                error: if guard.mode == EnvMode::Blocked {
                    match guard.message {
                        Some(m) => Some(Msg::Raw(m)),
                        None => None,
                    }
                } else {
                    None
                },
                ..old
            } && r == Seq::<Effect>::empty()
        },
    }
}

/// What a banner or clipboard message does.
pub open spec fn ui_post<S>(old: Shell<S>, new: Shell<S>, msg: UiMsg, r: Seq<Effect>) -> bool {
    match msg {
        UiMsg::DismissError => new == Shell { error: None, ..old } && r == Seq::<Effect>::empty(),
        UiMsg::CopiedToClipboard(what) => new == old && r == seq![
            Effect::Toast(Msg::CopiedToClipboard { what }),
        ],
    }
}

/// What an Activity message does.
pub open spec fn activity_post<S>(old: Shell<S>, new: Shell<S>, msg: ActivityMsg, r: Seq<Effect>) -> bool {
    &&& r == Seq::<Effect>::empty()
    &&& match msg {
        ActivityMsg::SearchChanged(q) => new == Shell {
            activity: ActivityState { search: q, ..old.activity },
            ..old
        },
        ActivityMsg::FilterSelected(f) => new == Shell {
            activity: ActivityState { filter: f, ..old.activity },
            ..old
        },
        ActivityMsg::Expanded(id) => if has_id(old.tasks@, id) {
            new == Shell { activity: ActivityState { expanded: Some(id), ..old.activity }, ..old }
        } else {
            new == old
        },
        ActivityMsg::DrawerClosed => new == Shell {
            activity: ActivityState { expanded: None, ..old.activity },
            ..old
        },
    }
}

fn wizard_expire(w: Option<WizardState>, id: TaskId) -> (r: Option<WizardState>)
    ensures
        r == match w {
            Some(w) => if w.task_id == Some(id) {
                Some(WizardState { task_id: None, ..w })
            } else {
                Some(w)
            },
            None => None,
        },
{
    match w {
        Some(mut w) => {
            w.task_expired(id);
            Some(w)
        },
        None => None,
    }
}

fn is_current(selected: &Option<String>, container: &String) -> (r: bool)
    ensures
        r == (opt_text(*selected) == Some(container@)),
{
    match selected {
        Some(s) => *s == *container,
        None => false,
    }
}

fn contains_id(ids: &Vec<TaskId>, id: TaskId) -> (r: bool)
    ensures
        r == ids@.contains(id),
{
    let mut i: usize = 0;
    while i < ids.len()
        invariant
            i <= ids@.len(),
            forall|j: int| 0 <= j < i ==> ids@[j] != id,
        decreases ids@.len() - i,
    {
        if ids[i] == id {
            return true;
        }
        i += 1;
    }
    false
}

impl<S> Shell<S> {
    fn reload_apps(&mut self, container: String) -> (r: Vec<Effect>)
        ensures
            apps_reload_post(*old(self), *final(self), container, r@),
    {
        let first_load = self.apps.len() == 0 && self.apps_error.is_none();
        self.loading.apps = first_load;
        self.loading.binaries = first_load;
        self.apps_error = None;
        two(Effect::LoadApps(container.clone()), Effect::LoadBinaries(container))
    }

    /// Handle an Apps message.
    #[verifier::rlimit(40)]
    pub fn update_apps(&mut self, msg: AppMsg, bd: &BackendView) -> (r: Vec<Effect>)
        ensures
            apps_post(*old(self), *final(self), *bd, msg, r@),
    {
        match msg {
            AppMsg::Loaded(container, result) => {
                if !is_current(&self.selected_container, &container) {
                    return Vec::new();
                }
                self.loading.apps = false;
                match result {
                    Ok(apps) => {
                        self.apps = apps;
                        self.apps_error = None;
                    },
                    Err(e) => {
                        self.apps_error = Some(crate::shell::error_text(&e));
                    },
                }
                Vec::new()
            },
            AppMsg::BinariesLoaded(container, result) => {
                if !is_current(&self.selected_container, &container) {
                    return Vec::new();
                }
                self.loading.binaries = false;
                match result {
                    Ok(bins) => {
                        self.exported_binaries = bins;
                        self.apps_error = None;
                    },
                    Err(e) => {
                        self.apps_error = Some(crate::shell::error_text(&e));
                    },
                }
                Vec::new()
            },
            AppMsg::SearchChanged(q) => {
                self.apps_search = q;
                Vec::new()
            },
            AppMsg::BinaryDialogRequested => {
                self.apps_binary_path = String::new();
                self.apps_binary_error = None;
                self.apps_binary_dialog = true;
                Vec::new()
            },
            AppMsg::BinaryDialogClosed => {
                self.apps_binary_dialog = false;
                self.apps_binary_error = None;
                Vec::new()
            },
            AppMsg::BinaryPathChanged(p) => {
                self.apps_binary_path = p;
                self.apps_binary_error = None;
                Vec::new()
            },
            AppMsg::BinaryExportConfirmed => {
                let path = String::from_str(trim(self.apps_binary_path.as_str()));
                let container = match &self.selected_container {
                    Some(c) => c.clone(),
                    None => {
                        self.apps_binary_error = Some(Msg::BinaryPathRequired);
                        return Vec::new();
                    },
                };
                if path.as_str().is_empty() {
                    self.apps_binary_error = Some(Msg::BinaryPathRequired);
                    return Vec::new();
                }
                if bd.blocked {
                    return self.refuse(bd);
                }
                self.apps_binary_dialog = false;
                let done = Msg::BinaryExported { path: path.clone() };
                one(Effect::ExportBinary { container, path, done })
            },
            AppMsg::ReloadRequested(container) => self.reload_apps(container),
            AppMsg::ExportRequested(container, desktop) => {
                proof {
                    reveal_strlit("export:");
                    reveal_strlit(":");
                }
                let key = key_of("export:", container.as_str()).concat(":").concat(
                    desktop.as_str(),
                );
                self.run_guarded(
                    bd,
                    key,
                    Effect::ExportApp { container, desktop, done: Msg::ApplicationExported },
                )
            },
            AppMsg::UnexportRequested(container, desktop) => {
                proof {
                    reveal_strlit("unexport:");
                    reveal_strlit(":");
                }
                let key = key_of("unexport:", container.as_str()).concat(":").concat(
                    desktop.as_str(),
                );
                self.run_guarded(
                    bd,
                    key,
                    Effect::UnexportApp { container, desktop, done: Msg::ApplicationUnexported },
                )
            },
            AppMsg::ActionFinished(container, result) => {
                self.busy = Vec::new();
                let toast = match result {
                    Ok(m) => Effect::Toast(m),
                    Err(e) => Effect::Toast(Msg::ActionFailed { error: e }),
                };
                let mut reload = self.reload_apps(container);
                let ghost rl = reload@;
                let mut out: Vec<Effect> = Vec::new();
                out.push(toast);
                out.append(&mut reload);
                proof {
                    assert(out@.drop_first() =~= rl);
                }
                out
            },
        }
    }

    /// Handle an Images message.
    pub fn update_images(&mut self, msg: ImageMsg) -> (r: Vec<Effect>)
        ensures
            images_post(*old(self), *final(self), msg, r@),
    {
        match msg {
            ImageMsg::LoadRequested => {
                self.loading.images = true;
                self.images_error = None;
                one(Effect::LoadImages)
            },
            ImageMsg::Loaded(result) => {
                self.loading.images = false;
                match result {
                    Ok(images) => {
                        self.images = images;
                        self.images_error = None;
                    },
                    Err(e) => {
                        self.images_error = Some(crate::shell::error_text(&e));
                    },
                }
                Vec::new()
            },
            ImageMsg::SearchChanged(q) => {
                self.images_search = q;
                Vec::new()
            },
            ImageMsg::CustomChanged(u) => {
                self.images_custom = u;
                Vec::new()
            },
            ImageMsg::CustomSubmitted => {
                let url = String::from_str(trim(self.images_custom.as_str()));
                if url.as_str().is_empty() {
                    return one(Effect::Toast(Msg::CustomImageUrlFirst));
                }
                self.wizard = Some(WizardState::with_preselected(url));
                self.details_for = None;
                self.page = Page::Containers;
                Vec::new()
            },
            ImageMsg::DetailsRequested(image) => {
                self.image_details = Some(image);
                Vec::new()
            },
            ImageMsg::DetailsClosed => {
                self.image_details = None;
                Vec::new()
            },
            ImageMsg::CreateWithImage(image) => {
                self.image_details = None;
                self.wizard = Some(WizardState::with_preselected(image));
                self.details_for = None;
                self.page = Page::Containers;
                Vec::new()
            },
        }
    }

    /// Handle a Stats message.
    pub fn update_stats(&mut self, msg: StatsMsg<S>) -> (r: Vec<Effect>)
        ensures
            stats_post(*old(self), *final(self), msg, r@),
    {
        match msg {
            StatsMsg::LoadRequested(container) => {
                self.loading.stats = true;
                self.stats_for = Some(container.clone());
                one(Effect::LoadStats(container))
            },
            StatsMsg::Loaded(result) => {
                self.loading.stats = false;
                match result {
                    Ok(st) => {
                        self.stats = Some(st);
                    },
                    Err(e) => {
                        self.error = Some(crate::shell::error_text(&e));
                    },
                }
                Vec::new()
            },
        }
    }

    /// The registry accepted a cancel: mark the mirror, latch the wizard's
    /// task, and close a drawer on it.
    fn cancel_accepted(&mut self, id: TaskId) -> (r: Vec<Effect>)
        requires
            old(self).wf(),
        ensures
            final(self).wf(),
            cancel_accepted_post(*old(self), *final(self), id, r@),
    {
        self.tasks.mark_cancelled(id);
        proof {
            let rec = |a: TaskView, b: TaskView| cancel_recorded(a, b);
            assert forall|i: int| 0 <= i < old(self).tasks@.len() implies #[trigger] self.tasks@[i].0
                == old(self).tasks@[i].0 && if old(self).tasks@[i].0 == id {
                rec(old(self).tasks@[i].1, self.tasks@[i].1)
            } else {
                self.tasks@[i] == old(self).tasks@[i]
            } by {}
            assert(marked(old(self).tasks@, self.tasks@, id, rec));
            if let Some(x) = old(self).activity.expanded {
                crate::tasks::lemma_same_ids(old(self).tasks@, self.tasks@, x);
            }
        }
        if let Some(mut w) = self.wizard.take() {
            w.task_cancelled(id);
            self.wizard = Some(w);
        }
        assert(self.wizard == wizard_completed(old(self).wizard, id, false));
        if self.activity.expanded == Some(id) {
            self.activity.expanded = None;
        }
        assert(self.activity == drawer_after(old(self).activity, id));
        Vec::new()
    }


    fn task_completed(&mut self, id: TaskId, success: bool) -> (r: Vec<Effect>)
        requires
            old(self).wf(),
        ensures
            final(self).wf(),
            completed_post(*old(self), *final(self), id, success, r@),
    {
        let ghost old_tasks = self.tasks@;
        let label: Option<String> = match self.tasks.get(id) {
            Some(v) => Some(v.label.clone()),
            None => None,
        };
        proof {
            if has_id(old_tasks, id) {
                let k = choose|i: int| 0 <= i < old_tasks.len() && old_tasks[i].0 == id;
                let j = choose|i: int|
                    0 <= i < old_tasks.len() && old_tasks[i].0 == id && old_tasks[i].1.label == label->0;
                if j != k {
                    assert(unique_ids(old_tasks));
                }
            }
        }
        self.tasks.mark_completed(id, success);
        proof {
            let rec = |a: TaskView, b: TaskView| completion_recorded(a, b, success);
            assert forall|i: int| 0 <= i < old_tasks.len() implies #[trigger] self.tasks@[i].0
                == old_tasks[i].0 && if old_tasks[i].0 == id {
                rec(old_tasks[i].1, self.tasks@[i].1)
            } else {
                self.tasks@[i] == old_tasks[i]
            } by {}
            assert(marked(old_tasks, self.tasks@, id, rec));
            if let Some(x) = old(self).activity.expanded {
                crate::tasks::lemma_same_ids(old_tasks, self.tasks@, x);
            }
        }
        if let Some(mut w) = self.wizard.take() {
            w.task_completed(id, success);
            self.wizard = Some(w);
        }
        if !success {
            return one(Effect::Toast(Msg::TaskFailed { label }));
        }
        Vec::new()
    }

    fn task_started(
        &mut self,
        label: String,
        kind: TaskKind,
        at: u64,
        result: Result<TaskId, Failure>,
    ) -> (r: Vec<Effect>)
        requires
            old(self).wf(),
        ensures
            final(self).wf(),
            started_post(*old(self), *final(self), label, kind, at, result, r@),
    {
        match result {
            Err(e) => {
                let toast = one(
                    Effect::Toast(Msg::CouldNotStart { label, error: e.copy() }),
                );
                let mut handled = false;
                if kind == TaskKind::Create {
                    if let Some(mut w) = self.wizard.take() {
                        handled = w.start_failed(e.copy());
                        self.wizard = Some(w);
                    }
                }
                if !handled {
                    self.error = Some(crate::shell::error_text(&e));
                }
                assert(toast@ == seq![Effect::Toast(Msg::CouldNotStart { label, error: e })]);
                toast
            },
            Ok(id) => {
                if kind == TaskKind::Create {
                    if let Some(mut w) = self.wizard.take() {
                        w.task_started(id);
                        self.wizard = Some(w);
                    }
                }
                let ghost old_tasks = self.tasks@;
                let view = TaskView::started(label, kind, at);
                let ghost v = view;
                self.tasks.insert(id, view);
                proof {
                    if !has_id(old_tasks, id) {
                        crate::tasks::lemma_id_slot(old_tasks, id);
                        let q = id_slot(old_tasks, id);
                        assert(self.tasks@ == old_tasks.insert(q, (id, v)));
                        assert(self.tasks@[q] == (id, v));
                        if let Some(x) = self.activity.expanded {
                            crate::tasks::lemma_insert_keeps_ids(old_tasks, q, (id, v), x);
                        }
                    } else if let Some(x) = self.activity.expanded {
                        let i = choose|i: int| 0 <= i < old_tasks.len() && old_tasks[i].0 == id;
                        assert(self.tasks@ == old_tasks.update(i, (id, v)));
                        crate::tasks::lemma_same_ids(old_tasks, self.tasks@, x);
                    }
                    if has_id(old_tasks, id) {
                        assert forall|i: int|
                            0 <= i < old_tasks.len() && old_tasks[i].0 == id implies self.tasks@
                                == old_tasks.update(i, (id, self.tasks@[i].1)) && fresh_view(
                                self.tasks@[i].1,
                                label,
                                kind,
                                at,
                            ) by {
                            assert(self.tasks@ == old_tasks.update(i, (id, v)));
                        }
                    }
                }
                Vec::new()
            },
        }
    }

    fn task_output(&mut self, id: TaskId, lines: Vec<String>, cap: usize)
        requires
            old(self).wf(),
        ensures
            final(self).wf(),
            marked(
                old(self).tasks@,
                final(self).tasks@,
                id,
                |a: TaskView, b: TaskView| lines_recorded(a, b, lines@, cap as nat),
            ),
            *final(self) == (Shell { tasks: final(self).tasks, ..*old(self) }),
    {
        let ghost old_tasks = self.tasks@;
        let ghost ls = lines@;
        self.tasks.record_output(id, lines, cap);
        proof {
            let rec = |a: TaskView, b: TaskView| lines_recorded(a, b, ls, cap as nat);
            assert forall|i: int| 0 <= i < old_tasks.len() implies #[trigger] self.tasks@[i].0
                == old_tasks[i].0 && if old_tasks[i].0 == id {
                rec(old_tasks[i].1, self.tasks@[i].1)
            } else {
                self.tasks@[i] == old_tasks[i]
            } by {}
            if let Some(x) = self.activity.expanded {
                crate::tasks::lemma_same_ids(old_tasks, self.tasks@, x);
            }
        }
    }

    fn expire_one(&mut self, id: TaskId)
        requires
            old(self).wf(),
        ensures
            final(self).wf(),
            final(self).tasks@ == without(old(self).tasks@, id),
            final(self).activity == drawer_after(old(self).activity, id),
            final(self).wizard == match old(self).wizard {
                Some(w) => if w.task_id == Some(id) {
                    Some(WizardState { task_id: None, ..w })
                } else {
                    Some(w)
                },
                None => None,
            },
            *final(self) == (Shell {
                tasks: final(self).tasks,
                activity: final(self).activity,
                wizard: final(self).wizard,
                ..*old(self)
            }),
    {
        self.tasks.forget(id);
        let ghost s1 = *self;
        assert(s1 == Shell { tasks: s1.tasks, ..*old(self) });
        if self.activity.expanded == Some(id) {
            self.activity.expanded = None;
        }
        let ghost s2 = *self;
        assert(s2 == Shell { activity: s2.activity, ..s1 });
        let wizard = self.wizard.take();
        self.wizard = wizard_expire(wizard, id);
        assert(*self == Shell { wizard: self.wizard, ..s2 });
        proof {
            lemma_drawer_after_expiry(old(self).tasks@, old(self).activity, id);
        }
    }

    #[verifier::rlimit(60)]
    fn tasks_expired(&mut self, ids: Vec<TaskId>)
        requires
            old(self).wf(),
        ensures
            final(self).wf(),
            tasks_post(
                *old(self),
                *final(self),
                arbitrary(),
                TaskMsg::Expired(ids),
                Seq::<Effect>::empty(),
            ),
    {
        let ghost orig = *self;
        let mut k: usize = 0;
        while k < ids.len()
            invariant
                self.wf(),
                k <= ids@.len(),
                self.tasks@ == without_all(orig.tasks@, ids@.take(k as int)),
                self.activity == match orig.activity.expanded {
                    Some(x) => if ids@.take(k as int).contains(x) {
                        ActivityState { expanded: None, ..orig.activity }
                    } else {
                        orig.activity
                    },
                    None => orig.activity,
                },
                self.wizard == match orig.wizard {
                    Some(w) => match w.task_id {
                        Some(x) => if ids@.take(k as int).contains(x) {
                            Some(WizardState { task_id: None, ..w })
                        } else {
                            Some(w)
                        },
                        None => Some(w),
                    },
                    None => None,
                },
                *self == (Shell {
                    tasks: self.tasks,
                    activity: self.activity,
                    wizard: self.wizard,
                    ..orig
                }),
            decreases ids@.len() - k,
        {
            let id = ids[k];
            proof {
                assert(ids@.take(k + 1).drop_last() =~= ids@.take(k as int));
                assert(ids@.take(k + 1).last() == id);
                assert(ids@.take(k + 1) =~= ids@.take(k as int).push(id));
                assert forall|x: TaskId| ids@.take(k as int).push(id).contains(x) <==> (ids@.take(
                    k as int,
                ).contains(x) || x == id) by {
                    let t = ids@.take(k as int);
                    if t.push(id).contains(x) {
                        let j = choose|j: int| 0 <= j < t.push(id).len() && #[trigger] t.push(id)[j] == x;
                        if j < t.len() {
                            assert(t[j] == x);
                        }
                    }
                    if t.contains(x) {
                        let j = choose|j: int| 0 <= j < t.len() && #[trigger] t[j] == x;
                        assert(t.push(id)[j] == x);
                    }
                    if x == id {
                        assert(t.push(id)[t.len() as int] == x);
                    }
                }
            }
            self.expire_one(id);
            k += 1;
        }
        proof {
            assert(ids@.take(ids@.len() as int) =~= ids@);
        }
    }

    /// Handle a task-lifecycle message.
    pub fn update_tasks(&mut self, msg: TaskMsg, bd: &BackendView) -> (r: Vec<Effect>)
        requires
            old(self).wf(),
        ensures
            final(self).wf(),
            tasks_post(*old(self), *final(self), *bd, msg, r@),
    {
        match msg {
            TaskMsg::Started { label, kind, at, result } => self.task_started(label, kind, at, result),
            TaskMsg::Output { id, lines } => {
                self.task_output(id, lines, bd.max_output_lines);
                Vec::new()
            },
            TaskMsg::Completed { id, success } => self.task_completed(id, success),
            TaskMsg::CancelRequested(id) => one(Effect::CancelTask(id)),
            TaskMsg::CancelAccepted(id) => self.cancel_accepted(id),
            TaskMsg::Cancelled(id) => {
                if self.activity.expanded == Some(id) {
                    self.activity.expanded = None;
                }
                Vec::new()
            },
            TaskMsg::ClearCompleted => {
                self.tasks.clear_completed();
                if let Some(id) = self.activity.expanded {
                    if !self.tasks.contains(id) {
                        self.activity.expanded = None;
                    }
                }
                Vec::new()
            },
            TaskMsg::Expired(ids) => {
                self.tasks_expired(ids);
                Vec::new()
            },
            TaskMsg::ExpiredTick => one(Effect::SweepExpired),
        }
    }

    /// Handle a re-probe message.
    pub fn update_env(&mut self, msg: EnvMsg) -> (r: Vec<Effect>)
        ensures
            env_post(*old(self), *final(self), msg, r@),
    {
        match msg {
            EnvMsg::ReprobeRequested => {
                self.loading.containers = true;
                self.error = None;
                one(Effect::Reprobe)
            },
            EnvMsg::Probed(guard) => {
                self.loading.containers = false;
                match crate::views::reprobe_outcome(&guard) {
                    crate::views::ReprobeOutcome::Recovered => {
                        self.error = None;
                        self.loading.containers = true;
                        self.loading_version = true;
                        two(Effect::LoadContainers, Effect::LoadVersion)
                    },
                    crate::views::ReprobeOutcome::StillGated { error } => {
                        self.error = match error {
                            Some(m) => Some(Msg::Raw(m)),
                            None => None,
                        };
                        Vec::new()
                    },
                }
            },
        }
    }

    /// Handle a banner or clipboard message.
    pub fn update_ui(&mut self, msg: UiMsg) -> (r: Vec<Effect>)
        ensures
            ui_post(*old(self), *final(self), msg, r@),
    {
        match msg {
            UiMsg::DismissError => {
                self.error = None;
                Vec::new()
            },
            UiMsg::CopiedToClipboard(what) => one(Effect::Toast(Msg::CopiedToClipboard { what })),
        }
    }

    /// Handle an Activity message.
    pub fn update_activity(&mut self, msg: ActivityMsg) -> (r: Vec<Effect>)
        requires
            old(self).wf(),
        ensures
            activity_post(*old(self), *final(self), msg, r@),
    {
        match msg {
            ActivityMsg::SearchChanged(q) => {
                self.activity.search = q;
            },
            ActivityMsg::FilterSelected(f) => {
                self.activity.filter = f;
            },
            ActivityMsg::Expanded(id) => {
                if self.tasks.contains(id) {
                    self.activity.expanded = Some(id);
                }
            },
            ActivityMsg::DrawerClosed => {
                self.activity.expanded = None;
            },
        }
        Vec::new()
    }
}

} // verus!
