//! The single entry point: route a message to the handler of its page.
use vstd::prelude::*;
use crate::message::Message;
use crate::shell::{BackendView, Effect, Shell, unchanged};
use crate::shell_backups::{backups_post, packages_post};
use crate::shell_containers::{containers_post, details_post, dialog_post};
use crate::shell_pages::{activity_post, apps_post, env_post, images_post, stats_post, tasks_post, ui_post};
use crate::shell_settings::{nav_post, settings_post, terminal_post, wizard_post};

verus! {

/// What any message does to the shell.
pub open spec fn update_post<S>(
    old: Shell<S>,
    new: Shell<S>,
    bd: BackendView,
    msg: Message<S>,
    r: Seq<Effect>,
) -> bool {
    match msg {
        Message::NavSelect(page) => nav_post(old, new, page, r),
        Message::Containers(m) => containers_post(old, new, bd, m, r),
        Message::Details(m) => details_post(old, new, bd, m, r),
        Message::Dialog(m) => dialog_post(old, new, bd, m, r),
        Message::Wizard(m) => wizard_post(old, new, bd, m, r),
        Message::Images(m) => images_post(old, new, m, r),
        Message::Packages(m) => packages_post(old, new, bd, m, r),
        Message::Updates(_) => unchanged(old, new, r),
        Message::Terminal(m) => terminal_post(old, new, bd, m, r),
        Message::Apps(m) => apps_post(old, new, bd, m, r),
        Message::Stats(m) => stats_post(old, new, m, r),
        Message::Tasks(m) => tasks_post(old, new, bd, m, r),
        Message::Env(m) => env_post(old, new, m, r),
        Message::Ui(m) => ui_post(old, new, m, r),
        Message::Backups(m) => backups_post(old, new, bd, m, r),
        Message::Activity(m) => activity_post(old, new, m, r),
        Message::Settings(m) => settings_post(old, new, bd, m, r),
    }
}

impl<S> Shell<S> {
    /// Apply a message; the effects are what the application does next, in
    /// order. `bd` is the backend as it stands now. Every message keeps the
    /// shell's invariant: the mirror stays in id order with each id once, and
    /// the output drawer stays closed or open on a mirrored task (a task that
    /// expires, is cleared or is cancelled takes its drawer with it, and a
    /// drawer opens only on a known task).
    pub fn update(&mut self, msg: Message<S>, bd: &BackendView) -> (r: Vec<Effect>)
        requires
            old(self).wf(),
        ensures
            final(self).wf(),
            update_post(*old(self), *final(self), *bd, msg, r@),
    {
        match msg {
            Message::NavSelect(page) => self.on_nav_select(page),
            Message::Containers(m) => self.update_containers(m, bd),
            Message::Details(m) => self.update_details(m, bd),
            Message::Dialog(m) => self.update_dialog(m, bd),
            Message::Wizard(m) => self.update_wizard(m, bd),
            Message::Images(m) => self.update_images(m),
            Message::Packages(m) => self.update_packages(m, bd),
            Message::Updates(_) => Vec::new(),
            Message::Terminal(m) => self.update_terminal(m, bd),
            Message::Apps(m) => self.update_apps(m, bd),
            Message::Stats(m) => self.update_stats(m),
            Message::Tasks(m) => self.update_tasks(m, bd),
            Message::Env(m) => self.update_env(m),
            Message::Ui(m) => self.update_ui(m),
            Message::Backups(m) => self.update_backups(m, bd),
            Message::Activity(m) => self.update_activity(m),
            Message::Settings(m) => self.update_settings(m, bd),
        }
    }
}

} // verus!
