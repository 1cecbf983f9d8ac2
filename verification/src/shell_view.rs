//! What the window shows for the shell's state: which screen the Containers
//! page renders, the header buttons, the modal in the single dialog slot,
//! the wizard's progress, and the report of a delete-all.
use vstd::prelude::*;
use crate::message::{AppMsg, BackupsMsg, ContainerMsg, Message, TaskMsg, TerminalMsg, DetailsMsg};
use crate::msg::Msg;
use crate::shell::Shell;
use crate::shell_containers::has_named;
use crate::tasks::{TaskView, has_id, view_of};
use crate::views::{HeaderRefresh, Page, header_refresh};

verus! {

/// What the Containers page renders.
#[derive(Clone, Debug, PartialEq, Eq)]
pub enum ContainersScreen {
    /// The terminal page of the named (listed) container.
    Terminal(String),
    Wizard,
    Details,
    List,
}

/// The Containers page's screen: an open terminal page wins (falling back to
/// the list when its container is no longer listed), then the wizard, then
/// the details page.
pub open spec fn screen_of<S>(s: Shell<S>) -> ContainersScreen {
    match s.terminal.container {
        Some(name) => if has_named(s.containers.containers@, name@) {
            ContainersScreen::Terminal(name)
        } else {
            ContainersScreen::List
        },
        None => if s.wizard is Some {
            ContainersScreen::Wizard
        } else if s.details_for is Some {
            ContainersScreen::Details
        } else {
            ContainersScreen::List
        },
    }
}

/// The header's leading button.
#[derive(Clone, Debug, PartialEq, Eq)]
pub enum HeaderStart {
    /// Back out of the terminal page.
    CloseTerminal,
    /// Back out of the details page.
    CloseDetails,
    Refresh(HeaderRefresh),
    Nothing,
}

/// The header's leading button: Back on a pushed page of Containers, else
/// the page's refresh.
pub open spec fn header_start_of<S>(s: Shell<S>) -> HeaderStart {
    if s.page == Page::Containers && s.terminal.container is Some {
        HeaderStart::CloseTerminal
    } else if s.page == Page::Containers && s.details_for is Some {
        HeaderStart::CloseDetails
    } else {
        match header_refresh_of(s.page) {
            Some(h) => HeaderStart::Refresh(h),
            None => HeaderStart::Nothing,
        }
    }
}

/// The page's refresh routing.
pub open spec fn header_refresh_of(page: Page) -> Option<HeaderRefresh> {
    if page == Page::Images {
        Some(HeaderRefresh::Images)
    } else if page == Page::Updates || page == Page::Apps {
        None
    } else {
        Some(HeaderRefresh::Containers)
    }
}

/// The messages of the header's trailing buttons on the active page; a
/// button whose message is `None` is shown disabled.
pub open spec fn header_end_of<S>(s: Shell<S>) -> Seq<Option<Message<S>>> {
    match s.page {
        Page::Containers => if s.details_for is None && s.wizard is None {
            seq![Some(Message::Containers(ContainerMsg::NewContainerRequested))]
        } else {
            Seq::empty()
        },
        Page::Updates => seq![
            Some(Message::Containers(ContainerMsg::RefreshRequested)),
            Some(Message::Containers(ContainerMsg::UpgradeAllRequested)),
        ],
        Page::Activity => seq![Some(Message::Tasks(TaskMsg::ClearCompleted))],
        Page::Backups => seq![Some(Message::Backups(BackupsMsg::CreateDialogRequested))],
        Page::Apps => seq![
            match s.selected_container {
                Some(c) => Some(Message::Apps(AppMsg::ReloadRequested(c))),
                None => None,
            },
        ],
        _ => Seq::empty(),
    }
}

/// Which modal holds the single dialog slot.
#[derive(Clone, Debug, PartialEq, Eq)]
pub enum DialogSlot {
    BinaryExport,
    Backups,
    WizardVolume,
    ImageDetails(String),
    /// The shell's confirm or clone dialog.
    Shared,
    Nothing,
}

/// The modal in the slot, in priority order: binary export, a backups
/// dialog, the wizard's volume dialog, the image details, then the shared
/// confirm/clone dialog.
pub open spec fn dialog_slot_of<S>(s: Shell<S>) -> DialogSlot {
    if s.apps_binary_dialog {
        DialogSlot::BinaryExport
    } else if s.backups.dialog is Some {
        DialogSlot::Backups
    } else if s.wizard is Some && s.wizard->0.volume_dialog is Some {
        DialogSlot::WizardVolume
    } else if s.image_details is Some {
        DialogSlot::ImageDetails(s.image_details->0)
    } else if s.dialog is Some {
        DialogSlot::Shared
    } else {
        DialogSlot::Nothing
    }
}

/// The length of the joined failure list.
pub open spec fn failure_list(f: Seq<(String, String)>) -> Seq<char>
    decreases f.len(),
{
    if f.len() == 0 {
        Seq::empty()
    } else if f.len() == 1 {
        f[0].0@ + " ("@ + f[0].1@ + ")"@
    } else {
        failure_list(f.drop_last()) + ", "@ + f.last().0@ + " ("@ + f.last().1@ + ")"@
    }
}

/// The report of a delete-all: every container went, or how many did out of
/// how many, with each survivor's name and error (as `name (error)`,
/// joined by commas).
pub fn deletion_report(total: usize, failures: &[(String, String)]) -> (r: Msg)
    requires
        failures@.len() <= total,
    ensures
        failures@.len() == 0 ==> r == (Msg::AllContainersDeleted { count: total }),
        failures@.len() > 0 ==> (r matches Msg::ContainersDeletedPartial { done, total: t, failures: f }
            && done == total - failures@.len() && t == total && f@ == failure_list(failures@)),
{
    if failures.len() == 0 {
        return Msg::AllContainersDeleted { count: total };
    }
    let mut text = String::new();
    let mut i: usize = 0;
    while i < failures.len()
        invariant
            0 < failures@.len(),
            i <= failures@.len(),
            text@ == failure_list(failures@.take(i as int)),
        decreases failures@.len() - i,
    {
        proof {
            reveal_strlit(", ");
            reveal_strlit(" (");
            reveal_strlit(")");
            assert(failures@.take(i + 1).drop_last() =~= failures@.take(i as int));
            assert(failures@.take(i + 1).last() == failures@[i as int]);
        }
        if i > 0 {
            text.append(", ");
        }
        text.append(failures[i].0.as_str());
        text.append(" (");
        text.append(failures[i].1.as_str());
        text.append(")");
        proof {
            if i == 0 {
                assert(failures@.take(1)[0] == failures@[0]);
                assert(text@ =~= failure_list(failures@.take(1)));
            } else {
                assert(text@ =~= failure_list(failures@.take(i + 1)));
            }
        }
        i += 1;
    }
    proof {
        assert(failures@.take(failures@.len() as int) =~= failures@);
    }
    Msg::ContainersDeletedPartial { done: total - failures.len(), total, failures: text }
}

impl<S> Shell<S> {
    /// The Containers page's screen.
    pub fn containers_screen(&self) -> (r: ContainersScreen)
        ensures
            r == screen_of(*self),
    {
        match &self.terminal.container {
            Some(name) => {
                proof {
                    crate::model::lemma_first_named(self.containers.containers@, name@);
                }
                if crate::model::position_named(
                    self.containers.containers.as_slice(),
                    name.as_str(),
                ).is_some() {
                    ContainersScreen::Terminal(name.clone())
                } else {
                    ContainersScreen::List
                }
            },
            None => if self.wizard.is_some() {
                ContainersScreen::Wizard
            } else if self.details_for.is_some() {
                ContainersScreen::Details
            } else {
                ContainersScreen::List
            },
        }
    }

    /// The header's leading button.
    pub fn header_start(&self) -> (r: HeaderStart)
        ensures
            r == header_start_of(*self),
    {
        if self.page == Page::Containers && self.terminal.container.is_some() {
            HeaderStart::CloseTerminal
        } else if self.page == Page::Containers && self.details_for.is_some() {
            HeaderStart::CloseDetails
        } else {
            match header_refresh(self.page) {
                Some(h) => HeaderStart::Refresh(h),
                None => HeaderStart::Nothing,
            }
        }
    }

    /// The header's trailing buttons' messages on the active page (`None`:
    /// shown disabled), before the environment gate.
    pub fn header_end(&self) -> (r: Vec<Option<Message<S>>>)
        ensures
            r@ == header_end_of(*self),
    {
        let mut v: Vec<Option<Message<S>>> = Vec::new();
        match self.page {
            Page::Containers => {
                if self.details_for.is_none() && self.wizard.is_none() {
                    v.push(Some(Message::Containers(ContainerMsg::NewContainerRequested)));
                }
            },
            Page::Updates => {
                v.push(Some(Message::Containers(ContainerMsg::RefreshRequested)));
                v.push(Some(Message::Containers(ContainerMsg::UpgradeAllRequested)));
            },
            Page::Activity => {
                v.push(Some(Message::Tasks(TaskMsg::ClearCompleted)));
            },
            Page::Backups => {
                v.push(Some(Message::Backups(BackupsMsg::CreateDialogRequested)));
            },
            Page::Apps => {
                let m = match &self.selected_container {
                    Some(c) => Some(Message::Apps(AppMsg::ReloadRequested(c.clone()))),
                    None => None,
                };
                v.push(m);
            },
            _ => {},
        }
        proof {
            assert(v@ =~= header_end_of(*self));
        }
        v
    }

    /// Which modal holds the dialog slot.
    pub fn dialog_slot(&self) -> (r: DialogSlot)
        ensures
            r == dialog_slot_of(*self),
    {
        if self.apps_binary_dialog {
            DialogSlot::BinaryExport
        } else if self.backups.dialog.is_some() {
            DialogSlot::Backups
        } else if match &self.wizard {
            Some(w) => w.volume_dialog.is_some(),
            None => false,
        } {
            DialogSlot::WizardVolume
        } else if let Some(image) = &self.image_details {
            DialogSlot::ImageDetails(image.clone())
        } else if self.dialog.is_some() {
            DialogSlot::Shared
        } else {
            DialogSlot::Nothing
        }
    }

    /// Whether an upgrade labelled `label` is unfinished (the details and
    /// terminal pages disable their Upgrade button while it runs).
    pub fn upgrading(&self, label: &str) -> (r: bool)
        ensures
            r == exists|i: int|
                0 <= i < self.tasks@.len() && !self.tasks@[i].1.completed && self.tasks@[i].1.label@
                    == label@,
    {
        self.tasks.has_unfinished_label(label)
    }

    /// The wizard's progress step: the mirrored task when it is still there
    /// (its output, completion and outcome), else the outcome the wizard
    /// latched. `None` when no wizard is open.
    pub fn wizard_progress(&self) -> (r: Option<(Option<&TaskView>, bool, bool)>)
        requires
            self.wf(),
        ensures
            match self.wizard {
                None => r is None,
                Some(w) => match r {
                    Some((live, completed, success)) => match w.task_id {
                        Some(id) if has_id(self.tasks@, id) => {
                            let v = view_of(self.tasks@, id)->0;
                            live == Some(&v) && completed == v.completed && success == v.success
                        },
                        _ => live is None && completed == w.task_completed && success
                            == w.task_success,
                    },
                    None => false,
                },
            },
    {
        match &self.wizard {
            None => None,
            Some(w) => {
                let live = match w.task_id {
                    Some(id) => self.tasks.get(id),
                    None => None,
                };
                match live {
                    Some(v) => {
                        proof {
                            let id = w.task_id->0;
                            let k = choose|i: int| 0 <= i < self.tasks@.len() && self.tasks@[i].0 == id;
                            let j = choose|i: int|
                                0 <= i < self.tasks@.len() && self.tasks@[i].0 == id
                                    && self.tasks@[i].1 == *v;
                            if j != k {
                                assert(self.tasks@[j].0 != self.tasks@[k].0);
                            }
                        }
                        Some((Some(v), v.completed, v.success))
                    },
                    None => Some((None, w.task_completed, w.task_success)),
                }
            },
        }
    }
}

} // verus!
