//! The create wizard: image step (catalogue grid, live search, custom URL),
//! config step (name with an automatic default, init/nvidia toggles, home
//! directory, volumes with a validating dialog) and progress step (the
//! create task, latched so its outcome survives the task leaving the
//! mirror).
use vstd::prelude::*;
use crate::message::WizardMsg;
use crate::model::{Failure, TaskId};
use crate::msg::Msg;
use crate::text::{
    after_last, after_last_chars, before_first, before_first_chars, char_to_uppercase, chars_of,
    contains_folded, has_char, is_substring, lowercase, string_from, string_of, to_lowercase, trim, trimmed,
    uppercase_char, ascii_upper_char,
};

verus! {

/// Wizard step.
#[derive(Clone, Copy, Debug, PartialEq, Eq, Structural)]
pub enum WizardStep {
    Image,
    Config,
    Progress,
}

/// A volume mount to pass to create.
#[derive(Clone, Debug, PartialEq, Eq)]
pub struct WizardVolume {
    pub host: String,
    pub container: String,
    pub read_only: bool,
}

/// The add-volume dialog, with its validation error.
#[derive(Clone, Debug, PartialEq, Eq)]
pub struct VolumeDialog {
    pub host: String,
    pub container: String,
    pub read_only: bool,
    pub error: Option<Msg>,
}

impl Default for VolumeDialog {
    fn default() -> (r: Self)
        ensures
            r.host@.len() == 0,
            r.container@.len() == 0,
            !r.read_only,
            r.error is None,
    {
        VolumeDialog { host: String::new(), container: String::new(), read_only: false, error: None }
    }
}

/// Create-wizard state.
#[derive(Clone, Debug, PartialEq, Eq)]
pub struct WizardState {
    pub step: WizardStep,
    pub selected_image: Option<String>,
    pub custom_image: String,
    pub search: String,
    pub name: String,
    pub init_system: bool,
    pub nvidia: bool,
    pub advanced_open: bool,
    pub home_dir: String,
    pub volumes: Vec<WizardVolume>,
    pub volume_dialog: Option<VolumeDialog>,
    pub inline_error: Option<Msg>,
    /// The create task the progress step follows.
    pub task_id: Option<TaskId>,
    /// Latched completion of that task.
    pub task_completed: bool,
    pub task_success: bool,
}

/// The image create uses: the trimmed custom URL when it is not blank,
/// else the selected catalogue image, else nothing.
pub open spec fn effective_image_of(w: WizardState) -> Seq<char> {
    if trimmed(w.custom_image@).len() > 0 {
        trimmed(w.custom_image@)
    } else {
        match w.selected_image {
            Some(s) => s@,
            None => Seq::empty(),
        }
    }
}

/// Friendly name of an image reference: the last path segment without its
/// tag, first character uppercased; `container` when that is empty.
pub open spec fn display_name(image: Seq<char>) -> Seq<char> {
    let base = before_first(after_last(image, '/'), ':');
    if base.len() == 0 {
        "container"@
    } else {
        uppercase_char(base[0]) + base.drop_first()
    }
}

/// Tag of an image reference: what follows the last `:`, or `latest` when
/// there is none.
pub open spec fn image_tag_of(image: Seq<char>) -> Seq<char> {
    if image.contains(':') {
        after_last(image, ':')
    } else {
        "latest"@
    }
}

/// The images whose lowercased reference contains the lowercased query, in
/// order; all of them for an empty query.
pub open spec fn images_matching(images: Seq<String>, query: Seq<char>) -> Seq<String>
    decreases images.len(),
{
    if images.len() == 0 {
        images
    } else if query.len() == 0 || is_substring(lowercase(query), lowercase(images.last()@)) {
        images_matching(images.drop_last(), query).push(images.last())
    } else {
        images_matching(images.drop_last(), query)
    }
}

/// The live image search: an empty query shows the whole catalogue, and
/// otherwise an image is shown exactly when it is in the catalogue and its
/// lowercased reference contains the lowercased query; nothing is added.
pub proof fn lemma_image_search(images: Seq<String>, query: Seq<char>)
    ensures
        query.len() == 0 ==> images_matching(images, query) == images,
        images_matching(images, query).len() <= images.len(),
        forall|x: String|
            #[trigger] images_matching(images, query).contains(x) <==> (images.contains(x) && (
            query.len() == 0 || is_substring(lowercase(query), lowercase(x@)))),
    decreases images.len(),
{
    if images.len() > 0 {
        let d = images.drop_last();
        lemma_image_search(d, query);
        assert(d.push(images.last()) =~= images);
        let m = images_matching(images, query);
        let md = images_matching(d, query);
        assert forall|x: String| #[trigger] m.contains(x) <==> (images.contains(x) && (query.len() == 0
            || is_substring(lowercase(query), lowercase(x@)))) by {
            if images.contains(x) && (query.len() == 0 || is_substring(lowercase(query), lowercase(x@))) {
                let i = choose|i: int| 0 <= i < images.len() && images[i] == x;
                if i < images.len() - 1 {
                    assert(d[i] == x);
                    assert(md.contains(x));
                    let j = choose|j: int| 0 <= j < md.len() && md[j] == x;
                    if m.len() > md.len() {
                        assert(m[j] == x);
                    } else {
                        assert(m == md);
                    }
                } else {
                    assert(m[m.len() - 1] == x);
                }
            }
            if m.contains(x) {
                let j = choose|j: int| 0 <= j < m.len() && m[j] == x;
                if j < md.len() {
                    assert(md[j] == x);
                    assert(md.contains(x));
                    let i = choose|i: int| 0 <= i < d.len() && d[i] == x;
                    assert(images[i] == x);
                } else {
                    assert(images[images.len() - 1] == x);
                }
            }
        }
    }
}

/// A blank wizard on its first step.
pub open spec fn wizard_fresh(r: WizardState) -> bool {
    &&& r.step == WizardStep::Image
    &&& r.selected_image is None
    &&& r.custom_image@.len() == 0
    &&& r.search@.len() == 0
    &&& r.name@.len() == 0
    &&& !r.init_system && !r.nvidia && !r.advanced_open
    &&& r.home_dir@.len() == 0
    &&& r.volumes@.len() == 0
    &&& r.volume_dialog is None
    &&& r.inline_error is None
    &&& r.task_id is None
    &&& !r.task_completed && !r.task_success
}

/// A wizard on its first step with `image` both selected and in the custom
/// field, everything else blank.
pub open spec fn wizard_preselected(r: WizardState, image: String) -> bool {
    &&& r.selected_image == Some(image)
    &&& r.custom_image == image
    &&& r.step == WizardStep::Image
    &&& r.search@.len() == 0
    &&& r.name@.len() == 0
    &&& !r.init_system && !r.nvidia && !r.advanced_open
    &&& r.home_dir@.len() == 0
    &&& r.volumes@.len() == 0
    &&& r.volume_dialog is None
    &&& r.inline_error is None
    &&& r.task_id is None
    &&& !r.task_completed && !r.task_success
}

impl Default for WizardState {
    fn default() -> (r: Self)
        ensures
            wizard_fresh(r),
    {
        WizardState {
            step: WizardStep::Image,
            selected_image: None,
            custom_image: String::new(),
            search: String::new(),
            name: String::new(),
            init_system: false,
            nvidia: false,
            advanced_open: false,
            home_dir: String::new(),
            volumes: Vec::new(),
            volume_dialog: None,
            inline_error: None,
            task_id: None,
            task_completed: false,
            task_success: false,
        }
    }
}

impl WizardState {
    /// Effective image: the custom URL wins.
    pub fn effective_image(&self) -> (r: String)
        ensures
            r@ == effective_image_of(*self),
    {
        let custom = trim(self.custom_image.as_str());
        if !custom.is_empty() {
            return String::from_str(custom);
        }
        match &self.selected_image {
            Some(s) => s.clone(),
            None => String::new(),
        }
    }

    /// Friendly name from an image reference (`registry/x:tag` → `X`).
    pub fn image_display_name(image: &str) -> (r: String)
        ensures
            r@ == display_name(image@),
            ({
                let base = before_first(after_last(image@, '/'), ':');
                base.len() > 0 && (base[0] as u32) < 128 ==> r@ == seq![ascii_upper_char(base[0])]
                    + base.drop_first()
            }),
    {
        let chars = chars_of(image);
        let last = after_last_chars(chars.as_slice(), '/');
        let base = before_first_chars(last.as_slice(), ':');
        if base.len() == 0 {
            return String::from_str("container");
        }
        let first = char_to_uppercase(base[0]);
        let rest = string_from(base.as_slice(), 1);
        proof {
            assert(base@.subrange(1, base@.len() as int) =~= base@.drop_first());
        }
        first.concat(rest.as_str())
    }

    /// Tag from an image reference (`registry/x:39` → `39`, else `latest`).
    pub fn image_tag(image: &str) -> (r: String)
        ensures
            r@ == image_tag_of(image@),
    {
        let chars = chars_of(image);
        if has_char(chars.as_slice(), ':') {
            let tag = after_last_chars(chars.as_slice(), ':');
            string_of(tag.as_slice())
        } else {
            String::from_str("latest")
        }
    }

    /// Default container name: the lowercased friendly name plus
    /// `-container`.
    pub fn default_name(image: &str) -> (r: String)
        ensures
            r@ == lowercase(display_name(image@)) + "-container"@,
    {
        let name = Self::image_display_name(image);
        let lower = to_lowercase(name.as_str());
        lower.concat("-container")
    }

    /// The catalogue images the live search shows.
    pub fn filter_images<'a>(images: &'a [String], query: &str) -> (r: Vec<&'a String>)
        ensures
            Seq::new(r@.len(), |i: int| *r@[i]) == images_matching(images@, query@),
    {
        let q = to_lowercase(query);
        let all = query.is_empty();
        let mut out: Vec<&'a String> = Vec::new();
        let mut i: usize = 0;
        while i < images.len()
            invariant
                i <= images@.len(),
                q@ == lowercase(query@),
                all == (query@.len() == 0),
                Seq::new(out@.len(), |k: int| *out@[k]) == images_matching(images@.take(i as int), query@),
            decreases images@.len() - i,
        {
            assert(images@.take(i + 1).drop_last() =~= images@.take(i as int));
            if all || contains_folded(images[i].as_str(), q.as_str()) {
                out.push(&images[i]);
            }
            assert(Seq::new(out@.len(), |k: int| *out@[k]) =~= images_matching(images@.take(i + 1), query@));
            i += 1;
        }
        assert(images@.take(images@.len() as int) =~= images@);
        out
    }

    /// Seed from a preselected image: both the selection and the custom
    /// field hold it.
    pub fn with_preselected(image: String) -> (r: Self)
        ensures
            wizard_preselected(r, image),
    {
        let mut w = WizardState::default();
        w.selected_image = Some(image.clone());
        w.custom_image = image;
        w
    }
}

/// What create is asked to do once the name passes the blank check.
#[derive(Clone, Debug, PartialEq, Eq)]
pub struct CreateRequest {
    /// The trimmed name, still to be validated as a container name.
    pub name: String,
    pub image: String,
    pub init: bool,
    pub nvidia: bool,
    /// The trimmed home directory, when it is not blank.
    pub home_path: Option<String>,
    pub volumes: Vec<WizardVolume>,
}

/// What the application does after a wizard message.
#[derive(Clone, Debug, PartialEq, Eq)]
pub enum WizardEffect {
    Stay,
    /// Leave the wizard.
    Close,
    /// Validate the name as a container name, then create: on an invalid
    /// name call `name_rejected`, on a valid one `creation_started` and spawn
    /// the create task.
    Create(CreateRequest),
    /// Cancel the create task.
    CancelTask(TaskId),
    /// Leave the wizard and reload the container list.
    Finish,
}

fn copy_volumes(v: &Vec<WizardVolume>) -> (r: Vec<WizardVolume>)
    ensures
        r@ == v@,
{
    let mut out: Vec<WizardVolume> = Vec::new();
    let mut i: usize = 0;
    while i < v.len()
        invariant
            i <= v@.len(),
            out@ == v@.take(i as int),
        decreases v@.len() - i,
    {
        let x = &v[i];
        out.push(WizardVolume { host: x.host.clone(), container: x.container.clone(), read_only: x.read_only });
        assert(out@ =~= v@.take(i + 1));
        i += 1;
    }
    assert(v@.take(v@.len() as int) =~= v@);
    out
}

/// The volume-dialog change `msg` makes to an open dialog.
pub open spec fn dialog_after(d: VolumeDialog, msg: WizardMsg) -> VolumeDialog {
    match msg {
        WizardMsg::VolumeDialogHostChanged(h) => VolumeDialog { host: h, error: None, ..d },
        WizardMsg::VolumeDialogContainerChanged(c) => VolumeDialog { container: c, error: None, ..d },
        WizardMsg::VolumeDialogReadOnlyToggled(v) => VolumeDialog { read_only: v, ..d },
        _ => d,
    }
}

/// What a wizard message does to the wizard, and the effect it asks for.
pub open spec fn wizard_step(old: WizardState, new: WizardState, msg: WizardMsg, r: WizardEffect) -> bool {
    match msg {
        WizardMsg::Closed => r == WizardEffect::Close && new == old,
        WizardMsg::ImageSelected(image) => r == WizardEffect::Stay
            && new.custom_image@.len() == 0 && new == (WizardState {
            selected_image: Some(image),
            custom_image: new.custom_image,
            inline_error: None,
            ..old
        }),
        WizardMsg::CustomChanged(u) => r == WizardEffect::Stay && new == (
        WizardState {
            selected_image: if u@.len() > 0 {
                None
            } else {
                old.selected_image
            },
            custom_image: u,
            inline_error: None,
            ..old
        }),
        WizardMsg::SearchChanged(q) => r == WizardEffect::Stay && new == (
        WizardState { search: q, ..old }),
        WizardMsg::NextFromImage => r == WizardEffect::Stay && if effective_image_of(
            old,
        ).len() == 0 {
            new == (WizardState {
                inline_error: Some(Msg::PleaseSelectAnImage),
                ..old
            })
        } else {
            &&& new.name@ == if old.name@.len() == 0 {
                lowercase(display_name(effective_image_of(old))) + "-container"@
            } else {
                old.name@
            }
            &&& new == (WizardState {
                name: new.name,
                step: WizardStep::Config,
                inline_error: None,
                ..old
            })
        },
        WizardMsg::NameChanged(n) => r == WizardEffect::Stay && new == (
        WizardState { name: n, inline_error: None, ..old }),
        WizardMsg::InitToggled(v) => r == WizardEffect::Stay && new == (
        WizardState { init_system: v, ..old }),
        WizardMsg::NvidiaToggled(v) => r == WizardEffect::Stay && new == (
        WizardState { nvidia: v, ..old }),
        WizardMsg::AdvancedToggled => r == WizardEffect::Stay && new == (
        WizardState { advanced_open: !old.advanced_open, ..old }),
        WizardMsg::HomeChanged(h) => r == WizardEffect::Stay && new == (
        WizardState { home_dir: h, ..old }),
        WizardMsg::VolumeAddRequested => r == WizardEffect::Stay
            && new.volume_dialog is Some && new.volume_dialog->0.host@.len()
            == 0 && new.volume_dialog->0.container@.len() == 0
            && !new.volume_dialog->0.read_only
            && new.volume_dialog->0.error is None && new == (WizardState {
            volume_dialog: new.volume_dialog,
            ..old
        }),
        WizardMsg::VolumeDialogHostChanged(_)
        | WizardMsg::VolumeDialogContainerChanged(_)
        | WizardMsg::VolumeDialogReadOnlyToggled(_) => r == WizardEffect::Stay && match old.volume_dialog {
            Some(d) => new == (WizardState {
                volume_dialog: Some(dialog_after(d, msg)),
                ..old
            }),
            None => new == old,
        },
        WizardMsg::VolumeDialogConfirmed => r == WizardEffect::Stay && match old.volume_dialog {
            None => new == old,
            Some(d) => if trimmed(d.host@).len() == 0 {
                new == (WizardState {
                    volume_dialog: Some(
                        VolumeDialog { error: Some(Msg::HostPathRequired), ..d },
                    ),
                    ..old
                })
            } else if trimmed(d.container@).len() == 0 {
                new == (WizardState {
                    volume_dialog: Some(
                        VolumeDialog { error: Some(Msg::ContainerPathRequired), ..d },
                    ),
                    ..old
                })
            } else {
                &&& new.volumes@.len() == old.volumes@.len() + 1
                &&& new.volumes@.drop_last() == old.volumes@
                &&& new.volumes@.last().host@ == trimmed(d.host@)
                &&& new.volumes@.last().container@ == trimmed(d.container@)
                &&& new.volumes@.last().read_only == d.read_only
                &&& new == (WizardState {
                    volumes: new.volumes,
                    volume_dialog: None,
                    ..old
                })
            },
        },
        WizardMsg::VolumeDialogCancelled => r == WizardEffect::Stay && new == (
        WizardState { volume_dialog: None, ..old }),
        WizardMsg::VolumeRemoved(i) => r == WizardEffect::Stay && if i < old.volumes@.len() {
            new.volumes@ == old.volumes@.remove(i as int) && new == (
            WizardState { volumes: new.volumes, ..old })
        } else {
            new == old
        },
        WizardMsg::BackToImage => r == WizardEffect::Stay && new == (
        WizardState { step: WizardStep::Image, inline_error: None, ..old }),
        WizardMsg::CreateRequested => if trimmed(old.name@).len() == 0 {
            r == WizardEffect::Stay && new == (WizardState {
                inline_error: Some(Msg::PleaseEnterContainerName),
                ..old
            })
        } else {
            &&& new == old
            &&& r is Create
            &&& r->Create_0.name@ == trimmed(old.name@)
            &&& r->Create_0.image@ == effective_image_of(old)
            &&& r->Create_0.init == old.init_system
            &&& r->Create_0.nvidia == old.nvidia
            &&& if trimmed(old.home_dir@).len() == 0 {
                r->Create_0.home_path is None
            } else {
                r->Create_0.home_path is Some && r->Create_0.home_path->0@ == trimmed(old.home_dir@)
            }
            &&& r->Create_0.volumes@ == old.volumes@
        },
        WizardMsg::ProgressCancelRequested => new == old && r == match old.task_id {
            Some(id) => WizardEffect::CancelTask(id),
            None => WizardEffect::Stay,
        },
        WizardMsg::ProgressDone => new == old && r == WizardEffect::Finish,
    }
}

impl WizardState {
    /// Apply a wizard message; the effect says what the application does
    fn step_image(&mut self, msg: WizardMsg) -> (r: WizardEffect)
        requires
            msg is Closed || msg is ImageSelected || msg is CustomChanged || msg is SearchChanged || msg is NextFromImage || msg is BackToImage,
        ensures
            wizard_step(*old(self), *final(self), msg, r),
    {
        match msg {
            WizardMsg::Closed => WizardEffect::Close,
            WizardMsg::ImageSelected(image) => {
                self.selected_image = Some(image);
                self.custom_image = String::new();
                self.inline_error = None;
                WizardEffect::Stay
            },
            WizardMsg::CustomChanged(u) => {
                if !u.as_str().is_empty() {
                    self.selected_image = None;
                }
                self.custom_image = u;
                self.inline_error = None;
                WizardEffect::Stay
            },
            WizardMsg::SearchChanged(q) => {
                self.search = q;
                WizardEffect::Stay
            },
            WizardMsg::NextFromImage => {
                let image = self.effective_image();
                if image.as_str().is_empty() {
                    self.inline_error = Some(Msg::PleaseSelectAnImage);
                } else {
                    if self.name.as_str().is_empty() {
                        self.name = Self::default_name(image.as_str());
                    }
                    self.step = WizardStep::Config;
                    self.inline_error = None;
                }
                WizardEffect::Stay
            },
            WizardMsg::BackToImage => {
                self.step = WizardStep::Image;
                self.inline_error = None;
                WizardEffect::Stay
            },
            _ => WizardEffect::Stay,
        }
    }

    fn step_config(&mut self, msg: WizardMsg) -> (r: WizardEffect)
        requires
            msg is NameChanged || msg is InitToggled || msg is NvidiaToggled || msg is AdvancedToggled || msg is HomeChanged || msg is CreateRequested,
        ensures
            wizard_step(*old(self), *final(self), msg, r),
    {
        match msg {
            WizardMsg::NameChanged(n) => {
                self.name = n;
                self.inline_error = None;
                WizardEffect::Stay
            },
            WizardMsg::InitToggled(v) => {
                self.init_system = v;
                WizardEffect::Stay
            },
            WizardMsg::NvidiaToggled(v) => {
                self.nvidia = v;
                WizardEffect::Stay
            },
            WizardMsg::AdvancedToggled => {
                self.advanced_open = !self.advanced_open;
                WizardEffect::Stay
            },
            WizardMsg::HomeChanged(h) => {
                self.home_dir = h;
                WizardEffect::Stay
            },
            WizardMsg::CreateRequested => {
                let name = trim(self.name.as_str());
                if name.is_empty() {
                    self.inline_error = Some(Msg::PleaseEnterContainerName);
                    return WizardEffect::Stay;
                }
                let home = trim(self.home_dir.as_str());
                let home_path = if home.is_empty() {
                    None
                } else {
                    Some(String::from_str(home))
                };
                WizardEffect::Create(
                    CreateRequest {
                        name: String::from_str(name),
                        image: self.effective_image(),
                        init: self.init_system,
                        nvidia: self.nvidia,
                        home_path,
                        volumes: copy_volumes(&self.volumes),
                    },
                )
            },
            _ => WizardEffect::Stay,
        }
    }

    fn step_volumes(&mut self, msg: WizardMsg) -> (r: WizardEffect)
        requires
            msg is VolumeAddRequested || msg is VolumeDialogHostChanged || msg is VolumeDialogContainerChanged || msg is VolumeDialogReadOnlyToggled || msg is VolumeDialogConfirmed || msg is VolumeDialogCancelled || msg is VolumeRemoved,
        ensures
            wizard_step(*old(self), *final(self), msg, r),
    {
        match msg {
            WizardMsg::VolumeAddRequested => {
                self.volume_dialog = Some(VolumeDialog::default());
                WizardEffect::Stay
            },
            WizardMsg::VolumeDialogHostChanged(h) => {
                if let Some(mut d) = self.volume_dialog.take() {
                    d.host = h;
                    d.error = None;
                    self.volume_dialog = Some(d);
                }
                WizardEffect::Stay
            },
            WizardMsg::VolumeDialogContainerChanged(c) => {
                if let Some(mut d) = self.volume_dialog.take() {
                    d.container = c;
                    d.error = None;
                    self.volume_dialog = Some(d);
                }
                WizardEffect::Stay
            },
            WizardMsg::VolumeDialogReadOnlyToggled(v) => {
                if let Some(mut d) = self.volume_dialog.take() {
                    d.read_only = v;
                    self.volume_dialog = Some(d);
                }
                WizardEffect::Stay
            },
            WizardMsg::VolumeDialogConfirmed => {
                if let Some(mut d) = self.volume_dialog.take() {
                    let host = String::from_str(trim(d.host.as_str()));
                    let container = String::from_str(trim(d.container.as_str()));
                    if host.as_str().is_empty() {
                        d.error = Some(Msg::HostPathRequired);
                        self.volume_dialog = Some(d);
                    } else if container.as_str().is_empty() {
                        d.error = Some(Msg::ContainerPathRequired);
                        self.volume_dialog = Some(d);
                    } else {
                        self.volumes.push(WizardVolume { host, container, read_only: d.read_only });
                        assert(self.volumes@.drop_last() =~= old(self).volumes@);
                    }
                }
                WizardEffect::Stay
            },
            WizardMsg::VolumeDialogCancelled => {
                self.volume_dialog = None;
                WizardEffect::Stay
            },
            WizardMsg::VolumeRemoved(i) => {
                if i < self.volumes.len() {
                    let _ = self.volumes.remove(i);
                }
                WizardEffect::Stay
            },
            _ => WizardEffect::Stay,
        }
    }

    fn step_progress(&mut self, msg: WizardMsg) -> (r: WizardEffect)
        requires
            msg is ProgressCancelRequested || msg is ProgressDone,
        ensures
            wizard_step(*old(self), *final(self), msg, r),
    {
        match msg {
            WizardMsg::ProgressCancelRequested => match self.task_id {
                Some(id) => WizardEffect::CancelTask(id),
                None => WizardEffect::Stay,
            },
            WizardMsg::ProgressDone => WizardEffect::Finish,            _ => WizardEffect::Stay,
        }
    }

    /// next.
    pub fn update(&mut self, msg: WizardMsg) -> (r: WizardEffect)
        ensures
            wizard_step(*old(self), *final(self), msg, r),
    {
        match msg {
            WizardMsg::Closed | WizardMsg::ImageSelected(_) | WizardMsg::CustomChanged(_) | WizardMsg::SearchChanged(_) | WizardMsg::NextFromImage | WizardMsg::BackToImage => self.step_image(msg),
            WizardMsg::NameChanged(_) | WizardMsg::InitToggled(_) | WizardMsg::NvidiaToggled(_) | WizardMsg::AdvancedToggled | WizardMsg::HomeChanged(_) | WizardMsg::CreateRequested => self.step_config(msg),
            WizardMsg::VolumeAddRequested | WizardMsg::VolumeDialogHostChanged(_) | WizardMsg::VolumeDialogContainerChanged(_) | WizardMsg::VolumeDialogReadOnlyToggled(_) | WizardMsg::VolumeDialogConfirmed | WizardMsg::VolumeDialogCancelled | WizardMsg::VolumeRemoved(_) => self.step_volumes(msg),
            WizardMsg::ProgressCancelRequested | WizardMsg::ProgressDone => self.step_progress(msg),

        }
    }

    /// The name failed container-name validation: show why, inline.
    pub fn name_rejected(&mut self, error: String)
        ensures
            *final(self) == (WizardState {
                inline_error: Some(Msg::InvalidContainerName { error }),
                ..*old(self)
            }),
    {
        self.inline_error = Some(Msg::InvalidContainerName { error });
    }

    /// Create was spawned: move to the progress step.
    pub fn creation_started(&mut self)
        ensures
            *final(self) == (WizardState {
                step: WizardStep::Progress,
                inline_error: None,
                ..*old(self)
            }),
    {
        self.step = WizardStep::Progress;
        self.inline_error = None;
    }

    /// A create task could not start: when the wizard is waiting on
    /// progress, it steps back to the config step with the error inline and
    /// returns `true`; otherwise nothing changes and it returns `false`
    /// (the error goes to the page banner).
    pub fn start_failed(&mut self, error: Failure) -> (handled: bool)
        ensures
            handled == (old(self).step == WizardStep::Progress),
            handled ==> *final(self) == (WizardState {
                step: WizardStep::Config,
                inline_error: Some(Msg::CouldNotStartCreation { error }),
                task_id: None,
                ..*old(self)
            }),
            !handled ==> *final(self) == *old(self),
    {
        if self.step == WizardStep::Progress {
            self.step = WizardStep::Config;
            self.inline_error = Some(Msg::CouldNotStartCreation { error });
            self.task_id = None;
            true
        } else {
            false
        }
    }

    /// A create task started: the progress step follows it if it follows
    /// none yet.
    pub fn task_started(&mut self, id: TaskId)
        ensures
            old(self).step == WizardStep::Progress && old(self).task_id is None ==> *final(self) == (
            WizardState { task_id: Some(id), ..*old(self) }),
            !(old(self).step == WizardStep::Progress && old(self).task_id is None) ==> *final(self)
                == *old(self),
    {
        if self.step == WizardStep::Progress && self.task_id.is_none() {
            self.task_id = Some(id);
        }
    }

    /// A task completed: latch the outcome when it is the wizard's task.
    pub fn task_completed(&mut self, id: TaskId, success: bool)
        ensures
            old(self).task_id == Some(id) ==> *final(self) == (WizardState {
                task_completed: true,
                task_success: success,
                ..*old(self)
            }),
            old(self).task_id != Some(id) ==> *final(self) == *old(self),
    {
        if self.task_id == Some(id) {
            self.task_completed = true;
            self.task_success = success;
        }
    }

    /// A task was cancelled: latch it as a failure when it is the wizard's
    /// task.
    pub fn task_cancelled(&mut self, id: TaskId)
        ensures
            old(self).task_id == Some(id) ==> *final(self) == (WizardState {
                task_completed: true,
                task_success: false,
                ..*old(self)
            }),
            old(self).task_id != Some(id) ==> *final(self) == *old(self),
    {
        self.task_completed(id, false);
    }

    /// A task left the mirror: forget the id (the outcome stays latched).
    pub fn task_expired(&mut self, id: TaskId)
        ensures
            old(self).task_id == Some(id) ==> *final(self) == (WizardState {
                task_id: None,
                ..*old(self)
            }),
            old(self).task_id != Some(id) ==> *final(self) == *old(self),
    {
        if self.task_id == Some(id) {
            self.task_id = None;
        }
    }

    /// Whether a catalogue card shows as selected: it is the selection, or
    /// the custom field holds exactly it.
    pub fn is_selected_image(&self, image: &str) -> (r: bool)
        ensures
            r == ((self.selected_image is Some && self.selected_image->0@ == image@) || (
            self.custom_image@.len() > 0 && self.custom_image@ == image@)),
    {
        let selected = match &self.selected_image {
            Some(s) => crate::text::same_text(s.as_str(), image),
            None => false,
        };
        selected || (!self.custom_image.as_str().is_empty() && crate::text::same_text(
            self.custom_image.as_str(),
            image,
        ))
    }
}

/// The step indicator's glyph for step `index`: filled for done steps, wide
/// for the current one, hollow for the rest.
pub fn step_glyph(current: WizardStep, index: usize) -> (r: &'static str)
    ensures
        index < step_index(current) ==> r@ == "●"@,
        index == step_index(current) ==> r@ == "⬤"@,
        index > step_index(current) ==> r@ == "○"@,
{
    let cur: usize = match current {
        WizardStep::Image => 0,
        WizardStep::Config => 1,
        WizardStep::Progress => 2,
    };
    if index < cur {
        "●"
    } else if index == cur {
        "⬤"
    } else {
        "○"
    }
}

/// A step's position in the indicator.
pub open spec fn step_index(step: WizardStep) -> int {
    match step {
        WizardStep::Image => 0,
        WizardStep::Config => 1,
        WizardStep::Progress => 2,
    }
}

/// Title of the progress step.
pub fn progress_title(completed: bool, success: bool) -> (r: &'static str)
    ensures
        completed && success ==> r@ == "Container Created!"@,
        completed && !success ==> r@ == "Creation Failed"@,
        !completed ==> r@ == "Creating Container..."@,
{
    if completed {
        if success {
            "Container Created!"
        } else {
            "Creation Failed"
        }
    } else {
        "Creating Container..."
    }
}

} // verus!
