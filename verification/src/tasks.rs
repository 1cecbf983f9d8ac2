//! The UI-side mirror of the backend's task registry: one view per task
//! (label, kind, streamed output, completion flags, start time), kept in
//! increasing id order, the order a map keyed by task id walks its entries.
use vstd::prelude::*;
use crate::model::TaskId;

verus! {

/// What a task is, for routing and matching. The label is localized copy
/// and is never matched on; this is.
#[derive(Clone, Copy, PartialEq, Eq, Debug, Structural)]
pub enum TaskKind {
    Upgrade,
    Create,
    Other,
}

/// The mirror of one task. `started_at` is the start time in seconds on the
/// application's monotonic clock.
#[derive(Clone, Debug, PartialEq, Eq)]
pub struct TaskView {
    pub label: String,
    pub kind: TaskKind,
    pub output: Vec<String>,
    pub completed: bool,
    pub success: bool,
    pub started_at: u64,
}

/// The output buffer after appending `lines` to `output` and keeping only
/// the last `cap` lines.
pub open spec fn ring_append(output: Seq<String>, lines: Seq<String>, cap: nat) -> Seq<String> {
    let all = output + lines;
    if all.len() > cap {
        all.subrange(all.len() - cap, all.len() as int)
    } else {
        all
    }
}

/// `after` is `before` with `lines` appended to its output, capped at `cap`
/// lines, and everything else unchanged.
pub open spec fn lines_recorded(before: TaskView, after: TaskView, lines: Seq<String>, cap: nat) -> bool {
    &&& after.output@ == ring_append(before.output@, lines, cap)
    &&& after.label == before.label
    &&& after.kind == before.kind
    &&& after.completed == before.completed
    &&& after.success == before.success
    &&& after.started_at == before.started_at
}

/// `after` is `before` marked completed with the given outcome.
pub open spec fn completion_recorded(before: TaskView, after: TaskView, success: bool) -> bool {
    &&& after.completed
    &&& after.success == success
    &&& after.label == before.label
    &&& after.kind == before.kind
    &&& after.output == before.output
    &&& after.started_at == before.started_at
}

/// `after` is `before` marked completed, its success flag untouched.
pub open spec fn cancel_recorded(before: TaskView, after: TaskView) -> bool {
    completion_recorded(before, after, before.success)
}

/// The entries of `s` that satisfy `p`, in order.
pub open spec fn keep(s: Seq<(TaskId, TaskView)>, p: spec_fn((TaskId, TaskView)) -> bool) -> Seq<
    (TaskId, TaskView),
>
    decreases s.len(),
{
    if s.len() == 0 {
        s
    } else if p(s.last()) {
        keep(s.drop_last(), p).push(s.last())
    } else {
        keep(s.drop_last(), p)
    }
}

/// Whether the entry's task has not completed.
pub open spec fn not_completed() -> spec_fn((TaskId, TaskView)) -> bool {
    |e: (TaskId, TaskView)| !e.1.completed
}

/// The entries of `s` whose task has not completed, in order.
pub open spec fn unfinished(s: Seq<(TaskId, TaskView)>) -> Seq<(TaskId, TaskView)> {
    keep(s, not_completed())
}

/// What `keep` returns is drawn from `s`, satisfies `p`, and keeps ids unique.
pub proof fn lemma_keep(s: Seq<(TaskId, TaskView)>, p: spec_fn((TaskId, TaskView)) -> bool)
    ensures
        forall|k: int|
            0 <= k < keep(s, p).len() ==> exists|i: int|
                0 <= i < s.len() && #[trigger] keep(s, p)[k] == s[i],
        forall|k: int| 0 <= k < keep(s, p).len() ==> p(#[trigger] keep(s, p)[k]),
        keep(s, p).len() <= s.len(),
        unique_ids(s) ==> unique_ids(keep(s, p)),
        id_sorted(s) ==> id_sorted(keep(s, p)),
    decreases s.len(),
{
    if s.len() > 0 {
        lemma_keep(s.drop_last(), p);
        let u = keep(s.drop_last(), p);
        if id_sorted(s) && p(s.last()) {
            assert(id_sorted(s.drop_last()));
            assert forall|k: int| 0 <= k < u.len() implies u[k].0 < s.last().0 by {
                let i = choose|i: int| 0 <= i < s.drop_last().len() && u[k] == s.drop_last()[i];
                assert(s[i].0 < s[s.len() - 1].0);
            }
            assert forall|a: int, b: int| 0 <= a < b < keep(s, p).len() implies keep(s, p)[a].0 < keep(
                s,
                p,
            )[b].0 by {
                if b == u.len() {
                    assert(keep(s, p)[a] == u[a]);
                } else {
                    assert(keep(s, p)[a] == u[a] && keep(s, p)[b] == u[b]);
                }
            }
        }
        assert forall|k: int| 0 <= k < keep(s, p).len() implies exists|i: int|
            0 <= i < s.len() && #[trigger] keep(s, p)[k] == s[i] by {
            if k < u.len() {
                let i = choose|i: int| 0 <= i < s.drop_last().len() && u[k] == s.drop_last()[i];
                assert(keep(s, p)[k] == s[i]);
            } else {
                assert(keep(s, p)[k] == s[s.len() - 1]);
            }
        }
        if unique_ids(s) {
            assert(unique_ids(s.drop_last()));
            if p(s.last()) {
                assert forall|k: int| 0 <= k < u.len() implies u[k].0 != s.last().0 by {
                    let i = choose|i: int| 0 <= i < s.drop_last().len() && u[k] == s.drop_last()[i];
                    assert(s[i].0 != s[s.len() - 1].0);
                }
            }
        }
    }
}

impl TaskView {
    /// A freshly started task: no output, not completed.
    pub fn started(label: String, kind: TaskKind, started_at: u64) -> (r: Self)
        ensures
            r.label == label,
            r.kind == kind,
            r.output@.len() == 0,
            !r.completed,
            !r.success,
            r.started_at == started_at,
    {
        TaskView { label, kind, output: Vec::new(), completed: false, success: false, started_at }
    }

    /// Append streamed lines to the output, keeping the last `cap` lines.
    pub fn push_lines(&mut self, lines: Vec<String>, cap: usize)
        ensures
            final(self).output@ == ring_append(old(self).output@, lines@, cap as nat),
            final(self).output@.len() <= cap || final(self).output@.len() <= old(self).output@.len()
                + lines@.len(),
            final(self).label == old(self).label,
            final(self).kind == old(self).kind,
            final(self).completed == old(self).completed,
            final(self).success == old(self).success,
            final(self).started_at == old(self).started_at,
    {
        let mut lines = lines;
        self.output.append(&mut lines);
        let len = self.output.len();
        if len > cap {
            let kept = self.output.split_off(len - cap);
            self.output = kept;
        }
    }
}

/// The entries of `s` other than `id`'s, in order.
pub open spec fn without(s: Seq<(TaskId, TaskView)>, id: TaskId) -> Seq<(TaskId, TaskView)> {
    keep(s, |e: (TaskId, TaskView)| e.0 != id)
}

/// The view mirrored for `id`, if any.
pub open spec fn view_of(s: Seq<(TaskId, TaskView)>, id: TaskId) -> Option<TaskView> {
    if has_id(s, id) {
        Some(s[choose|i: int| 0 <= i < s.len() && s[i].0 == id].1)
    } else {
        None
    }
}

/// Removing an id's entry leaves the other entries in order.
pub proof fn lemma_without(s: Seq<(TaskId, TaskView)>, id: TaskId)
    ensures
        !has_id(s, id) ==> without(s, id) == s,
        unique_ids(s) ==> forall|i: int|
            0 <= i < s.len() && s[i].0 == id ==> #[trigger] s.remove(i) == without(s, id),
    decreases s.len(),
{
    if s.len() > 0 {
        let d = s.drop_last();
        lemma_without(d, id);
        if !has_id(s, id) {
            assert(!has_id(d, id)) by {
                if has_id(d, id) {
                    let k = choose|k: int| 0 <= k < d.len() && d[k].0 == id;
                    assert(s[k].0 == id);
                }
            }
            assert(s.last().0 != id);
            assert(d.push(s.last()) =~= s);
        }
        if unique_ids(s) {
            assert(unique_ids(d));
            assert forall|i: int| 0 <= i < s.len() && s[i].0 == id implies #[trigger] s.remove(i)
                == without(s, id) by {
                if i == s.len() - 1 {
                    assert(!has_id(d, id)) by {
                        if has_id(d, id) {
                            let k = choose|k: int| 0 <= k < d.len() && d[k].0 == id;
                            assert(s[k].0 != s[i].0);
                        }
                    }
                    assert(s.remove(i) =~= d);
                } else {
                    assert(s.last().0 != id) by {
                        assert(s[i].0 != s[s.len() - 1].0);
                    }
                    assert(d[i].0 == id);
                    assert(d.remove(i) == without(d, id));
                    assert(s.remove(i) =~= d.remove(i).push(s.last()));
                }
            }
        }
    }
}

/// Ids strictly increase along the entries.
pub open spec fn id_sorted(s: Seq<(TaskId, TaskView)>) -> bool {
    forall|i: int, j: int| 0 <= i < j < s.len() ==> s[i].0 < s[j].0
}

/// Where a new id goes in entries sorted by id: after every smaller id.
pub open spec fn id_slot(s: Seq<(TaskId, TaskView)>, id: TaskId) -> int
    decreases s.len(),
{
    if s.len() == 0 {
        0
    } else if s.last().0 < id {
        s.len() as int
    } else {
        id_slot(s.drop_last(), id)
    }
}

/// In id-sorted entries, the slot of an absent id splits the smaller ids
/// from the larger ones.
pub proof fn lemma_id_slot(s: Seq<(TaskId, TaskView)>, id: TaskId)
    requires
        id_sorted(s),
        !has_id(s, id),
    ensures
        0 <= id_slot(s, id) <= s.len(),
        forall|j: int| 0 <= j < id_slot(s, id) ==> s[j].0 < id,
        forall|j: int| id_slot(s, id) <= j < s.len() ==> s[j].0 > id,
    decreases s.len(),
{
    if s.len() > 0 {
        let d = s.drop_last();
        assert(!has_id(d, id)) by {
            if has_id(d, id) {
                let k = choose|k: int| 0 <= k < d.len() && d[k].0 == id;
                assert(s[k].0 == id);
            }
        }
        lemma_id_slot(d, id);
        if s.last().0 < id {
            assert forall|j: int| 0 <= j < s.len() implies s[j].0 < id by {
                if j < s.len() - 1 {
                    assert(s[j].0 < s[s.len() - 1].0);
                }
            }
        } else {
            assert(s[s.len() - 1].0 != id);
            assert forall|j: int| 0 <= j < id_slot(s, id) implies s[j].0 < id by {
                assert(s[j] == d[j]);
            }
            assert forall|j: int| id_slot(s, id) <= j < s.len() implies s[j].0 > id by {
                if j < s.len() - 1 {
                    assert(s[j] == d[j]);
                }
            }
        }
    }
}

/// Entries holding the same ids position by position hold the same ids.
pub proof fn lemma_same_ids(a: Seq<(TaskId, TaskView)>, b: Seq<(TaskId, TaskView)>, id: TaskId)
    requires
        a.len() == b.len(),
        forall|i: int| 0 <= i < a.len() ==> #[trigger] b[i].0 == a[i].0,
        has_id(a, id),
    ensures
        has_id(b, id),
{
    let k = choose|k: int| 0 <= k < a.len() && a[k].0 == id;
    assert(b[k].0 == id);
}

/// Inserting an entry keeps every id already there.
pub proof fn lemma_insert_keeps_ids(
    s: Seq<(TaskId, TaskView)>,
    q: int,
    e: (TaskId, TaskView),
    id: TaskId,
)
    requires
        0 <= q <= s.len(),
        has_id(s, id),
    ensures
        has_id(s.insert(q, e), id),
{
    let k = choose|k: int| 0 <= k < s.len() && s[k].0 == id;
    if k < q {
        assert(s.insert(q, e)[k] == s[k]);
    } else {
        assert(s.insert(q, e)[k + 1] == s[k]);
    }
}

/// Dropping one id keeps every other id.
pub proof fn lemma_without_keeps_ids(s: Seq<(TaskId, TaskView)>, gone: TaskId, id: TaskId)
    requires
        has_id(s, id),
        id != gone,
    ensures
        has_id(without(s, gone), id),
    decreases s.len(),
{
    if s.last().0 == id {
        assert(without(s, gone) == without(s.drop_last(), gone).push(s.last()));
        assert(without(s, gone)[without(s, gone).len() - 1].0 == id);
    } else {
        let k = choose|k: int| 0 <= k < s.len() && s[k].0 == id;
        assert(s.drop_last()[k].0 == id);
        lemma_without_keeps_ids(s.drop_last(), gone, id);
        let u = without(s.drop_last(), gone);
        let j = choose|j: int| 0 <= j < u.len() && u[j].0 == id;
        if s.last().0 != gone {
            assert(without(s, gone) == u.push(s.last()));
            assert(without(s, gone)[j] == u[j]);
        }
    }
}

/// No id occurs twice.
pub open spec fn unique_ids(s: Seq<(TaskId, TaskView)>) -> bool {
    forall|i: int, j: int| 0 <= i < j < s.len() ==> s[i].0 != s[j].0
}

/// The id occurs among the entries.
pub open spec fn has_id(s: Seq<(TaskId, TaskView)>, id: TaskId) -> bool {
    exists|i: int| 0 <= i < s.len() && s[i].0 == id
}

/// The mirror: task views in increasing id order, each id once.
pub struct TaskMirror {
    entries: Vec<(TaskId, TaskView)>,
}

impl View for TaskMirror {
    type V = Seq<(TaskId, TaskView)>;

    closed spec fn view(&self) -> Seq<(TaskId, TaskView)> {
        self.entries@
    }
}

impl TaskMirror {
    /// The mirror's invariant: ids strictly increase, so each occurs once.
    pub open spec fn wf(&self) -> bool {
        unique_ids(self@) && id_sorted(self@)
    }

    /// An empty mirror.
    pub fn new() -> (r: Self)
        ensures
            r.wf(),
            r@.len() == 0,
    {
        TaskMirror { entries: Vec::new() }
    }

    /// Number of tasks mirrored.
    pub fn len(&self) -> (r: usize)
        ensures
            r == self@.len(),
    {
        self.entries.len()
    }

    /// The mirrored tasks, in increasing id order.
    pub fn entries(&self) -> (r: &[(TaskId, TaskView)])
        ensures
            r@ == self@,
    {
        self.entries.as_slice()
    }

    /// The position of `id`, if mirrored.
    pub fn position(&self, id: TaskId) -> (r: Option<usize>)
        requires
            self.wf(),
        ensures
            match r {
                Some(i) => i < self@.len() && self@[i as int].0 == id,
                None => !has_id(self@, id),
            },
    {
        let mut i: usize = 0;
        while i < self.entries.len()
            invariant
                i <= self@.len(),
                forall|j: int| 0 <= j < i ==> self@[j].0 != id,
            decreases self@.len() - i,
        {
            if self.entries[i].0 == id {
                return Some(i);
            }
            i += 1;
        }
        None
    }

    /// Whether `id` is mirrored.
    pub fn contains(&self, id: TaskId) -> (r: bool)
        requires
            self.wf(),
        ensures
            r == has_id(self@, id),
    {
        self.position(id).is_some()
    }

    /// The view of `id`, if mirrored.
    pub fn get(&self, id: TaskId) -> (r: Option<&TaskView>)
        requires
            self.wf(),
        ensures
            match r {
                Some(v) => exists|i: int| 0 <= i < self@.len() && self@[i].0 == id && self@[i].1 == *v,
                None => !has_id(self@, id),
            },
    {
        match self.position(id) {
            Some(i) => Some(&self.entries[i].1),
            None => None,
        }
    }

    /// Record streamed output for `id` (ignored when `id` is not mirrored).
    pub fn record_output(&mut self, id: TaskId, lines: Vec<String>, cap: usize)
        requires
            old(self).wf(),
        ensures
            final(self).wf(),
            final(self)@.len() == old(self)@.len(),
            !has_id(old(self)@, id) ==> final(self)@ == old(self)@,
            forall|i: int|
                0 <= i < old(self)@.len() ==> #[trigger] final(self)@[i].0 == old(self)@[i].0 && if old(
                    self,
                )@[i].0 == id {
                    lines_recorded(old(self)@[i].1, final(self)@[i].1, lines@, cap as nat)
                } else {
                    final(self)@[i] == old(self)@[i]
                },
    {
        if let Some(i) = self.position(id) {
            let (eid, mut view) = self.entries.remove(i);
            view.push_lines(lines, cap);
            self.entries.insert(i, (eid, view));
        }
    }

    /// Record a completion for `id` (ignored when `id` is not mirrored).
    pub fn mark_completed(&mut self, id: TaskId, success: bool)
        requires
            old(self).wf(),
        ensures
            final(self).wf(),
            final(self)@.len() == old(self)@.len(),
            !has_id(old(self)@, id) ==> final(self)@ == old(self)@,
            forall|i: int|
                0 <= i < old(self)@.len() ==> #[trigger] final(self)@[i].0 == old(self)@[i].0 && if old(
                    self,
                )@[i].0 == id {
                    completion_recorded(old(self)@[i].1, final(self)@[i].1, success)
                } else {
                    final(self)@[i] == old(self)@[i]
                },
    {
        if let Some(i) = self.position(id) {
            let (eid, mut view) = self.entries.remove(i);
            view.completed = true;
            view.success = success;
            self.entries.insert(i, (eid, view));
        }
    }

    /// Record a cancellation for `id`: completed, success flag untouched
    /// (ignored when `id` is not mirrored).
    pub fn mark_cancelled(&mut self, id: TaskId)
        requires
            old(self).wf(),
        ensures
            final(self).wf(),
            final(self)@.len() == old(self)@.len(),
            !has_id(old(self)@, id) ==> final(self)@ == old(self)@,
            forall|i: int|
                0 <= i < old(self)@.len() ==> #[trigger] final(self)@[i].0 == old(self)@[i].0 && if old(
                    self,
                )@[i].0 == id {
                    cancel_recorded(old(self)@[i].1, final(self)@[i].1)
                } else {
                    final(self)@[i] == old(self)@[i]
                },
    {
        if let Some(i) = self.position(id) {
            let (eid, mut view) = self.entries.remove(i);
            view.completed = true;
            self.entries.insert(i, (eid, view));
        }
    }

    /// Drop `id` from the mirror (an expired task); no-op when absent.
    pub fn remove(&mut self, id: TaskId)
        requires
            old(self).wf(),
        ensures
            final(self).wf(),
            !has_id(final(self)@, id),
            !has_id(old(self)@, id) ==> final(self)@ == old(self)@,
            forall|i: int|
                0 <= i < old(self)@.len() && old(self)@[i].0 == id ==> final(self)@ == old(
                    self,
                )@.remove(i),
            final(self)@ == without(old(self)@, id),
    {
        proof {
            lemma_without(old(self)@, id);
        }
        if let Some(i) = self.position(id) {
            let _ = self.entries.remove(i);
            proof {
                assert forall|j: int| 0 <= j < final(self)@.len() implies final(self)@[j].0 != id by {
                    if j < i {
                        assert(old(self)@[j].0 != old(self)@[i as int].0);
                    } else {
                        assert(old(self)@[j + 1].0 != old(self)@[i as int].0);
                    }
                }
            }
        }
    }

    /// Drop `id`'s entry, keeping the others in order.
    pub fn forget(&mut self, id: TaskId)
        requires
            old(self).wf(),
        ensures
            final(self).wf(),
            final(self)@ == without(old(self)@, id),
    {
        self.remove(id);
    }

    /// Drop every completed task, keeping the unfinished ones in order.
    pub fn clear_completed(&mut self)
        requires
            old(self).wf(),
        ensures
            final(self).wf(),
            final(self)@ == unfinished(old(self)@),
    {
        let mut rest: Vec<(TaskId, TaskView)> = Vec::new();
        std::mem::swap(&mut rest, &mut self.entries);
        let ghost orig = rest@;
        let n = rest.len();
        let mut j: usize = 0;
        while j < n
            invariant
                n == orig.len(),
                j <= n,
                rest@ == orig.subrange(j as int, n as int),
                self.entries@ == unfinished(orig.take(j as int)),
            decreases n - j,
        {
            let e = rest.remove(0);
            assert(orig.take(j + 1).drop_last() =~= orig.take(j as int));
            assert(e == orig[j as int]);
            if !e.1.completed {
                self.entries.push(e);
            }
            assert(rest@ =~= orig.subrange(j + 1, n as int));
            j += 1;
        }
        assert(orig.take(n as int) =~= orig);
        proof {
            lemma_keep(orig, not_completed());
        }
    }

    /// Some unfinished task carries this label.
    pub open spec fn has_unfinished_label_spec(&self, label: Seq<char>) -> bool {
        exists|i: int| 0 <= i < self@.len() && !self@[i].1.completed && self@[i].1.label@ == label
    }

    /// Whether some unfinished task carries this label (an upgrade of the
    /// container is in flight).
    pub fn has_unfinished_label(&self, label: &str) -> (r: bool)
        ensures
            r == exists|i: int| 0 <= i < self@.len() && !self@[i].1.completed && self@[i].1.label@ == label@,
    {
        let mut i: usize = 0;
        while i < self.entries.len()
            invariant
                i <= self@.len(),
                forall|j: int| 0 <= j < i ==> !(!self@[j].1.completed && self@[j].1.label@ == label@),
            decreases self@.len() - i,
        {
            if !self.entries[i].1.completed && crate::text::same_text(self.entries[i].1.label.as_str(), label) {
                return true;
            }
            i += 1;
        }
        false
    }

    /// Record a started task: a new id goes in its place by id order; an
    /// id already mirrored has its view replaced in place.
    pub fn insert(&mut self, id: TaskId, view: TaskView)
        requires
            old(self).wf(),
        ensures
            final(self).wf(),
            has_id(old(self)@, id) ==> forall|i: int|
                0 <= i < old(self)@.len() && old(self)@[i].0 == id ==> final(self)@ == old(
                    self,
                )@.update(i, (id, view)),
            !has_id(old(self)@, id) ==> final(self)@ == old(self)@.insert(
                id_slot(old(self)@, id),
                (id, view),
            ),
    {
        match self.position(id) {
            Some(i) => {
                self.entries.set(i, (id, view));
            },
            None => {
                proof {
                    lemma_id_slot(self@, id);
                }
                let ghost old_s = self@;
                let mut p: usize = 0;
                while p < self.entries.len() && self.entries[p].0 < id
                    invariant
                        p <= old_s.len(),
                        self@ == old_s,
                        forall|j: int| 0 <= j < p ==> old_s[j].0 < id,
                        forall|j: int| 0 <= j < id_slot(old_s, id) ==> old_s[j].0 < id,
                        forall|j: int| id_slot(old_s, id) <= j < old_s.len() ==> old_s[j].0 > id,
                        0 <= id_slot(old_s, id) <= old_s.len(),
                    decreases old_s.len() - p,
                {
                    p += 1;
                }
                assert(p == id_slot(old_s, id)) by {
                    if p < id_slot(old_s, id) {
                        assert(old_s[p as int].0 < id);
                    }
                    if p > id_slot(old_s, id) {
                        let q = id_slot(old_s, id);
                        assert(old_s[q].0 < id);
                    }
                }
                self.entries.insert(p, (id, view));
                proof {
                    let n = self@;
                    assert forall|a: int, b: int| 0 <= a < b < n.len() implies n[a].0 < n[b].0 by {
                        if b < p {
                        } else if a > p {
                            assert(n[a] == old_s[a - 1] && n[b] == old_s[b - 1]);
                        } else if a == p {
                            assert(n[b] == old_s[b - 1]);
                        } else if b == p {
                            assert(n[a] == old_s[a]);
                        } else {
                            assert(n[a] == old_s[a] && n[b] == old_s[b - 1]);
                        }
                    }
                }
            },
        }
    }
}

} // verus!
