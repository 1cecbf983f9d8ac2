//! Activity log: task state from the mirror's flags (never from output
//! text), the search and state filters, newest-first ordering, the stats
//! bar, relative times and the severity of output lines.
use vstd::prelude::*;
use crate::model::TaskId;
use crate::msg::Msg;
use crate::tasks::{has_id, keep, lemma_keep, unique_ids, TaskMirror, TaskView};
use crate::text::{
    ascii_lower, contains, contains_folded, is_ascii_text, is_substring, lowercase, to_lowercase,
};

verus! {

broadcast use vstd::seq_lib::group_to_multiset_ensures;

/// Task state, derived only from the mirror's completion flags.
#[derive(Clone, Copy, Debug, PartialEq, Eq, Structural)]
pub enum TaskState {
    Running,
    Success,
    Failed,
}

/// A view's state: running until completed, then success or failure by the
/// success flag.
pub open spec fn task_state(view: TaskView) -> TaskState {
    if !view.completed {
        TaskState::Running
    } else if view.success {
        TaskState::Success
    } else {
        TaskState::Failed
    }
}

impl TaskState {
    /// The state of a task view.
    pub fn of(view: &TaskView) -> (r: Self)
        ensures
            r == task_state(*view),
    {
        if !view.completed {
            TaskState::Running
        } else if view.success {
            TaskState::Success
        } else {
            TaskState::Failed
        }
    }

    /// Status label.
    pub fn label(self) -> (r: Msg)
        ensures
            self == TaskState::Running ==> r == Msg::ActivityStateRunning,
            self == TaskState::Success ==> r == Msg::ActivityStateSuccess,
            self == TaskState::Failed ==> r == Msg::ActivityStateFailed,
    {
        match self {
            TaskState::Running => Msg::ActivityStateRunning,
            TaskState::Success => Msg::ActivityStateSuccess,
            TaskState::Failed => Msg::ActivityStateFailed,
        }
    }

    /// Timeline status icon.
    pub fn icon(self) -> (r: &'static str)
        ensures
            self == TaskState::Running ==> r@ == "process-working-symbolic"@,
            self == TaskState::Success ==> r@ == "object-select-symbolic"@,
            self == TaskState::Failed ==> r@ == "dialog-error-symbolic"@,
    {
        match self {
            TaskState::Running => "process-working-symbolic",
            TaskState::Success => "object-select-symbolic",
            TaskState::Failed => "dialog-error-symbolic",
        }
    }
}

/// A task's state is decided by its completion flags alone: two views with
/// the same flags have the same state, whatever their output or label says.
pub proof fn lemma_state_ignores_output(a: TaskView, b: TaskView)
    requires
        a.completed == b.completed,
        a.success == b.success,
    ensures
        task_state(a) == task_state(b),
{
}

/// Activity filter chips.
#[derive(Clone, Copy, Debug, PartialEq, Eq, Structural)]
pub enum ActivityFilter {
    All,
    Running,
    Success,
    Errors,
}

impl Default for ActivityFilter {
    fn default() -> (r: Self)
        ensures
            r == ActivityFilter::All,
    {
        ActivityFilter::All
    }
}

/// Activity page state: the search text, the selected chip, and the task
/// whose full output is open.
#[derive(Clone, Debug, PartialEq, Eq)]
pub struct ActivityState {
    pub search: String,
    pub filter: ActivityFilter,
    pub expanded: Option<TaskId>,
}

impl Default for ActivityState {
    fn default() -> (r: Self)
        ensures
            r.search@.len() == 0,
            r.filter == ActivityFilter::All,
            r.expanded is None,
    {
        ActivityState { search: String::new(), filter: ActivityFilter::All, expanded: None }
    }
}

/// The chip admits the view's state.
pub open spec fn filter_admits(filter: ActivityFilter, view: TaskView) -> bool {
    match filter {
        ActivityFilter::All => true,
        ActivityFilter::Running => task_state(view) == TaskState::Running,
        ActivityFilter::Success => task_state(view) == TaskState::Success,
        ActivityFilter::Errors => task_state(view) == TaskState::Failed,
    }
}

/// The lowercased query matches the view: empty, or found in the
/// lowercased label or in some lowercased output line.
pub open spec fn search_admits(query: Seq<char>, view: TaskView) -> bool {
    query.len() == 0 || is_substring(query, lowercase(view.label@)) || exists|k: int|
        0 <= k < view.output@.len() && is_substring(query, lowercase(#[trigger] view.output@[k]@))
}

/// The entries the page lists for a lowercased query and a chip.
pub open spec fn shown(query: Seq<char>, filter: ActivityFilter) -> spec_fn((TaskId, TaskView)) -> bool {
    |e: (TaskId, TaskView)| search_admits(query, e.1) && filter_admits(filter, e.1)
}

/// `a` lists before `b`: it started later, or at the same time with a
/// smaller id.
pub open spec fn newer(a: (TaskId, TaskView), b: (TaskId, TaskView)) -> bool {
    a.1.started_at > b.1.started_at || (a.1.started_at == b.1.started_at && a.0 < b.0)
}

/// Every entry lists before every later one.
pub open spec fn newest_first(s: Seq<(TaskId, TaskView)>) -> bool {
    forall|i: int, j: int| 0 <= i < j < s.len() ==> newer(s[i], s[j])
}

/// An entry of a listing, with the view taken by value.
pub open spec fn strip(p: (TaskId, &TaskView)) -> (TaskId, TaskView) {
    (p.0, *p.1)
}

/// A listing, with the views taken by value.
pub open spec fn stripped(s: Seq<(TaskId, &TaskView)>) -> Seq<(TaskId, TaskView)> {
    Seq::new(s.len(), |i: int| strip(s[i]))
}

fn search_matches(query: &str, view: &TaskView) -> (r: bool)
    ensures
        r == search_admits(query@, *view),
{
    if query.is_empty() {
        return true;
    }
    if contains_folded(view.label.as_str(), query) {
        return true;
    }
    let mut k: usize = 0;
    while k < view.output.len()
        invariant
            k <= view.output@.len(),
            query@.len() != 0,
            !is_substring(query@, lowercase(view.label@)),
            forall|j: int| 0 <= j < k ==> !is_substring(query@, lowercase(#[trigger] view.output@[j]@)),
        decreases view.output@.len() - k,
    {
        if contains_folded(view.output[k].as_str(), query) {
            return true;
        }
        k += 1;
    }
    false
}

fn filter_matches(filter: ActivityFilter, view: &TaskView) -> (r: bool)
    ensures
        r == filter_admits(filter, *view),
{
    match filter {
        ActivityFilter::All => true,
        ActivityFilter::Running => TaskState::of(view) == TaskState::Running,
        ActivityFilter::Success => TaskState::of(view) == TaskState::Success,
        ActivityFilter::Errors => TaskState::of(view) == TaskState::Failed,
    }
}

fn is_newer(a: (TaskId, &TaskView), b: (TaskId, &TaskView)) -> (r: bool)
    ensures
        r == newer(strip(a), strip(b)),
{
    a.1.started_at > b.1.started_at || (a.1.started_at == b.1.started_at && a.0 < b.0)
}

fn insert_newest_first<'a>(out: &mut Vec<(TaskId, &'a TaskView)>, x: (TaskId, &'a TaskView))
    requires
        newest_first(stripped(old(out)@)),
        forall|i: int| 0 <= i < old(out)@.len() ==> (#[trigger] old(out)@[i]).0 != x.0,
    ensures
        newest_first(stripped(final(out)@)),
        stripped(final(out)@).to_multiset() == stripped(old(out)@).to_multiset().insert(strip(x)),
        forall|i: int|
            0 <= i < final(out)@.len() ==> (#[trigger] final(out)@[i]).0 == x.0 || exists|j: int|
                0 <= j < old(out)@.len() && final(out)@[i] == old(out)@[j],
{
    let mut p: usize = 0;
    while p < out.len() && is_newer(out[p], x)
        invariant
            p <= out@.len(),
            out@ == old(out)@,
            forall|i: int| 0 <= i < p ==> newer(strip(out@[i]), strip(x)),
        decreases out@.len() - p,
    {
        p += 1;
    }
    let ghost before = stripped(out@);
    out.insert(p, x);
    proof {
        assert(stripped(out@) =~= before.insert(p as int, strip(x)));
        assert forall|i: int, j: int| 0 <= i < j < stripped(out@).len() implies newer(
            stripped(out@)[i],
            stripped(out@)[j],
        ) by {
            if j < p {
                assert(newer(before[i], before[j]));
            } else if i < p && j == p {
            } else if i < p && j > p {
                assert(newer(before[i], before[j - 1]));
            } else if i == p {
                assert(old(out)@[p as int].0 != x.0);
                assert(!newer(before[p as int], strip(x)));
                if j > p + 1 {
                    assert(newer(before[p as int], before[j - 1]));
                }
            } else {
                assert(newer(before[i - 1], before[j - 1]));
            }
        }
        assert forall|i: int| 0 <= i < out@.len() implies (#[trigger] out@[i]).0 == x.0 || exists|j: int|
            0 <= j < old(out)@.len() && out@[i] == old(out)@[j] by {
            if i < p {
                assert(out@[i] == old(out)@[i]);
            } else if i > p {
                assert(out@[i] == old(out)@[i - 1]);
            }
        }
    }
}

/// The tasks the Activity page lists: those whose label or output contains
/// the search (case-insensitively) and whose state the chip admits, newest
/// first (ties by id). The listing holds exactly the admitted tasks, each
/// once, so it is determined by the mirror, the search and the chip.
pub fn filter_tasks<'a>(tasks: &'a TaskMirror, search: &str, filter: ActivityFilter) -> (r: Vec<
    (TaskId, &'a TaskView),
>)
    requires
        tasks.wf(),
    ensures
        stripped(r@).to_multiset() == keep(tasks@, shown(lowercase(search@), filter)).to_multiset(),
        search@.len() == 0 ==> stripped(r@).to_multiset() == keep(
            tasks@,
            shown(Seq::empty(), filter),
        ).to_multiset(),
        newest_first(stripped(r@)),
{
    let q = to_lowercase(search);
    proof {
        if search@.len() == 0 {
            assert(q@ =~= Seq::<char>::empty());
        }
    }
    let entries = tasks.entries();
    let ghost pred = shown(q@, filter);
    let mut out: Vec<(TaskId, &'a TaskView)> = Vec::new();
    let mut i: usize = 0;
    proof {
        lemma_keep(entries@, pred);
    }
    while i < entries.len()
        invariant
            entries@ == tasks@,
            unique_ids(tasks@),
            pred == shown(q@, filter),
            i <= entries@.len(),
            newest_first(stripped(out@)),
            stripped(out@).to_multiset() == keep(entries@.take(i as int), pred).to_multiset(),
            forall|k: int|
                0 <= k < out@.len() ==> exists|j: int| 0 <= j < i && (#[trigger] out@[k]).0 == entries@[j].0,
        decreases entries@.len() - i,
    {
        let ghost old_out = out@;
        assert(entries@.take(i + 1).drop_last() =~= entries@.take(i as int));
        let e = &entries[i];
        if search_matches(q.as_str(), &e.1) && filter_matches(filter, &e.1) {
            assert forall|k: int| 0 <= k < out@.len() implies (#[trigger] out@[k]).0 != e.0 by {
                let j = choose|j: int| 0 <= j < i && out@[k].0 == entries@[j].0;
                assert(entries@[j].0 != entries@[i as int].0);
            }
            insert_newest_first(&mut out, (e.0, &e.1));
            assert(strip((e.0, &e.1)) == entries@.take(i + 1).last());
            assert forall|k: int| 0 <= k < out@.len() implies exists|j: int| 0 <= j < i + 1 && (#[trigger] out@[k]).0 == entries@[j].0 by {
                if out@[k].0 != e.0 {
                    let jj = choose|jj: int| 0 <= jj < old_out.len() && out@[k] == old_out[jj];
                    assert(old_out[jj] == out@[k]);
                    let j = choose|j: int| 0 <= j < i && old_out[jj].0 == entries@[j].0;
                } else {
                    assert(out@[k].0 == entries@[i as int].0);
                }
            }
        } else {
            assert(!pred(entries@.take(i + 1).last()));
        }
        i += 1;
    }
    assert(entries@.take(entries@.len() as int) =~= entries@);
    out
}

/// Every task is listed by an empty search with the All chip.
pub proof fn lemma_all_chip_lists_everything(s: Seq<(TaskId, TaskView)>)
    ensures
        keep(s, shown(Seq::empty(), ActivityFilter::All)) == s,
    decreases s.len(),
{
    if s.len() > 0 {
        lemma_all_chip_lists_everything(s.drop_last());
        assert(s.drop_last().push(s.last()) =~= s);
    }
}

/// An entry is kept exactly when it is among the entries and satisfies the
/// predicate.
proof fn lemma_keep_contains(
    s: Seq<(TaskId, TaskView)>,
    p: spec_fn((TaskId, TaskView)) -> bool,
    e: (TaskId, TaskView),
)
    ensures
        keep(s, p).contains(e) <==> (s.contains(e) && p(e)),
    decreases s.len(),
{
    lemma_keep(s, p);
    if s.len() > 0 {
        lemma_keep_contains(s.drop_last(), p, e);
        let u = keep(s.drop_last(), p);
        if s.contains(e) && p(e) {
            let i = choose|i: int| 0 <= i < s.len() && s[i] == e;
            if i == s.len() - 1 {
                assert(keep(s, p)[keep(s, p).len() - 1] == e);
            } else {
                assert(s.drop_last()[i] == e);
                let j = choose|j: int| 0 <= j < u.len() && u[j] == e;
                if p(s.last()) {
                    assert(keep(s, p)[j] == e);
                }
            }
        }
        if keep(s, p).contains(e) {
            let j = choose|j: int| 0 <= j < keep(s, p).len() && keep(s, p)[j] == e;
            let i = choose|i: int| 0 <= i < s.len() && keep(s, p)[j] == s[i];
        }
    }
}

/// What the Activity page lists, given that the listing holds exactly the
/// admitted tasks (as `filter_tasks` returns it): an entry is listed exactly
/// when it is a mirrored task that the search and the chip admit, so every
/// listed view is the mirror's view of its id, and no id is listed twice.
pub proof fn lemma_listing_members(
    tasks: Seq<(TaskId, TaskView)>,
    listing: Seq<(TaskId, TaskView)>,
    query: Seq<char>,
    filter: ActivityFilter,
)
    requires
        unique_ids(tasks),
        listing.to_multiset() == keep(tasks, shown(query, filter)).to_multiset(),
    ensures
        forall|e: (TaskId, TaskView)|
            #[trigger] listing.contains(e) <==> (tasks.contains(e) && search_admits(query, e.1)
                && filter_admits(filter, e.1)),
        unique_ids(listing),
{
    let p = shown(query, filter);
    let k = keep(tasks, p);
    assert forall|e: (TaskId, TaskView)|
        #[trigger] listing.contains(e) <==> (tasks.contains(e) && search_admits(query, e.1)
            && filter_admits(filter, e.1)) by {
        lemma_keep_contains(tasks, p, e);
        assert(listing.to_multiset().count(e) == k.to_multiset().count(e));
    }
    lemma_keep(tasks, p);
    assert(k.no_duplicates()) by {
        assert forall|i: int, j: int| 0 <= i < k.len() && 0 <= j < k.len() && i != j implies k[i]
            != k[j] by {
            if i < j {
                assert(k[i].0 != k[j].0);
            } else {
                assert(k[j].0 != k[i].0);
            }
        }
    }
    k.lemma_multiset_has_no_duplicates();
    assert forall|x: (TaskId, TaskView)| listing.to_multiset().contains(x) implies listing.to_multiset().count(
        x,
    ) == 1 by {
        assert(k.to_multiset().contains(x));
    }
    listing.lemma_multiset_has_no_duplicates_conv();
    assert forall|i: int, j: int| 0 <= i < j < listing.len() implies listing[i].0 != listing[j].0 by {
        if listing[i].0 == listing[j].0 {
            assert(listing.contains(listing[i]));
            assert(listing.contains(listing[j]));
            let a = choose|a: int| 0 <= a < tasks.len() && tasks[a] == listing[i];
            let b = choose|b: int| 0 <= b < tasks.len() && tasks[b] == listing[j];
            if a != b {
                if a < b {
                    assert(tasks[a].0 != tasks[b].0);
                } else {
                    assert(tasks[b].0 != tasks[a].0);
                }
            }
        }
    }
}

/// What each chip and the search admit, in the task's own flags and text:
/// Running admits exactly the unfinished tasks, Success exactly the tasks
/// that finished well, Errors exactly the tasks that finished badly, All
/// every task; an empty search admits every task, and a label containing
/// the lowercased query (after lowercasing) admits it. A listing that holds
/// exactly the admitted tasks lists newer starts first.
pub proof fn lemma_chip_and_search_meaning(
    v: TaskView,
    query: Seq<char>,
    listing: Seq<(TaskId, TaskView)>,
)
    ensures
        filter_admits(ActivityFilter::All, v),
        filter_admits(ActivityFilter::Running, v) <==> !v.completed,
        filter_admits(ActivityFilter::Success, v) <==> (v.completed && v.success),
        filter_admits(ActivityFilter::Errors, v) <==> (v.completed && !v.success),
        search_admits(Seq::empty(), v),
        is_substring(query, lowercase(v.label@)) ==> search_admits(query, v),
        newest_first(listing) ==> forall|i: int, j: int|
            0 <= i < j < listing.len() ==> #[trigger] listing[i].1.started_at >= #[trigger] listing[j].1.started_at,
{
    if newest_first(listing) {
        assert forall|i: int, j: int| 0 <= i < j < listing.len() implies #[trigger] listing[i].1.started_at
            >= #[trigger] listing[j].1.started_at by {
            assert(newer(listing[i], listing[j]));
        }
    }
}

/// The stats bar and the chips agree: with an empty search the All chip
/// lists every task, and the Running, Success and Errors chips list as many
/// as the running, succeeded and failed counts.
pub proof fn lemma_chips_match_stats(s: Seq<(TaskId, TaskView)>)
    ensures
        keep(s, shown(Seq::empty(), ActivityFilter::All)).len() == s.len(),
        keep(s, shown(Seq::empty(), ActivityFilter::Running)).len() == count_in_state(
            s,
            TaskState::Running,
        ),
        keep(s, shown(Seq::empty(), ActivityFilter::Success)).len() == count_in_state(
            s,
            TaskState::Success,
        ),
        keep(s, shown(Seq::empty(), ActivityFilter::Errors)).len() == count_in_state(
            s,
            TaskState::Failed,
        ),
    decreases s.len(),
{
    if s.len() > 0 {
        lemma_chips_match_stats(s.drop_last());
    }
}

/// Number of entries of `s` in state `state`.
pub open spec fn count_in_state(s: Seq<(TaskId, TaskView)>, state: TaskState) -> nat
    decreases s.len(),
{
    if s.len() == 0 {
        0
    } else {
        count_in_state(s.drop_last(), state) + if task_state(s.last().1) == state {
            1nat
        } else {
            0nat
        }
    }
}

/// Every task is in exactly one state, so the three counts add up to the
/// total.
pub proof fn lemma_states_partition(s: Seq<(TaskId, TaskView)>)
    ensures
        count_in_state(s, TaskState::Running) + count_in_state(s, TaskState::Success)
            + count_in_state(s, TaskState::Failed) == s.len(),
    decreases s.len(),
{
    if s.len() > 0 {
        lemma_states_partition(s.drop_last());
    }
}

/// Stats bar counts: total, running, succeeded, failed.
pub fn stats(tasks: &TaskMirror) -> (r: (usize, usize, usize, usize))
    ensures
        r.0 == tasks@.len(),
        r.1 == count_in_state(tasks@, TaskState::Running),
        r.2 == count_in_state(tasks@, TaskState::Success),
        r.3 == count_in_state(tasks@, TaskState::Failed),
        r.0 == r.1 + r.2 + r.3,
{
    let entries = tasks.entries();
    let mut running: usize = 0;
    let mut success: usize = 0;
    let mut failed: usize = 0;
    let mut i: usize = 0;
    while i < entries.len()
        invariant
            entries@ == tasks@,
            i <= entries@.len(),
            running == count_in_state(entries@.take(i as int), TaskState::Running),
            success == count_in_state(entries@.take(i as int), TaskState::Success),
            failed == count_in_state(entries@.take(i as int), TaskState::Failed),
            running + success + failed == i,
        decreases entries@.len() - i,
    {
        assert(entries@.take(i + 1).drop_last() =~= entries@.take(i as int));
        match TaskState::of(&entries[i].1) {
            TaskState::Running => running += 1,
            TaskState::Success => success += 1,
            TaskState::Failed => failed += 1,
        }
        i += 1;
    }
    assert(entries@.take(entries@.len() as int) =~= entries@);
    (entries.len(), running, success, failed)
}

/// The relative time of a task that started `secs` ago.
pub open spec fn age_text(secs: u64) -> Msg {
    if secs < 60 {
        Msg::ActivityTimeJustNow
    } else if secs < 3600 {
        Msg::ActivityTimeMinutes { count: secs / 60 }
    } else if secs < 86400 {
        Msg::ActivityTimeHours { count: secs / 3600 }
    } else {
        Msg::ActivityTimeDays { count: secs / 86400 }
    }
}

/// Relative times count whole units, the largest that fits: under a minute
/// is "just now"; otherwise the count is the number of whole minutes (under
/// an hour), hours (under a day) or days, so it is never zero, and a minute,
/// an hour and a day each read as one of their unit.
pub proof fn lemma_age_units(secs: u64)
    ensures
        secs < 60 <==> age_text(secs) == Msg::ActivityTimeJustNow,
        60 <= secs < 3600 ==> age_text(secs) == (Msg::ActivityTimeMinutes { count: secs / 60 })
            && 1 <= secs / 60 < 60,
        3600 <= secs < 86400 ==> age_text(secs) == (Msg::ActivityTimeHours { count: secs / 3600 })
            && 1 <= secs / 3600 < 24,
        86400 <= secs ==> age_text(secs) == (Msg::ActivityTimeDays { count: secs / 86400 })
            && secs / 86400 >= 1,
        age_text(60) == (Msg::ActivityTimeMinutes { count: 1 }),
        age_text(3600) == (Msg::ActivityTimeHours { count: 1 }),
        age_text(86400) == (Msg::ActivityTimeDays { count: 1 }),
{
}

/// Relative time of a task that started `elapsed_secs` ago: just now under
/// a minute, then whole minutes under an hour, whole hours under a day, and
/// whole days after that.
pub fn relative_time(elapsed_secs: u64) -> (r: Msg)
    ensures
        r == age_text(elapsed_secs),
        elapsed_secs < 60 ==> r == Msg::ActivityTimeJustNow,
        60 <= elapsed_secs < 3600 ==> r == (Msg::ActivityTimeMinutes { count: elapsed_secs / 60 }),
        3600 <= elapsed_secs < 86400 ==> r == (Msg::ActivityTimeHours {
            count: elapsed_secs / 3600,
        }),
        86400 <= elapsed_secs ==> r == (Msg::ActivityTimeDays { count: elapsed_secs / 86400 }),
{
    if elapsed_secs < 60 {
        Msg::ActivityTimeJustNow
    } else if elapsed_secs < 3600 {
        Msg::ActivityTimeMinutes { count: elapsed_secs / 60 }
    } else if elapsed_secs < 86400 {
        Msg::ActivityTimeHours { count: elapsed_secs / 3600 }
    } else {
        Msg::ActivityTimeDays { count: elapsed_secs / 86400 }
    }
}

/// An output line reads as an error: its lowercased text contains "error"
/// or "failed" (command-output markers, matched as written, not localized).
pub open spec fn is_error_text(line: Seq<char>) -> bool {
    is_substring("error"@, lowercase(line)) || is_substring("failed"@, lowercase(line))
}

/// Whether an output line is shown with error emphasis.
pub fn is_error_line(line: &str) -> (r: bool)
    ensures
        r == is_error_text(line@),
        is_ascii_text(line@) ==> (r <==> (is_substring("error"@, ascii_lower(line@))
            || is_substring("failed"@, ascii_lower(line@)))),
{
    let lower = to_lowercase(line);
    contains(lower.as_str(), "error") || contains(lower.as_str(), "failed")
}

/// Error emphasis goes by two markers, whatever their case: a line whose
/// lowercased text contains "error" is an error line, so is one whose
/// lowercased text contains "failed", and a line with neither is not.
pub proof fn lemma_error_lines(line: Seq<char>)
    ensures
        is_substring("error"@, lowercase(line)) ==> is_error_text(line),
        is_substring("failed"@, lowercase(line)) ==> is_error_text(line),
        !is_substring("error"@, lowercase(line)) && !is_substring("failed"@, lowercase(line))
            ==> !is_error_text(line),
{
}

/// Title and body of the Activity page's empty timeline: no tasks at all,
/// or tasks that the search and chip hide.
pub fn activity_empty_copy(no_tasks: bool) -> (r: (Msg, Msg))
    ensures
        no_tasks ==> r == (Msg::ActivityEmptyTitle, Msg::ActivityEmptyBody),
        !no_tasks ==> r == (Msg::ActivityEmptyMatchTitle, Msg::ActivityEmptyMatchBody),
{
    if no_tasks {
        (Msg::ActivityEmptyTitle, Msg::ActivityEmptyBody)
    } else {
        (Msg::ActivityEmptyMatchTitle, Msg::ActivityEmptyMatchBody)
    }
}

} // verus!
