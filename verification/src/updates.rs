//! The Updates page's figures: how many containers run and which mirrored
//! tasks are upgrades.
use vstd::prelude::*;
use crate::model::{ContainerInfo, TaskId};
use crate::message::{running_in, running_count, stopped_count};
use crate::tasks::{TaskKind, TaskMirror, TaskView, keep};

verus! {

/// The summary counts: running containers, then stopped ones.
pub fn summary(containers: &[ContainerInfo]) -> (r: (usize, usize))
    ensures
        r.0 == running_in(containers@),
        r.1 == containers@.len() - running_in(containers@),
        r.0 + r.1 == containers@.len(),
{
    (running_count(containers), stopped_count(containers))
}

/// Whether the entry's task is an upgrade.
pub open spec fn is_upgrade() -> spec_fn((TaskId, TaskView)) -> bool {
    |e: (TaskId, TaskView)| e.1.kind == TaskKind::Upgrade
}

/// The ids of the mirrored upgrade tasks, in id order. Upgrades are
/// recognised by their kind, never by the (localized) label.
pub fn upgrade_task_ids(tasks: &TaskMirror) -> (r: Vec<TaskId>)
    ensures
        r@ == keep(tasks@, is_upgrade()).map_values(|e: (TaskId, TaskView)| e.0),
{
    let entries = tasks.entries();
    let mut out: Vec<TaskId> = Vec::new();
    let mut i: usize = 0;
    while i < entries.len()
        invariant
            entries@ == tasks@,
            i <= entries@.len(),
            out@ == keep(tasks@.take(i as int), is_upgrade()).map_values(|e: (TaskId, TaskView)| e.0),
        decreases entries@.len() - i,
    {
        assert(tasks@.take(i + 1).drop_last() =~= tasks@.take(i as int));
        if entries[i].1.kind == TaskKind::Upgrade {
            out.push(entries[i].0);
        }
        assert(out@ =~= keep(tasks@.take(i + 1), is_upgrade()).map_values(|e: (TaskId, TaskView)| e.0));
        i += 1;
    }
    assert(tasks@.take(entries@.len() as int) =~= tasks@);
    out
}

} // verus!
