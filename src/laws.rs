//! Laws of the turn lifecycle, stated over the models that the operations'
//! contracts use.

use vstd::prelude::*;

use crate::tasks::abort_notes;
use crate::tasks::aborts_of;
use crate::tasks::finish_notes;
use crate::tasks::stopped_name;
use crate::tasks::Note;
use crate::tasks::PendingAbort;
use crate::tasks::TurnAbortReason;
use crate::tasks::DEFAULT_SUBAGENT_NAME;
use crate::turn::RunningTask;
use crate::turn::TaskKind;
use crate::turn::TurnStateView;

verus! {

/// Whether `n` ends the task `id`: a task-complete or a turn-aborted notification.
pub open spec fn is_terminal_for(n: Note, id: Seq<char>) -> bool {
    match n {
        Note::Complete { id: j, .. } => j == id,
        Note::Aborted { id: j, .. } => j == id,
        Note::Stopped { .. } => false,
    }
}

/// How many notifications in `ns` end the task `id`.
pub open spec fn terminal_count(ns: Seq<Note>, id: Seq<char>) -> nat
    decreases ns.len(),
{
    if ns.len() == 0 {
        0
    } else {
        terminal_count(ns.drop_last(), id) + if is_terminal_for(ns.last(), id) {
            1nat
        } else {
            0nat
        }
    }
}

/// Every task taken out by a preemption carries the reason `Replaced`, and
/// aborting it while it still runs reports exactly a turn-aborted notification
/// with that reason for its id.
pub proof fn preemption_reports_replaced<H>(
    aborts: Seq<PendingAbort<H>>,
    entries: Seq<(String, RunningTask<H>)>,
)
    requires
        aborts_of(aborts, entries, TurnAbortReason::Replaced),
    ensures
        aborts.len() == entries.len(),
        forall|i: int|
            0 <= i < aborts.len() ==> abort_notes(
                (#[trigger] aborts[i]).sub_id@,
                aborts[i].reason,
                false,
            ) == seq![Note::Aborted { id: entries[i].0@, reason: TurnAbortReason::Replaced }],
{
}

/// A task is ended by exactly one notification: by its own completion when its
/// execution finished before the abort path saw it, else by the abort. Neither
/// path emits the other path's terminal notification.
pub proof fn one_terminal_notification(
    id: Seq<char>,
    kind: Option<TaskKind>,
    name: Seq<char>,
    message: Option<Seq<char>>,
    reason: TurnAbortReason,
    finished: bool,
)
    ensures
        terminal_count(finish_notes(id, kind, name, message), id) == 1,
        terminal_count(abort_notes(id, reason, false), id) == 1,
        terminal_count(abort_notes(id, reason, true), id) == 0,
        terminal_count(
            if finished {
                finish_notes(id, kind, name, message)
            } else {
                abort_notes(id, reason, finished)
            },
            id,
        ) == 1,
        forall|i: int|
            0 <= i < finish_notes(id, kind, name, message).len() ==> !(#[trigger] finish_notes(
                id,
                kind,
                name,
                message,
            )[i] is Aborted),
        forall|i: int|
            0 <= i < abort_notes(id, reason, finished).len() ==> !(#[trigger] abort_notes(
                id,
                reason,
                finished,
            )[i] is Complete),
{
    let f = finish_notes(id, kind, name, message);
    if kind == Some(TaskKind::Subagent) {
        assert(f.drop_last() =~= seq![Note::Stopped { id, name, success: true }]);
        assert(f.drop_last().drop_last() =~= Seq::<Note>::empty());
        assert(terminal_count(f.drop_last().drop_last(), id) == 0);
        assert(terminal_count(f.drop_last(), id) == 0);
    } else {
        assert(f.drop_last() =~= Seq::<Note>::empty());
        assert(terminal_count(f.drop_last(), id) == 0);
    }
    let a = abort_notes(id, reason, false);
    assert(a.drop_last() =~= Seq::<Note>::empty());
    assert(terminal_count(a.drop_last(), id) == 0);
    assert(terminal_count(a, id) == 1);
}

/// A subagent's stopped notification comes strictly before its completion, and
/// carries the default name when none was recorded.
pub proof fn subagent_stop_precedes_completion(
    id: Seq<char>,
    names: Map<Seq<char>, String>,
    message: Option<Seq<char>>,
)
    ensures
        ({
            let ns = finish_notes(id, Some(TaskKind::Subagent), stopped_name(names, id), message);
            &&& ns.len() == 2
            &&& ns[0] == Note::Stopped { id, name: stopped_name(names, id), success: true }
            &&& ns[1] == Note::Complete { id, message }
        }),
        !names.contains_key(id) ==> stopped_name(names, id) == DEFAULT_SUBAGENT_NAME@,
{
}

/// Buffering items one by one appends them in order.
pub proof fn pushed_all_appends<A, I>(v: TurnStateView<A, I>, items: Seq<I>)
    ensures
        v.pushed_all(items).input == v.input + items,
        v.pushed_all(items).approvals == v.approvals,
        v.pushed_all(items).names == v.names,
    decreases items.len(),
{
    if items.len() > 0 {
        pushed_all_appends(v, items.drop_last());
        assert(v.input + items =~= (v.input + items.drop_last()).push(items.last()));
    }
}

/// Taking the input after pushes onto an empty buffer returns exactly the
/// pushed items in push order; a second take, with no push between, returns
/// nothing.
pub proof fn take_returns_pushed_in_order<A, I>(v: TurnStateView<A, I>, items: Seq<I>)
    requires
        v.input == Seq::<I>::empty(),
    ensures
        v.pushed_all(items).input == items,
        v.pushed_all(items).drained().input == Seq::<I>::empty(),
{
    pushed_all_appends(v, items);
    assert(v.input + items =~= items);
}

/// Clearing discards every pending approval and all buffered input, and keeps
/// the display names; removing any approval afterwards finds nothing.
pub proof fn clear_discards_approvals<A, I>(v: TurnStateView<A, I>, key: Seq<char>)
    ensures
        !v.cleared().approvals.contains_key(key),
        v.cleared().approvals.remove(key) == Map::<Seq<char>, A>::empty(),
        v.cleared().input == Seq::<I>::empty(),
        v.cleared().names == v.names,
{
    assert(v.cleared().approvals.remove(key) =~= Map::<Seq<char>, A>::empty());
}

} // verus!
