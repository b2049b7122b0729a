//! Turn-scoped state and the registry of the tasks running in a turn.

use vstd::prelude::*;

use crate::keyed::Keyed;

verus! {

/// The behaviour class of a task, used for reporting and for finalization.
#[derive(Clone, Copy, Debug, PartialEq, Eq, Structural)]
pub enum TaskKind {
    Regular,
    Review,
    Compact,
    Subagent,
}

/// A task registered in a turn: its kind and the handle through which the
/// runtime can cancel it and reach its behaviour.
pub struct RunningTask<H> {
    pub handle: H,
    pub kind: TaskKind,
}

/// What a turn state holds: approval resolvers and display names keyed by id,
/// and the buffered input in the order it was pushed.
pub struct TurnStateView<A, I> {
    pub approvals: Map<Seq<char>, A>,
    pub input: Seq<I>,
    pub names: Map<Seq<char>, String>,
}

impl<A, I> TurnStateView<A, I> {
    pub open spec fn empty() -> Self {
        TurnStateView { approvals: Map::empty(), input: Seq::empty(), names: Map::empty() }
    }

    /// The state after buffering `item`.
    pub open spec fn pushed(self, item: I) -> Self {
        TurnStateView { input: self.input.push(item), ..self }
    }

    /// The state after buffering each of `items` in turn.
    pub open spec fn pushed_all(self, items: Seq<I>) -> Self
        decreases items.len(),
    {
        if items.len() == 0 {
            self
        } else {
            self.pushed_all(items.drop_last()).pushed(items.last())
        }
    }

    /// The state after the buffered input has been handed out.
    pub open spec fn drained(self) -> Self {
        TurnStateView { input: Seq::empty(), ..self }
    }

    /// The state after approvals and input are discarded; names stay.
    pub open spec fn cleared(self) -> Self {
        TurnStateView { approvals: Map::empty(), input: Seq::empty(), ..self }
    }
}

/// Mutable state for a single turn.
pub struct TurnState<A, I> {
    pending_approvals: Keyed<A>,
    pending_input: Vec<I>,
    subagent_names: Keyed<String>,
}

impl<A, I> View for TurnState<A, I> {
    type V = TurnStateView<A, I>;

    closed spec fn view(&self) -> TurnStateView<A, I> {
        TurnStateView {
            approvals: self.pending_approvals@,
            input: self.pending_input@,
            names: self.subagent_names@,
        }
    }
}

impl<A, I> TurnState<A, I> {
    pub closed spec fn wf(&self) -> bool {
        self.pending_approvals.wf() && self.subagent_names.wf()
    }

    pub fn new() -> (r: Self)
        ensures
            r.wf(),
            r@ == TurnStateView::<A, I>::empty(),
    {
        TurnState {
            pending_approvals: Keyed::new(),
            pending_input: Vec::new(),
            subagent_names: Keyed::new(),
        }
    }

    /// Registers the resolver of an approval request, returning the one it
    /// replaces under the same id.
    pub fn insert_pending_approval(&mut self, key: String, tx: A) -> (r: Option<A>)
        requires
            old(self).wf(),
        ensures
            final(self).wf(),
            final(self)@ == (TurnStateView {
                approvals: old(self)@.approvals.insert(key@, tx),
                ..old(self)@
            }),
            r == (if old(self)@.approvals.contains_key(key@) {
                Some(old(self)@.approvals[key@])
            } else {
                None
            }),
    {
        self.pending_approvals.insert(key, tx)
    }

    /// Removes and returns the resolver registered under `key`.
    pub fn remove_pending_approval(&mut self, key: &str) -> (r: Option<A>)
        requires
            old(self).wf(),
        ensures
            final(self).wf(),
            final(self)@ == (TurnStateView {
                approvals: old(self)@.approvals.remove(key@),
                ..old(self)@
            }),
            r == (if old(self)@.approvals.contains_key(key@) {
                Some(old(self)@.approvals[key@])
            } else {
                None
            }),
    {
        let k = key.to_string();
        self.pending_approvals.remove(&k)
    }

    /// Discards every pending approval and all buffered input.
    pub fn clear_pending(&mut self)
        requires
            old(self).wf(),
        ensures
            final(self).wf(),
            final(self)@ == old(self)@.cleared(),
    {
        self.pending_approvals.clear();
        self.pending_input.clear();
    }

    /// Buffers an input item for a later turn.
    pub fn push_pending_input(&mut self, input: I)
        requires
            old(self).wf(),
        ensures
            final(self).wf(),
            final(self)@ == old(self)@.pushed(input),
    {
        self.pending_input.push(input);
    }

    /// Hands out the buffered input in push order and leaves the buffer empty.
    pub fn take_pending_input(&mut self) -> (r: Vec<I>)
        requires
            old(self).wf(),
        ensures
            final(self).wf(),
            r@ == old(self)@.input,
            final(self)@ == old(self)@.drained(),
    {
        if self.pending_input.len() == 0 {
            Vec::new()
        } else {
            let mut ret: Vec<I> = Vec::new();
            std::mem::swap(&mut ret, &mut self.pending_input);
            ret
        }
    }

    /// Records the display name of a delegated task.
    pub fn set_subagent_name(&mut self, sub_id: String, name: String)
        requires
            old(self).wf(),
        ensures
            final(self).wf(),
            final(self)@ == (TurnStateView {
                names: old(self)@.names.insert(sub_id@, name),
                ..old(self)@
            }),
    {
        self.subagent_names.insert(sub_id, name);
    }

    /// Removes and returns the display name recorded for `sub_id`.
    pub fn take_subagent_name(&mut self, sub_id: &str) -> (r: Option<String>)
        requires
            old(self).wf(),
        ensures
            final(self).wf(),
            final(self)@ == (TurnStateView {
                names: old(self)@.names.remove(sub_id@),
                ..old(self)@
            }),
            r == (if old(self)@.names.contains_key(sub_id@) {
                Some(old(self)@.names[sub_id@])
            } else {
                None
            }),
    {
        let k = sub_id.to_string();
        self.subagent_names.remove(&k)
    }
}

impl<A, I> Default for TurnState<A, I> {
    fn default() -> (r: Self)
        ensures
            r.wf(),
            r@ == TurnStateView::<A, I>::empty(),
    {
        TurnState::new()
    }
}

/// The tasks running in the current turn, with the turn's state.
pub struct ActiveTurn<A, I, H> {
    pub tasks: Keyed<RunningTask<H>>,
    pub turn_state: TurnState<A, I>,
}

impl<A, I, H> ActiveTurn<A, I, H> {
    pub open spec fn wf(&self) -> bool {
        self.tasks.wf() && self.turn_state.wf()
    }

    /// The running tasks by id.
    pub open spec fn tasks(&self) -> Map<Seq<char>, RunningTask<H>> {
        self.tasks@
    }

    /// The running tasks in registration order.
    pub open spec fn task_entries(&self) -> Seq<(String, RunningTask<H>)> {
        self.tasks.entries()
    }

    pub open spec fn state(&self) -> TurnStateView<A, I> {
        self.turn_state@
    }

    /// A turn with no task and an empty state.
    pub fn new() -> (r: Self)
        ensures
            r.wf(),
            r.tasks() == Map::<Seq<char>, RunningTask<H>>::empty(),
            r.task_entries() == Seq::<(String, RunningTask<H>)>::empty(),
            r.state() == TurnStateView::<A, I>::empty(),
    {
        ActiveTurn { tasks: Keyed::new(), turn_state: TurnState::new() }
    }

    /// Registers `task` under `sub_id`, replacing any task under that id.
    pub fn add_task(&mut self, sub_id: String, task: RunningTask<H>)
        requires
            old(self).wf(),
        ensures
            final(self).wf(),
            final(self).tasks() == old(self).tasks().insert(sub_id@, task),
            !old(self).tasks().contains_key(sub_id@) ==> final(self).task_entries() == old(
                self,
            ).task_entries().push((sub_id, task)),
            final(self).state() == old(self).state(),
    {
        self.tasks.insert(sub_id, task);
    }

    /// Removes the task under `sub_id` and reports its kind.
    pub fn remove_task(&mut self, sub_id: &str) -> (r: Option<TaskKind>)
        requires
            old(self).wf(),
        ensures
            final(self).wf(),
            final(self).tasks() == old(self).tasks().remove(sub_id@),
            final(self).state() == old(self).state(),
            r == (if old(self).tasks().contains_key(sub_id@) {
                Some(old(self).tasks()[sub_id@].kind)
            } else {
                None
            }),
    {
        let k = sub_id.to_string();
        match self.tasks.remove(&k) {
            Some(t) => Some(t.kind),
            None => None,
        }
    }

    /// Hands out every task in registration order and leaves the turn with none.
    pub fn drain_tasks(&mut self) -> (r: Vec<(String, RunningTask<H>)>)
        requires
            old(self).wf(),
        ensures
            final(self).wf(),
            r@ == old(self).task_entries(),
            final(self).tasks() == Map::<Seq<char>, RunningTask<H>>::empty(),
            final(self).state() == old(self).state(),
    {
        self.tasks.take_all()
    }

    /// Whether no task is registered.
    pub fn has_no_tasks(&self) -> (r: bool)
        requires
            self.wf(),
        ensures
            r == (self.tasks() == Map::<Seq<char>, RunningTask<H>>::empty()),
    {
        self.tasks.is_empty()
    }

    /// Discards pending approvals and buffered input of this turn.
    pub fn clear_pending(&mut self)
        requires
            old(self).wf(),
        ensures
            final(self).wf(),
            final(self).tasks() == old(self).tasks(),
            final(self).task_entries() == old(self).task_entries(),
            final(self).state() == old(self).state().cleared(),
    {
        self.turn_state.clear_pending();
    }
}

impl<A, I, H> Default for ActiveTurn<A, I, H> {
    fn default() -> (r: Self)
        ensures
            r.wf(),
            r.tasks@ == Map::<Seq<char>, RunningTask<H>>::empty(),
            r.state() == TurnStateView::<A, I>::empty(),
    {
        ActiveTurn::new()
    }
}

} // verus!
