//! The session slot: spawning, aborting and finalizing tasks, and the
//! notifications each of those produces.

use std::sync::Arc;

use vstd::prelude::*;

use crate::keyed::lists_map;
use crate::turn::ActiveTurn;
use crate::turn::RunningTask;
use crate::turn::TaskKind;
use crate::turn::TurnState;
use crate::turn::TurnStateView;

verus! {

/// Display name reported for a subagent task that was given none.
pub const DEFAULT_SUBAGENT_NAME: &'static str = "subagent";

/// Why a running task was aborted.
#[derive(Clone, Copy, Debug, PartialEq, Eq, Structural)]
pub enum TurnAbortReason {
    Interrupted,
    Replaced,
    ReviewEnded,
}

/// The payload of a lifecycle notification.
#[derive(Clone, Debug, PartialEq, Eq)]
pub enum EventMsg {
    TaskComplete { last_agent_message: Option<String> },
    TurnAborted { reason: TurnAbortReason },
    SubagentStopped { name: String, success: bool },
}

/// A lifecycle notification, tagged with the id of the task it concerns.
#[derive(Clone, Debug, PartialEq, Eq)]
pub struct Event {
    pub id: String,
    pub msg: EventMsg,
}

/// A notification as a value: the task id and its payload over plain sequences.
pub enum Note {
    Complete { id: Seq<char>, message: Option<Seq<char>> },
    Aborted { id: Seq<char>, reason: TurnAbortReason },
    Stopped { id: Seq<char>, name: Seq<char>, success: bool },
}

pub open spec fn opt_view(o: Option<String>) -> Option<Seq<char>> {
    match o {
        Some(s) => Some(s@),
        None => None,
    }
}

impl View for Event {
    type V = Note;

    open spec fn view(&self) -> Note {
        match self.msg {
            EventMsg::TaskComplete { last_agent_message } => Note::Complete {
                id: self.id@,
                message: opt_view(last_agent_message),
            },
            EventMsg::TurnAborted { reason } => Note::Aborted { id: self.id@, reason },
            EventMsg::SubagentStopped { name, success } => Note::Stopped {
                id: self.id@,
                name: name@,
                success,
            },
        }
    }
}

pub open spec fn notes(events: Seq<Event>) -> Seq<Note> {
    events.map_values(|e: Event| e@)
}

/// The name a subagent-stopped notification carries for `id`.
pub open spec fn stopped_name(names: Map<Seq<char>, String>, id: Seq<char>) -> Seq<char> {
    if names.contains_key(id) {
        names[id]@
    } else {
        DEFAULT_SUBAGENT_NAME@
    }
}

/// The notifications for a task that finished: a subagent-stopped one first
/// when the task was a registered subagent, then the task-complete one.
pub open spec fn finish_notes(
    id: Seq<char>,
    kind: Option<TaskKind>,
    name: Seq<char>,
    message: Option<Seq<char>>,
) -> Seq<Note> {
    if kind == Some(TaskKind::Subagent) {
        seq![
            Note::Stopped { id, name, success: true },
            Note::Complete { id, message },
        ]
    } else {
        seq![Note::Complete { id, message }]
    }
}

/// The notifications for a drained task when the abort path handles it: none
/// if its execution had already finished, else one turn-aborted notification.
pub open spec fn abort_notes(id: Seq<char>, reason: TurnAbortReason, finished: bool) -> Seq<
    Note,
> {
    if finished {
        seq![]
    } else {
        seq![Note::Aborted { id, reason }]
    }
}

/// A task taken out of the session that the runtime must now cancel.
pub struct PendingAbort<H> {
    pub sub_id: String,
    pub task: RunningTask<H>,
    pub reason: TurnAbortReason,
}

/// `aborts` are the entries of `entries` in order, each with `reason`.
pub open spec fn aborts_of<H>(
    aborts: Seq<PendingAbort<H>>,
    entries: Seq<(String, RunningTask<H>)>,
    reason: TurnAbortReason,
) -> bool {
    &&& aborts.len() == entries.len()
    &&& forall|i: int|
        0 <= i < aborts.len() ==> (#[trigger] aborts[i]).sub_id == entries[i].0 && aborts[i].task
            == entries[i].1 && aborts[i].reason == reason
}

/// The session's single optional slot for the turn in progress.
pub struct Session<A, I, H> {
    active_turn: Option<ActiveTurn<A, I, H>>,
}

impl<A, I, H> Session<A, I, H> {
    /// A turn is present only while it has at least one task.
    pub closed spec fn wf(&self) -> bool {
        match self.active_turn {
            Some(at) => at.wf() && at.tasks@ != Map::<Seq<char>, RunningTask<H>>::empty(),
            None => true,
        }
    }

    pub closed spec fn is_active(&self) -> bool {
        self.active_turn is Some
    }

    /// The running tasks by id; empty while idle.
    pub closed spec fn running(&self) -> Map<Seq<char>, RunningTask<H>> {
        match self.active_turn {
            Some(at) => at.tasks@,
            None => Map::empty(),
        }
    }

    /// The running tasks in registration order.
    pub closed spec fn running_entries(&self) -> Seq<(String, RunningTask<H>)> {
        match self.active_turn {
            Some(at) => at.tasks.entries(),
            None => Seq::empty(),
        }
    }

    /// The state of the turn in progress, if any.
    pub closed spec fn state(&self) -> Option<TurnStateView<A, I>> {
        match self.active_turn {
            Some(at) => Some(at.turn_state@),
            None => None,
        }
    }

    /// The slot holds a turn exactly when some task runs, and the ordered
    /// entries list the running tasks.
    pub proof fn lemma_present_iff_running(&self)
        requires
            self.wf(),
        ensures
            self.is_active() <==> self.running() != Map::<Seq<char>, RunningTask<H>>::empty(),
            self.is_active() <==> self.state() is Some,
            lists_map(self.running_entries(), self.running()),
    {
    }

    /// An idle session.
    pub fn new() -> (r: Self)
        ensures
            r.wf(),
            !r.is_active(),
    {
        Session { active_turn: None }
    }

    /// Whether a turn is in progress.
    pub fn has_active_turn(&self) -> (r: bool)
        ensures
            r == self.is_active(),
    {
        self.active_turn.is_some()
    }

    /// Takes the turn out of the slot, discards its pending approvals and input,
    /// and hands out its tasks in registration order.
    pub fn take_all_running_tasks(&mut self) -> (r: Vec<(String, RunningTask<H>)>)
        requires
            old(self).wf(),
        ensures
            final(self).wf(),
            !final(self).is_active(),
            r@ == old(self).running_entries(),
    {
        match self.active_turn.take() {
            Some(mut at) => {
                at.clear_pending();
                at.drain_tasks()
            },
            None => Vec::new(),
        }
    }

    /// Ends the turn in progress: every task it ran is handed out, with
    /// `reason`, for the runtime to cancel. Nothing happens while idle.
    pub fn abort_all_tasks(&mut self, reason: TurnAbortReason) -> (r: Vec<PendingAbort<H>>)
        requires
            old(self).wf(),
        ensures
            final(self).wf(),
            !final(self).is_active(),
            aborts_of(r@, old(self).running_entries(), reason),
    {
        let mut tasks = self.take_all_running_tasks();
        let ghost entries = tasks@;
        let mut out: Vec<PendingAbort<H>> = Vec::new();
        while tasks.len() > 0
            invariant
                out@.len() + tasks@.len() == entries.len(),
                tasks@ == entries.subrange(out@.len() as int, entries.len() as int),
                forall|i: int|
                    0 <= i < out@.len() ==> (#[trigger] out@[i]).sub_id == entries[i].0
                        && out@[i].task == entries[i].1 && out@[i].reason == reason,
            decreases tasks@.len(),
        {
            let (sub_id, task) = tasks.remove(0);
            out.push(PendingAbort { sub_id, task, reason });
        }
        out
    }

    /// Installs a fresh turn holding exactly `task` under `sub_id`.
    fn register_new_active_task(&mut self, sub_id: String, task: RunningTask<H>)
        ensures
            final(self).wf(),
            final(self).running() == map![sub_id@ => task],
            final(self).running_entries() == seq![(sub_id, task)],
            final(self).state() == Some(TurnStateView::<A, I>::empty()),
    {
        let mut turn: ActiveTurn<A, I, H> = ActiveTurn::new();
        turn.add_task(sub_id, task);
        assert(turn.tasks@.contains_key(sub_id@));
        assert(turn.tasks@ =~= map![sub_id@ => task]);
        self.active_turn = Some(turn);
    }

    /// Starts a new turn with `task` under `sub_id`, preempting the turn in
    /// progress: its tasks are handed out with the reason `Replaced`, to be
    /// cancelled before the new task begins.
    pub fn spawn_task(&mut self, sub_id: String, task: RunningTask<H>) -> (r: Vec<
        PendingAbort<H>,
    >)
        requires
            old(self).wf(),
        ensures
            final(self).wf(),
            final(self).is_active(),
            final(self).running() == map![sub_id@ => task],
            final(self).running_entries() == seq![(sub_id, task)],
            final(self).state() == Some(TurnStateView::<A, I>::empty()),
            aborts_of(r@, old(self).running_entries(), TurnAbortReason::Replaced),
    {
        let r = self.abort_all_tasks(TurnAbortReason::Replaced);
        self.register_new_active_task(sub_id, task);
        r
    }

    /// Finalizes the task `sub_id` that ended with `last_agent_message`: removes
    /// it and its display name, ends the turn once no task is left, and returns
    /// the notifications to emit, in order.
    pub fn on_task_finished(&mut self, sub_id: String, last_agent_message: Option<String>) -> (r:
        Vec<Event>)
        requires
            old(self).wf(),
        ensures
            final(self).wf(),
            final(self).running() == old(self).running().remove(sub_id@),
            final(self).is_active() == (final(self).running() != Map::<
                Seq<char>,
                RunningTask<H>,
            >::empty()),
            old(self).is_active() && final(self).is_active() ==> final(self).state() == Some(
                (TurnStateView {
                    names: old(self).state().unwrap().names.remove(sub_id@),
                    ..old(self).state().unwrap()
                }),
            ),
            notes(r@) == finish_notes(
                sub_id@,
                if old(self).running().contains_key(sub_id@) {
                    Some(old(self).running()[sub_id@].kind)
                } else {
                    None
                },
                match old(self).state() {
                    Some(st) => stopped_name(st.names, sub_id@),
                    None => DEFAULT_SUBAGENT_NAME@,
                },
                opt_view(last_agent_message),
            ),
    {
        let mut finished_kind: Option<TaskKind> = None;
        let mut subagent_name: Option<String> = None;
        match self.active_turn.take() {
            Some(mut at) => {
                finished_kind = at.remove_task(sub_id.as_str());
                subagent_name = at.turn_state.take_subagent_name(sub_id.as_str());
                if !at.has_no_tasks() {
                    self.active_turn = Some(at);
                }
            },
            None => {},
        }
        let mut events: Vec<Event> = Vec::new();
        let is_subagent = match finished_kind {
            Some(TaskKind::Subagent) => true,
            _ => false,
        };
        if is_subagent {
            let name = match subagent_name {
                Some(n) => n,
                None => DEFAULT_SUBAGENT_NAME.to_string(),
            };
            events.push(
                Event { id: sub_id.clone(), msg: EventMsg::SubagentStopped { name, success: true } },
            );
        }
        events.push(Event { id: sub_id, msg: EventMsg::TaskComplete { last_agent_message } });
        assert(notes(events@) =~= finish_notes(
            sub_id@,
            finished_kind,
            match old(self).state() {
                Some(st) => stopped_name(st.names, sub_id@),
                None => DEFAULT_SUBAGENT_NAME@,
            },
            opt_view(last_agent_message),
        ));
        events
    }

    /// Same slot presence and same tasks, in the same order.
    pub open spec fn same_tasks(&self, other: &Self) -> bool {
        &&& self.is_active() == other.is_active()
        &&& self.running() == other.running()
        &&& self.running_entries() == other.running_entries()
    }

    /// Registers an approval resolver in the turn in progress, returning the one
    /// it replaces; while idle nothing is registered and `None` comes back.
    pub fn insert_pending_approval(&mut self, key: String, tx: A) -> (r: Option<A>)
        requires
            old(self).wf(),
        ensures
            final(self).wf(),
            final(self).same_tasks(old(self)),
            match old(self).state() {
                Some(st) => {
                    &&& final(self).state() == Some(
                        (TurnStateView { approvals: st.approvals.insert(key@, tx), ..st }),
                    )
                    &&& r == (if st.approvals.contains_key(key@) {
                        Some(st.approvals[key@])
                    } else {
                        None
                    })
                },
                None => r is None && final(self).state() is None,
            },
    {
        match self.active_turn.take() {
            Some(mut at) => {
                let r = at.turn_state.insert_pending_approval(key, tx);
                self.active_turn = Some(at);
                r
            },
            None => None,
        }
    }

    /// Removes and returns the approval resolver registered under `key`.
    pub fn remove_pending_approval(&mut self, key: &str) -> (r: Option<A>)
        requires
            old(self).wf(),
        ensures
            final(self).wf(),
            final(self).same_tasks(old(self)),
            match old(self).state() {
                Some(st) => {
                    &&& final(self).state() == Some(
                        (TurnStateView { approvals: st.approvals.remove(key@), ..st }),
                    )
                    &&& r == (if st.approvals.contains_key(key@) {
                        Some(st.approvals[key@])
                    } else {
                        None
                    })
                },
                None => r is None && final(self).state() is None,
            },
    {
        match self.active_turn.take() {
            Some(mut at) => {
                let r = at.turn_state.remove_pending_approval(key);
                self.active_turn = Some(at);
                r
            },
            None => None,
        }
    }

    /// Buffers `input` in the turn in progress; while idle it is handed back.
    pub fn push_pending_input(&mut self, input: I) -> (r: Option<I>)
        requires
            old(self).wf(),
        ensures
            final(self).wf(),
            final(self).same_tasks(old(self)),
            match old(self).state() {
                Some(st) => r is None && final(self).state() == Some(st.pushed(input)),
                None => r == Some(input) && final(self).state() is None,
            },
    {
        match self.active_turn.take() {
            Some(mut at) => {
                at.turn_state.push_pending_input(input);
                self.active_turn = Some(at);
                None
            },
            None => Some(input),
        }
    }

    /// Hands out the input buffered in the turn in progress, in push order.
    pub fn take_pending_input(&mut self) -> (r: Vec<I>)
        requires
            old(self).wf(),
        ensures
            final(self).wf(),
            final(self).same_tasks(old(self)),
            match old(self).state() {
                Some(st) => r@ == st.input && final(self).state() == Some(st.drained()),
                None => r@ == Seq::<I>::empty() && final(self).state() is None,
            },
    {
        match self.active_turn.take() {
            Some(mut at) => {
                let r = at.turn_state.take_pending_input();
                self.active_turn = Some(at);
                r
            },
            None => Vec::new(),
        }
    }

    /// Records the display name of the delegated task `sub_id` in the turn in
    /// progress; while idle nothing is recorded.
    pub fn set_subagent_name(&mut self, sub_id: String, name: String)
        requires
            old(self).wf(),
        ensures
            final(self).wf(),
            final(self).same_tasks(old(self)),
            match old(self).state() {
                Some(st) => final(self).state() == Some(
                    (TurnStateView { names: st.names.insert(sub_id@, name), ..st }),
                ),
                None => final(self).state() is None,
            },
    {
        match self.active_turn.take() {
            Some(mut at) => {
                at.turn_state.set_subagent_name(sub_id, name);
                self.active_turn = Some(at);
            },
            None => {},
        }
    }

    /// Discards the pending approvals and buffered input of the turn in progress.
    pub fn clear_pending(&mut self)
        requires
            old(self).wf(),
        ensures
            final(self).wf(),
            final(self).same_tasks(old(self)),
            match old(self).state() {
                Some(st) => final(self).state() == Some(st.cleared()),
                None => final(self).state() is None,
            },
    {
        match self.active_turn.take() {
            Some(mut at) => {
                at.clear_pending();
                self.active_turn = Some(at);
            },
            None => {},
        }
    }

    /// Decides what aborting a drained task emits, given whether its execution
    /// had already finished (its own completion then reports it).
    pub fn handle_task_abort(pending: &PendingAbort<H>, finished: bool) -> (r: Option<Event>)
        ensures
            match r {
                Some(e) => seq![e@] == abort_notes(pending.sub_id@, pending.reason, finished),
                None => abort_notes(pending.sub_id@, pending.reason, finished) == Seq::<
                    Note,
                >::empty(),
            },
    {
        if finished {
            None
        } else {
            Some(Event { id: pending.sub_id.clone(), msg: EventMsg::TurnAborted { reason: pending.reason } })
        }
    }
}

/// Relies on `Arc::clone`: a new pointer to the same value.
#[verifier::external_body]
fn share<S>(a: &Arc<S>) -> (r: Arc<S>)
    ensures
        *r == **a,
{
    Arc::clone(a)
}

/// The part of a session that task runners are given.
pub struct SessionTaskContext<S> {
    session: Arc<S>,
}

impl<S> SessionTaskContext<S> {
    pub closed spec fn session(&self) -> S {
        *self.session
    }

    pub fn new(session: Arc<S>) -> (r: Self)
        ensures
            r.session() == *session,
    {
        SessionTaskContext { session }
    }

    /// Another handle on the session.
    pub fn clone_session(&self) -> (r: Arc<S>)
        ensures
            *r == self.session(),
    {
        share(&self.session)
    }
}

} // verus!
