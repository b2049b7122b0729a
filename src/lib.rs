//! Turn and task lifecycle core of an agent session: the per-turn state store,
//! the registry of running tasks, and the session slot that spawns, aborts and
//! finalizes tasks while emitting lifecycle notifications.

pub mod keyed;
pub mod turn;
pub mod tasks;
pub mod laws;
pub mod subagent;
pub mod agents;
