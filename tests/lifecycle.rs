use codex_turns::tasks::Event;
use codex_turns::tasks::EventMsg;
use codex_turns::tasks::Session;
use codex_turns::tasks::TurnAbortReason;
use codex_turns::tasks::DEFAULT_SUBAGENT_NAME;
use codex_turns::turn::RunningTask;
use codex_turns::turn::TaskKind;

type TestSession = Session<u32, String, u8>;

fn task(kind: TaskKind, handle: u8) -> RunningTask<u8> {
    RunningTask { handle, kind }
}

fn complete(id: &str, msg: Option<&str>) -> Event {
    Event {
        id: id.to_string(),
        msg: EventMsg::TaskComplete { last_agent_message: msg.map(|m| m.to_string()) },
    }
}

#[test]
fn regular_task_finishes_with_summary() {
    let mut s = TestSession::new();
    assert!(!s.has_active_turn());
    let aborted = s.spawn_task("A".to_string(), task(TaskKind::Regular, 1));
    assert!(aborted.is_empty());
    assert!(s.has_active_turn());
    let events = s.on_task_finished("A".to_string(), Some("done".to_string()));
    assert_eq!(events, vec![complete("A", Some("done"))]);
    assert!(!s.has_active_turn());
}

#[test]
fn spawn_preempts_running_task() {
    let mut s = TestSession::new();
    s.spawn_task("A".to_string(), task(TaskKind::Regular, 1));
    let aborted = s.spawn_task("B".to_string(), task(TaskKind::Review, 2));
    assert_eq!(aborted.len(), 1);
    assert_eq!(aborted[0].sub_id, "A");
    assert_eq!(aborted[0].reason, TurnAbortReason::Replaced);
    assert_eq!(aborted[0].task.handle, 1);
    assert_eq!(aborted[0].task.kind, TaskKind::Regular);
    let ev = TestSession::handle_task_abort(&aborted[0], false);
    assert_eq!(
        ev,
        Some(Event {
            id: "A".to_string(),
            msg: EventMsg::TurnAborted { reason: TurnAbortReason::Replaced },
        })
    );
    assert!(s.has_active_turn());
    let events = s.on_task_finished("B".to_string(), None);
    assert_eq!(events, vec![complete("B", None)]);
    assert!(!s.has_active_turn());
}

#[test]
fn abort_of_finished_task_is_silent() {
    let mut s = TestSession::new();
    s.spawn_task("A".to_string(), task(TaskKind::Regular, 1));
    let aborted = s.abort_all_tasks(TurnAbortReason::Interrupted);
    assert_eq!(aborted.len(), 1);
    assert_eq!(aborted[0].reason, TurnAbortReason::Interrupted);
    assert_eq!(TestSession::handle_task_abort(&aborted[0], true), None);
    assert!(!s.has_active_turn());
}

#[test]
fn abort_all_while_idle_does_nothing() {
    let mut s = TestSession::new();
    let aborted = s.abort_all_tasks(TurnAbortReason::Interrupted);
    assert!(aborted.is_empty());
    assert!(!s.has_active_turn());
}

#[test]
fn subagent_stop_precedes_completion_with_name() {
    let mut s = TestSession::new();
    s.spawn_task("S".to_string(), task(TaskKind::Subagent, 3));
    s.set_subagent_name("S".to_string(), "researcher".to_string());
    let events = s.on_task_finished("S".to_string(), None);
    assert_eq!(
        events,
        vec![
            Event {
                id: "S".to_string(),
                msg: EventMsg::SubagentStopped { name: "researcher".to_string(), success: true },
            },
            complete("S", None),
        ]
    );
    assert!(!s.has_active_turn());
}

#[test]
fn subagent_without_name_gets_default() {
    let mut s = TestSession::new();
    s.spawn_task("S".to_string(), task(TaskKind::Subagent, 3));
    let events = s.on_task_finished("S".to_string(), Some("ok".to_string()));
    assert_eq!(DEFAULT_SUBAGENT_NAME, "subagent");
    assert_eq!(
        events,
        vec![
            Event {
                id: "S".to_string(),
                msg: EventMsg::SubagentStopped { name: "subagent".to_string(), success: true },
            },
            complete("S", Some("ok")),
        ]
    );
}

#[test]
fn approval_discarded_on_abort() {
    let mut s = TestSession::new();
    s.spawn_task("A".to_string(), task(TaskKind::Regular, 1));
    assert_eq!(s.insert_pending_approval("req1".to_string(), 7), None);
    let aborted = s.abort_all_tasks(TurnAbortReason::Interrupted);
    let events: Vec<Event> = aborted
        .iter()
        .filter_map(|p| TestSession::handle_task_abort(p, false))
        .collect();
    assert_eq!(
        events,
        vec![Event {
            id: "A".to_string(),
            msg: EventMsg::TurnAborted { reason: TurnAbortReason::Interrupted },
        }]
    );
    assert_eq!(s.remove_pending_approval("req1"), None);
}

#[test]
fn stale_finish_after_abort_reports_completion_only() {
    let mut s = TestSession::new();
    s.spawn_task("S".to_string(), task(TaskKind::Subagent, 1));
    s.set_subagent_name("S".to_string(), "helper".to_string());
    s.abort_all_tasks(TurnAbortReason::Interrupted);
    let events = s.on_task_finished("S".to_string(), None);
    assert_eq!(events, vec![complete("S", None)]);
    assert!(!s.has_active_turn());
}

#[test]
fn turn_stays_while_tasks_remain() {
    let mut s = TestSession::new();
    s.spawn_task("A".to_string(), task(TaskKind::Regular, 1));
    let events = s.on_task_finished("X".to_string(), None);
    assert_eq!(events, vec![complete("X", None)]);
    assert!(s.has_active_turn());
    s.on_task_finished("A".to_string(), None);
    assert!(!s.has_active_turn());
}

#[test]
fn session_turn_state_operations() {
    let mut s = TestSession::new();
    assert_eq!(s.push_pending_input("early".to_string()), Some("early".to_string()));
    assert_eq!(s.insert_pending_approval("r".to_string(), 1), None);
    s.spawn_task("A".to_string(), task(TaskKind::Compact, 1));
    assert_eq!(s.push_pending_input("x".to_string()), None);
    assert_eq!(s.push_pending_input("y".to_string()), None);
    assert_eq!(s.insert_pending_approval("r".to_string(), 1), None);
    assert_eq!(s.insert_pending_approval("r".to_string(), 2), Some(1));
    assert_eq!(s.take_pending_input(), vec!["x".to_string(), "y".to_string()]);
    assert!(s.take_pending_input().is_empty());
    s.push_pending_input("z".to_string());
    s.clear_pending();
    assert!(s.take_pending_input().is_empty());
    assert_eq!(s.remove_pending_approval("r"), None);
    assert!(s.has_active_turn());
}
