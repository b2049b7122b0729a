use codex_turns::turn::ActiveTurn;
use codex_turns::turn::RunningTask;
use codex_turns::turn::TaskKind;
use codex_turns::turn::TurnState;

#[test]
fn take_pending_input_returns_pushed_in_order() {
    let mut ts: TurnState<u32, &str> = TurnState::new();
    assert!(ts.take_pending_input().is_empty());
    ts.push_pending_input("a");
    ts.push_pending_input("b");
    ts.push_pending_input("c");
    assert_eq!(ts.take_pending_input(), vec!["a", "b", "c"]);
    assert!(ts.take_pending_input().is_empty());
}

#[test]
fn clear_pending_empties_approvals_and_input() {
    let mut ts: TurnState<u32, &str> = TurnState::new();
    assert_eq!(ts.insert_pending_approval("req1".to_string(), 1), None);
    ts.push_pending_input("a");
    ts.set_subagent_name("S".to_string(), "researcher".to_string());
    ts.clear_pending();
    assert_eq!(ts.remove_pending_approval("req1"), None);
    assert!(ts.take_pending_input().is_empty());
    assert_eq!(ts.take_subagent_name("S"), Some("researcher".to_string()));
    assert_eq!(ts.take_subagent_name("S"), None);
}

#[test]
fn approval_overwrite_returns_previous() {
    let mut ts: TurnState<u32, u8> = TurnState::new();
    assert_eq!(ts.insert_pending_approval("k".to_string(), 1), None);
    assert_eq!(ts.insert_pending_approval("k".to_string(), 2), Some(1));
    assert_eq!(ts.remove_pending_approval("k"), Some(2));
    assert_eq!(ts.remove_pending_approval("k"), None);
}

#[test]
fn registry_add_remove_drain() {
    let mut at: ActiveTurn<u32, u8, u8> = ActiveTurn::new();
    assert!(at.has_no_tasks());
    at.add_task("a".to_string(), RunningTask { handle: 1, kind: TaskKind::Regular });
    at.add_task("b".to_string(), RunningTask { handle: 2, kind: TaskKind::Subagent });
    at.add_task("c".to_string(), RunningTask { handle: 3, kind: TaskKind::Review });
    assert_eq!(at.remove_task("b"), Some(TaskKind::Subagent));
    assert_eq!(at.remove_task("b"), None);
    let drained = at.drain_tasks();
    let ids: Vec<&str> = drained.iter().map(|(id, _)| id.as_str()).collect();
    assert_eq!(ids, vec!["a", "c"]);
    assert!(at.has_no_tasks());
}

#[test]
fn defaults_are_empty() {
    let mut ts: TurnState<u32, u8> = TurnState::default();
    assert!(ts.take_pending_input().is_empty());
    assert_eq!(ts.remove_pending_approval("x"), None);
    assert_eq!(ts.take_subagent_name("x"), None);
    let at: ActiveTurn<u32, u8, u8> = ActiveTurn::default();
    assert!(at.has_no_tasks());
}

#[test]
fn task_context_shares_session() {
    let session = std::sync::Arc::new(5u32);
    let ctx = codex_turns::tasks::SessionTaskContext::new(std::sync::Arc::clone(&session));
    let again = ctx.clone_session();
    assert!(std::sync::Arc::ptr_eq(&session, &again));
    assert_eq!(*again, 5);
}
