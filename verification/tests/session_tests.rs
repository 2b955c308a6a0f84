use coding_agent_harness::agent::{Agent, AgentConfig};
use coding_agent_harness::guard::GuardrailAction;
use coding_agent_harness::session::{
    add_once, answer_call, approval_reason, blocked_result, fix_round_message, marks_failure,
    memory_message, next_fix_round, tool_error_result, CallOutcome,
};
use coding_agent_harness::types::{Role, ToolResult};

#[test]
fn approval_needed_for_block_and_require() {
    assert!(approval_reason(&GuardrailAction::Allow).is_none());
    assert_eq!(approval_reason(&GuardrailAction::Block { reason: "a".into() }).unwrap(), "a");
    assert_eq!(approval_reason(&GuardrailAction::RequireApproval { reason: "b".into() }).unwrap(), "b");
}

#[test]
fn failures_count_only_after_approval() {
    assert!(!marks_failure(false, CallOutcome::Failed));
    assert!(!marks_failure(false, CallOutcome::Ran { success: false }));
    assert!(marks_failure(true, CallOutcome::Denied));
    assert!(marks_failure(true, CallOutcome::Failed));
    assert!(marks_failure(true, CallOutcome::Ran { success: false }));
    assert!(!marks_failure(true, CallOutcome::Ran { success: true }));
}

#[test]
fn call_results() {
    let id = "c7".to_string();
    let r = answer_call(ToolResult { tool_call_id: String::new(), content: "x".into(), is_error: false }, &id);
    assert_eq!(r.tool_call_id, "c7");
    let b = blocked_result(&id, "Network request detected");
    assert_eq!(b.content, "BLOCKED by guardrail: Network request detected");
    assert!(b.is_error);
    assert_eq!(tool_error_result(&id, "boom").content, "Tool error: boom");
}

#[test]
fn fix_rounds() {
    assert_eq!(next_fix_round(true, 0, 3), Some(1));
    assert_eq!(next_fix_round(true, 3, 3), None);
    assert_eq!(next_fix_round(false, 0, 3), None);
    let m = fix_round_message(2, 3);
    assert_eq!(m.role, Role::System);
    assert_eq!(
        m.content,
        "The previous tool calls had failures. Please fix the issues and try again. (Fix round 2/3)"
    );
}

#[test]
fn memory_notes_are_added_once() {
    let mut agent = Agent::new(AgentConfig::default());
    let m = memory_message("style", "snake_case");
    assert_eq!(m.content, "[Memory: style = snake_case]");
    assert!(add_once(&mut agent, m));
    assert!(!add_once(&mut agent, memory_message("style", "snake_case")));
    assert!(add_once(&mut agent, memory_message("style", "camel")));
    assert_eq!(agent.conversation.len(), 2);
}
