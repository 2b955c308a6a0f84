use coding_agent_harness::agent::{Agent, AgentConfig};
use coding_agent_harness::feedback::FeedbackValidator;
use coding_agent_harness::guard::GuardrailAction;
use coding_agent_harness::run::{plan_call, CallPlan, LoopState, LoopStep};
use coding_agent_harness::types::{
    Action, CompletionResponse, FinishReason, Message, Role, ToolCall, ToolResult, Usage,
};

fn response(tool_calls: Option<Vec<ToolCall>>, finish_reason: FinishReason) -> CompletionResponse {
    CompletionResponse {
        message: Message { role: Role::Assistant, content: "text".into(), tool_calls, tool_call_id: None },
        finish_reason,
        usage: Usage { prompt_tokens: 1, completion_tokens: 1, total_tokens: 2 },
    }
}

fn call(id: &str) -> ToolCall {
    ToolCall { id: id.into(), name: "read_file".into(), arguments: "{}".into() }
}

fn state(max_turns: usize, max_fix_rounds: usize) -> LoopState {
    LoopState::new(Agent::new(AgentConfig { max_turns, max_tools_per_turn: 5 }), max_fix_rounds)
}

#[test]
fn allowed_calls_run_without_asking() {
    assert!(matches!(plan_call(&GuardrailAction::Allow, None), CallPlan::Run));
    assert!(matches!(plan_call(&GuardrailAction::Allow, Some(false)), CallPlan::Run));
}

#[test]
fn blocked_calls_run_only_when_approved() {
    let block = GuardrailAction::Block { reason: "danger".into() };
    assert!(matches!(plan_call(&block, None), CallPlan::Ask { reason } if reason == "danger"));
    assert!(matches!(plan_call(&block, Some(true)), CallPlan::Run));
    assert!(matches!(plan_call(&block, Some(false)), CallPlan::Refuse { reason } if reason == "danger"));
    let approval = GuardrailAction::RequireApproval { reason: "push".into() };
    assert!(matches!(plan_call(&approval, None), CallPlan::Ask { .. }));
    assert!(matches!(plan_call(&approval, Some(false)), CallPlan::Refuse { reason } if reason == "push"));
}

#[test]
fn a_finished_response_stops_the_run() {
    let mut s = state(50, 3);
    match s.on_response(response(None, FinishReason::Stop)) {
        LoopStep::Stop { content } => assert_eq!(content, "text"),
        _ => panic!("expected a stop"),
    }
    assert!(s.agent.conversation.is_empty());
}

#[test]
fn a_response_with_calls_starts_a_turn() {
    let mut s = state(50, 3);
    match s.on_response(response(Some(vec![call("1"), call("2")]), FinishReason::ToolUse)) {
        LoopStep::Act { actions } => {
            assert_eq!(actions.len(), 1);
            assert!(matches!(&actions[0], Action::ToolUse(tc) if tc.len() == 2));
        }
        _ => panic!("expected actions"),
    }
    assert_eq!(s.agent.conversation.len(), 1);
}

#[test]
fn the_turn_limit_stops_the_run() {
    let mut s = state(1, 3);
    assert!(matches!(s.on_response(response(None, FinishReason::ToolUse)), LoopStep::Act { .. }));
    assert_eq!(s.end_of_turn(), None);
    assert_eq!(s.agent.turn_count, 1);
    assert!(matches!(s.on_response(response(None, FinishReason::ToolUse)), LoopStep::Stop { .. }));
}

#[test]
fn a_refused_call_starts_a_fix_round() {
    let mut s = state(50, 1);
    let _ = s.on_response(response(Some(vec![call("7")]), FinishReason::ToolUse));
    s.refuse_call(&"7".to_string(), "danger");
    assert!(s.had_failure);
    let last = s.agent.conversation.last().unwrap();
    assert_eq!(last.content, "BLOCKED by guardrail: danger");
    assert_eq!(last.tool_call_id.as_deref(), Some("7"));
    assert_eq!(s.end_of_turn(), Some(1));
    assert_eq!(s.fix_rounds_used, 1);
    assert_eq!(
        s.agent.conversation.last().unwrap().content,
        "The previous tool calls had failures. Please fix the issues and try again. (Fix round 1/1)"
    );
    let _ = s.on_response(response(Some(vec![call("8")]), FinishReason::ToolUse));
    s.refuse_call(&"8".to_string(), "danger");
    assert_eq!(s.end_of_turn(), None);
}

#[test]
fn results_are_recorded_and_judged() {
    let mut s = state(50, 3);
    let fv = FeedbackValidator::new_default();
    let ok = ToolResult { tool_call_id: String::new(), content: "test result: ok. 3 passed; 0 failed".into(), is_error: false };
    let fb = s.record_result(&"1".to_string(), true, Ok(ok), &fv).unwrap();
    assert!(fb.is_success);
    assert!(!s.had_failure);
    assert_eq!(s.agent.conversation.last().unwrap().tool_call_id.as_deref(), Some("1"));
    assert!(s.record_result(&"2".to_string(), false, Err("boom".into()), &fv).is_none());
    assert_eq!(s.agent.conversation.last().unwrap().content, "Tool error: boom");
    assert!(!s.had_failure);
    assert!(s.record_result(&"3".to_string(), true, Err("boom".into()), &fv).is_none());
    assert!(s.had_failure);
}
