use coding_agent_harness::llm::ScriptedResponses;
use coding_agent_harness::types::{CompletionResponse, FinishReason, HarnessError, Message, Role, Usage};

fn resp(text: &str) -> CompletionResponse {
    CompletionResponse {
        message: Message { role: Role::Assistant, content: text.into(), tool_calls: None, tool_call_id: None },
        finish_reason: FinishReason::Stop,
        usage: Usage { prompt_tokens: 10, completion_tokens: 5, total_tokens: 15 },
    }
}

#[test]
fn script_returns_responses_in_order() {
    let mut s = ScriptedResponses::new(vec![resp("Hello"), resp("World")]);
    assert_eq!(s.len(), 2);
    assert_eq!(s.next().unwrap().message.content, "Hello");
    assert_eq!(s.next().unwrap().message.content, "World");
    assert_eq!(s.len(), 0);
}

#[test]
fn script_errors_when_used_up() {
    let mut s = ScriptedResponses::new(vec![]);
    match s.next() {
        Err(HarnessError::Provider(m)) => assert_eq!(m, "No preset responses left"),
        _ => panic!("expected an error"),
    }
}

#[test]
fn script_keeps_failing_after_the_last_response() {
    let mut s = ScriptedResponses::new(vec![resp("only")]);
    assert_eq!(s.next().unwrap().message.content, "only");
    for _ in 0..3 {
        match s.next() {
            Err(HarnessError::Provider(m)) => assert_eq!(m, "No preset responses left"),
            _ => panic!("expected an error"),
        }
    }
    assert_eq!(s.len(), 0);
}
