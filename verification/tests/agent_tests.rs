use coding_agent_harness::agent::{Agent, AgentConfig};
use coding_agent_harness::types::{
    Action, CompletionResponse, FinishReason, Message, Role, ToolCall, ToolResult, Usage,
};

fn usage() -> Usage {
    Usage { prompt_tokens: 10, completion_tokens: 5, total_tokens: 15 }
}

fn response(content: &str, tool_calls: Option<Vec<ToolCall>>, finish_reason: FinishReason) -> CompletionResponse {
    CompletionResponse {
        message: Message { role: Role::Assistant, content: content.into(), tool_calls, tool_call_id: None },
        finish_reason,
        usage: usage(),
    }
}

#[test]
fn agent_stops_on_finish_stop() {
    let agent = Agent::new(AgentConfig::default());
    let response = CompletionResponse {
        message: Message {
            role: Role::Assistant,
            content: "done".into(),
            tool_calls: None,
            tool_call_id: None,
        },
        finish_reason: FinishReason::Stop,
        usage: Usage { prompt_tokens: 10, completion_tokens: 5, total_tokens: 15 },
    };
    assert!(agent.should_stop(&response));
}

#[test]
fn agent_does_not_stop_on_tool_use() {
    let agent = Agent::new(AgentConfig::default());
    let response = CompletionResponse {
        message: Message {
            role: Role::Assistant,
            content: String::new(),
            tool_calls: None,
            tool_call_id: None,
        },
        finish_reason: FinishReason::ToolUse,
        usage: Usage { prompt_tokens: 10, completion_tokens: 5, total_tokens: 15 },
    };
    assert!(!agent.should_stop(&response));
}

#[test]
fn agent_stops_at_max_turns() {
    let mut agent = Agent::new(AgentConfig { max_turns: 2, max_tools_per_turn: 5 });
    agent.turn_count = 2;
    let response = CompletionResponse {
        message: Message {
            role: Role::Assistant,
            content: String::new(),
            tool_calls: None,
            tool_call_id: None,
        },
        finish_reason: FinishReason::ToolUse,
        usage: Usage { prompt_tokens: 10, completion_tokens: 5, total_tokens: 15 },
    };
    assert!(agent.should_stop(&response));
}

#[test]
fn parse_actions_extracts_tool_calls() {
    let agent = Agent::new(AgentConfig::default());
    let response = CompletionResponse {
        message: Message {
            role: Role::Assistant,
            content: "thinking".into(),
            tool_calls: Some(vec![ToolCall {
                id: "1".into(),
                name: "read_file".into(),
                arguments: "{\"path\":\"a.rs\"}".into(),
            }]),
            tool_call_id: None,
        },
        finish_reason: FinishReason::ToolUse,
        usage: Usage { prompt_tokens: 10, completion_tokens: 5, total_tokens: 15 },
    };
    let actions = agent.parse_actions(&response);
    assert_eq!(actions.len(), 1);
    assert!(matches!(&actions[0], Action::ToolUse(tc) if tc[0].name == "read_file"));
}

#[test]
fn parse_actions_returns_continue_when_no_tool_calls() {
    let agent = Agent::new(AgentConfig::default());
    let response = CompletionResponse {
        message: Message {
            role: Role::Assistant,
            content: "just text".into(),
            tool_calls: None,
            tool_call_id: None,
        },
        finish_reason: FinishReason::Stop,
        usage: Usage { prompt_tokens: 10, completion_tokens: 5, total_tokens: 15 },
    };
    let actions = agent.parse_actions(&response);
    assert_eq!(actions.len(), 1);
    assert!(matches!(&actions[0], Action::Continue));
}

#[test]
fn default_agent_limits() {
    let config = AgentConfig::default();
    assert_eq!(config.max_turns, 50);
    assert_eq!(config.max_tools_per_turn, 5);
    let agent = Agent::new(config);
    assert!(agent.conversation.is_empty());
    assert_eq!(agent.turn_count, 0);
}

#[test]
fn empty_tool_call_list_continues() {
    let agent = Agent::new(AgentConfig::default());
    let actions = agent.parse_actions(&response("x", Some(vec![]), FinishReason::ToolUse));
    assert_eq!(actions.len(), 1);
    assert!(matches!(&actions[0], Action::Continue));
}

#[test]
fn turn_limit_stops_before_the_limit_is_passed() {
    let mut agent = Agent::new(AgentConfig { max_turns: 3, max_tools_per_turn: 5 });
    agent.turn_count = 2;
    assert!(!agent.should_stop(&response("", None, FinishReason::Length)));
    agent.turn_count = 3;
    assert!(agent.should_stop(&response("", None, FinishReason::Length)));
}

#[test]
fn conversation_grows_in_order() {
    let mut agent = Agent::new(AgentConfig::default());
    agent.add_user_message("fix the build");
    agent.add_assistant_message(response("ok", None, FinishReason::Stop).message);
    agent.add_tool_result(ToolResult { tool_call_id: "c1".into(), content: "out".into(), is_error: false });
    assert_eq!(agent.conversation.len(), 3);
    assert_eq!(agent.conversation[0].role, Role::User);
    assert_eq!(agent.conversation[0].content, "fix the build");
    assert_eq!(agent.conversation[1].role, Role::Assistant);
    assert_eq!(agent.conversation[2].role, Role::Tool);
    assert_eq!(agent.conversation[2].content, "out");
    assert_eq!(agent.conversation[2].tool_call_id.as_deref(), Some("c1"));
    assert!(agent.conversation[2].tool_calls.is_none());
}

fn calls(n: usize) -> Vec<ToolCall> {
    (0..n)
        .map(|i| ToolCall { id: i.to_string(), name: "read_file".into(), arguments: "{}".into() })
        .collect()
}

#[test]
fn a_turn_runs_at_most_max_tools_per_turn_calls() {
    let agent = Agent::new(AgentConfig::default());
    let actions = agent.parse_actions(&response("", Some(calls(6)), FinishReason::ToolUse));
    assert_eq!(actions.len(), 1);
    match &actions[0] {
        Action::ToolUse(tc) => {
            let ids: Vec<&str> = tc.iter().map(|c| c.id.as_str()).collect();
            assert_eq!(ids, vec!["0", "1", "2", "3", "4"]);
        }
        _ => panic!("expected tool use"),
    }
    let actions = agent.parse_actions(&response("", Some(calls(3)), FinishReason::ToolUse));
    assert!(matches!(&actions[0], Action::ToolUse(tc) if tc.len() == 3));
    let strict = Agent::new(AgentConfig { max_turns: 50, max_tools_per_turn: 2 });
    let actions = strict.parse_actions(&response("", Some(calls(4)), FinishReason::ToolUse));
    assert!(matches!(&actions[0], Action::ToolUse(tc) if tc.len() == 2 && tc[1].id == "1"));
}

#[test]
fn end_turn_counts_one_turn() {
    let mut agent = Agent::new(AgentConfig { max_turns: 2, max_tools_per_turn: 5 });
    let r = response("", None, FinishReason::ToolUse);
    assert!(!agent.should_stop(&r));
    agent.end_turn();
    assert_eq!(agent.turn_count, 1);
    agent.end_turn();
    assert!(agent.should_stop(&r));
}
