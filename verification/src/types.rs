//! The messages, tool calls and model responses that the agent loop passes around.

use vstd::prelude::*;
use vstd::string::*;

verus! {

/// Who wrote a message of the conversation.
#[derive(Clone, Copy, Debug, PartialEq, Eq, Structural)]
pub enum Role {
    System,
    User,
    Assistant,
    Tool,
}

/// A request of the model to run one tool; `arguments` is JSON text.
#[derive(Clone, Debug)]
pub struct ToolCall {
    pub id: String,
    pub name: String,
    pub arguments: String,
}

impl ToolCall {
    /// A copy of this call.
    pub fn duplicate(&self) -> (r: ToolCall)
        ensures
            r == *self,
    {
        ToolCall { id: self.id.clone(), name: self.name.clone(), arguments: self.arguments.clone() }
    }
}

/// A copy of a list of tool calls.
pub fn duplicate_calls(calls: &Vec<ToolCall>) -> (r: Vec<ToolCall>)
    ensures
        r@ == calls@,
{
    let mut r: Vec<ToolCall> = Vec::new();
    let mut i: usize = 0;
    while i < calls.len()
        invariant
            i <= calls@.len(),
            r@ == calls@.take(i as int),
        decreases calls@.len() - i,
    {
        r.push(calls[i].duplicate());
        i += 1;
        assert(r@ =~= calls@.take(i as int));
    }
    assert(r@ =~= calls@);
    r
}

/// A copy of the first `n` tool calls of a list (all of them when it is
/// shorter).
pub fn first_calls(calls: &Vec<ToolCall>, n: usize) -> (r: Vec<ToolCall>)
    ensures
        r@ == calls@.take(if n < calls@.len() { n as int } else { calls@.len() as int }),
{
    let end: usize = if n < calls.len() { n } else { calls.len() };
    let mut r: Vec<ToolCall> = Vec::new();
    let mut i: usize = 0;
    while i < end
        invariant
            end <= calls@.len(),
            i <= end,
            r@ == calls@.take(i as int),
        decreases end - i,
    {
        r.push(calls[i].duplicate());
        i += 1;
        assert(r@ =~= calls@.take(i as int));
    }
    r
}

/// One message of the conversation.
#[derive(Clone, Debug)]
pub struct Message {
    pub role: Role,
    pub content: String,
    pub tool_calls: Option<Vec<ToolCall>>,
    pub tool_call_id: Option<String>,
}

impl Message {
    /// A copy of this message.
    pub fn duplicate(&self) -> (r: Message)
        ensures
            r.role == self.role,
            r.content == self.content,
            r.tool_call_id == self.tool_call_id,
            match (r.tool_calls, self.tool_calls) {
                (Some(a), Some(b)) => a@ == b@,
                (None, None) => true,
                _ => false,
            },
    {
        let tool_calls = match &self.tool_calls {
            Some(calls) => Some(duplicate_calls(calls)),
            None => None,
        };
        let tool_call_id = match &self.tool_call_id {
            Some(id) => Some(id.clone()),
            None => None,
        };
        Message { role: self.role, content: self.content.clone(), tool_calls, tool_call_id }
    }
}

/// The outcome of running a tool, tied to the call that asked for it.
#[derive(Clone, Debug)]
pub struct ToolResult {
    pub tool_call_id: String,
    pub content: String,
    pub is_error: bool,
}

/// Why the model stopped producing output.
#[derive(Clone, Copy, Debug, PartialEq, Eq, Structural)]
pub enum FinishReason {
    Stop,
    ToolUse,
    Length,
}

/// Token counts of one model call.
#[derive(Clone, Copy, Debug, PartialEq, Eq, Structural)]
pub struct Usage {
    pub prompt_tokens: usize,
    pub completion_tokens: usize,
    pub total_tokens: usize,
}

/// One answer of the model.
#[derive(Clone, Debug)]
pub struct CompletionResponse {
    pub message: Message,
    pub finish_reason: FinishReason,
    pub usage: Usage,
}

/// What the agent does with an answer of the model.
#[derive(Clone, Debug)]
pub enum Action {
    ToolUse(Vec<ToolCall>),
    Continue,
    Finish(String),
}

/// The label of a role in the chat format of OpenAI-compatible services.
pub open spec fn role_label_spec(role: Role) -> Seq<char> {
    match role {
        Role::System => "system"@,
        Role::User => "user"@,
        Role::Assistant => "assistant"@,
        Role::Tool => "tool"@,
    }
}

impl Role {
    pub fn label(&self) -> (r: &'static str)
        ensures
            r@ == role_label_spec(*self),
    {
        match self {
            Role::System => "system",
            Role::User => "user",
            Role::Assistant => "assistant",
            Role::Tool => "tool",
        }
    }
}

/// The finish reason that a service's label stands for: `tool_calls` is a
/// request for tools, `length` a cut-off, anything else a normal stop.
pub open spec fn finish_reason_spec(label: Seq<char>) -> FinishReason {
    if label == "tool_calls"@ {
        FinishReason::ToolUse
    } else if label == "length"@ {
        FinishReason::Length
    } else {
        FinishReason::Stop
    }
}

impl FinishReason {
    pub fn from_label(label: &str) -> (r: FinishReason)
        ensures
            r == finish_reason_spec(label@),
    {
        if crate::text::str_is(label, "tool_calls") {
            FinishReason::ToolUse
        } else if crate::text::str_is(label, "length") {
            FinishReason::Length
        } else {
            FinishReason::Stop
        }
    }
}

/// Errors of the harness.
#[derive(Clone, Debug)]
pub enum HarnessError {
    Provider(String),
    Tool(String),
    Io(String),
}

/// The text that describes an error to a person.
pub open spec fn error_text(e: HarnessError) -> Seq<char> {
    match e {
        HarnessError::Provider(m) => "Provider error: "@ + m@,
        HarnessError::Tool(m) => m@,
        HarnessError::Io(m) => "IO error: "@ + m@,
    }
}

impl HarnessError {
    pub fn describe(&self) -> (r: String)
        ensures
            r@ == error_text(*self),
    {
        match self {
            HarnessError::Provider(m) => {
                let mut r = String::from_str("Provider error: ");
                r.append(m.as_str());
                r
            },
            HarnessError::Tool(m) => m.clone(),
            HarnessError::Io(m) => {
                let mut r = String::from_str("IO error: ");
                r.append(m.as_str());
                r
            },
        }
    }
}

} // verus!
