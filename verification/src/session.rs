//! The decisions of the agent loop between model calls: what a guardrail
//! decision asks of the user, what a tool call leaves in the conversation,
//! which calls count as failures, when a fix round follows, and how memory
//! enters the conversation.

use vstd::prelude::*;
use vstd::string::*;
use crate::agent::Agent;
use crate::guard::GuardrailAction;
use crate::text::{chars_eq, chars_of, decimal, decimal_chars, string_of};
use crate::types::{Message, Role, ToolResult};

verus! {

/// The reason to put to the user before running a call: a blocked call and
/// one that requires approval both need an answer; an allowed call does not.
pub fn approval_reason(decision: &GuardrailAction) -> (r: Option<&String>)
    ensures
        match *decision {
            GuardrailAction::Allow => r is None,
            GuardrailAction::Block { reason } => r == Some(&reason),
            GuardrailAction::RequireApproval { reason } => r == Some(&reason),
        },
{
    match decision {
        GuardrailAction::Allow => None,
        GuardrailAction::Block { reason } => Some(reason),
        GuardrailAction::RequireApproval { reason } => Some(reason),
    }
}

/// How a tool call ended.
#[derive(Clone, Copy, Debug, PartialEq, Eq, Structural)]
pub enum CallOutcome {
    /// The user refused to run it.
    Denied,
    /// The tool could not be run.
    Failed,
    /// The tool ran; `success` is the verdict on its output.
    Ran { success: bool },
}

/// Whether a call counts towards a fix round: only calls that needed
/// approval count, and then unless they ran with a successful verdict.
pub open spec fn counts_as_failure(needed_approval: bool, outcome: CallOutcome) -> bool {
    needed_approval && !(outcome matches CallOutcome::Ran { success } && success)
}

pub fn marks_failure(needed_approval: bool, outcome: CallOutcome) -> (r: bool)
    ensures
        r == counts_as_failure(needed_approval, outcome),
{
    needed_approval && !(match outcome {
        CallOutcome::Ran { success } => success,
        _ => false,
    })
}

/// A tool's result, tied to the call that asked for it.
pub fn answer_call(result: ToolResult, call_id: &String) -> (r: ToolResult)
    ensures
        r.tool_call_id == *call_id,
        r.content == result.content,
        r.is_error == result.is_error,
{
    ToolResult { tool_call_id: call_id.clone(), content: result.content, is_error: result.is_error }
}

/// The result of a call that the user refused.
pub fn blocked_result(call_id: &String, reason: &str) -> (r: ToolResult)
    ensures
        r.tool_call_id == *call_id,
        r.content@ == "BLOCKED by guardrail: "@ + reason@,
        r.is_error,
{
    let mut m = String::from_str("BLOCKED by guardrail: ");
    m.append(reason);
    ToolResult { tool_call_id: call_id.clone(), content: m, is_error: true }
}

/// The result of a call whose tool could not be run.
pub fn tool_error_result(call_id: &String, error: &str) -> (r: ToolResult)
    ensures
        r.tool_call_id == *call_id,
        r.content@ == "Tool error: "@ + error@,
        r.is_error,
{
    let mut m = String::from_str("Tool error: ");
    m.append(error);
    ToolResult { tool_call_id: call_id.clone(), content: m, is_error: true }
}

/// The fix round that follows a turn, if any: one more round when the turn
/// had a failure and rounds are left.
pub open spec fn fix_round_after(had_failure: bool, used: usize, max: usize) -> Option<usize> {
    if had_failure && used < max {
        Some((used + 1) as usize)
    } else {
        None
    }
}

pub fn next_fix_round(had_failure: bool, used: usize, max: usize) -> (r: Option<usize>)
    ensures
        r == fix_round_after(had_failure, used, max),
{
    if had_failure && used < max {
        Some(used + 1)
    } else {
        None
    }
}

/// The text that asks the model to fix the failures of the last turn.
pub open spec fn fix_request(round: usize, max: usize) -> Seq<char> {
    "The previous tool calls had failures. Please fix the issues and try again. (Fix round "@
        + decimal(round as nat) + "/"@ + decimal(max as nat) + ")"@
}

pub fn fix_round_message(round: usize, max: usize) -> (r: Message)
    ensures
        r.role == Role::System,
        r.content@ == fix_request(round, max),
        r.tool_calls is None,
        r.tool_call_id is None,
{
    let mut m = String::from_str(
        "The previous tool calls had failures. Please fix the issues and try again. (Fix round ",
    );
    m.append(string_of(&decimal_chars(round as u64)).as_str());
    m.append("/");
    m.append(string_of(&decimal_chars(max as u64)).as_str());
    m.append(")");
    Message { role: Role::System, content: m, tool_calls: None, tool_call_id: None }
}

/// The text by which a remembered fact enters the conversation.
pub open spec fn memory_note(key: Seq<char>, value: Seq<char>) -> Seq<char> {
    "[Memory: "@ + key + " = "@ + value + "]"@
}

pub fn memory_message(key: &str, value: &str) -> (r: Message)
    ensures
        r.role == Role::System,
        r.content@ == memory_note(key@, value@),
        r.tool_calls is None,
        r.tool_call_id is None,
{
    let mut m = String::from_str("[Memory: ");
    m.append(key);
    m.append(" = ");
    m.append(value);
    m.append("]");
    Message { role: Role::System, content: m, tool_calls: None, tool_call_id: None }
}

/// Whether some message of the conversation has exactly this text.
pub open spec fn mentions(conversation: Seq<Message>, content: Seq<char>) -> bool {
    exists|i: int| 0 <= i < conversation.len() && #[trigger] conversation[i].content@ == content
}

/// Appends `msg` unless a message with the same text is already there.
pub fn add_once(agent: &mut Agent, msg: Message) -> (added: bool)
    ensures
        final(agent).config == old(agent).config,
        final(agent).turn_count == old(agent).turn_count,
        added == !mentions(old(agent).conversation@, msg.content@),
        added ==> final(agent).conversation@ == old(agent).conversation@.push(msg),
        !added ==> final(agent).conversation@ == old(agent).conversation@,
{
    let text = chars_of(msg.content.as_str());
    let mut i: usize = 0;
    while i < agent.conversation.len()
        invariant
            i <= agent.conversation@.len(),
            text@ == msg.content@,
            forall|j: int| 0 <= j < i ==> #[trigger] agent.conversation@[j].content@ != msg.content@,
        decreases agent.conversation@.len() - i,
    {
        let other = chars_of(agent.conversation[i].content.as_str());
        if chars_eq(&other, &text) {
            return false;
        }
        i += 1;
    }
    agent.conversation.push(msg);
    true
}

/// The number of fix rounds never passes the maximum.
pub proof fn law_fix_rounds_bounded(had_failure: bool, used: usize, max: usize)
    requires
        used <= max,
    ensures
        match fix_round_after(had_failure, used, max) {
            Some(n) => n <= max && n == used + 1,
            None => true,
        },
{
}

/// A call the guardrail allowed never counts as a failure, and a call the
/// user refused always does.
pub proof fn law_failures_need_approval(outcome: CallOutcome)
    ensures
        !counts_as_failure(false, outcome),
        counts_as_failure(true, CallOutcome::Denied),
        counts_as_failure(true, CallOutcome::Failed),
{
}

/// A turn with a failure while fix rounds are left always starts the next
/// round, numbered one past those used; a turn without a failure, or with
/// every round used, starts none.
pub proof fn law_failed_turn_starts_next_round(had_failure: bool, used: usize, max: usize)
    ensures
        had_failure && used < max ==> (fix_round_after(had_failure, used, max) matches Some(n)
            && n == used + 1),
        !had_failure || used >= max ==> fix_round_after(had_failure, used, max) is None,
{
}


/// A call counts as a failure exactly when it needed approval and did not
/// run to a successful verdict.
pub proof fn law_failure_iff_approved_call_failed(needed_approval: bool, outcome: CallOutcome)
    ensures
        counts_as_failure(needed_approval, outcome) <==> (needed_approval && outcome
            != CallOutcome::Ran { success: true }),
{
}

} // verus!
