//! The agent's conversation state and its stopping and dispatch decisions.

use vstd::prelude::*;
use crate::types::{first_calls, Action, CompletionResponse, FinishReason, Message, Role, ToolResult};

verus! {

/// Limits of one agent run.
pub struct AgentConfig {
    pub max_turns: usize,
    pub max_tools_per_turn: usize,
}

impl Default for AgentConfig {
    fn default() -> (r: Self)
        ensures
            r.max_turns == 50,
            r.max_tools_per_turn == 5,
    {
        AgentConfig { max_turns: 50, max_tools_per_turn: 5 }
    }
}

/// The state of an agent run: its limits, the conversation so far and the
/// number of turns taken.
pub struct Agent {
    pub config: AgentConfig,
    pub conversation: Vec<Message>,
    pub turn_count: usize,
}

/// The message that a tool result becomes in the conversation.
pub open spec fn tool_message(result: ToolResult) -> Message {
    Message {
        role: Role::Tool,
        content: result.content,
        tool_calls: None,
        tool_call_id: Some(result.tool_call_id),
    }
}

/// Whether a run stops after `response`, having taken `turns` turns.
pub open spec fn stops(config: AgentConfig, turns: int, response: CompletionResponse) -> bool {
    response.finish_reason == FinishReason::Stop || turns >= config.max_turns
}

/// Whether the response carries at least one tool call.
pub open spec fn has_tool_calls(response: CompletionResponse) -> bool {
    response.message.tool_calls matches Some(calls) && calls@.len() > 0
}

/// The number of calls one turn runs out of `n` asked for: at most
/// `max_tools_per_turn`.
pub open spec fn turn_share(config: AgentConfig, n: nat) -> int {
    if config.max_tools_per_turn < n {
        config.max_tools_per_turn as int
    } else {
        n as int
    }
}

/// `actions` is what `response` asks for under `config`: one action, which
/// runs the response's first tool calls, as many as one turn allows, when it
/// has any, and otherwise continues.
pub open spec fn actions_of(config: AgentConfig, response: CompletionResponse, actions: Seq<Action>) -> bool {
    &&& actions.len() == 1
    &&& if has_tool_calls(response) {
        let asked = response.message.tool_calls->0@;
        actions[0] matches Action::ToolUse(calls) && calls@ == asked.take(
            turn_share(config, asked.len()),
        )
    } else {
        actions[0] is Continue
    }
}

impl Agent {
    /// A fresh run with an empty conversation.
    pub fn new(config: AgentConfig) -> (r: Self)
        ensures
            r.config == config,
            r.conversation@ == Seq::<Message>::empty(),
            r.turn_count == 0,
    {
        Agent { config, conversation: Vec::new(), turn_count: 0 }
    }

    /// Appends a message of the user.
    pub fn add_user_message(&mut self, content: &str)
        ensures
            final(self).config == old(self).config,
            final(self).turn_count == old(self).turn_count,
            final(self).conversation@.len() == old(self).conversation@.len() + 1,
            final(self).conversation@.take(old(self).conversation@.len() as int)
                == old(self).conversation@,
            final(self).conversation@.last().role == Role::User,
            final(self).conversation@.last().content@ == content@,
            final(self).conversation@.last().tool_calls is None,
            final(self).conversation@.last().tool_call_id is None,
    {
        let msg = Message {
            role: Role::User,
            content: String::from_str(content),
            tool_calls: None,
            tool_call_id: None,
        };
        self.conversation.push(msg);
        assert(self.conversation@.take(old(self).conversation@.len() as int) =~= old(self).conversation@);
    }

    /// Appends an answer of the model.
    pub fn add_assistant_message(&mut self, msg: Message)
        ensures
            final(self).config == old(self).config,
            final(self).turn_count == old(self).turn_count,
            final(self).conversation@ == old(self).conversation@.push(msg),
    {
        self.conversation.push(msg);
    }

    /// Appends the result of a tool as a tool message.
    pub fn add_tool_result(&mut self, result: ToolResult)
        ensures
            final(self).config == old(self).config,
            final(self).turn_count == old(self).turn_count,
            final(self).conversation@ == old(self).conversation@.push(tool_message(result)),
    {
        self.conversation.push(Message {
            role: Role::Tool,
            content: result.content,
            tool_calls: None,
            tool_call_id: Some(result.tool_call_id),
        });
    }

    /// Whether the run ends after `response`: the model finished, or the
    /// turn limit is reached.
    pub fn should_stop(&self, response: &CompletionResponse) -> (r: bool)
        ensures
            r == stops(self.config, self.turn_count as int, *response),
    {
        response.finish_reason == FinishReason::Stop || self.turn_count >= self.config.max_turns
    }

    /// Counts a finished turn.
    pub fn end_turn(&mut self)
        requires
            old(self).turn_count < usize::MAX,
        ensures
            final(self).config == old(self).config,
            final(self).conversation@ == old(self).conversation@,
            final(self).turn_count == old(self).turn_count + 1,
    {
        self.turn_count = self.turn_count + 1;
    }

    /// The actions that `response` asks for; a turn runs at most
    /// `max_tools_per_turn` of its tool calls, the first ones.
    pub fn parse_actions(&self, response: &CompletionResponse) -> (r: Vec<Action>)
        ensures
            actions_of(self.config, *response, r@),
    {
        if let Some(ref tool_calls) = response.message.tool_calls {
            if !tool_calls.is_empty() {
                let mut r: Vec<Action> = Vec::new();
                r.push(Action::ToolUse(first_calls(tool_calls, self.config.max_tools_per_turn)));
                return r;
            }
        }
        let mut r: Vec<Action> = Vec::new();
        r.push(Action::Continue);
        r
    }
}

/// The turns a run has completed when the model gives `responses` in turn,
/// starting after `turns` turns: each response either stops the run or
/// ends one more turn, until the responses run out.
pub open spec fn turns_completed(config: AgentConfig, turns: int, responses: Seq<CompletionResponse>) -> int
    decreases responses.len(),
{
    if responses.len() == 0 || stops(config, turns, responses[0]) {
        turns
    } else {
        turns_completed(config, turns + 1, responses.drop_first())
    }
}

proof fn lemma_turns_bounded(config: AgentConfig, turns: int, responses: Seq<CompletionResponse>)
    requires
        0 <= turns <= config.max_turns,
    ensures
        turns <= turns_completed(config, turns, responses) <= config.max_turns,
    decreases responses.len(),
{
    if responses.len() > 0 && !stops(config, turns, responses[0]) {
        lemma_turns_bounded(config, turns + 1, responses.drop_first());
    }
}

/// A run takes at most `max_turns` turns, whatever the model answers.
pub proof fn law_run_takes_at_most_max_turns(config: AgentConfig, responses: Seq<CompletionResponse>)
    ensures
        0 <= turns_completed(config, 0, responses) <= config.max_turns,
{
    lemma_turns_bounded(config, 0, responses);
}

/// A turn never runs more tool calls than the configuration allows, and it
/// runs every call asked for when there are no more than that.
pub proof fn law_calls_per_turn_capped(
    config: AgentConfig,
    response: CompletionResponse,
    actions: Seq<Action>,
)
    requires
        actions_of(config, response, actions),
    ensures
        actions[0] matches Action::ToolUse(calls) ==> calls@.len() <= config.max_tools_per_turn
            && calls@.is_prefix_of(response.message.tool_calls->0@),
        actions[0] matches Action::ToolUse(calls) ==> (response.message.tool_calls->0@.len()
            <= config.max_tools_per_turn ==> calls@ == response.message.tool_calls->0@),
{
    if let Action::ToolUse(calls) = actions[0] {
        let asked = response.message.tool_calls->0@;
        assert(calls@.is_prefix_of(asked)) by {
            assert(calls@ =~= asked.subrange(0, calls@.len() as int));
        }
        if asked.len() <= config.max_tools_per_turn {
            assert(asked.take(asked.len() as int) =~= asked);
        }
    }
}

/// Once the turn limit is reached, every response ends the run.
pub proof fn law_turn_limit_stops(config: AgentConfig, turns: int, response: CompletionResponse)
    requires
        turns >= config.max_turns,
    ensures
        stops(config, turns, response),
{
}

/// A response that finished stops the run whatever the turn count.
pub proof fn law_finish_stops(config: AgentConfig, turns: int, response: CompletionResponse)
    requires
        response.finish_reason == FinishReason::Stop,
    ensures
        stops(config, turns, response),
{
}


/// A response that did not finish keeps the run going while turns are
/// left.
pub proof fn law_unfinished_response_continues(
    config: AgentConfig,
    turns: int,
    response: CompletionResponse,
)
    requires
        response.finish_reason != FinishReason::Stop,
        turns < config.max_turns,
    ensures
        !stops(config, turns, response),
{
}

} // verus!
