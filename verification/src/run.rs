//! One agent run as a state machine. Each step takes what the outside world
//! produced (a model response, the user's answer, a tool's result) and
//! decides what happens next; the caller performs the model calls, the tool
//! calls and the questions to the user.

use vstd::prelude::*;
use vstd::string::*;
use crate::agent::{actions_of, stops, tool_message, Agent};
use crate::feedback::{feedback_outcome, FeedbackValidator, ValidationFeedback};
use crate::guard::GuardrailAction;
use crate::session::{
    answer_call, blocked_result, counts_as_failure, fix_request, fix_round_after, fix_round_message,
    marks_failure, next_fix_round, tool_error_result, CallOutcome,
};
use crate::types::{Action, CompletionResponse, Message, Role, ToolResult};

verus! {

/// What to do with one tool call.
pub enum CallPlan {
    /// Run the call.
    Run,
    /// Put the call to the user, with the guardrail's reason.
    Ask { reason: String },
    /// Do not run the call; answer it with the guardrail's reason.
    Refuse { reason: String },
}

/// The plan for a call once the user's answer, if any, is in.
pub open spec fn settles(reason: String, answer: Option<bool>, plan: CallPlan) -> bool {
    match answer {
        None => plan == CallPlan::Ask { reason },
        Some(yes) => if yes {
            plan is Run
        } else {
            plan == CallPlan::Refuse { reason }
        },
    }
}

/// `plan` is what to do with a call on which the guardrail decided
/// `decision`, given the user's `answer` so far: an allowed call runs; any
/// other call is put to the user, then runs if the user approved and is
/// refused otherwise.
pub open spec fn plans(decision: GuardrailAction, answer: Option<bool>, plan: CallPlan) -> bool {
    match decision {
        GuardrailAction::Allow => plan is Run,
        GuardrailAction::Block { reason } => settles(reason, answer, plan),
        GuardrailAction::RequireApproval { reason } => settles(reason, answer, plan),
    }
}

/// What to do with a call, given the guardrail's decision and the user's
/// answer (`None` before the user was asked).
pub fn plan_call(decision: &GuardrailAction, answer: Option<bool>) -> (r: CallPlan)
    ensures
        plans(*decision, answer, r),
{
    let reason = match decision {
        GuardrailAction::Allow => return CallPlan::Run,
        GuardrailAction::Block { reason } => reason,
        GuardrailAction::RequireApproval { reason } => reason,
    };
    match answer {
        None => CallPlan::Ask { reason: reason.clone() },
        Some(yes) => if yes {
            CallPlan::Run
        } else {
            CallPlan::Refuse { reason: reason.clone() }
        },
    }
}

/// What follows a model response.
pub enum LoopStep {
    /// The run is over; `content` is the model's last text.
    Stop { content: String },
    /// Carry out these actions, then end the turn.
    Act { actions: Vec<Action> },
}

/// The state of a run between steps: the agent, the fix rounds used and
/// allowed, and whether the current turn had a failure.
pub struct LoopState {
    pub agent: Agent,
    pub max_fix_rounds: usize,
    pub fix_rounds_used: usize,
    pub had_failure: bool,
}

/// The tool result that answers the call `call_id` with `result`.
pub open spec fn answered(result: ToolResult, call_id: String) -> ToolResult {
    ToolResult { tool_call_id: call_id, content: result.content, is_error: result.is_error }
}

/// `conversation` is `before` with one tool message for `call_id` whose text
/// is `content`.
pub open spec fn tool_note_added(
    before: Seq<Message>,
    conversation: Seq<Message>,
    call_id: String,
    content: Seq<char>,
) -> bool {
    &&& conversation.len() == before.len() + 1
    &&& conversation.take(before.len() as int) == before
    &&& conversation.last().role == Role::Tool
    &&& conversation.last().content@ == content
    &&& conversation.last().tool_calls is None
    &&& conversation.last().tool_call_id == Some(call_id)
}

impl LoopState {
    /// A run of `agent` that allows `max_fix_rounds` fix rounds.
    pub fn new(agent: Agent, max_fix_rounds: usize) -> (r: Self)
        ensures
            r.agent == agent,
            r.max_fix_rounds == max_fix_rounds,
            r.fix_rounds_used == 0,
            !r.had_failure,
    {
        LoopState { agent, max_fix_rounds, fix_rounds_used: 0, had_failure: false }
    }

    /// Takes a model response: the run stops when the model finished or the
    /// turn limit is reached; otherwise the response joins the conversation,
    /// a new turn starts, and its actions are handed out.
    pub fn on_response(&mut self, response: CompletionResponse) -> (r: LoopStep)
        ensures
            (r is Stop) == stops(old(self).agent.config, old(self).agent.turn_count as int, response),
            r matches LoopStep::Stop { content } ==> content == response.message.content
                && *final(self) == *old(self),
            r matches LoopStep::Act { actions } ==> {
                &&& actions_of(old(self).agent.config, response, actions@)
                &&& final(self).agent.conversation@ == old(self).agent.conversation@.push(
                    response.message,
                )
                &&& final(self).agent.config == old(self).agent.config
                &&& final(self).agent.turn_count == old(self).agent.turn_count
                &&& final(self).max_fix_rounds == old(self).max_fix_rounds
                &&& final(self).fix_rounds_used == old(self).fix_rounds_used
                &&& !final(self).had_failure
            },
    {
        if self.agent.should_stop(&response) {
            return LoopStep::Stop { content: response.message.content };
        }
        let actions = self.agent.parse_actions(&response);
        self.agent.add_assistant_message(response.message);
        self.had_failure = false;
        LoopStep::Act { actions }
    }

    /// Records a call that was refused: its answer names the reason, and
    /// the turn counts as having a failure.
    pub fn refuse_call(&mut self, call_id: &String, reason: &str)
        ensures
            tool_note_added(
                old(self).agent.conversation@,
                final(self).agent.conversation@,
                *call_id,
                "BLOCKED by guardrail: "@ + reason@,
            ),
            final(self).agent.config == old(self).agent.config,
            final(self).agent.turn_count == old(self).agent.turn_count,
            final(self).max_fix_rounds == old(self).max_fix_rounds,
            final(self).fix_rounds_used == old(self).fix_rounds_used,
            final(self).had_failure == (old(self).had_failure || counts_as_failure(
                true,
                CallOutcome::Denied,
            )),
    {
        let result = blocked_result(call_id, reason);
        self.agent.add_tool_result(result);
        self.had_failure = self.had_failure || marks_failure(true, CallOutcome::Denied);
        assert(self.agent.conversation@.take(old(self).agent.conversation@.len() as int)
            =~= old(self).agent.conversation@);
    }

    /// Records what came of running a call: the tool's result, or the error
    /// that kept it from running. A result joins the conversation as the
    /// call's answer and is judged by the validators; the turn has a failure
    /// when the call needed approval and did not run successfully.
    pub fn record_result(
        &mut self,
        call_id: &String,
        needed_approval: bool,
        result: Result<ToolResult, String>,
        feedback: &FeedbackValidator,
    ) -> (r: Option<ValidationFeedback>)
        ensures
            final(self).agent.config == old(self).agent.config,
            final(self).agent.turn_count == old(self).agent.turn_count,
            final(self).max_fix_rounds == old(self).max_fix_rounds,
            final(self).fix_rounds_used == old(self).fix_rounds_used,
            match result {
                Ok(res) => {
                    let a = answered(res, *call_id);
                    &&& final(self).agent.conversation@ == old(self).agent.conversation@.push(
                        tool_message(a),
                    )
                    &&& r matches Some(fb) && fb@ == feedback_outcome(a)
                    &&& final(self).had_failure == (old(self).had_failure || counts_as_failure(
                        needed_approval,
                        CallOutcome::Ran { success: feedback_outcome(a).is_success },
                    ))
                },
                Err(e) => {
                    &&& tool_note_added(
                        old(self).agent.conversation@,
                        final(self).agent.conversation@,
                        *call_id,
                        "Tool error: "@ + e@,
                    )
                    &&& r is None
                    &&& final(self).had_failure == (old(self).had_failure || counts_as_failure(
                        needed_approval,
                        CallOutcome::Failed,
                    ))
                },
            },
    {
        match result {
            Ok(res) => {
                let a = answer_call(res, call_id);
                let fb = feedback.validate(&a);
                let outcome = CallOutcome::Ran { success: fb.is_success };
                self.agent.add_tool_result(a);
                self.had_failure = self.had_failure || marks_failure(needed_approval, outcome);
                Some(fb)
            },
            Err(e) => {
                let t = tool_error_result(call_id, e.as_str());
                self.agent.add_tool_result(t);
                self.had_failure = self.had_failure || marks_failure(
                    needed_approval,
                    CallOutcome::Failed,
                );
                assert(self.agent.conversation@.take(old(self).agent.conversation@.len() as int)
                    =~= old(self).agent.conversation@);
                None
            },
        }
    }

    /// Ends the turn: counts it, and when it had a failure and fix rounds
    /// are left, starts the next fix round with a message that asks the
    /// model to fix the failures. Returns that round's number.
    pub fn end_of_turn(&mut self) -> (r: Option<usize>)
        requires
            old(self).agent.turn_count < usize::MAX,
        ensures
            r == fix_round_after(
                old(self).had_failure,
                old(self).fix_rounds_used,
                old(self).max_fix_rounds,
            ),
            final(self).agent.turn_count == old(self).agent.turn_count + 1,
            final(self).agent.config == old(self).agent.config,
            final(self).max_fix_rounds == old(self).max_fix_rounds,
            !final(self).had_failure,
            match r {
                Some(n) => {
                    &&& final(self).fix_rounds_used == n
                    &&& final(self).agent.conversation@.len() == old(
                        self,
                    ).agent.conversation@.len() + 1
                    &&& final(self).agent.conversation@.take(
                        old(self).agent.conversation@.len() as int,
                    ) == old(self).agent.conversation@
                    &&& final(self).agent.conversation@.last().role == Role::System
                    &&& final(self).agent.conversation@.last().content@ == fix_request(
                        n,
                        old(self).max_fix_rounds,
                    )
                },
                None => {
                    &&& final(self).fix_rounds_used == old(self).fix_rounds_used
                    &&& final(self).agent.conversation@ == old(self).agent.conversation@
                },
            },
    {
        self.agent.end_turn();
        let r = next_fix_round(self.had_failure, self.fix_rounds_used, self.max_fix_rounds);
        if let Some(round) = r {
            self.fix_rounds_used = round;
            let m = fix_round_message(round, self.max_fix_rounds);
            let ghost before = self.agent.conversation@;
            self.agent.add_assistant_message(m);
            assert(self.agent.conversation@.take(before.len() as int) =~= before);
        }
        self.had_failure = false;
        r
    }
}

/// A call runs exactly when the guardrail allowed it or the user approved
/// it, and the user is asked exactly about the calls the guardrail did not
/// allow.
pub proof fn law_call_runs_iff_allowed_or_approved(
    decision: GuardrailAction,
    answer: bool,
    before: CallPlan,
    after: CallPlan,
)
    requires
        plans(decision, None, before),
        plans(decision, Some(answer), after),
    ensures
        (before is Ask) <==> (decision !is Allow),
        (after is Run) <==> (decision is Allow || answer),
        (after is Refuse) <==> (decision !is Allow && !answer),
{
}

/// A turn that goes on after a response leaves the turn count within the
/// limit once it ends: the run never counts more than `max_turns` turns.
pub proof fn law_turns_stay_within_limit(state: LoopState, response: CompletionResponse)
    requires
        !stops(state.agent.config, state.agent.turn_count as int, response),
    ensures
        state.agent.turn_count < state.agent.config.max_turns,
        state.agent.turn_count + 1 <= state.agent.config.max_turns,
{
}

} // verus!
