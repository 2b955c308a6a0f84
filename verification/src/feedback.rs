//! Feedback: the verdict of the first validator that recognises a tool's
//! output, or a plain verdict from the tool's own error flag.

use vstd::prelude::*;
use vstd::string::*;
use crate::types::ToolResult;
use crate::validators::{
    compile_outcome, lint_outcome, test_outcome, CompileErrorValidator, LintResultValidator,
    TestResultValidator,
};

verus! {

/// The kind of problem a verdict reports.
#[derive(Debug, Clone, Copy, PartialEq, Eq, Structural)]
pub enum FailureCategory {
    CompileError,
    TestFailure,
    LintWarning,
    RuntimeError,
}

/// A verdict on a tool's output.
#[derive(Debug, Clone)]
pub struct ValidationFeedback {
    pub is_success: bool,
    pub category: FailureCategory,
    pub summary: String,
    pub details: String,
}

/// A verdict with its texts as characters.
pub struct FeedbackSpec {
    pub is_success: bool,
    pub category: FailureCategory,
    pub summary: Seq<char>,
    pub details: Seq<char>,
}

impl View for ValidationFeedback {
    type V = FeedbackSpec;

    open spec fn view(&self) -> FeedbackSpec {
        FeedbackSpec {
            is_success: self.is_success,
            category: self.category,
            summary: self.summary@,
            details: self.details@,
        }
    }
}

pub open spec fn opt_feedback(o: Option<ValidationFeedback>) -> Option<FeedbackSpec> {
    match o {
        Some(f) => Some(f@),
        None => None,
    }
}

/// A check that may recognise a tool's output and judge it.
pub trait ValidationRule {
    /// Whether the rule is known to follow `rule_name` and `outcome`. The
    /// validators of this crate do; a rule written outside verified code
    /// keeps this default, and nothing is claimed of what its methods
    /// return.
    closed spec fn obeys_rule_spec(&self) -> bool {
        false
    }

    /// The name that `name` returns, for a rule that obeys its spec.
    closed spec fn rule_name(&self) -> Seq<char> {
        arbitrary()
    }

    /// The verdict on `result`, when the rule recognises it, for a rule that
    /// obeys its spec.
    closed spec fn outcome(&self, result: ToolResult) -> Option<FeedbackSpec> {
        arbitrary()
    }

    fn name(&self) -> (r: &str)
        ensures
            self.obeys_rule_spec() ==> r@ == self.rule_name(),
    ;

    fn validate(&self, result: &ToolResult) -> (r: Option<ValidationFeedback>)
        ensures
            self.obeys_rule_spec() ==> opt_feedback(r) == self.outcome(*result),
    ;
}

/// The verdict when no validator recognises the output: success exactly
/// when the tool reported no error, with the output as details.
pub open spec fn fallback_outcome(result: ToolResult) -> FeedbackSpec {
    FeedbackSpec {
        is_success: !result.is_error,
        category: FailureCategory::RuntimeError,
        summary: "No specific validation matched"@,
        details: result.content@,
    }
}

/// The verdict of the built-in validators, tried in the order: test results,
/// compiler errors, lint warnings.
pub open spec fn feedback_outcome(result: ToolResult) -> FeedbackSpec {
    match test_outcome(result.content@) {
        Some(f) => f,
        None => match compile_outcome(result.content@) {
            Some(f) => f,
            None => match lint_outcome(result.content@) {
                Some(f) => f,
                None => fallback_outcome(result),
            },
        },
    }
}

/// Runs the built-in validators on tool output.
pub struct FeedbackValidator;

impl FeedbackValidator {
    /// The test, compiler and lint validators.
    pub fn new_default() -> (r: Self) {
        FeedbackValidator
    }

    /// The verdict of the first validator that recognises `result`.
    pub fn validate(&self, result: &ToolResult) -> (r: ValidationFeedback)
        ensures
            r@ == feedback_outcome(*result),
    {
        if let Some(f) = TestResultValidator.validate(result) {
            return f;
        }
        if let Some(f) = CompileErrorValidator.validate(result) {
            return f;
        }
        if let Some(f) = LintResultValidator.validate(result) {
            return f;
        }
        ValidationFeedback {
            is_success: !result.is_error,
            category: FailureCategory::RuntimeError,
            summary: String::from_str("No specific validation matched"),
            details: result.content.clone(),
        }
    }
}

} // verus!

verus! {

/// When no validator recognises the output, the tool's own error flag
/// decides the verdict.
pub proof fn law_unrecognised_output_follows_error_flag(result: ToolResult)
    requires
        test_outcome(result.content@) is None,
        compile_outcome(result.content@) is None,
        lint_outcome(result.content@) is None,
    ensures
        feedback_outcome(result).is_success == !result.is_error,
        feedback_outcome(result).category == FailureCategory::RuntimeError,
{
}

/// The validators take turns: a test summary decides first, then a
/// compiler error, then lint warnings.
pub proof fn law_first_recognising_validator_decides(result: ToolResult)
    ensures
        test_outcome(result.content@) matches Some(f) ==> feedback_outcome(result) == f,
        test_outcome(result.content@) is None ==> (compile_outcome(result.content@) matches Some(f)
            ==> feedback_outcome(result) == f),
        test_outcome(result.content@) is None && compile_outcome(result.content@) is None ==> (
        lint_outcome(result.content@) matches Some(f) ==> feedback_outcome(result) == f),
{
}

} // verus!
