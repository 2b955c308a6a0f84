use coding_agent_harness::feedback::{FailureCategory, FeedbackValidator, ValidationRule};
use coding_agent_harness::types::ToolResult;
use coding_agent_harness::validators::{
    compile_feedback, lint_feedback, test_feedback, CompileErrorValidator, LintResultValidator,
    TestResultValidator,
};

fn result(content: &str, is_error: bool) -> ToolResult {
    ToolResult { tool_call_id: "1".into(), content: content.into(), is_error }
}

#[test]
fn test_result_validator_detects_failure() {
    let v = TestResultValidator;
    let result = ToolResult { tool_call_id: "1".into(), content: "test result: 2 failed, 0 passed".into(), is_error: true };
    let feedback = v.validate(&result).unwrap();
    assert!(!feedback.is_success);
}

#[test]
fn test_result_validator_detects_success() {
    let v = TestResultValidator;
    let result = ToolResult { tool_call_id: "1".into(), content: "test result: 0 failed, 5 passed".into(), is_error: false };
    let feedback = v.validate(&result).unwrap();
    assert!(feedback.is_success);
}

#[test]
fn compile_error_validator_detects_error() {
    let v = CompileErrorValidator;
    let result = ToolResult { tool_call_id: "1".into(), content: "error[E0308]: mismatched types\n --> src/main.rs:5:12".into(), is_error: true };
    let feedback = v.validate(&result).unwrap();
    assert!(!feedback.is_success);
}

#[test]
fn lint_result_validator_detects_warnings() {
    let v = LintResultValidator;
    let result = ToolResult { tool_call_id: "1".into(), content: "warning: unused variable `x`\n --> src/main.rs:3:9".into(), is_error: false };
    let feedback = v.validate(&result).unwrap();
    assert!(!feedback.is_success);
}

#[test]
fn test_failure_summary_and_details() {
    let out = "running 3 tests\ntest a ... FAILED\ntest b ... ok\r\nfailures:\n    a\ntest result: FAILED. 1 passed; 2 failed";
    let f = TestResultValidator.validate(&result(out, true)).unwrap();
    assert!(!f.is_success);
    assert_eq!(f.category, FailureCategory::TestFailure);
    assert_eq!(f.summary, "2 tests failed, 1 passed");
    assert_eq!(f.details, "test a ... FAILED\nfailures:\ntest result: FAILED. 1 passed; 2 failed");
}

#[test]
fn test_success_summary() {
    let f = TestResultValidator.validate(&result("test result: 0 failed, 12 passed", false)).unwrap();
    assert!(f.is_success);
    assert_eq!(f.summary, "All 12 tests passed");
    assert_eq!(f.details, "");
}

#[test]
fn test_validator_ignores_output_without_failed_count() {
    assert!(TestResultValidator.validate(&result("5 passed", false)).is_none());
    assert!(TestResultValidator.validate(&result("nothing to see", false)).is_none());
}

#[test]
fn test_feedback_from_captures() {
    assert!(test_feedback(None, Some("3".into()), "x").is_none());
    assert!(test_feedback(Some("99999999999999999999999".into()), None, "x").is_none());
    let f = test_feedback(Some("0".into()), None, "x").unwrap();
    assert_eq!(f.summary, "All 0 tests passed");
    let f = test_feedback(Some("+7".into()), Some("x".into()), "a FAILED\nb").unwrap();
    assert_eq!(f.summary, "7 tests failed, 0 passed");
    assert_eq!(f.details, "a FAILED");
}

#[test]
fn compile_summary_from_error_code() {
    let f = CompileErrorValidator
        .validate(&result("error[E0308]: mismatched types\n --> src/main.rs:5:12\nnote: x", true))
        .unwrap();
    assert_eq!(f.category, FailureCategory::CompileError);
    assert_eq!(f.summary, "mismatched types");
    assert_eq!(f.details, "error[E0308]: mismatched types\n --> src/main.rs:5:12");
}

#[test]
fn compile_summary_without_code() {
    let f = CompileErrorValidator.validate(&result("error: linking failed", true)).unwrap();
    assert_eq!(f.summary, "Compilation error");
    assert!(CompileErrorValidator.validate(&result("all good", false)).is_none());
    assert!(compile_feedback(Some("m".into()), "fine").is_none());
    assert_eq!(compile_feedback(Some("m".into()), "error: x").unwrap().summary, "m");
}

#[test]
fn compile_details_keep_ten_lines() {
    let out = "error: a\n".repeat(12);
    let f = CompileErrorValidator.validate(&result(&out, true)).unwrap();
    assert_eq!(f.details, vec!["error: a"; 10].join("\n"));
}

#[test]
fn lint_counts_warning_lines() {
    let out = "warning: a\nwarning: b\nok\nwarning: c\nwarning: d\nwarning: e\nwarning: f";
    let f = lint_feedback(out).unwrap();
    assert_eq!(f.category, FailureCategory::LintWarning);
    assert_eq!(f.summary, "6 lint warnings found");
    assert_eq!(f.details, "warning: a\nwarning: b\nwarning: c\nwarning: d\nwarning: e");
    assert!(lint_feedback("warning[unused]").is_none());
    assert!(lint_feedback("clean").is_none());
}

#[test]
fn validator_falls_back_to_error_flag() {
    let v = FeedbackValidator::new_default();
    let f = v.validate(&result("plain output", true));
    assert!(!f.is_success);
    assert_eq!(f.category, FailureCategory::RuntimeError);
    assert_eq!(f.summary, "No specific validation matched");
    assert_eq!(f.details, "plain output");
    assert!(v.validate(&result("plain output", false)).is_success);
}

#[test]
fn validator_prefers_test_results() {
    let v = FeedbackValidator::new_default();
    let f = v.validate(&result("error: boom\n0 failed, 3 passed", true));
    assert!(f.is_success);
    assert_eq!(f.category, FailureCategory::TestFailure);
    let f = v.validate(&result("error: boom\nwarning: w", true));
    assert_eq!(f.category, FailureCategory::CompileError);
    let f = v.validate(&result("warning: w", false));
    assert_eq!(f.category, FailureCategory::LintWarning);
}

#[test]
fn validator_names() {
    assert_eq!(TestResultValidator.name(), "test_result");
    assert_eq!(CompileErrorValidator.name(), "compile_error");
    assert_eq!(LintResultValidator.name(), "lint_result");
}
