//! The built-in validators: test summaries, compiler errors and lint warnings.

use vstd::prelude::*;
use vstd::string::*;
use crate::feedback::{opt_feedback, FailureCategory, FeedbackSpec, ValidationFeedback, ValidationRule};
use crate::json::opt_chars;
use crate::text::{
    chars_of, contains_seq, contains_str, decimal, decimal_chars, first_n, has_prefix, join_chars,
    join_with, lines_of, parse_usize, parse_usize_spec, select, split_lines, starts_with_str,
    string_of,
};
use crate::types::ToolResult;

verus! {

/// Capture group 1 of the first match of the regular expression `pattern` in
/// `text`; `None` when the pattern does not compile, does not match, or
/// matches without group 1 taking part.
pub uninterp spec fn regex_first_capture(pattern: Seq<char>, text: Seq<char>) -> Option<Seq<char>>;

/// Compiles `pattern` with `regex::Regex::new` and returns the text of group 1
/// of `Regex::captures` on `text`. The contract claims only that the outcome
/// is `regex_first_capture` of the two arguments.
#[verifier::external_body]
pub(crate) fn first_capture(pattern: &str, text: &str) -> (r: Option<String>)
    ensures
        opt_chars(r) == regex_first_capture(pattern@, text@),
{
    regex::Regex::new(pattern).ok().and_then(
        |re| re.captures(text).and_then(|c| c.get(1)).map(|m| m.as_str().to_string()),
    )
}

/// The pattern that finds the number of failed tests.
pub open spec fn failed_pattern() -> Seq<char> {
    "(\\d+) failed"@
}

/// The pattern that finds the number of passed tests.
pub open spec fn passed_pattern() -> Seq<char> {
    "(\\d+) passed"@
}

/// The pattern that finds the message of a coded compiler error.
pub open spec fn error_code_pattern() -> Seq<char> {
    "error\\[E\\d+\\]:\\s*(.+)"@
}

/// Which lines a validator reports.
#[derive(Clone, Copy, Debug, PartialEq, Eq, Structural)]
pub enum LineTest {
    /// Lines naming failed tests.
    Failure,
    /// Lines of compiler errors and their locations.
    CompileError,
    /// Lines of warnings.
    Warning,
}

pub open spec fn line_passes(test: LineTest, line: Seq<char>) -> bool {
    match test {
        LineTest::Failure => contains_seq(line, "FAILED"@) || contains_seq(line, "failures"@),
        LineTest::CompileError => has_prefix(line, "error"@) || has_prefix(line, " -->"@),
        LineTest::Warning => contains_seq(line, "warning:"@),
    }
}

/// The lines of `output` that `test` keeps, in order.
pub open spec fn kept_lines(output: Seq<char>, test: LineTest) -> Seq<Seq<char>> {
    select(lines_of(output), |l: Seq<char>| line_passes(test, l))
}

/// The number in a capture, if it parses as `usize`.
pub open spec fn count_in(capture: Option<Seq<char>>) -> Option<usize> {
    match capture {
        Some(c) => parse_usize_spec(c),
        None => None,
    }
}

/// The verdict on a test run, given the captured failed and passed counts:
/// none when no failed count parses; failure when some test failed; success
/// otherwise. A passed count that is missing or does not parse counts as 0.
pub open spec fn test_outcome_from(
    failed: Option<Seq<char>>,
    passed: Option<Seq<char>>,
    output: Seq<char>,
) -> Option<FeedbackSpec> {
    match count_in(failed) {
        None => None,
        Some(nf) => {
            let np: usize = match count_in(passed) {
                Some(v) => v,
                None => 0,
            };
            if nf > 0 {
                Some(
                    FeedbackSpec {
                        is_success: false,
                        category: FailureCategory::TestFailure,
                        summary: decimal(nf as nat) + " tests failed, "@ + decimal(np as nat)
                            + " passed"@,
                        details: join_with(kept_lines(output, LineTest::Failure), "\n"@),
                    },
                )
            } else {
                Some(
                    FeedbackSpec {
                        is_success: true,
                        category: FailureCategory::TestFailure,
                        summary: "All "@ + decimal(np as nat) + " tests passed"@,
                        details: Seq::<char>::empty(),
                    },
                )
            }
        },
    }
}

/// The verdict on a test run's output.
pub open spec fn test_outcome(output: Seq<char>) -> Option<FeedbackSpec> {
    test_outcome_from(
        regex_first_capture(failed_pattern(), output),
        regex_first_capture(passed_pattern(), output),
        output,
    )
}

/// The verdict on a compiler's output, given the captured error message:
/// a failure when the output mentions an error, none otherwise.
pub open spec fn compile_outcome_from(message: Option<Seq<char>>, output: Seq<char>) -> Option<
    FeedbackSpec,
> {
    if contains_seq(output, "error["@) || contains_seq(output, "error:"@) {
        Some(
            FeedbackSpec {
                is_success: false,
                category: FailureCategory::CompileError,
                summary: match message {
                    Some(m) => m,
                    None => "Compilation error"@,
                },
                details: join_with(first_n(kept_lines(output, LineTest::CompileError), 10), "\n"@),
            },
        )
    } else {
        None
    }
}

/// The verdict on a compiler's output.
pub open spec fn compile_outcome(output: Seq<char>) -> Option<FeedbackSpec> {
    compile_outcome_from(regex_first_capture(error_code_pattern(), output), output)
}

/// The verdict on a linter's output: a failure counting the warning lines
/// when there is one, none otherwise.
pub open spec fn lint_outcome(output: Seq<char>) -> Option<FeedbackSpec> {
    let warnings = kept_lines(output, LineTest::Warning);
    if (contains_seq(output, "warning:"@) || contains_seq(output, "warning["@)) && warnings.len()
        > 0 {
        Some(
            FeedbackSpec {
                is_success: false,
                category: FailureCategory::LintWarning,
                summary: decimal(warnings.len()) + " lint warnings found"@,
                details: join_with(first_n(warnings, 5), "\n"@),
            },
        )
    } else {
        None
    }
}

/// A copy of a character vector.
fn copy_chars(v: &Vec<char>) -> (r: Vec<char>)
    ensures
        r@ == v@,
{
    let r = v.clone();
    assert(r@ =~= v@);
    r
}

/// The lines that `test` keeps.
fn keep_lines(lines: &Vec<Vec<char>>, test: LineTest) -> (r: Vec<Vec<char>>)
    ensures
        r@.map_values(|v: Vec<char>| v@) == select(
            lines@.map_values(|v: Vec<char>| v@),
            |l: Seq<char>| line_passes(test, l),
        ),
{
    let ghost views = lines@.map_values(|v: Vec<char>| v@);
    let ghost keep = |l: Seq<char>| line_passes(test, l);
    let mut r: Vec<Vec<char>> = Vec::new();
    let mut i: usize = 0;
    while i < lines.len()
        invariant
            i <= lines@.len(),
            views == lines@.map_values(|v: Vec<char>| v@),
            keep == (|l: Seq<char>| line_passes(test, l)),
            r@.map_values(|v: Vec<char>| v@) == select(views.take(i as int), keep),
        decreases lines@.len() - i,
    {
        let line = &lines[i];
        let pass = match test {
            LineTest::Failure => contains_str(line, "FAILED") || contains_str(line, "failures"),
            LineTest::CompileError => starts_with_str(line, "error") || starts_with_str(line, " -->"),
            LineTest::Warning => contains_str(line, "warning:"),
        };
        let ghost before = r@;
        assert(views.take(i + 1).drop_last() =~= views.take(i as int));
        assert(views.take(i + 1).last() == line@);
        if pass {
            r.push(copy_chars(&lines[i]));
            assert(r@.map_values(|v: Vec<char>| v@) =~= before.map_values(|v: Vec<char>| v@).push(
                line@,
            ));
        }
        i += 1;
    }
    assert(views.take(lines@.len() as int) =~= views);
    r
}

/// The first `n` lines.
fn first_lines(lines: &Vec<Vec<char>>, n: usize) -> (r: Vec<Vec<char>>)
    ensures
        r@.map_values(|v: Vec<char>| v@) == first_n(lines@.map_values(|v: Vec<char>| v@), n as nat),
{
    let mut r: Vec<Vec<char>> = Vec::new();
    let mut i: usize = 0;
    while i < lines.len() && i < n
        invariant
            i <= lines@.len(),
            i <= n,
            r@.map_values(|v: Vec<char>| v@) == lines@.map_values(|v: Vec<char>| v@).take(i as int),
        decreases lines@.len() - i,
    {
        let ghost before = r@;
        r.push(copy_chars(&lines[i]));
        assert(r@.map_values(|v: Vec<char>| v@) =~= before.map_values(|v: Vec<char>| v@).push(
            lines@[i as int]@,
        ));
        assert(lines@.map_values(|v: Vec<char>| v@).take(i + 1) =~= lines@.map_values(
            |v: Vec<char>| v@,
        ).take(i as int).push(lines@[i as int]@));
        i += 1;
    }
    assert(lines@.map_values(|v: Vec<char>| v@).take(lines@.len() as int) =~= lines@.map_values(
        |v: Vec<char>| v@,
    ));
    r
}

/// The lines of `output`, kept by `test`, at most `limit` of them when a
/// limit is given, joined with newlines.
fn report_lines(output: &Vec<char>, test: LineTest, limit: Option<usize>) -> (r: Vec<char>)
    ensures
        r@ == join_with(
            match limit {
                Some(n) => first_n(kept_lines(output@, test), n as nat),
                None => kept_lines(output@, test),
            },
            "\n"@,
        ),
{
    let lines = split_lines(output);
    assert(lines@.map_values(|v: Vec<char>| v@) =~= lines_of(output@));
    let kept = keep_lines(&lines, test);
    match limit {
        Some(n) => {
            let few = first_lines(&kept, n);
            join_chars(&few, "\n")
        },
        None => join_chars(&kept, "\n"),
    }
}

/// The number of lines of `output` that `test` keeps.
fn count_lines(output: &Vec<char>, test: LineTest) -> (r: usize)
    ensures
        r == kept_lines(output@, test).len(),
{
    let lines = split_lines(output);
    assert(lines@.map_values(|v: Vec<char>| v@) =~= lines_of(output@));
    let kept = keep_lines(&lines, test);
    assert(kept@.map_values(|v: Vec<char>| v@).len() == kept@.len());
    kept.len()
}

/// A number in a capture, parsed as `usize`.
fn parse_count(capture: &Option<String>) -> (r: Option<usize>)
    ensures
        r == count_in(opt_chars(*capture)),
{
    match capture {
        Some(c) => {
            let cs = chars_of(c.as_str());
            parse_usize(&cs)
        },
        None => None,
    }
}

/// The verdict on a test run from the captured failed and passed counts.
pub fn test_feedback(failed: Option<String>, passed: Option<String>, output: &str) -> (r: Option<
    ValidationFeedback,
>)
    ensures
        opt_feedback(r) == test_outcome_from(opt_chars(failed), opt_chars(passed), output@),
{
    let nf = match parse_count(&failed) {
        Some(n) => n,
        None => return None,
    };
    let np: usize = match parse_count(&passed) {
        Some(n) => n,
        None => 0,
    };
    let out = chars_of(output);
    if nf > 0 {
        let mut summary = string_of(&decimal_chars(nf as u64));
        summary.append(" tests failed, ");
        summary.append(string_of(&decimal_chars(np as u64)).as_str());
        summary.append(" passed");
        let details = string_of(&report_lines(&out, LineTest::Failure, None));
        Some(
            ValidationFeedback {
                is_success: false,
                category: FailureCategory::TestFailure,
                summary,
                details,
            },
        )
    } else {
        let mut summary = String::from_str("All ");
        summary.append(string_of(&decimal_chars(np as u64)).as_str());
        summary.append(" tests passed");
        Some(
            ValidationFeedback {
                is_success: true,
                category: FailureCategory::TestFailure,
                summary,
                details: String::new(),
            },
        )
    }
}

/// The verdict on a compiler's output from the captured error message.
pub fn compile_feedback(message: Option<String>, output: &str) -> (r: Option<ValidationFeedback>)
    ensures
        opt_feedback(r) == compile_outcome_from(opt_chars(message), output@),
{
    let out = chars_of(output);
    if !(contains_str(&out, "error[") || contains_str(&out, "error:")) {
        return None;
    }
    let summary = match message {
        Some(m) => m,
        None => String::from_str("Compilation error"),
    };
    let details = string_of(&report_lines(&out, LineTest::CompileError, Some(10)));
    Some(
        ValidationFeedback {
            is_success: false,
            category: FailureCategory::CompileError,
            summary,
            details,
        },
    )
}

/// The verdict on a linter's output.
pub fn lint_feedback(output: &str) -> (r: Option<ValidationFeedback>)
    ensures
        opt_feedback(r) == lint_outcome(output@),
{
    let out = chars_of(output);
    if !(contains_str(&out, "warning:") || contains_str(&out, "warning[")) {
        return None;
    }
    let count = count_lines(&out, LineTest::Warning);
    if count == 0 {
        return None;
    }
    let mut summary = string_of(&decimal_chars(count as u64));
    summary.append(" lint warnings found");
    let details = string_of(&report_lines(&out, LineTest::Warning, Some(5)));
    Some(
        ValidationFeedback {
            is_success: false,
            category: FailureCategory::LintWarning,
            summary,
            details,
        },
    )
}

/// Reads the counts of failed and passed tests from a test run.
pub struct TestResultValidator;

impl ValidationRule for TestResultValidator {
    open spec fn obeys_rule_spec(&self) -> bool {
        true
    }

    open spec fn rule_name(&self) -> Seq<char> {
        "test_result"@
    }

    open spec fn outcome(&self, result: ToolResult) -> Option<FeedbackSpec> {
        test_outcome(result.content@)
    }

    fn name(&self) -> (r: &str) {
        "test_result"
    }

    fn validate(&self, result: &ToolResult) -> (r: Option<ValidationFeedback>) {
        let output = result.content.as_str();
        let failed = first_capture("(\\d+) failed", output);
        let passed = first_capture("(\\d+) passed", output);
        test_feedback(failed, passed, output)
    }
}

/// Recognises compiler errors.
pub struct CompileErrorValidator;

impl ValidationRule for CompileErrorValidator {
    open spec fn obeys_rule_spec(&self) -> bool {
        true
    }

    open spec fn rule_name(&self) -> Seq<char> {
        "compile_error"@
    }

    open spec fn outcome(&self, result: ToolResult) -> Option<FeedbackSpec> {
        compile_outcome(result.content@)
    }

    fn name(&self) -> (r: &str) {
        "compile_error"
    }

    fn validate(&self, result: &ToolResult) -> (r: Option<ValidationFeedback>) {
        let output = result.content.as_str();
        let message = first_capture("error\\[E\\d+\\]:\\s*(.+)", output);
        compile_feedback(message, output)
    }
}

/// Counts lint warnings.
pub struct LintResultValidator;

impl ValidationRule for LintResultValidator {
    open spec fn obeys_rule_spec(&self) -> bool {
        true
    }

    open spec fn rule_name(&self) -> Seq<char> {
        "lint_result"@
    }

    open spec fn outcome(&self, result: ToolResult) -> Option<FeedbackSpec> {
        lint_outcome(result.content@)
    }

    fn name(&self) -> (r: &str) {
        "lint_result"
    }

    fn validate(&self, result: &ToolResult) -> (r: Option<ValidationFeedback>) {
        lint_feedback(result.content.as_str())
    }
}

} // verus!

verus! {

/// A test run with a readable failed count is judged a success exactly when
/// no test failed.
pub proof fn law_test_success_iff_none_failed(
    failed: Option<Seq<char>>,
    passed: Option<Seq<char>>,
    output: Seq<char>,
)
    requires
        count_in(failed) is Some,
    ensures
        test_outcome_from(failed, passed, output) matches Some(f) && (f.is_success <==> count_in(
            failed,
        )->0 == 0),
{
}

/// Output that mentions a compiler error is judged a compile failure.
pub proof fn law_compile_errors_fail(message: Option<Seq<char>>, output: Seq<char>)
    requires
        contains_seq(output, "error:"@) || contains_seq(output, "error["@),
    ensures
        compile_outcome_from(message, output) matches Some(f) && !f.is_success && f.category
            == FailureCategory::CompileError,
{
}

/// The lint validator never judges output a success, and it counts exactly
/// the lines that hold a warning.
pub proof fn law_lint_counts_warning_lines(output: Seq<char>)
    ensures
        lint_outcome(output) matches Some(f) ==> !f.is_success && f.summary == decimal(
            kept_lines(output, LineTest::Warning).len(),
        ) + " lint warnings found"@,
{
}

/// The test validator reads whole decimal numbers: its patterns capture
/// one or more digits before ` failed` and before ` passed`, so a run that
/// reports `10 failed` is read as ten failures, not zero.
pub proof fn law_test_patterns_read_whole_numbers()
    ensures
        failed_pattern() == seq!['(', '\\', 'd', '+', ')', ' ', 'f', 'a', 'i', 'l', 'e', 'd'],
        passed_pattern() == seq!['(', '\\', 'd', '+', ')', ' ', 'p', 'a', 's', 's', 'e', 'd'],
{
    reveal_strlit("(\\d+) failed");
    reveal_strlit("(\\d+) passed");
    assert(failed_pattern() =~= seq!['(', '\\', 'd', '+', ')', ' ', 'f', 'a', 'i', 'l', 'e', 'd']);
    assert(passed_pattern() =~= seq!['(', '\\', 'd', '+', ')', ' ', 'p', 'a', 's', 's', 'e', 'd']);
}

/// The compiler validator's pattern captures the message after a coded
/// error such as `error[E0308]:`.
pub proof fn law_error_code_pattern()
    ensures
        error_code_pattern() == seq![
            'e', 'r', 'r', 'o', 'r', '\\', '[', 'E', '\\', 'd', '+', '\\', ']', ':', '\\', 's', '*',
            '(', '.', '+', ')',
        ],
{
    reveal_strlit("error\\[E\\d+\\]:\\s*(.+)");
    assert(error_code_pattern() =~= seq![
        'e', 'r', 'r', 'o', 'r', '\\', '[', 'E', '\\', 'd', '+', '\\', ']', ':', '\\', 's', '*',
        '(', '.', '+', ')',
    ]);
}


/// Output that mentions no compiler error (neither `error[` nor `error:`)
/// gets no verdict from the compiler validator.
pub proof fn law_no_error_no_compile_verdict(message: Option<Seq<char>>, output: Seq<char>)
    requires
        !contains_seq(output, "error:"@),
        !contains_seq(output, "error["@),
    ensures
        compile_outcome_from(message, output) is None,
{
}

/// Which lines each validator reports: lines naming failed tests hold
/// `FAILED` or `failures`; compiler lines start with `error` or ` -->`;
/// lint lines hold `warning:`.
pub proof fn law_reported_lines(line: Seq<char>)
    ensures
        line_passes(LineTest::Failure, line) <==> (contains_seq(line, "FAILED"@) || contains_seq(
            line,
            "failures"@,
        )),
        line_passes(LineTest::CompileError, line) <==> (has_prefix(line, "error"@) || has_prefix(
            line,
            " -->"@,
        )),
        line_passes(LineTest::Warning, line) <==> contains_seq(line, "warning:"@),
{
}

/// The lint validator judges output with a `warning:` line a failure, and
/// output without `warning:` or `warning[` not at all.
pub proof fn law_lint_needs_warnings(output: Seq<char>)
    ensures
        !contains_seq(output, "warning:"@) && !contains_seq(output, "warning["@) ==> lint_outcome(
            output,
        ) is None,
        contains_seq(output, "warning:"@) && kept_lines(output, LineTest::Warning).len() > 0 ==> (
        lint_outcome(output) matches Some(f) && !f.is_success && f.category
            == FailureCategory::LintWarning),
{
}

} // verus!
