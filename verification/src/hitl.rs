//! Human-in-the-loop confirmation: which guardrail decisions need a person's
//! answer, and how an answer is read.

use vstd::prelude::*;
use crate::guard::GuardrailAction;
use crate::text::{chars_of, eq_ignore_ascii_case_chars, eq_ignore_ascii_case_spec, trim_chars, trim_spec};

verus! {

/// A confirmer that gives the same answer to every question.
pub struct MockHitlConfirmer {
    approve: bool,
}

impl MockHitlConfirmer {
    pub closed spec fn approves(&self) -> bool {
        self.approve
    }

    pub fn new(approve: bool) -> (r: Self)
        ensures
            r.approves() == approve,
    {
        MockHitlConfirmer { approve }
    }

    /// The answer to a question about `action`: always the preset one.
    pub fn decide(&self, action: &GuardrailAction) -> (r: bool)
        ensures
            r == self.approves(),
    {
        self.approve
    }
}

/// A confirmer that asks on the terminal.
pub struct StdioHitlConfirmer;

/// An answer approves when, without surrounding whitespace, it is `y` or `Y`.
pub open spec fn approving_answer(answer: Seq<char>) -> bool {
    eq_ignore_ascii_case_spec(trim_spec(answer), "y"@)
}

impl StdioHitlConfirmer {
    /// The reason to put to the user: a blocked action and one that requires
    /// approval are both asked about; an allowed action needs no answer.
    pub fn question(action: &GuardrailAction) -> (r: Option<&String>)
        ensures
            match *action {
                GuardrailAction::Block { reason } => r == Some(&reason),
                GuardrailAction::RequireApproval { reason } => r == Some(&reason),
                GuardrailAction::Allow => r is None,
            },
    {
        match action {
            GuardrailAction::Block { reason } => Some(reason),
            GuardrailAction::RequireApproval { reason } => Some(reason),
            GuardrailAction::Allow => None,
        }
    }

    /// Whether the user's answer approves the action.
    pub fn approves(answer: &str) -> (r: bool)
        ensures
            r == approving_answer(answer@),
    {
        let a = chars_of(answer);
        let t = trim_chars(&a);
        let y = chars_of("y");
        eq_ignore_ascii_case_chars(&t, &y)
    }
}

} // verus!

verus! {

proof fn lemma_lower_y(c: char)
    requires
        crate::text::ascii_lower(c) == crate::text::ascii_lower('y'),
    ensures
        c == 'y' || c == 'Y',
{
    if 'A' <= c && c <= 'Z' {
        let b = c as u8;
        assert(b as int == c as int);
        let l = ((b + 32) as u8);
        assert(l as int == c as int + 32);
        assert((l as char) as int == l as int);
    }
}

/// An answer approves exactly when, trimmed, it is `y` or `Y`.
pub proof fn law_approval_is_y(answer: Seq<char>)
    ensures
        approving_answer(answer) <==> (trim_spec(answer) == "y"@ || trim_spec(answer) == "Y"@),
{
    reveal_strlit("y");
    reveal_strlit("Y");
    let t = trim_spec(answer);
    if approving_answer(answer) {
        assert(t.len() == 1);
        assert(crate::text::ascii_lower(t[0]) == crate::text::ascii_lower('y'));
        lemma_lower_y(t[0]);
        if t[0] == 'y' {
            assert(t =~= "y"@);
        } else {
            assert(t =~= "Y"@);
        }
    }
}

} // verus!
