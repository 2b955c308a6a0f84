//! Guardrails: rules that inspect a tool call before it runs, and the
//! decision that the first rule to object produces.

use vstd::prelude::*;
use crate::json::opt_chars;
use crate::json::json_string_field;
use crate::rules::{
    law_network_patterns, law_secret_patterns, dangerous_reason_spec, sudo_reason_spec, command_of, credential_verdict, dangerous_verdict, emitted_text, git_push_verdict,
    looks_like_secret, network_verdict, sudo_verdict,
    CredentialLeakRule, DangerousCommandRule, GitPushMainRule, NetworkRequestRule, SudoCommandRule,
};
use crate::text::{contains_seq, has_prefix};
use crate::types::ToolCall;

verus! {

/// What to do with a tool call.
#[derive(Debug, Clone, PartialEq, Eq)]
pub enum GuardrailAction {
    Allow,
    RequireApproval { reason: String },
    Block { reason: String },
}

/// A rule that may object to a tool call, giving a reason.
pub trait GuardrailRule {
    /// Whether the rule is known to follow `rule_name` and `verdict`. The
    /// rules of this crate do; a rule written outside verified code keeps
    /// this default, and nothing is claimed of what its methods return.
    closed spec fn obeys_rule_spec(&self) -> bool {
        false
    }

    /// The name that `name` returns, for a rule that obeys its spec.
    closed spec fn rule_name(&self) -> Seq<char> {
        arbitrary()
    }

    /// The reason for which the rule objects to `action`, if it does, for a
    /// rule that obeys its spec.
    closed spec fn verdict(&self, action: ToolCall) -> Option<Seq<char>> {
        arbitrary()
    }

    fn name(&self) -> (r: &str)
        ensures
            self.obeys_rule_spec() ==> r@ == self.rule_name(),
    ;

    fn check(&self, action: &ToolCall) -> (r: Option<String>)
        ensures
            self.obeys_rule_spec() ==> opt_chars(r) == self.verdict(*action),
    ;
}

/// Every rule in `rules` obeys its spec.
pub open spec fn all_obey(rules: Seq<Box<dyn GuardrailRule>>) -> bool {
    forall|i: int| 0 <= i < rules.len() ==> #[trigger] rules[i].obeys_rule_spec()
}

/// The reason of the first rule in `rules` that objects to `action`.
pub open spec fn first_verdict(rules: Seq<Box<dyn GuardrailRule>>, action: ToolCall) -> Option<
    Seq<char>,
>
    decreases rules.len(),
{
    if rules.len() == 0 {
        None
    } else {
        match rules[0].verdict(action) {
            Some(reason) => Some(reason),
            None => first_verdict(rules.drop_first(), action),
        }
    }
}

/// The first of two verdicts that objects.
pub open spec fn either(a: Option<Seq<char>>, b: Option<Seq<char>>) -> Option<Seq<char>> {
    match a {
        Some(x) => Some(x),
        None => b,
    }
}

/// The reason of the first built-in rule that objects to `action`, taken in
/// the order: dangerous command, system-level command, push to the main
/// branch, network request, credential leak.
pub open spec fn default_verdict(action: ToolCall) -> Option<Seq<char>> {
    either(
        dangerous_verdict(action),
        either(
            sudo_verdict(action),
            either(
                git_push_verdict(action),
                either(network_verdict(action), credential_verdict(action)),
            ),
        ),
    )
}

/// The decision `d` carries the verdict `v`: a block with its reason when a
/// rule objects, else permission.
pub open spec fn decides(d: GuardrailAction, v: Option<Seq<char>>) -> bool {
    match d {
        GuardrailAction::Allow => v is None,
        GuardrailAction::Block { reason } => v == Some(reason@),
        GuardrailAction::RequireApproval { .. } => false,
    }
}

/// An ordered set of rules; the first one that objects to a call blocks it.
pub struct Guardrail {
    builtin: bool,
    rules: Vec<Box<dyn GuardrailRule>>,
}

impl Guardrail {
    /// Whether every rule of this guardrail obeys its spec.
    pub closed spec fn rules_obey(&self) -> bool {
        all_obey(self.rules@)
    }

    /// The reason for which this guardrail blocks `action`, if it does.
    pub closed spec fn verdict(&self, action: ToolCall) -> Option<Seq<char>> {
        if self.builtin {
            either(default_verdict(action), first_verdict(self.rules@, action))
        } else {
            first_verdict(self.rules@, action)
        }
    }

    /// The five built-in rules, in their order.
    pub fn new_default() -> (r: Self)
        ensures
            r.rules_obey(),
            forall|a: ToolCall| #[trigger] r.verdict(a) == default_verdict(a),
    {
        Guardrail { builtin: true, rules: Vec::new() }
    }

    /// The given rules, in the given order.
    pub fn with_rules(rules: Vec<Box<dyn GuardrailRule>>) -> (r: Self)
        ensures
            r.rules_obey() == all_obey(rules@),
            forall|a: ToolCall| #[trigger] r.verdict(a) == first_verdict(rules@, a),
    {
        Guardrail { builtin: false, rules }
    }

    fn check_builtin(action: &ToolCall) -> (r: Option<String>)
        ensures
            opt_chars(r) == default_verdict(*action),
    {
        let r = DangerousCommandRule.check(action);
        if r.is_some() {
            return r;
        }
        let r = SudoCommandRule.check(action);
        if r.is_some() {
            return r;
        }
        let r = GitPushMainRule.check(action);
        if r.is_some() {
            return r;
        }
        let r = NetworkRequestRule.check(action);
        if r.is_some() {
            return r;
        }
        CredentialLeakRule.check(action)
    }

    /// Blocks `action` with the reason of the first rule that objects to it,
    /// and allows it when none does. Rules that do not obey their spec are
    /// still asked in order; of a guardrail with such a rule, only the kind
    /// of decision is known.
    pub fn check(&self, action: &ToolCall) -> (r: GuardrailAction)
        ensures
            r !is RequireApproval,
            self.rules_obey() ==> decides(r, self.verdict(*action)),
    {
        if self.builtin {
            if let Some(reason) = Self::check_builtin(action) {
                return GuardrailAction::Block { reason };
            }
        }
        assert(self.rules@.subrange(0, self.rules@.len() as int) =~= self.rules@);
        let mut i: usize = 0;
        while i < self.rules.len()
            invariant
                i <= self.rules@.len(),
                self.rules_obey() ==> self.verdict(*action) == first_verdict(self.rules@, *action),
                self.rules_obey() == all_obey(self.rules@),
                self.rules_obey() ==> first_verdict(self.rules@, *action) == first_verdict(
                    self.rules@.subrange(i as int, self.rules@.len() as int),
                    *action,
                ),
            decreases self.rules@.len() - i,
        {
            let ghost rest = self.rules@.subrange(i as int, self.rules@.len() as int);
            assert(rest[0] == self.rules@[i as int]);
            assert(self.rules_obey() ==> self.rules@[i as int].obeys_rule_spec());
            if let Some(reason) = self.rules[i].check(action) {
                return GuardrailAction::Block { reason };
            }
            assert(rest.drop_first() =~= self.rules@.subrange(i + 1, self.rules@.len() as int));
            i += 1;
        }
        assert(self.rules@.subrange(i as int, self.rules@.len() as int).len() == 0);
        GuardrailAction::Allow
    }
}

/// A guardrail without rules allows every call.
pub proof fn law_no_rules_allow_all(action: ToolCall)
    ensures
        first_verdict(Seq::<Box<dyn GuardrailRule>>::empty(), action) is None,
{
}

/// A call that no rule objects to is allowed, and the built-in rules object
/// only to shell commands, git operations and file writes.
pub proof fn law_defaults_inspect_only_risky_tools(action: ToolCall)
    requires
        action.name@ != "shell_exec"@,
        action.name@ != "git_op"@,
        action.name@ != "write_file"@,
    ensures
        default_verdict(action) is None,
{
}

} // verus!

verus! {

/// The built-in rules block a call exactly when one of them objects to it.
pub proof fn law_default_blocks_iff_some_rule(action: ToolCall)
    ensures
        (default_verdict(action) is Some) <==> (dangerous_verdict(action) is Some || sudo_verdict(
            action,
        ) is Some || git_push_verdict(action) is Some || network_verdict(action) is Some
            || credential_verdict(action) is Some),
{
}

/// Each kind of risky call is blocked by the built-in rules: deleting with
/// `rm -rf` (named in the reason), `sudo`, `curl`, pushing to main, and
/// writing or running a credential.
pub proof fn law_risky_calls_blocked(action: ToolCall)
    ensures
        (command_of(action) matches Some(cmd) && contains_seq(cmd, "rm -rf"@)) ==> default_verdict(
            action,
        ) == Some("Dangerous command detected: 'rm -rf'"@),
        (command_of(action) matches Some(cmd) && has_prefix(cmd, "sudo "@)) ==> default_verdict(
            action,
        ) is Some,
        (command_of(action) matches Some(cmd) && contains_seq(cmd, "curl "@)) ==> default_verdict(
            action,
        ) is Some,
        (action.name@ == "git_op"@ && json_string_field(action.arguments@, "operation"@) == Some(
            "push"@,
        ) && (json_string_field(action.arguments@, "args"@) matches Some(a) && contains_seq(
            a,
            "main"@,
        ))) ==> default_verdict(action) is Some,
        (emitted_text(action) matches Some(t) && looks_like_secret(t)) ==> default_verdict(action) is Some,
{
    reveal_strlit("Dangerous command detected: '");
    reveal_strlit("rm -rf");
    reveal_strlit("'");
    reveal_strlit("Dangerous command detected: 'rm -rf'");
    assert("Dangerous command detected: '"@ + "rm -rf"@ + "'"@
        =~= "Dangerous command detected: 'rm -rf'"@);
}

} // verus!

verus! {

/// The default guardrail decides every call as a guardrail made from the
/// five built-in rules, in their order, does: given rules that object
/// exactly as the dangerous-command, system-level-command, push-to-main,
/// network-request and credential-leak rules do, the first objection among
/// them is the default verdict.
pub proof fn law_default_is_builtin_rules_in_order(rules: Seq<Box<dyn GuardrailRule>>, a: ToolCall)
    requires
        rules.len() == 5,
        forall|x: ToolCall| #[trigger] rules[0].verdict(x) == dangerous_verdict(x),
        forall|x: ToolCall| #[trigger] rules[1].verdict(x) == sudo_verdict(x),
        forall|x: ToolCall| #[trigger] rules[2].verdict(x) == git_push_verdict(x),
        forall|x: ToolCall| #[trigger] rules[3].verdict(x) == network_verdict(x),
        forall|x: ToolCall| #[trigger] rules[4].verdict(x) == credential_verdict(x),
    ensures
        first_verdict(rules, a) == default_verdict(a),
{
    let r1 = rules.drop_first();
    let r2 = r1.drop_first();
    let r3 = r2.drop_first();
    let r4 = r3.drop_first();
    let r5 = r4.drop_first();
    assert(r1[0] == rules[1]);
    assert(r2[0] == rules[2]);
    assert(r3[0] == rules[3]);
    assert(r4[0] == rules[4]);
    assert(r5.len() == 0);
    assert(first_verdict(r5, a) is None);
    assert(first_verdict(r4, a) == credential_verdict(a));
    assert(first_verdict(r3, a) == either(network_verdict(a), credential_verdict(a)));
    assert(first_verdict(r2, a) == either(git_push_verdict(a), first_verdict(r3, a)));
    assert(first_verdict(r1, a) == either(sudo_verdict(a), first_verdict(r2, a)));
}

/// A shell command that reaches the network (it mentions `curl `, `wget `,
/// `fetch `, `http://` or `https://`) is blocked by the default guardrail
/// with the network objection, unless it is destructive or system-level,
/// which the earlier rules report first.
pub proof fn law_network_commands_blocked(action: ToolCall, cmd: Seq<char>)
    requires
        action.name@ == "shell_exec"@,
        json_string_field(action.arguments@, "command"@) == Some(cmd),
        contains_seq(cmd, "curl "@) || contains_seq(cmd, "wget "@) || contains_seq(cmd, "fetch "@)
            || contains_seq(cmd, "http://"@) || contains_seq(cmd, "https://"@),
        dangerous_reason_spec(cmd) is None,
        sudo_reason_spec(cmd) is None,
    ensures
        default_verdict(action) == Some("Network request detected"@),
{
    reveal_strlit("shell_exec");
    reveal_strlit("git_op");
    assert("shell_exec"@.len() != "git_op"@.len());
    law_network_patterns(cmd);
}


/// Writing a file whose content holds a credential, or running a command
/// that holds one, gets the credential objection from its rule; other tools
/// get none.
pub proof fn law_credentials_blocked(action: ToolCall, t: Seq<char>)
    ensures
        action.name@ == "write_file"@ && json_string_field(action.arguments@, "content"@) == Some(t)
            && contains_seq(t, "sk-"@) ==> credential_verdict(action) == Some(
            "Potential credential leak detected"@,
        ),
        action.name@ == "shell_exec"@ && json_string_field(action.arguments@, "command"@) == Some(t)
            && contains_seq(t, "API_KEY="@) ==> credential_verdict(action) == Some(
            "Potential credential leak detected"@,
        ),
        action.name@ != "write_file"@ && action.name@ != "shell_exec"@ ==> credential_verdict(action) is None,
{
    reveal_strlit("write_file");
    reveal_strlit("shell_exec");
    assert("write_file"@ != "shell_exec"@) by {
        assert("write_file"@[0] != "shell_exec"@[0]);
    }
    law_secret_patterns(t);
}

} // verus!
