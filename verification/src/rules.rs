//! The built-in guardrail rules: dangerous shell commands, system-level
//! commands, pushes to the main branch, network requests and credential leaks.

use vstd::prelude::*;
use vstd::string::*;
use crate::guard::GuardrailRule;
use crate::json::{json_string_field, opt_chars, string_field};
use crate::text::{chars_of, contains_seq, contains_str, has_prefix, starts_with_str, str_is};
use crate::types::ToolCall;

verus! {

/// The command of a `shell_exec` call.
pub open spec fn command_of(action: ToolCall) -> Option<Seq<char>> {
    if action.name@ == "shell_exec"@ {
        json_string_field(action.arguments@, "command"@)
    } else {
        None
    }
}

/// The first destructive pattern that `cmd` contains.
pub open spec fn first_dangerous(cmd: Seq<char>) -> Option<Seq<char>> {
    if contains_seq(cmd, "rm -rf"@) {
        Some("rm -rf"@)
    } else if contains_seq(cmd, "rm -r /"@) {
        Some("rm -r /"@)
    } else if contains_seq(cmd, "del /s"@) {
        Some("del /s"@)
    } else if contains_seq(cmd, "format c:"@) {
        Some("format c:"@)
    } else if contains_seq(cmd, "mkfs"@) {
        Some("mkfs"@)
    } else if contains_seq(cmd, "> /dev/sda"@) {
        Some("> /dev/sda"@)
    } else {
        None
    }
}

/// The objection to a command that destroys data, naming the pattern found.
pub open spec fn dangerous_reason_spec(cmd: Seq<char>) -> Option<Seq<char>> {
    match first_dangerous(cmd) {
        Some(p) => Some("Dangerous command detected: '"@ + p + "'"@),
        None => None,
    }
}

/// A shell command that destroys data is blocked.
pub open spec fn dangerous_verdict(action: ToolCall) -> Option<Seq<char>> {
    match command_of(action) {
        Some(cmd) => dangerous_reason_spec(cmd),
        None => None,
    }
}

/// The objection to a command that runs with elevated rights or opens
/// permissions to everyone: one that starts with `sudo `, or runs `chmod 777`
/// (or `chmod -R 777`) at its start or after a space.
pub open spec fn sudo_reason_spec(cmd: Seq<char>) -> Option<Seq<char>> {
    if has_prefix(cmd, "sudo "@) || has_prefix(cmd, "chmod 777"@) || has_prefix(
        cmd,
        "chmod -R 777"@,
    ) || contains_seq(cmd, " chmod 777"@) || contains_seq(cmd, " chmod -R 777"@) {
        Some("System-level command detected"@)
    } else {
        None
    }
}

/// A system-level shell command is blocked.
pub open spec fn sudo_verdict(action: ToolCall) -> Option<Seq<char>> {
    match command_of(action) {
        Some(cmd) => sudo_reason_spec(cmd),
        None => None,
    }
}

/// The objection to a git operation: a push whose arguments name the main or
/// master branch.
pub open spec fn push_reason_spec(operation: Option<Seq<char>>, args: Option<Seq<char>>) -> Option<
    Seq<char>,
> {
    if operation == Some("push"@) && (match args {
        Some(a) => contains_seq(a, "main"@) || contains_seq(a, "master"@),
        None => false,
    }) {
        Some("Push to main/master branch requires approval"@)
    } else {
        None
    }
}

/// A git push to the main branch is blocked.
pub open spec fn git_push_verdict(action: ToolCall) -> Option<Seq<char>> {
    if action.name@ == "git_op"@ {
        push_reason_spec(
            json_string_field(action.arguments@, "operation"@),
            json_string_field(action.arguments@, "args"@),
        )
    } else {
        None
    }
}

/// The objection to a command that reaches the network.
pub open spec fn network_reason_spec(cmd: Seq<char>) -> Option<Seq<char>> {
    if contains_seq(cmd, "curl "@) || contains_seq(cmd, "wget "@) || contains_seq(cmd, "fetch "@)
        || contains_seq(cmd, "http://"@) || contains_seq(cmd, "https://"@) {
        Some("Network request detected"@)
    } else {
        None
    }
}

/// A shell command that reaches the network is blocked.
pub open spec fn network_verdict(action: ToolCall) -> Option<Seq<char>> {
    match command_of(action) {
        Some(cmd) => network_reason_spec(cmd),
        None => None,
    }
}

/// The text that a call would write or run: the content of a `write_file`
/// call, the command of a `shell_exec` call.
pub open spec fn emitted_text(action: ToolCall) -> Option<Seq<char>> {
    if action.name@ == "write_file"@ {
        json_string_field(action.arguments@, "content"@)
    } else if action.name@ == "shell_exec"@ {
        json_string_field(action.arguments@, "command"@)
    } else {
        None
    }
}

/// Text that looks like an API key or an assignment of one.
pub open spec fn looks_like_secret(t: Seq<char>) -> bool {
    contains_seq(t, "sk-"@) || contains_seq(t, "api_key="@) || contains_seq(t, "API_KEY="@)
        || contains_seq(t, "DEEPSEEK_API_KEY="@)
}

/// The objection to text that holds a credential.
pub open spec fn secret_reason_spec(text: Seq<char>) -> Option<Seq<char>> {
    if looks_like_secret(text) {
        Some("Potential credential leak detected"@)
    } else {
        None
    }
}

/// A call that would write or run text holding a credential is blocked.
pub open spec fn credential_verdict(action: ToolCall) -> Option<Seq<char>> {
    match emitted_text(action) {
        Some(t) => secret_reason_spec(t),
        None => None,
    }
}

/// The objection, if any, to a shell command that destroys data.
pub fn dangerous_reason(cmd: &str) -> (r: Option<String>)
    ensures
        opt_chars(r) == dangerous_reason_spec(cmd@),
{
    let cmd = chars_of(cmd);
    let p: &str = if contains_str(&cmd, "rm -rf") {
        "rm -rf"
    } else if contains_str(&cmd, "rm -r /") {
        "rm -r /"
    } else if contains_str(&cmd, "del /s") {
        "del /s"
    } else if contains_str(&cmd, "format c:") {
        "format c:"
    } else if contains_str(&cmd, "mkfs") {
        "mkfs"
    } else if contains_str(&cmd, "> /dev/sda") {
        "> /dev/sda"
    } else {
        return None;
    };
    let mut msg = String::from_str("Dangerous command detected: '");
    msg.append(p);
    msg.append("'");
    Some(msg)
}

/// The objection, if any, to a system-level shell command.
pub fn sudo_reason(cmd: &str) -> (r: Option<String>)
    ensures
        opt_chars(r) == sudo_reason_spec(cmd@),
{
    let cmd = chars_of(cmd);
    if starts_with_str(&cmd, "sudo ") || starts_with_str(&cmd, "chmod 777") || starts_with_str(
        &cmd,
        "chmod -R 777",
    ) || contains_str(&cmd, " chmod 777") || contains_str(&cmd, " chmod -R 777") {
        return Some(reason("System-level command detected"));
    }
    None
}

/// The objection, if any, to a git operation with the given arguments.
pub fn push_reason(operation: Option<String>, args: Option<String>) -> (r: Option<String>)
    ensures
        opt_chars(r) == push_reason_spec(opt_chars(operation), opt_chars(args)),
{
    let op = match operation {
        Some(o) => o,
        None => return None,
    };
    if !str_is(op.as_str(), "push") {
        return None;
    }
    let args = match args {
        Some(a) => chars_of(a.as_str()),
        None => return None,
    };
    if contains_str(&args, "main") || contains_str(&args, "master") {
        return Some(reason("Push to main/master branch requires approval"));
    }
    None
}

/// The objection, if any, to a shell command that reaches the network.
pub fn network_reason(cmd: &str) -> (r: Option<String>)
    ensures
        opt_chars(r) == network_reason_spec(cmd@),
{
    let cmd = chars_of(cmd);
    if contains_str(&cmd, "curl ") || contains_str(&cmd, "wget ") || contains_str(&cmd, "fetch ")
        || contains_str(&cmd, "http://") || contains_str(&cmd, "https://") {
        return Some(reason("Network request detected"));
    }
    None
}

/// The objection, if any, to text that would be written or run.
pub fn secret_reason(text: &str) -> (r: Option<String>)
    ensures
        opt_chars(r) == secret_reason_spec(text@),
{
    let content = chars_of(text);
    if contains_str(&content, "sk-") || contains_str(&content, "api_key=") || contains_str(
        &content,
        "API_KEY=",
    ) || contains_str(&content, "DEEPSEEK_API_KEY=") {
        return Some(reason("Potential credential leak detected"));
    }
    None
}

/// The command of a `shell_exec` call.
fn get_command(action: &ToolCall) -> (r: Option<String>)
    ensures
        opt_chars(r) == command_of(*action),
{
    if !str_is(action.name.as_str(), "shell_exec") {
        return None;
    }
    string_field(action.arguments.as_str(), "command")
}

/// A reason string from literal pieces.
fn reason(text: &str) -> (r: String)
    ensures
        r@ == text@,
{
    String::from_str(text)
}

/// Blocks shell commands that destroy data (`rm -rf`, `mkfs`, ...).
pub struct DangerousCommandRule;

impl GuardrailRule for DangerousCommandRule {
    open spec fn obeys_rule_spec(&self) -> bool {
        true
    }

    open spec fn rule_name(&self) -> Seq<char> {
        "dangerous_command"@
    }

    open spec fn verdict(&self, action: ToolCall) -> Option<Seq<char>> {
        dangerous_verdict(action)
    }

    fn name(&self) -> (r: &str) {
        "dangerous_command"
    }

    fn check(&self, action: &ToolCall) -> (r: Option<String>) {
        match get_command(action) {
            Some(cmd) => dangerous_reason(cmd.as_str()),
            None => None,
        }
    }
}

/// Blocks commands run with `sudo` and permission changes to 777.
pub struct SudoCommandRule;

impl GuardrailRule for SudoCommandRule {
    open spec fn obeys_rule_spec(&self) -> bool {
        true
    }

    open spec fn rule_name(&self) -> Seq<char> {
        "sudo_command"@
    }

    open spec fn verdict(&self, action: ToolCall) -> Option<Seq<char>> {
        sudo_verdict(action)
    }

    fn name(&self) -> (r: &str) {
        "sudo_command"
    }

    fn check(&self, action: &ToolCall) -> (r: Option<String>) {
        match get_command(action) {
            Some(cmd) => sudo_reason(cmd.as_str()),
            None => None,
        }
    }
}

/// Blocks `git push` to the main or master branch.
pub struct GitPushMainRule;

impl GuardrailRule for GitPushMainRule {
    open spec fn obeys_rule_spec(&self) -> bool {
        true
    }

    open spec fn rule_name(&self) -> Seq<char> {
        "git_push_main"@
    }

    open spec fn verdict(&self, action: ToolCall) -> Option<Seq<char>> {
        git_push_verdict(action)
    }

    fn name(&self) -> (r: &str) {
        "git_push_main"
    }

    fn check(&self, action: &ToolCall) -> (r: Option<String>) {
        if !str_is(action.name.as_str(), "git_op") {
            return None;
        }
        let op = string_field(action.arguments.as_str(), "operation");
        let args = string_field(action.arguments.as_str(), "args");
        push_reason(op, args)
    }
}

/// Blocks shell commands that reach the network.
pub struct NetworkRequestRule;

impl GuardrailRule for NetworkRequestRule {
    open spec fn obeys_rule_spec(&self) -> bool {
        true
    }

    open spec fn rule_name(&self) -> Seq<char> {
        "network_request"@
    }

    open spec fn verdict(&self, action: ToolCall) -> Option<Seq<char>> {
        network_verdict(action)
    }

    fn name(&self) -> (r: &str) {
        "network_request"
    }

    fn check(&self, action: &ToolCall) -> (r: Option<String>) {
        match get_command(action) {
            Some(cmd) => network_reason(cmd.as_str()),
            None => None,
        }
    }
}

/// Blocks file writes and shell commands whose text holds a credential.
pub struct CredentialLeakRule;

impl GuardrailRule for CredentialLeakRule {
    open spec fn obeys_rule_spec(&self) -> bool {
        true
    }

    open spec fn rule_name(&self) -> Seq<char> {
        "credential_leak"@
    }

    open spec fn verdict(&self, action: ToolCall) -> Option<Seq<char>> {
        credential_verdict(action)
    }

    fn name(&self) -> (r: &str) {
        "credential_leak"
    }

    fn check(&self, action: &ToolCall) -> (r: Option<String>) {
        let field = if str_is(action.name.as_str(), "write_file") {
            "content"
        } else if str_is(action.name.as_str(), "shell_exec") {
            "command"
        } else {
            return None;
        };
        match string_field(action.arguments.as_str(), field) {
            Some(t) => secret_reason(t.as_str()),
            None => None,
        }
    }
}

/// A command is refused as destructive when it mentions any of `rm -rf`,
/// `rm -r /`, `del /s`, `format c:`, `mkfs` or `> /dev/sda`, and only then;
/// a command with `rm -rf` in it is refused naming that pattern.
pub proof fn law_dangerous_patterns(cmd: Seq<char>)
    ensures
        contains_seq(cmd, "rm -rf"@) ==> dangerous_reason_spec(cmd) == Some(
            "Dangerous command detected: '"@ + "rm -rf"@ + "'"@,
        ),
        contains_seq(cmd, "rm -r /"@) ==> dangerous_reason_spec(cmd) is Some,
        contains_seq(cmd, "del /s"@) ==> dangerous_reason_spec(cmd) is Some,
        contains_seq(cmd, "format c:"@) ==> dangerous_reason_spec(cmd) is Some,
        contains_seq(cmd, "mkfs"@) ==> dangerous_reason_spec(cmd) is Some,
        contains_seq(cmd, "> /dev/sda"@) ==> dangerous_reason_spec(cmd) is Some,
        !(contains_seq(cmd, "rm -rf"@) || contains_seq(cmd, "rm -r /"@) || contains_seq(
            cmd,
            "del /s"@,
        ) || contains_seq(cmd, "format c:"@) || contains_seq(cmd, "mkfs"@) || contains_seq(
            cmd,
            "> /dev/sda"@,
        )) ==> dangerous_reason_spec(cmd) is None,
        dangerous_reason_spec(cmd) matches Some(m) ==> has_prefix(
            m,
            "Dangerous command detected: '"@,
        ),
{
    reveal_strlit("Dangerous command detected: '");
    if let Some(p) = first_dangerous(cmd) {
        let m = "Dangerous command detected: '"@ + p + "'"@;
        assert(m.subrange(0, "Dangerous command detected: '"@.len() as int)
            =~= "Dangerous command detected: '"@);
    }
}

/// A command is refused as system-level exactly when it starts with
/// `sudo `, or runs `chmod 777` or `chmod -R 777` at its start or after a
/// space.
pub proof fn law_system_level_patterns(cmd: Seq<char>)
    ensures
        (has_prefix(cmd, "sudo "@) || has_prefix(cmd, "chmod 777"@) || has_prefix(
            cmd,
            "chmod -R 777"@,
        ) || contains_seq(cmd, " chmod 777"@) || contains_seq(cmd, " chmod -R 777"@))
            ==> sudo_reason_spec(cmd) == Some("System-level command detected"@),
        !(has_prefix(cmd, "sudo "@) || has_prefix(cmd, "chmod 777"@) || has_prefix(
            cmd,
            "chmod -R 777"@,
        ) || contains_seq(cmd, " chmod 777"@) || contains_seq(cmd, " chmod -R 777"@))
            ==> sudo_reason_spec(cmd) is None,
{
}

/// A shell command is refused as a network request exactly when it
/// mentions `curl `, `wget `, `fetch `, `http://` or `https://`.
pub proof fn law_network_patterns(cmd: Seq<char>)
    ensures
        (contains_seq(cmd, "curl "@) || contains_seq(cmd, "wget "@) || contains_seq(cmd, "fetch "@)
            || contains_seq(cmd, "http://"@) || contains_seq(cmd, "https://"@))
            ==> network_reason_spec(cmd) == Some("Network request detected"@),
        !(contains_seq(cmd, "curl "@) || contains_seq(cmd, "wget "@) || contains_seq(
            cmd,
            "fetch "@,
        ) || contains_seq(cmd, "http://"@) || contains_seq(cmd, "https://"@))
            ==> network_reason_spec(cmd) is None,
{
}

/// A git operation is refused exactly when it is a push whose arguments
/// mention `main` or `master`.
pub proof fn law_push_to_main(operation: Option<Seq<char>>, args: Option<Seq<char>>)
    ensures
        (operation == Some("push"@) && (args matches Some(a) && (contains_seq(a, "main"@)
            || contains_seq(a, "master"@)))) ==> push_reason_spec(operation, args) == Some(
            "Push to main/master branch requires approval"@,
        ),
        !(operation == Some("push"@) && (args matches Some(a) && (contains_seq(a, "main"@)
            || contains_seq(a, "master"@)))) ==> push_reason_spec(operation, args) is None,
{
}

/// Text is refused as a credential leak exactly when it holds `sk-`,
/// `api_key=` or `API_KEY=`.
pub proof fn law_secret_patterns(t: Seq<char>)
    ensures
        (contains_seq(t, "sk-"@) || contains_seq(t, "api_key="@) || contains_seq(t, "API_KEY="@))
            ==> secret_reason_spec(t) == Some("Potential credential leak detected"@),
        !(contains_seq(t, "sk-"@) || contains_seq(t, "api_key="@) || contains_seq(t, "API_KEY="@))
            ==> secret_reason_spec(t) is None,
{
    reveal_strlit("DEEPSEEK_API_KEY=");
    reveal_strlit("API_KEY=");
    if contains_seq(t, "DEEPSEEK_API_KEY="@) {
        let i = choose|i: int|
            0 <= i && i + "DEEPSEEK_API_KEY="@.len() <= t.len() && #[trigger] t.subrange(
                i,
                i + "DEEPSEEK_API_KEY="@.len(),
            ) == "DEEPSEEK_API_KEY="@;
        let w = t.subrange(i, i + 17);
        assert(t.subrange(i + 9, i + 17) =~= w.subrange(9, 17));
        assert(t.subrange(i + 9, i + 9 + "API_KEY="@.len()) =~= "API_KEY="@);
    }
}

} // verus!
