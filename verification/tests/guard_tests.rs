use coding_agent_harness::guard::{Guardrail, GuardrailAction, GuardrailRule};
use coding_agent_harness::rules::{
    dangerous_reason, network_reason, push_reason, secret_reason, sudo_reason, CredentialLeakRule, DangerousCommandRule, GitPushMainRule, NetworkRequestRule, SudoCommandRule,
};
use coding_agent_harness::types::ToolCall;

fn json_args(pairs: &[(&str, &str)]) -> String {
    let mut map = serde_json::Map::new();
    for (k, v) in pairs {
        map.insert(k.to_string(), serde_json::Value::String(v.to_string()));
    }
    serde_json::to_string(&serde_json::Value::Object(map)).unwrap()
}

fn call(name: &str, pairs: &[(&str, &str)]) -> ToolCall {
    ToolCall { id: "1".into(), name: name.into(), arguments: json_args(pairs) }
}

fn reason(a: GuardrailAction) -> String {
    match a {
        GuardrailAction::Block { reason } => reason,
        other => panic!("expected a block, got {:?}", other),
    }
}

#[test]
fn blocks_rm_rf_command() {
    let g = Guardrail::new_default();
    let action = ToolCall {
        id: "1".into(),
        name: "shell_exec".into(),
        arguments: json_args(&[("command", "rm -rf /tmp/data")]),
    };
    assert!(matches!(g.check(&action), GuardrailAction::Block { .. }));
}

#[test]
fn blocks_sudo_command() {
    let g = Guardrail::new_default();
    let action = ToolCall {
        id: "1".into(),
        name: "shell_exec".into(),
        arguments: json_args(&[("command", "sudo apt install foo")]),
    };
    assert!(matches!(g.check(&action), GuardrailAction::Block { .. }));
}

#[test]
fn blocks_git_push_main() {
    let g = Guardrail::new_default();
    let action = ToolCall {
        id: "1".into(),
        name: "git_op".into(),
        arguments: json_args(&[("operation", "push"), ("args", "origin main")]),
    };
    assert!(matches!(g.check(&action), GuardrailAction::Block { .. }));
}

#[test]
fn blocks_curl_command() {
    let g = Guardrail::new_default();
    let action = ToolCall {
        id: "1".into(),
        name: "shell_exec".into(),
        arguments: json_args(&[("command", "curl http://evil.com")]),
    };
    assert!(matches!(g.check(&action), GuardrailAction::Block { .. }));
}

#[test]
fn allows_safe_command() {
    let g = Guardrail::new_default();
    let action = ToolCall {
        id: "1".into(),
        name: "shell_exec".into(),
        arguments: json_args(&[("command", "cargo test")]),
    };
    assert!(matches!(g.check(&action), GuardrailAction::Allow));
}

#[test]
fn allows_read_file() {
    let g = Guardrail::new_default();
    let action = ToolCall {
        id: "1".into(),
        name: "read_file".into(),
        arguments: json_args(&[("path", "src/main.rs")]),
    };
    assert!(matches!(g.check(&action), GuardrailAction::Allow));
}

#[test]
fn first_rule_gives_the_reason() {
    let g = Guardrail::new_default();
    let r = reason(g.check(&call("shell_exec", &[("command", "sudo rm -rf / && curl x")])));
    assert_eq!(r, "Dangerous command detected: 'rm -rf'");
    let r = reason(g.check(&call("shell_exec", &[("command", "sudo mkfs /dev/x")])));
    assert_eq!(r, "Dangerous command detected: 'mkfs'");
    let r = reason(g.check(&call("shell_exec", &[("command", "ls; chmod -R 777 .")])));
    assert_eq!(r, "System-level command detected");
    let r = reason(g.check(&call("shell_exec", &[("command", "chmod 777 /etc/passwd")])));
    assert_eq!(r, "System-level command detected");
    let r = reason(g.check(&call("shell_exec", &[("command", "wget x")])));
    assert_eq!(r, "Network request detected");
    let r = reason(g.check(&call("git_op", &[("operation", "push"), ("args", "origin master")])));
    assert_eq!(r, "Push to main/master branch requires approval");
}

#[test]
fn credential_leaks_are_blocked() {
    let g = Guardrail::new_default();
    let r = reason(g.check(&call("write_file", &[("path", ".env"), ("content", "DEEPSEEK_API_KEY=abc")])));
    assert_eq!(r, "Potential credential leak detected");
    let r = reason(g.check(&call("shell_exec", &[("command", "echo sk-123")])));
    assert_eq!(r, "Potential credential leak detected");
    assert!(matches!(g.check(&call("read_file", &[("path", "sk-file")])), GuardrailAction::Allow));
}

#[test]
fn git_rules_need_push_and_main() {
    let g = Guardrail::new_default();
    assert!(matches!(g.check(&call("git_op", &[("operation", "push"), ("args", "origin dev")])), GuardrailAction::Allow));
    assert!(matches!(g.check(&call("git_op", &[("operation", "status"), ("args", "main")])), GuardrailAction::Allow));
    assert!(matches!(g.check(&call("git_op", &[("operation", "push")])), GuardrailAction::Allow));
}

#[test]
fn malformed_arguments_are_allowed() {
    let g = Guardrail::new_default();
    let bad = ToolCall { id: "1".into(), name: "shell_exec".into(), arguments: "rm -rf /".into() };
    assert!(matches!(g.check(&bad), GuardrailAction::Allow));
    let not_string = ToolCall { id: "1".into(), name: "shell_exec".into(), arguments: "{\"command\": 5}".into() };
    assert!(matches!(g.check(&not_string), GuardrailAction::Allow));
}

#[test]
fn sudo_must_start_the_command() {
    let g = Guardrail::new_default();
    assert!(matches!(g.check(&call("shell_exec", &[("command", "echo sudo x")])), GuardrailAction::Allow));
}

#[test]
fn custom_rule_sets() {
    let empty = Guardrail::with_rules(vec![]);
    assert!(matches!(empty.check(&call("shell_exec", &[("command", "rm -rf /")])), GuardrailAction::Allow));
    let only_network = Guardrail::with_rules(vec![Box::new(NetworkRequestRule)]);
    assert!(matches!(only_network.check(&call("shell_exec", &[("command", "rm -rf /")])), GuardrailAction::Allow));
    assert!(matches!(only_network.check(&call("shell_exec", &[("command", "curl x")])), GuardrailAction::Block { .. }));
}

#[test]
fn default_matches_the_five_rules_in_order() {
    let default = Guardrail::new_default();
    let listed = Guardrail::with_rules(vec![
        Box::new(DangerousCommandRule),
        Box::new(SudoCommandRule),
        Box::new(GitPushMainRule),
        Box::new(NetworkRequestRule),
        Box::new(CredentialLeakRule),
    ]);
    let calls = vec![
        call("shell_exec", &[("command", "sudo rm -rf / && curl x")]),
        call("shell_exec", &[("command", "chmod 777 /etc/passwd")]),
        call("shell_exec", &[("command", "wget x")]),
        call("shell_exec", &[("command", "ls")]),
        call("git_op", &[("operation", "push"), ("args", "origin main")]),
        call("write_file", &[("path", "k"), ("content", "SECRET-REDACTED")]),
        call("read_file", &[("path", "x")]),
    ];
    for c in &calls {
        assert_eq!(default.check(c), listed.check(c));
    }
}

#[test]
fn rule_names_and_direct_checks() {
    assert_eq!(DangerousCommandRule.name(), "dangerous_command");
    assert_eq!(SudoCommandRule.name(), "sudo_command");
    assert_eq!(GitPushMainRule.name(), "git_push_main");
    assert_eq!(NetworkRequestRule.name(), "network_request");
    assert_eq!(CredentialLeakRule.name(), "credential_leak");
    assert_eq!(
        DangerousCommandRule.check(&call("shell_exec", &[("command", "dd > /dev/sda")])),
        Some("Dangerous command detected: '> /dev/sda'".to_string())
    );
    assert_eq!(SudoCommandRule.check(&call("git_op", &[("command", "sudo x")])), None);
}

#[test]
fn reasons_from_plain_text() {
    assert_eq!(dangerous_reason("del /s c:\\"), Some("Dangerous command detected: 'del /s'".to_string()));
    assert_eq!(dangerous_reason("ls -la"), None);
    assert_eq!(sudo_reason("sudo reboot"), Some("System-level command detected".to_string()));
    assert_eq!(sudo_reason("chmod 777 x"), Some("System-level command detected".to_string()));
    assert_eq!(sudo_reason("chmod -R 777 /srv"), Some("System-level command detected".to_string()));
    assert_eq!(sudo_reason("chmod 755 x"), None);
    assert_eq!(sudo_reason("echo chmod 777"), Some("System-level command detected".to_string()));
    assert_eq!(sudo_reason("xchmod 777"), None);
    assert_eq!(network_reason("git status"), None);
    assert_eq!(network_reason("git fetch origin"), Some("Network request detected".to_string()));
    assert_eq!(network_reason("npm fetch x"), Some("Network request detected".to_string()));
    assert_eq!(secret_reason("api_key=1"), Some("Potential credential leak detected".to_string()));
    assert_eq!(push_reason(Some("push".into()), Some("origin main".into())), Some("Push to main/master branch requires approval".to_string()));
    assert_eq!(push_reason(Some("push".into()), None), None);
    assert_eq!(push_reason(None, Some("main".into())), None);
}
