use coding_agent_harness::config::{
    default_allowed_tools, default_guard_mode, default_max_context, default_max_fix_rounds,
    default_max_tokens, default_max_tools, default_max_turns, default_provider, default_timeout,
    AgentConfig, GuardrailConfig, MemoryConfig, ToolsConfig,
};

#[test]
fn default_values() {
    assert_eq!(default_max_turns(), 50);
    assert_eq!(default_max_tools(), 5);
    assert_eq!(default_max_fix_rounds(), 3);
    assert_eq!(default_provider(), "deepseek");
    assert_eq!(default_max_tokens(), 4096);
    assert_eq!(default_guard_mode(), "strict");
    assert_eq!(default_timeout(), 60);
    assert_eq!(default_max_context(), 2000);
    assert_eq!(default_allowed_tools(), vec!["read_file", "write_file", "shell_exec", "git_op", "code_search"]);
}

#[test]
fn default_sections() {
    let a = AgentConfig::default();
    assert_eq!((a.max_turns, a.max_tools_per_turn, a.max_fix_rounds), (50, 5, 3));
    let g = GuardrailConfig::default();
    assert_eq!(g.mode, "strict");
    assert_eq!(g.timeout_seconds, 60);
    let m = MemoryConfig::default();
    assert_eq!(m.max_context_tokens, 2000);
    assert_eq!(m.db_path, ".harness/memory.db");
    assert_eq!(ToolsConfig::default().allowed.len(), 5);
}
