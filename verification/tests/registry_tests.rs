use coding_agent_harness::builtin::{CodeSearch, GitOp, ReadFile, ShellExec, WriteFile};
use coding_agent_harness::plugin::{Plugin, PluginContext, PluginLoader};
use coding_agent_harness::tools::{Tool, ToolRegistry};
use coding_agent_harness::types::HarnessError;
use std::sync::Arc;

struct DummyTool;

impl Tool for DummyTool {
    fn name(&self) -> &str {
        "dummy"
    }

    fn description(&self) -> &str {
        "A dummy tool"
    }
}

struct Named(&'static str, &'static str);

impl Tool for Named {
    fn name(&self) -> &str {
        self.0
    }

    fn description(&self) -> &str {
        self.1
    }
}

impl Plugin for Named {
    fn version(&self) -> &str {
        "0.1.0"
    }

    fn dependencies(&self) -> Vec<&str> {
        vec![]
    }

    fn init(&mut self, _ctx: &PluginContext) -> Result<(), HarnessError> {
        Ok(())
    }
}

#[test]
fn register_and_find_tool() {
    let mut registry: ToolRegistry<dyn Tool> = ToolRegistry::new();
    registry.register(Box::new(DummyTool));
    let tool = registry.get("dummy").unwrap();
    assert_eq!(tool.description(), "A dummy tool");
    assert_eq!(registry.len(), 1);
}

#[test]
fn unregister_removes_tool() {
    let mut registry: ToolRegistry<dyn Tool> = ToolRegistry::new();
    registry.register(Box::new(DummyTool));
    assert!(registry.get("dummy").is_ok());
    assert!(registry.unregister("dummy"));
    assert!(registry.get("dummy").is_err());
    assert!(!registry.unregister("dummy"));
}

#[test]
fn execute_unknown_tool_returns_error() {
    let registry: ToolRegistry<dyn Tool> = ToolRegistry::new();
    match registry.get("nonexistent") {
        Err(HarnessError::Tool(m)) => assert_eq!(m, "Tool not found: nonexistent"),
        _ => panic!("expected an error"),
    }
}

#[test]
fn same_name_replaces_in_place() {
    let mut registry: ToolRegistry<dyn Tool> = ToolRegistry::new();
    registry.register(Box::new(Named("a", "first")));
    registry.register(Box::new(Named("b", "second")));
    registry.register(Box::new(Named("a", "third")));
    assert_eq!(registry.names(), vec!["a", "b"]);
    assert_eq!(registry.get("a").unwrap().description(), "third");
    assert_eq!(registry.position("b"), Some(1));
}

#[test]
fn builtin_tools_are_named() {
    let mut registry: ToolRegistry<dyn Tool> = ToolRegistry::new();
    registry.register(Box::new(ReadFile::new()));
    registry.register(Box::new(WriteFile::new()));
    registry.register(Box::new(ShellExec::new()));
    registry.register(Box::new(GitOp::new()));
    registry.register(Box::new(CodeSearch::new()));
    assert_eq!(registry.names(), vec!["read_file", "write_file", "shell_exec", "git_op", "code_search"]);
    assert_eq!(
        registry.get("git_op").unwrap().description(),
        "Execute git operations: status, diff, log, branch."
    );
}

#[test]
fn plugin_loader_lists_in_order() {
    let mut loader: PluginLoader<dyn Plugin> = PluginLoader::new();
    assert!(loader.list().is_empty());
    loader.register(Arc::new(Named("p1", "one")));
    loader.register(Arc::new(Named("p2", "two")));
    assert_eq!(loader.list(), vec!["p1", "p2"]);
    assert_eq!(loader.plugins().len(), 2);
    assert_eq!(loader.plugins()[0].version(), "0.1.0");
}

#[test]
fn plugin_loader_lists_a_repeated_name_again() {
    let mut loader: PluginLoader<dyn Plugin> = PluginLoader::new();
    loader.register(Arc::new(Named("p1", "one")));
    loader.register(Arc::new(Named("p2", "two")));
    loader.register(Arc::new(Named("p1", "three")));
    assert_eq!(loader.list(), vec!["p1", "p2", "p1"]);
    assert_eq!(loader.plugins()[2].description(), "three");
}

#[test]
fn registry_keeps_the_names_tools_give() {
    let mut registry: ToolRegistry<dyn Tool> = ToolRegistry::new();
    registry.register(Box::new(Named("x", "first")));
    registry.register(Box::new(Named("y", "second")));
    assert_eq!(registry.names(), vec!["x", "y"]);
    assert_eq!(registry.get("y").unwrap().description(), "second");
    assert_eq!(registry.tools().len(), 2);
    assert!(registry.unregister("x"));
    assert_eq!(registry.names(), vec!["y"]);
    assert_eq!(registry.position("y"), Some(0));
}
