//! Configuration sections and the defaults that apply to whatever a
//! configuration file leaves out.

use vstd::prelude::*;
use vstd::string::*;

verus! {

pub fn default_max_turns() -> (r: usize)
    ensures
        r == 50,
{
    50
}

pub fn default_max_tools() -> (r: usize)
    ensures
        r == 5,
{
    5
}

pub fn default_max_fix_rounds() -> (r: usize)
    ensures
        r == 3,
{
    3
}

pub fn default_provider() -> (r: String)
    ensures
        r@ == "deepseek"@,
{
    String::from_str("deepseek")
}

pub fn default_max_tokens() -> (r: usize)
    ensures
        r == 4096,
{
    4096
}

pub fn default_guard_mode() -> (r: String)
    ensures
        r@ == "strict"@,
{
    String::from_str("strict")
}

pub fn default_timeout() -> (r: u64)
    ensures
        r == 60,
{
    60
}

pub fn default_max_context() -> (r: usize)
    ensures
        r == 2000,
{
    2000
}

/// The tools enabled when the configuration names none.
pub open spec fn default_tool_names() -> Seq<Seq<char>> {
    seq!["read_file"@, "write_file"@, "shell_exec"@, "git_op"@, "code_search"@]
}

pub fn default_allowed_tools() -> (r: Vec<String>)
    ensures
        r@.len() == default_tool_names().len(),
        forall|i: int| 0 <= i < r@.len() ==> #[trigger] r@[i]@ == default_tool_names()[i],
{
    let mut r: Vec<String> = Vec::new();
    r.push(String::from_str("read_file"));
    r.push(String::from_str("write_file"));
    r.push(String::from_str("shell_exec"));
    r.push(String::from_str("git_op"));
    r.push(String::from_str("code_search"));
    r
}

/// Limits of the agent loop.
#[derive(Debug)]
pub struct AgentConfig {
    pub max_turns: usize,
    pub max_tools_per_turn: usize,
    pub max_fix_rounds: usize,
}

impl Default for AgentConfig {
    fn default() -> (r: Self)
        ensures
            r.max_turns == 50,
            r.max_tools_per_turn == 5,
            r.max_fix_rounds == 3,
    {
        AgentConfig {
            max_turns: default_max_turns(),
            max_tools_per_turn: default_max_tools(),
            max_fix_rounds: default_max_fix_rounds(),
        }
    }
}

/// How strictly guardrails act, and how long an approval may take.
#[derive(Debug)]
pub struct GuardrailConfig {
    pub mode: String,
    pub timeout_seconds: u64,
}

impl Default for GuardrailConfig {
    fn default() -> (r: Self)
        ensures
            r.mode@ == "strict"@,
            r.timeout_seconds == 60,
    {
        GuardrailConfig { mode: default_guard_mode(), timeout_seconds: default_timeout() }
    }
}

/// The memory budget and where memory is stored.
#[derive(Debug)]
pub struct MemoryConfig {
    pub max_context_tokens: usize,
    pub db_path: String,
}

impl Default for MemoryConfig {
    fn default() -> (r: Self)
        ensures
            r.max_context_tokens == 2000,
            r.db_path@ == ".harness/memory.db"@,
    {
        MemoryConfig {
            max_context_tokens: default_max_context(),
            db_path: String::from_str(".harness/memory.db"),
        }
    }
}

/// The tools the agent may use.
#[derive(Debug)]
pub struct ToolsConfig {
    pub allowed: Vec<String>,
}

impl Default for ToolsConfig {
    fn default() -> (r: Self)
        ensures
            r.allowed@.len() == default_tool_names().len(),
            forall|i: int| 0 <= i < r.allowed@.len() ==> #[trigger] r.allowed@[i]@
                == default_tool_names()[i],
    {
        ToolsConfig { allowed: default_allowed_tools() }
    }
}

} // verus!
