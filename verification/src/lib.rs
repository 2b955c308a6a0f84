//! A coding-agent harness: the agent loop's decisions, guardrails over tool
//! calls, feedback from tool output, configuration defaults, tool and plugin
//! registries, and the scripted model used for deterministic runs.

pub mod agent;
pub mod builtin;
pub mod config;
pub mod feedback;
pub mod guard;
pub mod hitl;
pub mod json;
pub mod llm;
pub mod plugin;
pub mod rules;
pub mod run;
pub mod session;
pub mod text;
pub mod tools;
pub mod types;
pub mod validators;
