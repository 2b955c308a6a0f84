# coding_agent_harness

A coding-agent harness whose decision logic is verified with Verus.

- `src/` is the verified library: conversation state and stopping rules
  (`agent`), guardrails and their built-in rules (`guard`, `rules`), feedback
  validators (`feedback`, `validators`), configuration defaults (`config`),
  human confirmation decisions (`hitl`), the tool registry and plugin loader
  (`tools`, `plugin`), what the built-in tools compute (`builtin`, including
  the shell timeout and the check that a file path stays inside the working
  directory), the scripted model (`llm`), the agent loop as a state machine
  whose steps take a model response, a user's answer or a tool's result and
  decide what happens next (`run`), and the helpers those steps use
  (`session`).
  `text` and `json` hold the character-level operations and the JSON field
  reader they share.
- `app/` is the command around it: configuration files, the model services,
  the SQLite memory store, tool execution (files, processes, directory walks)
  and the interactive loop.
- `tests/` exercises the library on concrete inputs.
