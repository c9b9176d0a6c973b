# mcp_a2a

A registry and protocol library for managing remote agents that speak the
Agent-to-Agent (A2A) protocol, verified with Verus, and the MCP server that
exposes it as tools.

- `src/` — the verified library:
  - `types.rs`: agent cards, remote agents, tasks, messages, push configs, and their views;
  - `json.rs`: JSON values, member lookups, and compact JSON text;
  - `text.rs`: prefix tests, trimming and joining of text;
  - `transport.rs`: failures to reach a remote agent, and how they are reported;
  - `ids.rs`, `clock.rs`: random UUIDs (through `uuid`) and the wall clock (through `chrono`);
  - `card.rs`: where an agent card is looked for, the search through those places, and card validation;
  - `protocol.rs`: the `message/send` request and the task a JSON-RPC reply describes;
  - `store.rs`: the registry of agents, tasks and push configs;
  - `server.rs`: what each MCP tool answers;
  - `laws.rs`: properties that hold across operations.
- `app/` — the MCP server over stdio (`rmcp`), HTTP with remote agents
  (`reqwest`), and JSON (de)serialisation (`serde`, `serde_json`).
- `tests/` — tests of the library on concrete values.
