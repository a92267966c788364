# example-server

An example MCP server for Fastly Compute. The demo handlers -- a tool that
completes, a tool that asks for input, a task-backed tool, a prompt and a
resource -- and the rules by which the server starts on a request are a library
verified with Verus.

| Path | What it holds |
|------|---------------|
| `src/tools.rs` | The handlers and `register_handlers` |
| `src/router.rs` | What a server offers; the tools as values of one type |
| `src/protocol.rs` | Definitions and outcomes, with their views |
| `src/json.rs` | JSON values: all that is believed of `serde_json`, and builders proved on top of it |
| `src/startup.rs` | When a request is served and when it is refused |
| `src/laws.rs` | What holds of the handlers as a whole |
| `app/` | The `wasm32-wasip1` entry point, on `mcp-core`, `mcp-fastly` and `fastly` |

`mcp-core` and `mcp-fastly` are the crates of the workspace that the entry point
is built in.
