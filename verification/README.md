# copilot_mcp

The logic of a desktop Copilot window that exposes its browser view to AI
assistants over the Model Context Protocol (MCP), verified with Verus.

`src/` is the verified library:

- `json` — JSON values and their mathematical model.
- `text` — decimal notation, string joining and the escaping that
  `browser_type` applies, with a proof that the page reads back the typed text.
- `scripts` — the page scripts that the tools run, each with its exact text.
- `tools`, `tool_catalog` — the nineteen browser tools: their registry, their
  argument schemas, what each call does with its arguments and what it answers.
- `resources`, `prompts` — the five browser resources and the prompt list.
- `mcp` — the JSON-RPC dispatcher of the MCP server.
- `eval` — evaluating a script in the page and reading its outcome back from
  the document title.
- `memory` — the statements that record a chat message in the memory database.
- `commands` — the decisions behind the window commands (downloads, theme,
  cache, notifications, project events).
- `clock` — the wall clock in milliseconds.

`app/` holds the desktop side that Verus does not see: the Tauri commands,
the axum HTTP server, the polling of the window title, and the SQLite
connection. It hands the library plain values and performs what the library
decides.

`tests/` runs the library on concrete values.
