# agentbox_mail

A mailbox engine for AI agents: it receives mail (raw SMTP, IMAP polling, an
HTTP webhook), pulls out one-time codes and action links, screens links for
open redirects, and serves inboxes to agents over a REST API and an MCP
server.

The decisions of the engine are a library verified with Verus; the program
around it does the I/O.

## Layout

- `src/` — the verified library.
  - `text.rs`: strings as character sequences (trimming, splitting, lines,
    decimal numbers, case mapping) with their specifications.
  - `bindings.rs`: the calls into `regex`, `scraper`, `url`, `mail-parser`,
    `uuid`, `chrono` and `serde_json`, each with the contract it is trusted to
    meet.
  - `ids.rs`: record identifiers and inbox addresses.
  - `engine/`: capability scopes, code and link extraction, MIME parsing and
    Base64, the SMTP session state machine, tasks, the outbound relay plan and
    the IMAP poller's decisions.
  - `db.rs`: stored records, resource ownership, the links of an inbox.
  - `api.rs`, `config.rs`, `integrations.rs`, `setup.rs`: the HTTP API's
    decisions, the `.env` configuration (with its save-and-reload law), the
    connection of AI tools, and the setup wizard's connection test.
  - `mcp.rs`: JSON-RPC dispatch, the tool catalog, tool planning, and who
    may call a tool (agent token, identity status, capability scope, inbox
    ownership).
  - `cli.rs`: the command line and the server's settings.
- `tests/` — tests of the library.
- `app/` — the program: SQLite store, HTTP server, SMTP listener, IMAP
  poller, MCP over standard input/output, mail relay, file and process work.

## Tools that can be connected

The setup wizard detects, connects and installs the MCP server into
OpenClaw, Hermes, Cursor, Google Antigravity and Windsurf. The terminal
coding agent with identifier `claude_code` is not among them: this crate
does not detect it, write its configuration file, or install into it.
