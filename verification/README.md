# frama_c_mcp_cli

The launcher of the `frama-c-mcp` server, with its decisions verified in Verus.

- `src/command.rs`: the command line as data, its defaults, and the `check`
  request a `check` command becomes.
- `src/payload.rs`: what is read of a finished check's JSON payload (the size
  of its `incomplete` list), through `serde_json`.
- `src/session.rs`: the session as a state machine, from the command line to
  the exit outcome, through one `check` or a served MCP session and its
  drain, with the laws that hold of every run.
- `src/shutdown.rs`: the wait for SIGINT, SIGTERM or SIGHUP as a state
  machine, with its laws.
- `app/main.rs`: the program. It parses the command line with clap, performs
  each action the machines ask for (running `check`, printing, serving MCP
  with rmcp, installing signal handlers with tokio) and feeds back the event.
  It links the server library `frama_c_mcp` for `check` and the MCP server.
