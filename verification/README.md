# arena_harness

The decision logic of an NPC harness for the Agent Arena game, verified with
Verus.

- `src/` is the verified library: configuration parsing and validation,
  character sheets, the MCP wire protocol (JSON-RPC responses, tool envelopes,
  server-sent event framing), the session's connection decisions, the body
  gateway's typed tool calls and their analytics events, the tactical and strategic model inputs and
  outputs, action-packet validation and invalidation, movement missions, and
  model usage accounting. Every public function states its result in
  `ensures`; the `law_*` proof functions state what holds across calls.
- `tests/` runs the library on concrete values.
- `app/` is the executable around it: reading the environment and the
  character sheet from disk, the HTTP transport, and the session lifecycle.
