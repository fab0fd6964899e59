# Resolve

Resolve is a fenced commitment blackboard: goals, commitments with claim-fenced
workers, and execution guards that reserve and hold opaque scope keys for the
consequential actions a worker performs. It keeps its operational state in one
local SQLite database.

## Layout

- `src/` is the library, verified with Verus.
  - `ids`, `values`, `text`: identifiers (never blank), numeric value types,
    and the character-level helpers they rest on.
  - `domain`, `state_machine`, `guards`, `planning`: goals, commitments and
    their state machine, claims and epochs, scope sets and execution guards,
    structural proposals and dependency-graph validation.
  - `codec`, `events`, `records`, `describe`: how domain values are written to
    the store's columns and event log, read back and validated, and described
    in diagnostics.
  - `rules`: the decisions the store makes on what it reads: optimistic
    concurrency, schema versions, boot generations, goal revisions, reservation
    expiry, and the fencing checks of guard issuance, admission and
    invalidation.
  - `error`, `store_error`, `service`: the error types and their messages, and
    the typed answers of the service boundary.
- `app/` is ordinary Rust around the library: the SQLite store and schema
  (through `rusqlite`), the JSON forms of stored values (through `serde` and
  `serde_json`), and the service facade. It reads rows, hands them to the
  library's decoders and rules, and writes what those rules allow. The
  facade covers the operations the store implements; heartbeats, outcome
  recording, expired-claim processing, recovery without an action,
  structural proposals and clearing attention have no store operation behind
  them yet, so the facade does not offer them.
- `tests/` exercises the library from outside.
