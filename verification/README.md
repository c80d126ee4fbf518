# ai_computer_toolkit

The decision logic of a desktop-automation toolkit, verified with Verus, and
a small Linux program that checks portal / EIS connectivity with it.

## Layout

- `src/` — the verified library.
  - `json.rs`, `text.rs`, `error.rs`, `request.rs` — the plain JSON value, text
    helpers, the public error envelope and the command request.
  - `capabilities.rs`, `opaque_id.rs` — the capability registry and opaque
    session identities.
  - `app/` — the app facade: provider routing, capability checks, foreground
    invariance, session discovery, result projection and sanitizing.
  - `adapters/` — the desktop and browser adapters: operation routes, argument
    rules, key chords, key-press plans, the monitor layout and lease checks.
  - `broker/` — the browser-session broker client: request frames, the
    exchange state machine, response projection and connection sequence.
  - `ipc/` — fixed local endpoints: names, budgets, bounded reads and writes,
    connection decisions.
  - `portal/` — the portal / EIS check: command line, request protocol, object
    paths, start-response checks and the run's step sequence.
  - `clock.rs`, `std_specs.rs` — the few trusted items over std.
- `tests/` — executable tests of the library.
- `app/` — the portal / EIS program: D-Bus, EIS and file-system work, driven
  by the library's step sequence, and the JSON output records.
