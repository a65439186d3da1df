# vm_agent

The host agent of a KVM hypervisor fleet: it enrolls with the control
plane, keeps an mTLS session with its assigned dataplane, reports the host's
inventory, heartbeats and telemetry, executes commands at most once through
a durable command ledger, and shuts down gracefully.

## Layout

- `src/` — the library, verified with Verus. Its functions carry
  `requires`/`ensures` contracts over mathematical models (`Seq<char>` for
  text, `int` for durations, plain record views for the data types); the
  few that only read or set a shared atomic value, or read the clock as
  Unix seconds, state none, as any value is a possible outcome there.
  - `text` — string primitives with the semantics of `str::trim`,
    `str::lines`, `str::split_whitespace` and integer parsing.
  - `clock` — millisecond durations and the system clock.
  - `config` — typed configuration, its validation rules, and loading it
    from environment variables.
  - `agent` — enrollment and transport planning, the connect loop and its
    target failover, the command ledger's decisions, command handling,
    frames, and telemetry parsing.
  - `service::host` — host facts from `/proc`, `/sys` and command output.
  - `repository::vm` — the enrolled identity and the files it is kept in.
  - `app`, `worker`, `telemetry` — lifecycle state, the shutdown sequence,
    worker pool accounting, log filtering and secret redaction.
  Public `law_*` proof functions state the properties that span several
  operations (idempotent command claims, restart recovery, target
  failover order, the shutdown sequence, endpoint normalization).
- `app/` — the process around the library: environment and file I/O,
  SQLite, tokio tasks, the gRPC health endpoint, logging setup, and the
  floating-point telemetry figures.
- `tests/` — tests of the library's public API.
