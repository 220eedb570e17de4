# codex-slow-mode

Session-scoped pacing for model inference requests, with its decisions
proved against their specifications. Slow mode decides when the next model request may start; it never changes
the model, the reasoning effort, the tools or the prompt.

## Layout

- `src/` — the verified library.
  - `latch.rs`: the Fast/Slow latch (Fast mode is paused while slow mode is
    on and restored when it is turned off).
  - `status.rs`: the `/slow-mode [on|off|status]` grammar, the duration
    wording, and the lines of the status block.
  - `pacing.rs`: the integer pacing rules — per-window plans, the secondary
    window cap, time already spent since the previous grant, telemetry
    staleness — and the grant history (`Cadence`).
  - `gate.rs`: the request lock as a state machine, and the turn-interrupt
    cancellation built on `tokio_util`'s `CancellationToken`.
  - `registry.rs`: the thread registry through which child threads share the
    pacer of their parent; each call names the pacer it reaches and the
    command that pacer is to carry out.
  - `simulate.rs`: the fixed-delay baseline and time wording of the
    simulation report.
  - `text.rs`, `time.rs`: character helpers and time units.
- `app/` — the runtime around the library: the percentage arithmetic of the
  rate controller and the percentage wording (floating point), the async pacer with its tokio lock and
  clocks, the process-wide registry, status rendering and the simulation.
- `tests/` — tests of the library.
