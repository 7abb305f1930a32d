# Speed skating timer backend

A precision timing backend for speed skating: IR beam sensors (or a keyboard, or a
test source) produce trigger pulses; a stopwatch state machine turns them into runs and
laps; NATS services expose commands, live events and the run history.

The crate is a Verus library with the timing logic and its contracts, and a server
program around it.

## Layout

- `src/` — the verified library
  - `stopwatch/` — the state machine (Disarmed, Armed, Running), runs, laps, the run
    history queries, and (`laws.rs`) properties that span operations
  - `types.rs` — messages and configuration
  - `trigger/` — the monotonic clock, GPIO debouncing and pin polarity, keyboard keys
  - `hardware_setup/` — live pin states for sensor alignment
  - `auth.rs` — PIN checks and the permissions of issued NATS tokens
  - `lap_timer.rs`, `data.rs` — the lap timer and messages of the WebSocket server
  - `simulator.rs` — the simulator's sequence language
  - `tui.rs` — decisions of the terminal client
  - `http.rs`, `system.rs`, `text.rs`, `ids.rs`, `wall_clock.rs` — small helpers
- `app/` — the server: NATS services, trigger sources, HTTP front door, wire formats
- `tests/` — tests of the library
