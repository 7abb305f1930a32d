//! Speed skating timer: the verified core of the timing backend.
//!
//! The stopwatch state machine, its run history, the trigger debouncing and
//! pin bookkeeping, PIN authentication and the small decisions of the
//! services all live here with their contracts. Network, terminal and
//! hardware plumbing stays with the programs that use this library.

pub mod text;
pub mod types;
pub mod ids;
pub mod trigger;
pub mod stopwatch;
pub mod auth;
pub mod wall_clock;
pub mod hardware_setup;
pub mod data;
pub mod lap_timer;
pub mod simulator;
pub mod tui;
pub mod system;
pub mod http;
