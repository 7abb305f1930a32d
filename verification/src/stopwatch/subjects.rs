//! Subjects on which the stopwatch publishes its live events.

use vstd::prelude::*;

verus! {

/// State snapshots, on every change of state.
pub const LIVE_STATE: &'static str = "stopwatch.v1.live.state";

/// Periodic updates of the running lap.
pub const LIVE_TICK: &'static str = "stopwatch.v1.live.tick";

/// Lap start and finish events.
pub const LIVE_LAP: &'static str = "stopwatch.v1.live.lap";

} // verus!
