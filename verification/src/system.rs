//! The system ping service: clients measure their round trip against server time.

use vstd::prelude::*;
use crate::trigger::clock_monotonic_ns;
use crate::types::PingResponse;

verus! {

/// The answer to a ping at monotonic time `now_ns`.
pub fn ping_response_at(now_ns: u64) -> (r: PingResponse)
    ensures
        r.server_time_ns == now_ns,
{
    PingResponse { server_time_ns: now_ns }
}

/// The answer to a ping now, by the monotonic clock.
pub fn ping_response() -> (r: PingResponse) {
    ping_response_at(clock_monotonic_ns())
}

} // verus!
