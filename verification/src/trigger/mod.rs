//! Trigger sources and the monotonic clock their timestamps come from.
//!
//! Triggers are logical pulses; the stopwatch does not know where they come from.

pub mod gpio;
pub mod keyboard;

use vstd::prelude::*;
use crate::text::owned;
use crate::types::{GpioConfig, TriggerEvent};

verus! {

/// Subject on which trigger events are published.
pub const TRIGGER_SUBJECT: &'static str = "stopwatch.v1.trigger";

/// A reading of `CLOCK_MONOTONIC` in nanoseconds, from its seconds and nanoseconds
/// (with two's complement wrap-around, as the unsigned casts and arithmetic do).
pub open spec fn monotonic_ns_of(sec: i64, nsec: i64) -> u64 {
    ((((sec as u64) as int) * 1_000_000_000 + ((nsec as u64) as int)) % 0x1_0000_0000_0000_0000) as u64
}

/// `nix::time::clock_gettime(ClockId::CLOCK_MONOTONIC)`, as its seconds and
/// nanoseconds (`TimeSpec::tv_sec`, `TimeSpec::tv_nsec`). Nothing is claimed of the
/// reading: it is the time. The call fails only for an unknown clock or a bad buffer,
/// neither of which can happen here; should it fail, the wrapper panics with the
/// message `Failed to get CLOCK_MONOTONIC time`.
#[verifier::external_body]
fn read_monotonic_clock() -> (r: (i64, i64)) {
    let ts = nix::time::clock_gettime(nix::time::ClockId::CLOCK_MONOTONIC).expect(
        "Failed to get CLOCK_MONOTONIC time",
    );
    (ts.tv_sec(), ts.tv_nsec())
}

/// Nanoseconds from the seconds and nanoseconds of a clock reading.
pub fn monotonic_ns_from_parts(sec: i64, nsec: i64) -> (r: u64)
    ensures
        r == monotonic_ns_of(sec, nsec),
        0 <= sec && 0 <= nsec && sec * 1_000_000_000 + nsec <= u64::MAX ==> r == sec
            * 1_000_000_000 + nsec,
{
    let s = sec as u64;
    let n = nsec as u64;
    let m = s.wrapping_mul(1_000_000_000);
    let r = m.wrapping_add(n);
    proof {
        let big: int = 0x1_0000_0000_0000_0000;
        let a: int = (s as int) * 1_000_000_000;
        assert(m as int == a % big);
        vstd::arithmetic::div_mod::lemma_add_mod_noop(a, n as int, big);
        vstd::arithmetic::div_mod::lemma_small_mod(n as nat, big as nat);
        if m as int + n as int >= big {
            vstd::arithmetic::div_mod::lemma_mod_sub_multiples_vanish(m as int + n as int, big);
            vstd::arithmetic::div_mod::lemma_small_mod((m as int + n as int - big) as nat, big as nat);
        } else {
            vstd::arithmetic::div_mod::lemma_small_mod((m as int + n as int) as nat, big as nat);
        }
        assert(r as int == (a + n as int) % big);
        if 0 <= sec && 0 <= nsec && sec * 1_000_000_000 + nsec <= u64::MAX {
            vstd::arithmetic::div_mod::lemma_small_mod((a + n as int) as nat, big as nat);
        }
    }
    r
}

/// The current `CLOCK_MONOTONIC` time in nanoseconds, the clock of every trigger timestamp.
pub fn clock_monotonic_ns() -> (r: u64) {
    let (sec, nsec) = read_monotonic_clock();
    monotonic_ns_from_parts(sec, nsec)
}

/// Where trigger pulses come from.
#[derive(Debug, Clone)]
pub enum TriggerConfig {
    /// A key of the keyboard.
    Keyboard { key: char },
    /// GPIO pins, configured from the GPIO configuration file.
    Gpio { config: GpioConfig },
    /// A pulse at a fixed interval, for testing.
    Mock { interval_ms: u64 },
}

/// The event of a pulse from the testing source.
pub fn mock_trigger_event(timestamp_ns: u64) -> (r: TriggerEvent)
    ensures
        r.timestamp_ns == timestamp_ns,
        r.source@ == "mock"@,
{
    TriggerEvent { timestamp_ns, source: owned("mock") }
}

} // verus!
