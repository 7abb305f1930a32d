//! GPIO trigger logic: which pin edges become triggers, and what each edge does to the
//! displayed pin states.
//!
//! Debounce: the first edge emits a trigger at once; later edges are noise and only
//! update the pin display, until the pins have been quiet for the quiet period or the
//! longest wait has passed since the trigger.

use vstd::prelude::*;
use crate::text::{copy_string, owned};
use crate::types::{GpioConfig, GpioDebounceConfig, PinState, TriggerEvent};

verus! {

/// The direction of a pin edge.
#[derive(Debug, Clone, Copy, PartialEq, Eq, Structural)]
pub enum EdgeKind {
    Rising,
    Falling,
}

/// Whether a pin is active after `edge`: a rising edge activates an active-high pin, a
/// falling edge an active-low one.
pub open spec fn active_after(edge: EdgeKind, active_high: bool) -> bool {
    if active_high {
        edge == EdgeKind::Rising
    } else {
        edge == EdgeKind::Falling
    }
}

/// Whether a pin is active after `edge`.
pub fn pin_active_after_edge(edge: EdgeKind, active_high: bool) -> (r: bool)
    ensures
        r == active_after(edge, active_high),
{
    if active_high {
        edge == EdgeKind::Rising
    } else {
        edge == EdgeKind::Falling
    }
}

/// The index of the last configured entry for `pin`, if any: a later entry for the same
/// pin replaces an earlier one.
pub open spec fn last_entry_for(pins: Seq<crate::types::GpioPinConfig>, pin: u32, i: int) -> bool {
    &&& 0 <= i < pins.len()
    &&& pins[i].pin == pin
    &&& forall|k: int| i < k < pins.len() ==> #[trigger] pins[k].pin != pin
}

/// Whether configured `pin` is active high, by its last configuration entry; `None` when
/// the pin is not configured.
pub fn pin_active_high(config: &GpioConfig, pin: u32) -> (r: Option<bool>)
    ensures
        r is None <==> forall|k: int| 0 <= k < config.pins@.len() ==> #[trigger] config.pins@[k].pin != pin,
        (r matches Some(h) ==> exists|i: int|
            last_entry_for(config.pins@, pin, i) && #[trigger] config.pins@[i].active_high == h),
{
    let n = config.pins.len();
    let mut k: usize = n;
    while k > 0
        invariant
            n == config.pins@.len(),
            k <= n,
            forall|j: int| k <= j < n ==> #[trigger] config.pins@[j].pin != pin,
        decreases k,
    {
        if config.pins[k - 1].pin == pin {
            assert(last_entry_for(config.pins@, pin, k - 1));
            return Some(config.pins[k - 1].active_high);
        }
        k = k - 1;
    }
    None
}

/// The displayed states of the configured pins before any edge: each pin with its name,
/// inactive, in configuration order.
pub fn initial_pin_states(config: &GpioConfig) -> (r: Vec<PinState>)
    ensures
        r@.len() == config.pins@.len(),
        forall|i: int|
            0 <= i < r@.len() ==> #[trigger] r@[i].pin == config.pins@[i].pin && r@[i].name@
                == config.pins@[i].name@ && !r@[i].active,
{
    let mut out: Vec<PinState> = Vec::new();
    let mut i: usize = 0;
    while i < config.pins.len()
        invariant
            i <= config.pins@.len(),
            out@.len() == i,
            forall|k: int|
                0 <= k < i ==> #[trigger] out@[k].pin == config.pins@[k].pin && out@[k].name@
                    == config.pins@[k].name@ && !out@[k].active,
        decreases config.pins@.len() - i,
    {
        let p = &config.pins[i];
        out.push(PinState { pin: p.pin, name: copy_string(&p.name), active: false });
        i = i + 1;
    }
    out
}

/// The trigger event of a GPIO edge at `timestamp_ns`.
pub fn gpio_trigger_event(timestamp_ns: u64) -> (r: TriggerEvent)
    ensures
        r.timestamp_ns == timestamp_ns,
        r.source@ == "gpio"@,
{
    TriggerEvent { timestamp_ns, source: owned("gpio") }
}

/// Milliseconds as nanoseconds, at most `u64::MAX`.
pub open spec fn ms_to_ns(ms: u64) -> u64 {
    if ms * 1_000_000 <= u64::MAX {
        (ms * 1_000_000) as u64
    } else {
        u64::MAX
    }
}

fn millis_to_nanos(ms: u64) -> (r: u64)
    ensures
        r == ms_to_ns(ms),
{
    match ms.checked_mul(1_000_000) {
        Some(ns) => ns,
        None => u64::MAX,
    }
}

/// What the trigger loop waits for next.
#[derive(Debug, Clone, Copy, PartialEq, Eq, Structural)]
pub enum DebounceWait {
    /// The next edge; it will emit a trigger.
    Edge,
    /// The next edge (noise) or, after `timeout_ns` without one, the end of filtering.
    EdgeOrTimeout { timeout_ns: u64 },
}

/// The debounce state of the GPIO trigger.
pub struct Debouncer {
    quiet_period_ns: u64,
    max_wait_ns: u64,
    filter_start_ns: Option<u64>,
    filtered_count: u32,
}

/// The debounce state: its timing, and while filtering, when filtering started and how
/// many edges it has dropped.
pub struct DebouncerModel {
    pub quiet_period_ns: u64,
    pub max_wait_ns: u64,
    pub filter_start_ns: Option<u64>,
    pub filtered_count: u32,
}

impl View for Debouncer {
    type V = DebouncerModel;

    closed spec fn view(&self) -> DebouncerModel {
        DebouncerModel {
            quiet_period_ns: self.quiet_period_ns,
            max_wait_ns: self.max_wait_ns,
            filter_start_ns: self.filter_start_ns,
            filtered_count: self.filtered_count,
        }
    }
}

/// Time left until the longest wait after the trigger has passed (zero once passed).
pub open spec fn remaining_wait(d: DebouncerModel, start: u64, now_ns: u64) -> u64 {
    let elapsed = if now_ns >= start {
        now_ns - start
    } else {
        0
    };
    if d.max_wait_ns >= elapsed {
        (d.max_wait_ns - elapsed) as u64
    } else {
        0
    }
}

impl Debouncer {
    /// Ready for a trigger, with the configured timing.
    pub fn new(config: &GpioDebounceConfig) -> (r: Self)
        ensures
            r@.quiet_period_ns == ms_to_ns(config.quiet_period_ms),
            r@.max_wait_ns == ms_to_ns(config.max_wait_ms),
            r@.filter_start_ns is None,
            r@.filtered_count == 0,
    {
        Debouncer {
            quiet_period_ns: millis_to_nanos(config.quiet_period_ms),
            max_wait_ns: millis_to_nanos(config.max_wait_ms),
            filter_start_ns: None,
            filtered_count: 0,
        }
    }

    /// Whether edges are being filtered as noise.
    pub fn is_filtering(&self) -> (r: bool)
        ensures
            r == self@.filter_start_ns is Some,
    {
        self.filter_start_ns.is_some()
    }

    /// Edges dropped since the last trigger.
    pub fn filtered_count(&self) -> (r: u32)
        ensures
            r == self@.filtered_count,
    {
        self.filtered_count
    }

    /// What to wait for at monotonic time `now_ns`. When ready, the next edge. When
    /// filtering and the longest wait has passed, filtering ends and it is the next edge.
    /// Otherwise the next edge or a timeout of the quiet period, cut to the time left of
    /// the longest wait.
    pub fn next_wait(&mut self, now_ns: u64) -> (r: DebounceWait)
        ensures
            final(self)@.quiet_period_ns == old(self)@.quiet_period_ns,
            final(self)@.max_wait_ns == old(self)@.max_wait_ns,
            match old(self)@.filter_start_ns {
                None => r == DebounceWait::Edge && final(self)@ == old(self)@,
                Some(start) => {
                    let rem = remaining_wait(old(self)@, start, now_ns);
                    if rem == 0 {
                        &&& r == DebounceWait::Edge
                        &&& final(self)@.filter_start_ns is None
                        &&& final(self)@.filtered_count == 0
                    } else {
                        &&& r == (DebounceWait::EdgeOrTimeout {
                            timeout_ns: if old(self)@.quiet_period_ns <= rem {
                                old(self)@.quiet_period_ns
                            } else {
                                rem
                            },
                        })
                        &&& final(self)@ == old(self)@
                    }
                },
            },
    {
        match self.filter_start_ns {
            None => DebounceWait::Edge,
            Some(start) => {
                let elapsed = now_ns.saturating_sub(start);
                let remaining = self.max_wait_ns.saturating_sub(elapsed);
                if remaining == 0 {
                    self.filter_start_ns = None;
                    self.filtered_count = 0;
                    DebounceWait::Edge
                } else {
                    let wait = if self.quiet_period_ns <= remaining {
                        self.quiet_period_ns
                    } else {
                        remaining
                    };
                    DebounceWait::EdgeOrTimeout { timeout_ns: wait }
                }
            },
        }
    }

    /// An edge at monotonic time `now_ns`. Returns whether it emits a trigger: it does
    /// when ready, and filtering then starts; while filtering it is counted as noise.
    pub fn on_edge(&mut self, now_ns: u64) -> (r: bool)
        ensures
            r == old(self)@.filter_start_ns is None,
            final(self)@.quiet_period_ns == old(self)@.quiet_period_ns,
            final(self)@.max_wait_ns == old(self)@.max_wait_ns,
            r ==> final(self)@.filter_start_ns == Some(now_ns) && final(self)@.filtered_count
                == 0,
            !r ==> final(self)@.filter_start_ns == old(self)@.filter_start_ns
                && final(self)@.filtered_count as int == (old(self)@.filtered_count + 1) % 0x1_0000_0000,
    {
        match self.filter_start_ns {
            None => {
                self.filter_start_ns = Some(now_ns);
                self.filtered_count = 0;
                true
            },
            Some(_) => {
                self.filtered_count = self.filtered_count.wrapping_add(1);
                false
            },
        }
    }

    /// The wait of `EdgeOrTimeout` ran out without an edge: filtering ends.
    pub fn on_timeout(&mut self)
        ensures
            final(self)@ == (DebouncerModel {
                filter_start_ns: None,
                filtered_count: 0,
                ..old(self)@
            }),
    {
        self.filter_start_ns = None;
        self.filtered_count = 0;
    }
}

} // verus!
