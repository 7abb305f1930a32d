//! Hardware setup mode: live GPIO pin states for aligning IR sensor pairs.
//!
//! The GPIO trigger owns the pins and keeps their displayed states here; the setup
//! service arms and disarms the live display.

pub mod laws;
pub mod subjects;

use vstd::prelude::*;
use crate::text::copy_string;
use crate::trigger::gpio::{active_after, initial_pin_states, EdgeKind};
use crate::types::{GpioConfig, HardwareSetupState, PinState};

verus! {

/// A pin state as plain values: pin number, name and whether it is active.
pub struct PinStateView {
    pub pin: u32,
    pub name: Seq<char>,
    pub active: bool,
}

impl View for PinState {
    type V = PinStateView;

    open spec fn view(&self) -> PinStateView {
        PinStateView { pin: self.pin, name: self.name@, active: self.active }
    }
}

/// The views of a sequence of pin states.
pub open spec fn pin_views(s: Seq<PinState>) -> Seq<PinStateView> {
    s.map_values(|p: PinState| p@)
}

/// A copy of a list of pin states.
pub fn copy_pins(pins: &Vec<PinState>) -> (r: Vec<PinState>)
    ensures
        pin_views(r@) == pin_views(pins@),
{
    let mut out: Vec<PinState> = Vec::new();
    let mut i: usize = 0;
    while i < pins.len()
        invariant
            i <= pins@.len(),
            out@.len() == i,
            forall|k: int| 0 <= k < i ==> #[trigger] out@[k]@ == pins@[k]@,
        decreases pins@.len() - i,
    {
        let p = &pins[i];
        out.push(PinState { pin: p.pin, name: copy_string(&p.name), active: p.active });
        i = i + 1;
    }
    assert(pin_views(out@) =~= pin_views(pins@));
    out
}

/// Whether `k` is the first entry of `pin`.
pub open spec fn is_first_entry_of(pins: Seq<PinStateView>, pin: u32, k: int) -> bool {
    &&& 0 <= k < pins.len()
    &&& pins[k].pin == pin
    &&& forall|j: int| 0 <= j < k ==> #[trigger] pins[j].pin != pin
}

/// The pin states after an edge on `pin`: the first entry for that pin takes the state
/// the edge gives; all others are kept.
pub open spec fn pins_after_edge(
    pins: Seq<PinStateView>,
    pin: u32,
    edge: EdgeKind,
    active_high: bool,
) -> Seq<PinStateView> {
    Seq::new(
        pins.len(),
        |k: int|
            if is_first_entry_of(pins, pin, k) {
                PinStateView { active: active_after(edge, active_high), ..pins[k] }
            } else {
                pins[k]
            },
    )
}

/// The shared setup state: whether setup mode is armed, the pin states, and whether
/// GPIO pins are available at all.
#[derive(Debug)]
pub struct HardwareSetupService {
    pub armed: bool,
    pub pins: Vec<PinState>,
    pub gpio_available: bool,
}

impl Default for HardwareSetupService {
    /// Disarmed, no pins, no GPIO.
    fn default() -> (r: Self)
        ensures
            !r.armed,
            r.pins@.len() == 0,
            !r.gpio_available,
    {
        HardwareSetupService { armed: false, pins: Vec::new(), gpio_available: false }
    }
}

impl HardwareSetupService {
    /// The answer to an arm request. Without GPIO: not armed, no pins, and nothing
    /// changes. With GPIO: setup mode is armed and the answer holds the pin states.
    pub fn arm(&mut self) -> (r: HardwareSetupState)
        ensures
            final(self).gpio_available == old(self).gpio_available,
            pin_views(final(self).pins@) == pin_views(old(self).pins@),
            !old(self).gpio_available ==> final(self).armed == old(self).armed && !r.armed
                && r.pins@.len() == 0,
            old(self).gpio_available ==> final(self).armed && r.armed && pin_views(r.pins@)
                == pin_views(old(self).pins@),
    {
        if !self.gpio_available {
            return HardwareSetupState { armed: false, pins: Vec::new() };
        }
        self.armed = true;
        HardwareSetupState { armed: true, pins: copy_pins(&self.pins) }
    }

    /// The answer to a disarm request: setup mode is disarmed; the answer holds the pin
    /// states.
    pub fn disarm(&mut self) -> (r: HardwareSetupState)
        ensures
            !final(self).armed,
            final(self).gpio_available == old(self).gpio_available,
            pin_views(final(self).pins@) == pin_views(old(self).pins@),
            !r.armed,
            pin_views(r.pins@) == pin_views(old(self).pins@),
    {
        self.armed = false;
        HardwareSetupState { armed: false, pins: copy_pins(&self.pins) }
    }

    /// The state to publish on the live feed: only while armed with GPIO available.
    pub fn live_state(&self) -> (r: Option<HardwareSetupState>)
        ensures
            r is Some <==> self.armed && self.gpio_available,
            (r matches Some(s) ==> s.armed && pin_views(s.pins@) == pin_views(self.pins@)),
    {
        if !self.armed || !self.gpio_available {
            return None;
        }
        Some(HardwareSetupState { armed: true, pins: copy_pins(&self.pins) })
    }

    /// GPIO pins came up: they are available and shown, all inactive, in configuration
    /// order.
    pub fn attach_gpio(&mut self, config: &GpioConfig)
        ensures
            final(self).gpio_available,
            final(self).armed == old(self).armed,
            final(self).pins@.len() == config.pins@.len(),
            forall|i: int|
                0 <= i < final(self).pins@.len() ==> #[trigger] final(self).pins@[i].pin
                    == config.pins@[i].pin && final(self).pins@[i].name@ == config.pins@[i].name@
                    && !final(self).pins@[i].active,
    {
        self.gpio_available = true;
        self.pins = initial_pin_states(config);
    }

    /// GPIO pins went away.
    pub fn detach_gpio(&mut self)
        ensures
            !final(self).gpio_available,
            final(self).armed == old(self).armed,
            pin_views(final(self).pins@) == pin_views(old(self).pins@),
    {
        self.gpio_available = false;
    }

    /// An edge on `pin`: the first displayed entry of that pin becomes active or
    /// inactive as the edge and the pin's polarity say; nothing else changes.
    pub fn update_pin_state(&mut self, pin: u32, edge: EdgeKind, active_high: bool)
        ensures
            final(self).armed == old(self).armed,
            final(self).gpio_available == old(self).gpio_available,
            pin_views(final(self).pins@) == pins_after_edge(
                pin_views(old(self).pins@),
                pin,
                edge,
                active_high,
            ),
    {
        let new_state = crate::trigger::gpio::pin_active_after_edge(edge, active_high);
        let ghost old_views = pin_views(self.pins@);
        let mut i: usize = 0;
        while i < self.pins.len()
            invariant
                i <= self.pins@.len(),
                old_views == pin_views(self.pins@),
                old_views == pin_views(old(self).pins@),
                self.armed == old(self).armed,
                self.gpio_available == old(self).gpio_available,
                new_state == active_after(edge, active_high),
                forall|k: int| 0 <= k < i ==> #[trigger] self.pins@[k].pin != pin,
            decreases self.pins@.len() - i,
        {
            if self.pins[i].pin == pin {
                let p = &self.pins[i];
                let updated = PinState { pin: p.pin, name: copy_string(&p.name), active: new_state };
                proof {
                    assert forall|k: int| 0 <= k < i implies #[trigger] old_views[k].pin != pin by {
                        assert(old_views[k] == self.pins@[k]@);
                        assert(self.pins@[k].pin != pin);
                    }
                    assert(is_first_entry_of(old_views, pin, i as int));
                    assert forall|k: int| 0 <= k < old_views.len() && k != i implies !is_first_entry_of(
                        old_views,
                        pin,
                        k,
                    ) by {
                        if k > i && is_first_entry_of(old_views, pin, k) {
                            assert(old_views[i as int].pin != pin);
                        }
                    }
                }
                let ghost before = self.pins@;
                assert(updated.pin == before[i as int].pin);
                assert(updated.name@ == before[i as int].name@);
                assert(updated.active == active_after(edge, active_high));
                self.pins.set(i, updated);
                assert(self.pins@ == before.update(i as int, updated));
                assert(old_views[i as int] == before[i as int]@);
                assert forall|k: int| 0 <= k < old_views.len() implies #[trigger] pin_views(self.pins@)[k]
                    == pins_after_edge(old_views, pin, edge, active_high)[k] by {
                    if k != i {
                        assert(old_views[k] == before[k]@);
                        assert(!is_first_entry_of(old_views, pin, k));
                    } else {
                        assert(pin_views(self.pins@)[k] == updated@);
                        assert(is_first_entry_of(old_views, pin, k));
                        assert(updated@ == (PinStateView { active: active_after(edge, active_high), ..old_views[k] }));
                    }
                }
                assert(pin_views(self.pins@) =~= pins_after_edge(old_views, pin, edge, active_high));
                return;
            }
            i = i + 1;
        }
        assert forall|k: int| 0 <= k < old_views.len() implies #[trigger] old_views[k].pin != pin by {
            assert(old_views[k] == self.pins@[k]@);
            assert(self.pins@[k].pin != pin);
        }
        assert(pin_views(self.pins@) =~= pins_after_edge(old_views, pin, edge, active_high));
    }
}

} // verus!
