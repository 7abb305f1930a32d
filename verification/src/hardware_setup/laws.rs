//! Properties of the displayed pin states across GPIO edges.

use vstd::prelude::*;
use crate::hardware_setup::{is_first_entry_of, pins_after_edge, PinStateView};
use crate::trigger::gpio::EdgeKind;

verus! {

/// After an edge on a pin, that pin is shown active exactly when the edge makes it
/// active: a rising edge on an active-high pin or a falling edge on an active-low pin.
/// A falling edge on an active-high pin, or a rising edge on an active-low one, shows it
/// inactive, whatever it showed before. Every other entry, and the pin's number and name,
/// are kept.
pub proof fn lemma_edge_sets_displayed_state(
    pins: Seq<PinStateView>,
    pin: u32,
    edge: EdgeKind,
    active_high: bool,
    k: int,
)
    requires
        is_first_entry_of(pins, pin, k),
    ensures
        pins_after_edge(pins, pin, edge, active_high).len() == pins.len(),
        pins_after_edge(pins, pin, edge, active_high)[k].pin == pin,
        pins_after_edge(pins, pin, edge, active_high)[k].name == pins[k].name,
        active_high && edge == EdgeKind::Rising ==> pins_after_edge(pins, pin, edge, active_high)[k].active,
        active_high && edge == EdgeKind::Falling ==> !pins_after_edge(pins, pin, edge, active_high)[k].active,
        !active_high && edge == EdgeKind::Falling ==> pins_after_edge(pins, pin, edge, active_high)[k].active,
        !active_high && edge == EdgeKind::Rising ==> !pins_after_edge(pins, pin, edge, active_high)[k].active,
        forall|j: int|
            0 <= j < pins.len() && j != k ==> #[trigger] pins_after_edge(pins, pin, edge, active_high)[j]
                == pins[j],
{
    assert forall|j: int| 0 <= j < pins.len() && j != k implies #[trigger] pins_after_edge(
        pins,
        pin,
        edge,
        active_high,
    )[j] == pins[j] by {
        if is_first_entry_of(pins, pin, j) {
            if j < k {
                assert(pins[j].pin != pin);
            } else {
                assert(pins[k].pin != pin);
            }
        }
    }
}

/// The state an edge leaves does not depend on the state shown before it: two displays
/// that differ only in whether the pin is shown active show the same after the edge.
pub proof fn lemma_edge_forgets_previous_state(
    pins: Seq<PinStateView>,
    pin: u32,
    edge: EdgeKind,
    active_high: bool,
    k: int,
    shown: bool,
)
    requires
        is_first_entry_of(pins, pin, k),
    ensures
        pins_after_edge(pins.update(k, PinStateView { active: shown, ..pins[k] }), pin, edge, active_high)
            == pins_after_edge(pins, pin, edge, active_high),
{
    let other = pins.update(k, PinStateView { active: shown, ..pins[k] });
    assert forall|j: int| 0 <= j < pins.len() implies #[trigger] is_first_entry_of(other, pin, j)
        == is_first_entry_of(pins, pin, j) by {
        if j != k {
            if is_first_entry_of(pins, pin, j) && j > k {
                assert(pins[k].pin != pin);
            }
            if is_first_entry_of(other, pin, j) && j > k {
                assert(other[k].pin != pin);
            }
        }
    }
    assert(pins_after_edge(other, pin, edge, active_high) =~= pins_after_edge(pins, pin, edge, active_high));
}

/// A beam broken and cleared again: on an active-high pin a rising edge shows it active
/// and the falling edge after it shows it inactive again (and the other way round for an
/// active-low pin), so a pin is never left latched active.
pub proof fn lemma_break_then_clear_shows_inactive(
    pins: Seq<PinStateView>,
    pin: u32,
    active_high: bool,
    k: int,
)
    requires
        is_first_entry_of(pins, pin, k),
    ensures
        ({
            let (on, off) = if active_high {
                (EdgeKind::Rising, EdgeKind::Falling)
            } else {
                (EdgeKind::Falling, EdgeKind::Rising)
            };
            let broken = pins_after_edge(pins, pin, on, active_high);
            &&& broken[k].active
            &&& !pins_after_edge(broken, pin, off, active_high)[k].active
        }),
{
    let on = if active_high { EdgeKind::Rising } else { EdgeKind::Falling };
    let off = if active_high { EdgeKind::Falling } else { EdgeKind::Rising };
    lemma_edge_sets_displayed_state(pins, pin, on, active_high, k);
    let broken = pins_after_edge(pins, pin, on, active_high);
    assert(is_first_entry_of(broken, pin, k)) by {
        assert forall|j: int| 0 <= j < k implies #[trigger] broken[j].pin != pin by {
            assert(broken[j] == pins[j]);
        }
    }
    lemma_edge_sets_displayed_state(broken, pin, off, active_high, k);
}

} // verus!
