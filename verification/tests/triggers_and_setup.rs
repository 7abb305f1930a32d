use speedskating_backend::hardware_setup::HardwareSetupService;
use speedskating_backend::lap_timer::{LapController, LapTimerEvent, SwitchState};
use speedskating_backend::trigger::gpio::{
    gpio_trigger_event, initial_pin_states, pin_active_after_edge, pin_active_high, DebounceWait,
    Debouncer, EdgeKind,
};
use speedskating_backend::trigger::keyboard::{key_triggers, keyboard_trigger_event, KeyInput};
use speedskating_backend::trigger::{mock_trigger_event, monotonic_ns_from_parts, clock_monotonic_ns};
use speedskating_backend::types::{GpioConfig, GpioDebounceConfig, GpioPinConfig};

fn config(pins: &[(u32, &str, bool)]) -> GpioConfig {
    GpioConfig {
        chip: "/dev/gpiochip0".to_string(),
        debounce: GpioDebounceConfig::default(),
        pins: pins
            .iter()
            .map(|(p, n, h)| GpioPinConfig { pin: *p, name: n.to_string(), active_high: *h })
            .collect(),
    }
}

#[test]
fn clock_parts_to_nanoseconds() {
    assert_eq!(monotonic_ns_from_parts(2, 5), 2_000_000_005);
    assert_eq!(monotonic_ns_from_parts(0, 0), 0);
    assert_eq!(monotonic_ns_from_parts(-1, 0), 0u64.wrapping_sub(1_000_000_000));
    let a = clock_monotonic_ns();
    let b = clock_monotonic_ns();
    assert!(b >= a);
}

#[test]
fn trigger_event_sources() {
    let g = gpio_trigger_event(7);
    assert_eq!((g.timestamp_ns, g.source.as_str()), (7, "gpio"));
    let k = keyboard_trigger_event(8);
    assert_eq!((k.timestamp_ns, k.source.as_str()), (8, "keyboard"));
    let m = mock_trigger_event(9);
    assert_eq!((m.timestamp_ns, m.source.as_str()), (9, "mock"));
}

#[test]
fn fresh_ids_have_nanoid_shape() {
    let mut c = LapController::new();
    let ev = c.update_switch_state(SwitchState { timestamp_ms: 1, value: false }).unwrap();
    let id = match &ev[0] {
        LapTimerEvent::Started(s) => s.id.clone(),
        _ => panic!("expected start"),
    };
    assert_eq!(id.chars().count(), 21);
    assert!(id.chars().all(|c| c == '_' || c == '-' || c.is_ascii_alphanumeric()));
}

#[test]
fn edge_polarity() {
    assert!(pin_active_after_edge(EdgeKind::Rising, true));
    assert!(!pin_active_after_edge(EdgeKind::Falling, true));
    assert!(pin_active_after_edge(EdgeKind::Falling, false));
    assert!(!pin_active_after_edge(EdgeKind::Rising, false));
}

#[test]
fn pin_lookup_takes_last_entry() {
    let c = config(&[(3, "a", true), (5, "b", false), (3, "c", false)]);
    assert_eq!(pin_active_high(&c, 3), Some(false));
    assert_eq!(pin_active_high(&c, 5), Some(false));
    assert_eq!(pin_active_high(&c, 9), None);
}

#[test]
fn initial_states_are_inactive() {
    let c = config(&[(3, "a", true), (5, "b", false)]);
    let s = initial_pin_states(&c);
    assert_eq!(s.len(), 2);
    assert_eq!((s[0].pin, s[0].name.as_str(), s[0].active), (3, "a", false));
    assert_eq!((s[1].pin, s[1].name.as_str(), s[1].active), (5, "b", false));
}

#[test]
fn debouncer_filters_after_trigger() {
    let mut d = Debouncer::new(&GpioDebounceConfig { quiet_period_ms: 200, max_wait_ms: 3000 });
    assert_eq!(d.next_wait(0), DebounceWait::Edge);
    assert!(d.on_edge(1_000));
    assert!(d.is_filtering());
    assert_eq!(d.next_wait(1_000), DebounceWait::EdgeOrTimeout { timeout_ns: 200_000_000 });
    assert!(!d.on_edge(1_100));
    assert!(!d.on_edge(1_200));
    assert_eq!(d.filtered_count(), 2);
    let near_end = 1_000 + 2_900_000_000;
    assert_eq!(d.next_wait(near_end), DebounceWait::EdgeOrTimeout { timeout_ns: 100_000_000 });
    assert_eq!(d.next_wait(1_000 + 3_000_000_000), DebounceWait::Edge);
    assert!(!d.is_filtering());
    assert_eq!(d.filtered_count(), 0);
    assert!(d.on_edge(5_000_000_000));
    d.on_timeout();
    assert!(!d.is_filtering());
    assert!(d.on_edge(5_100_000_000));
}

#[test]
fn debouncer_huge_durations_saturate() {
    let mut d = Debouncer::new(&GpioDebounceConfig { quiet_period_ms: u64::MAX, max_wait_ms: u64::MAX });
    assert!(d.on_edge(0));
    assert_eq!(d.next_wait(0), DebounceWait::EdgeOrTimeout { timeout_ns: u64::MAX });
}

#[test]
fn keyboard_matching() {
    assert!(key_triggers(KeyInput::Char('t'), true, 't'));
    assert!(!key_triggers(KeyInput::Char('t'), false, 't'));
    assert!(!key_triggers(KeyInput::Char('x'), true, 't'));
    assert!(key_triggers(KeyInput::Enter, true, '\n'));
    assert!(!key_triggers(KeyInput::Enter, true, 't'));
    assert!(key_triggers(KeyInput::Tab, true, '\t'));
    assert!(!key_triggers(KeyInput::Other, true, '\n'));
}

#[test]
fn hardware_setup_without_gpio() {
    let mut s = HardwareSetupService::default();
    let r = s.arm();
    assert!(!r.armed);
    assert!(r.pins.is_empty());
    assert!(!s.armed);
    assert!(s.live_state().is_none());
}

#[test]
fn hardware_setup_with_gpio() {
    let mut s = HardwareSetupService::default();
    s.attach_gpio(&config(&[(3, "a", true), (5, "b", false)]));
    assert!(s.gpio_available);
    assert!(s.live_state().is_none());
    let r = s.arm();
    assert!(r.armed);
    assert_eq!(r.pins.len(), 2);
    s.update_pin_state(5, EdgeKind::Falling, false);
    let live = s.live_state().unwrap();
    assert!(live.armed);
    assert!(!live.pins[0].active);
    assert!(live.pins[1].active);
    s.update_pin_state(3, EdgeKind::Rising, true);
    assert!(s.pins[0].active);
    s.update_pin_state(9, EdgeKind::Rising, true);
    let d = s.disarm();
    assert!(!d.armed);
    assert!(d.pins[0].active && d.pins[1].active);
    assert!(s.live_state().is_none());
    s.detach_gpio();
    assert!(!s.gpio_available);
}
