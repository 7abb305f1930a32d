use speedskating_backend::lap_timer::{LapController, LapTimerEvent, SwitchState};
use speedskating_backend::simulator::{
    classify_token, parse_sequence, simulator_trigger_event, split_tokens, SimStep, SimulatorError,
};
use speedskating_backend::system::{ping_response, ping_response_at};
use speedskating_backend::tui::{
    error_entry, finished_lap_display, header_help, lap_displays, push_log, service_subject,
    shown_message, should_refresh_history, sort_by_total, toggle_command, upsert_lap,
    LapDisplay, LogEntry,
};
use speedskating_backend::types::{LapDetail, LapEvent, LapEventType, StopwatchState};
use std::collections::VecDeque;

fn falling(ts: u64) -> SwitchState {
    SwitchState { timestamp_ms: ts, value: false }
}

#[test]
fn lap_controller_first_falling_edge_starts_lap() {
    let mut c = LapController::new();
    assert!(c.last_switch_state().is_none());
    let rising = SwitchState { timestamp_ms: 5, value: true };
    assert!(c.update_switch_state_at(rising, 100, 0, "x".to_string()).is_none());
    assert_eq!(c.last_switch_state(), Some(rising));
    let ev = c.update_switch_state_at(falling(10), 200, 0, "lap1".to_string()).unwrap();
    assert_eq!(ev.len(), 1);
    match &ev[0] {
        LapTimerEvent::Started(s) => {
            assert_eq!(s.id, "lap1");
            assert_eq!(s.timestamp_ms, 200);
        }
        _ => panic!("expected start"),
    }
}

#[test]
fn lap_controller_debounces_and_finishes() {
    let mut c = LapController::new();
    c.update_switch_state_at(falling(1_000), 1, 0, "a".to_string()).unwrap();
    assert!(c.update_switch_state_at(falling(1_500), 2, 2_999_999_999, "b".to_string()).is_none());
    let ev = c.update_switch_state_at(falling(4_200), 3, 3_000_000_000, "c".to_string()).unwrap();
    assert_eq!(ev.len(), 2);
    match &ev[0] {
        LapTimerEvent::Finished(f) => {
            assert_eq!(f.id, "a");
            assert_eq!(f.duration_ms, 3_200);
            assert_eq!(f.timestamp_ms, 3);
        }
        _ => panic!("expected finish"),
    }
    match &ev[1] {
        LapTimerEvent::Started(s) => assert_eq!(s.id, "c"),
        _ => panic!("expected start"),
    }
}

#[test]
fn lap_controller_reset() {
    let mut c = LapController::new();
    assert!(c.reset_lap_at(5).is_none());
    c.update_switch_state_at(falling(1), 1, 0, "a".to_string()).unwrap();
    let ev = c.reset_lap_at(77).unwrap();
    match &ev[0] {
        LapTimerEvent::Aborted(a) => {
            assert_eq!(a.id, "a");
            assert_eq!(a.timestamp_ms, 77);
        }
        _ => panic!("expected abort"),
    }
    assert!(c.reset_lap().is_none());
    let started = c.update_switch_state(falling(2)).unwrap();
    assert_eq!(started.len(), 1);
    let started_id = match &started[0] {
        LapTimerEvent::Started(s) => s.id.clone(),
        _ => panic!("expected start"),
    };
    let aborted = c.reset_lap().unwrap();
    assert_eq!(aborted.len(), 1);
    match &aborted[0] {
        LapTimerEvent::Aborted(a) => assert_eq!(a.id, started_id),
        _ => panic!("expected abort"),
    }
    assert!(c.reset_lap().is_none());
}

#[test]
fn simulator_tokens() {
    assert_eq!(split_tokens("  arm 1.4s\ttrigger\n reset  "), vec!["arm", "1.4s", "trigger", "reset"]);
    assert!(split_tokens(" \u{3000} ").is_empty());
    assert_eq!(classify_token("8.4s"), SimStep::Wait { seconds: "8.4".to_string() });
    assert_eq!(classify_token("s"), SimStep::Unknown { token: "s".to_string() });
    assert_eq!(classify_token("trigger"), SimStep::Trigger);
    assert_eq!(classify_token("arm"), SimStep::Arm);
    assert_eq!(classify_token("unarm"), SimStep::Unarm);
    assert_eq!(classify_token("reset"), SimStep::Reset);
    assert_eq!(classify_token("jump"), SimStep::Unknown { token: "jump".to_string() });
    let steps = parse_sequence("arm 1s trigger 3.3s trigger reset 5s unarm").unwrap();
    assert_eq!(steps.len(), 8);
    assert_eq!(steps[1], SimStep::Wait { seconds: "1".to_string() });
    assert_eq!(parse_sequence("   "), Err(SimulatorError::EmptySequence));
    assert_eq!(SimulatorError::EmptySequence.message(), "Simulator sequence is empty");
    let t = simulator_trigger_event(3);
    assert_eq!(t.source, "simulator");
}

#[test]
fn ping_answers() {
    assert_eq!(ping_response_at(12).server_time_ns, 12);
    let _ = ping_response();
}

#[test]
fn tui_subjects_and_commands() {
    assert_eq!(service_subject("get_run"), "stopwatch.v1.get_run");
    assert_eq!(toggle_command(Some(StopwatchState::Armed)), "unarm");
    assert_eq!(toggle_command(Some(StopwatchState::Running)), "unarm");
    assert_eq!(toggle_command(Some(StopwatchState::Disarmed)), "arm");
    assert_eq!(toggle_command(None), "arm");
    assert_eq!(header_help(true), "[T]rigger [A]rm/Unarm [R]eset [X]tick:ON [Q]uit");
    assert_eq!(header_help(false), "[T]rigger [A]rm/Unarm [R]eset [X]tick:OFF [Q]uit");
}

#[test]
fn tui_history_refresh() {
    let (d, a, r) = (StopwatchState::Disarmed, StopwatchState::Armed, StopwatchState::Running);
    assert!(should_refresh_history(Some(r), Some(1), d, None));
    assert!(should_refresh_history(Some(r), Some(1), a, None));
    assert!(!should_refresh_history(Some(a), None, a, None));
    assert!(!should_refresh_history(None, Some(1), d, None));
    assert!(!should_refresh_history(Some(a), None, r, Some(2)));
}

fn shown(l: u32, t: u64, total: u64) -> LapDisplay {
    LapDisplay { lap: l, time_ns: t, total_ns: total }
}

#[test]
fn tui_lap_list() {
    let details = vec![LapDetail { lap: 1, lap_time_ns: 5, total_time_ns: 5, timestamp_ns: Some(9) }];
    let shown_laps = lap_displays(&details);
    assert_eq!(shown_laps, vec![shown(1, 5, 5)]);
    let mut laps = vec![shown(1, 5, 5), shown(2, 4, 9)];
    upsert_lap(&mut laps, shown(1, 6, 6));
    assert_eq!(laps, vec![shown(1, 6, 6), shown(2, 4, 9)]);
    upsert_lap(&mut laps, shown(3, 1, 7));
    assert_eq!(laps, vec![shown(1, 6, 6), shown(3, 1, 7), shown(2, 4, 9)]);
    let sorted = sort_by_total(&vec![shown(7, 0, 3), shown(8, 0, 1), shown(9, 0, 3)]);
    assert_eq!(sorted, vec![shown(8, 0, 1), shown(7, 0, 3), shown(9, 0, 3)]);
}

#[test]
fn tui_lap_events() {
    let finish = LapEvent {
        event_type: LapEventType::Finish,
        run_id: 4,
        lap: 4,
        lap_time_ns: Some(11),
        total_time_ns: 30,
        server_time_ns: 0,
    };
    assert_eq!(finished_lap_display(&finish, Some(4)), Some(shown(4, 11, 30)));
    assert_eq!(finished_lap_display(&finish, Some(5)), None);
    assert_eq!(finished_lap_display(&finish, None), None);
    let start = LapEvent { event_type: LapEventType::Start, lap_time_ns: None, ..finish };
    assert_eq!(finished_lap_display(&start, Some(4)), None);
}

#[test]
fn tui_log_panel() {
    let mut logs: VecDeque<LogEntry> = VecDeque::new();
    for i in 0..105 {
        push_log(&mut logs, error_entry(format!("m{}", i)));
    }
    assert_eq!(logs.len(), 100);
    assert_eq!(logs.front().unwrap().message, "m5");
    assert_eq!(logs.back().unwrap().level, "ERROR");
    assert_eq!(shown_message("short"), "short");
    let long = "x".repeat(70);
    assert_eq!(shown_message(&long), format!("{}...", "x".repeat(57)));
}
