use speedskating_backend::stopwatch::{invalid_request, run_not_found, Stopwatch, MAX_LAP_DURATION_NS};
use speedskating_backend::types::{ErrorResponse, LapEventType, StopwatchState, TriggerEvent};

fn trigger(ts: u64) -> TriggerEvent {
    TriggerEvent { timestamp_ns: ts, source: "test".to_string() }
}

#[test]
fn new_stopwatch_is_disarmed_without_run() {
    let sw = Stopwatch::new();
    let s = sw.snapshot_at(42);
    assert_eq!(s.state, StopwatchState::Disarmed);
    assert_eq!(s.run_id, None);
    assert_eq!(s.elapsed_ns, 0);
    assert_eq!(s.server_time_ns, 42);
    assert_eq!(s.lap_count, 0);
    assert!(!s.running);
    let d = Stopwatch::default();
    assert_eq!(d.state(), StopwatchState::Disarmed);
}

#[test]
fn arm_only_from_disarmed() {
    let mut sw = Stopwatch::new();
    let s = sw.arm().unwrap();
    assert_eq!(s.state, StopwatchState::Armed);
    assert!(!s.running);
    let e = sw.arm().unwrap_err();
    assert_eq!(e.error, "Cannot arm from Armed state");
    assert_eq!(e.code, "INVALID_TRANSITION");
    assert_eq!(sw.state(), StopwatchState::Armed);
}

#[test]
fn unarm_and_reset_refused_when_disarmed() {
    let mut sw = Stopwatch::new();
    let e = sw.unarm().unwrap_err();
    assert_eq!(e.error, "Cannot unarm from Disarmed state");
    assert_eq!(e.code, "INVALID_TRANSITION");
    let e = sw.reset().unwrap_err();
    assert_eq!(e.error, "Cannot reset from Disarmed state");
    assert_eq!(sw.state(), StopwatchState::Disarmed);
}

#[test]
fn arm_then_unarm_returns_to_disarmed() {
    let mut sw = Stopwatch::new();
    sw.arm().unwrap();
    let s = sw.unarm().unwrap();
    assert_eq!(s.state, StopwatchState::Disarmed);
    assert_eq!(sw.list_runs(10, 0).total, 0);
}

#[test]
fn trigger_ignored_when_disarmed() {
    let mut sw = Stopwatch::new();
    assert!(sw.apply_trigger(&trigger(1_000), 5).is_none());
    assert!(sw.handle_trigger(&trigger(1_000)).is_none());
    assert_eq!(sw.state(), StopwatchState::Disarmed);
}

#[test]
fn first_trigger_starts_run_one() {
    let mut sw = Stopwatch::new();
    sw.arm().unwrap();
    let (snap, events) = sw.apply_trigger(&trigger(1_000), 1_500).unwrap();
    assert_eq!(snap.state, StopwatchState::Running);
    assert_eq!(snap.run_id, Some(1));
    assert_eq!(snap.elapsed_ns, 0);
    assert_eq!(snap.lap_count, 0);
    assert_eq!(snap.server_time_ns, 1_500);
    assert!(snap.running);
    assert_eq!(events.len(), 1);
    assert_eq!(events[0].event_type, LapEventType::Start);
    assert_eq!(events[0].run_id, 1);
    assert_eq!(events[0].lap, 1);
    assert_eq!(events[0].lap_time_ns, None);
    assert_eq!(events[0].total_time_ns, 0);
    assert_eq!(events[0].server_time_ns, 1_500);
}

#[test]
fn running_trigger_finishes_and_starts_lap() {
    let mut sw = Stopwatch::new();
    sw.arm().unwrap();
    sw.apply_trigger(&trigger(1_000), 0).unwrap();
    let (snap, events) = sw.apply_trigger(&trigger(4_000), 9).unwrap();
    assert_eq!(snap.elapsed_ns, 3_000);
    assert_eq!(snap.lap_count, 1);
    assert_eq!(events.len(), 2);
    assert_eq!(events[0].event_type, LapEventType::Finish);
    assert_eq!(events[0].lap, 1);
    assert_eq!(events[0].lap_time_ns, Some(3_000));
    assert_eq!(events[0].server_time_ns, 9);
    assert_eq!(events[0].total_time_ns, 3_000);
    assert_eq!(events[1].event_type, LapEventType::Start);
    assert_eq!(events[1].lap, 2);
    assert_eq!(events[1].lap_time_ns, None);
    assert_eq!(events[1].total_time_ns, 3_000);
    assert_eq!(events[1].server_time_ns, 9);
}

#[test]
fn long_lap_time_is_capped() {
    let mut sw = Stopwatch::new();
    sw.arm().unwrap();
    sw.apply_trigger(&trigger(1), 0).unwrap();
    let (_, events) = sw.apply_trigger(&trigger(1 + 200_000_000_000), 0).unwrap();
    assert_eq!(events[0].lap_time_ns, Some(MAX_LAP_DURATION_NS));
    assert_eq!(events[0].total_time_ns, 200_000_000_000);
}

#[test]
fn run_started_at_time_zero_reports_no_elapsed_time() {
    let mut sw = Stopwatch::new();
    sw.arm().unwrap();
    sw.apply_trigger(&trigger(0), 0).unwrap();
    let (snap, events) = sw.apply_trigger(&trigger(500), 0).unwrap();
    assert_eq!(snap.elapsed_ns, 0);
    assert_eq!(events[0].lap_time_ns, Some(500));
    assert_eq!(events[0].total_time_ns, 0);
}

#[test]
fn handle_trigger_numbers_laps_from_one() {
    let mut sw = Stopwatch::new();
    sw.arm().unwrap();
    let (snap, events) = sw.handle_trigger(&trigger(10)).unwrap();
    assert_eq!(events[0].lap, 1);
    assert_eq!(events[0].server_time_ns, snap.server_time_ns);
    let (_, events2) = sw.handle_trigger(&trigger(20)).unwrap();
    assert_eq!(events2[0].lap, 1);
    assert_eq!(events2[1].lap, 2);
    let (snap3, events3) = sw.handle_trigger(&trigger(30)).unwrap();
    assert_eq!(events3[0].lap, 2);
    assert_eq!(events3[1].lap, 3);
    assert_eq!(events3[1].server_time_ns, snap3.server_time_ns);
    assert_eq!(snap3.lap_count, 2);
}

#[test]
fn unarm_while_running_archives_run() {
    let mut sw = Stopwatch::new();
    sw.arm().unwrap();
    sw.apply_trigger(&trigger(1_000), 0).unwrap();
    sw.apply_trigger(&trigger(2_500), 0).unwrap();
    sw.apply_trigger(&trigger(4_000), 0).unwrap();
    let s = sw.unarm().unwrap();
    assert_eq!(s.state, StopwatchState::Disarmed);
    assert_eq!(s.run_id, None);
    let list = sw.list_runs(100, 0);
    assert_eq!(list.total, 1);
    assert_eq!(list.runs.len(), 1);
    let r = list.runs[0];
    assert_eq!(r.run_id, 1);
    assert_eq!(r.start_time_ns, 1_000);
    assert_eq!(r.end_time_ns, Some(4_000));
    assert_eq!(r.total_time_ns, 3_000);
    assert_eq!(r.lap_count, 2);
}

#[test]
fn get_run_lists_finished_laps_with_running_totals() {
    let mut sw = Stopwatch::new();
    sw.arm().unwrap();
    sw.apply_trigger(&trigger(1_000), 0).unwrap();
    sw.apply_trigger(&trigger(2_500), 0).unwrap();
    sw.apply_trigger(&trigger(4_000), 0).unwrap();
    sw.reset().unwrap();
    let run = sw.get_run(1).unwrap();
    assert_eq!(run.run_id, 1);
    assert_eq!(run.lap_count, 2);
    assert_eq!(run.total_time_ns, 3_000);
    assert_eq!(run.laps.len(), 2);
    assert_eq!(run.laps[0].lap, 1);
    assert_eq!(run.laps[0].lap_time_ns, 1_500);
    assert_eq!(run.laps[0].total_time_ns, 1_500);
    assert_eq!(run.laps[0].timestamp_ns, Some(2_500));
    assert_eq!(run.laps[1].lap, 2);
    assert_eq!(run.laps[1].lap_time_ns, 1_500);
    assert_eq!(run.laps[1].total_time_ns, 3_000);
    assert_eq!(run.laps[1].timestamp_ns, Some(4_000));
    assert!(sw.get_run(2).is_none());
}

#[test]
fn get_laps_pages_through_laps() {
    let mut sw = Stopwatch::new();
    sw.arm().unwrap();
    for ts in [100u64, 200, 350, 600, 1_000].iter() {
        sw.apply_trigger(&trigger(*ts), 0).unwrap();
    }
    sw.unarm().unwrap();
    let page = sw.get_laps(1, 2, 1).unwrap();
    assert_eq!(page.run_id, 1);
    assert_eq!(page.total, 4);
    assert_eq!(page.laps.len(), 2);
    assert_eq!(page.laps[0].lap, 2);
    assert_eq!(page.laps[0].lap_time_ns, 150);
    assert_eq!(page.laps[0].total_time_ns, 250);
    assert_eq!(page.laps[1].lap, 3);
    let beyond = sw.get_laps(1, 10, 7).unwrap();
    assert_eq!(beyond.laps.len(), 0);
    assert_eq!(beyond.total, 4);
    assert!(sw.get_laps(9, 10, 0).is_none());
}

#[test]
fn reset_archives_and_rearms() {
    let mut sw = Stopwatch::new();
    sw.arm().unwrap();
    sw.apply_trigger(&trigger(10), 0).unwrap();
    let s = sw.reset().unwrap();
    assert_eq!(s.state, StopwatchState::Armed);
    assert_eq!(s.run_id, None);
    let s2 = sw.reset().unwrap();
    assert_eq!(s2.state, StopwatchState::Armed);
    assert_eq!(sw.list_runs(10, 0).total, 1);
    let (snap, _) = sw.apply_trigger(&trigger(50), 0).unwrap();
    assert_eq!(snap.run_id, Some(2));
}

#[test]
fn list_runs_pagination() {
    let mut sw = Stopwatch::new();
    for k in 0..5u64 {
        sw.arm().unwrap();
        sw.apply_trigger(&trigger(100 * (k + 1)), 0).unwrap();
        sw.apply_trigger(&trigger(100 * (k + 1) + 7), 0).unwrap();
        sw.unarm().unwrap();
    }
    let page = sw.list_runs(2, 1);
    assert_eq!(page.total, 5);
    assert_eq!(page.runs.len(), 2);
    assert_eq!(page.runs[0].run_id, 2);
    assert_eq!(page.runs[1].run_id, 3);
    assert_eq!(page.runs[0].total_time_ns, 7);
    let tail = sw.list_runs(10, 4);
    assert_eq!(tail.runs.len(), 1);
    assert_eq!(tail.runs[0].run_id, 5);
    assert_eq!(sw.list_runs(0, 0).runs.len(), 0);
    assert_eq!(sw.list_runs(3, 9).runs.len(), 0);
}

#[test]
fn run_with_single_lap_has_no_end() {
    let mut sw = Stopwatch::new();
    sw.arm().unwrap();
    sw.apply_trigger(&trigger(10), 0).unwrap();
    sw.unarm().unwrap();
    let r = sw.list_runs(1, 0).runs[0];
    assert_eq!(r.end_time_ns, None);
    assert_eq!(r.total_time_ns, 0);
    assert_eq!(r.lap_count, 0);
    assert_eq!(sw.get_run(1).unwrap().laps.len(), 0);
}

#[test]
fn timeout_reset_aborts_running_lap() {
    let mut sw = Stopwatch::new();
    assert!(sw.timeout_reset().is_none());
    sw.arm().unwrap();
    assert!(sw.timeout_reset().is_none());
    sw.apply_trigger(&trigger(10), 0).unwrap();
    sw.apply_trigger(&trigger(30), 0).unwrap();
    let s = sw.timeout_reset().unwrap();
    assert_eq!(s.state, StopwatchState::Armed);
    assert_eq!(s.run_id, None);
    let r = sw.get_run(1).unwrap();
    assert_eq!(r.lap_count, 1);
    assert_eq!(r.laps.len(), 1);
}

#[test]
fn tick_update_reports_time_since_run_start() {
    let mut sw = Stopwatch::new();
    assert!(sw.tick_update_at(5).is_none());
    sw.arm().unwrap();
    assert!(sw.tick_update_at(5).is_none());
    sw.apply_trigger(&trigger(1_000), 0).unwrap();
    sw.apply_trigger(&trigger(2_000), 0).unwrap();
    let t = sw.tick_update_at(2_750).unwrap();
    assert_eq!(t.elapsed_ns, 1_750);
    assert_eq!(t.server_time_ns, 2_750);
    assert_eq!(t.lap_id, 2);
    let within_first_lap = sw.tick_update_at(1_500).unwrap();
    assert_eq!(within_first_lap.elapsed_ns, 500);
    let before_start = sw.tick_update_at(900).unwrap();
    assert_eq!(before_start.elapsed_ns, 0);
    assert!(sw.tick_update().is_some());
}

#[test]
fn auto_trigger_deadline_and_wait() {
    let mut sw = Stopwatch::new();
    assert_eq!(sw.auto_trigger_deadline(), None);
    sw.arm().unwrap();
    sw.apply_trigger(&trigger(1_000), 0).unwrap();
    assert_eq!(sw.auto_trigger_deadline(), Some(1_000 + MAX_LAP_DURATION_NS));
    assert_eq!(sw.auto_trigger_wait(1_000), Some(MAX_LAP_DURATION_NS));
    assert_eq!(sw.auto_trigger_wait(u64::MAX), Some(0));
}

#[test]
fn snapshot_uses_last_trigger_not_clock() {
    let mut sw = Stopwatch::new();
    sw.arm().unwrap();
    sw.apply_trigger(&trigger(1_000), 0).unwrap();
    sw.apply_trigger(&trigger(1_900), 0).unwrap();
    let s = sw.snapshot_at(1_000_000);
    assert_eq!(s.elapsed_ns, 900);
    assert_eq!(s.lap_count, 1);
    let now = sw.snapshot();
    assert_eq!(now.elapsed_ns, 900);
}

#[test]
fn history_error_answers() {
    let e: ErrorResponse = run_not_found();
    assert_eq!(e.error, "Run not found");
    assert_eq!(e.code, "NOT_FOUND");
    let b = invalid_request();
    assert_eq!(b.error, "Invalid request");
    assert_eq!(b.code, "BAD_REQUEST");
}
