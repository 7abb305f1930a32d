//! Properties of the stopwatch that span its operations.

use vstd::prelude::*;
use crate::stopwatch::{
    after_arm, after_reset, after_timeout, after_trigger, after_unarm, completed_laps,
    model_wf, page, run_lap_details, run_summary, run_wf, spec_snapshot, trigger_allowed,
    trigger_events, RunModel, StopwatchModel,
};
use crate::types::{LapDetailView, LapEventType, StopwatchState};

verus! {

/// Arming a disarmed stopwatch and unarming it again gives back the same stopwatch.
pub proof fn lemma_arm_then_unarm_restores(m: StopwatchModel)
    requires
        model_wf(m),
        m.state == StopwatchState::Disarmed,
    ensures
        after_unarm(after_arm(m)) == m,
{
}

/// A trigger while disarmed changes nothing and reports nothing.
pub proof fn lemma_disarmed_ignores_triggers(m: StopwatchModel, ts: u64, now: u64)
    requires
        m.state == StopwatchState::Disarmed,
    ensures
        after_trigger(m, ts) == m,
        trigger_events(m, ts, now).len() == 0,
{
}

/// The first trigger after arming starts run `next_run_id` with lap 1 in progress and
/// no finished lap, reports the start of lap 1, and the next run will get the identifier
/// after it.
pub proof fn lemma_first_trigger_starts_run(m: StopwatchModel, ts: u64, now: u64)
    requires
        model_wf(m),
        m.state == StopwatchState::Armed,
        trigger_allowed(m, ts),
    ensures
        after_trigger(m, ts).state == StopwatchState::Running,
        after_trigger(m, ts).current_run->0.run_id == m.next_run_id,
        after_trigger(m, ts).next_run_id == m.next_run_id + 1,
        completed_laps(after_trigger(m, ts).current_run->0) == 0,
        after_trigger(m, ts).current_run->0.laps.last().lap == 1,
        after_trigger(m, ts).history == m.history,
        trigger_events(m, ts, now).len() == 1,
        trigger_events(m, ts, now)[0].event_type == LapEventType::Start,
        trigger_events(m, ts, now)[0].lap == 1,
        trigger_events(m, ts, now)[0].server_time_ns == now,
{
}

/// Each trigger while running finishes exactly one more lap of the same run: it reports
/// the finish of lap k, the lap in progress (k is one more than the laps finished so
/// far), and the start of lap k + 1, which is then in progress. The finished lap's
/// reported time is its span, capped at the longest lap time, and both events carry the
/// server time at which the trigger was handled.
pub proof fn lemma_running_trigger_adds_lap(m: StopwatchModel, ts: u64, now: u64)
    requires
        model_wf(m),
        m.state == StopwatchState::Running,
        trigger_allowed(m, ts),
    ensures
        after_trigger(m, ts).state == StopwatchState::Running,
        after_trigger(m, ts).current_run->0.run_id == m.current_run->0.run_id,
        completed_laps(after_trigger(m, ts).current_run->0) == completed_laps(m.current_run->0)
            + 1,
        trigger_events(m, ts, now).len() == 2,
        trigger_events(m, ts, now)[0].event_type == LapEventType::Finish,
        trigger_events(m, ts, now)[0].lap == completed_laps(m.current_run->0) + 1,
        trigger_events(m, ts, now)[0].lap == m.current_run->0.laps.last().lap,
        trigger_events(m, ts, now)[1].event_type == LapEventType::Start,
        trigger_events(m, ts, now)[1].lap == trigger_events(m, ts, now)[0].lap + 1,
        trigger_events(m, ts, now)[1].lap == after_trigger(m, ts).current_run->0.laps.last().lap,
        trigger_events(m, ts, now)[0].lap_time_ns->0 <= crate::stopwatch::MAX_LAP_DURATION_NS,
        trigger_events(m, ts, now)[0].total_time_ns == trigger_events(m, ts, now)[1].total_time_ns,
        trigger_events(m, ts, now)[0].server_time_ns == now,
        trigger_events(m, ts, now)[1].server_time_ns == now,
{
    let r = m.current_run->0;
    assert(r.laps[r.laps.len() - 1].lap == r.laps.len());
}

/// Every listed page of the archive names runs with strictly increasing identifiers (no
/// run is listed twice), each at least 1 and below the next run identifier, and none of
/// them is the run in progress.
pub proof fn lemma_listed_runs_are_ordered(m: StopwatchModel, offset: u32, limit: u32)
    requires
        model_wf(m),
    ensures
        ({
            let p = page(m.history.map_values(|r: RunModel| run_summary(r)), offset, limit);
            &&& forall|i: int, j: int|
                0 <= i < j < p.len() ==> #[trigger] p[i].run_id < #[trigger] p[j].run_id
            &&& forall|i: int| 0 <= i < p.len() ==> 1 <= #[trigger] p[i].run_id < m.next_run_id
            &&& forall|i: int|
                0 <= i < p.len() ==> (spec_snapshot(m, 0).run_id matches Some(id) ==> #[trigger] p[i].run_id
                    != id)
        }),
{
    let all = m.history.map_values(|r: RunModel| run_summary(r));
    let p = page(all, offset, limit);
    let start: int = if offset <= all.len() { offset as int } else { all.len() as int };
    assert forall|i: int| 0 <= i < p.len() implies #[trigger] p[i] == all[start + i] by {}
    assert forall|i: int, j: int|
        0 <= i < j < p.len() implies #[trigger] p[i].run_id < #[trigger] p[j].run_id by {
        assert(p[i] == all[start + i]);
        assert(p[j] == all[start + j]);
        assert(m.history[start + i].run_id < m.history[start + j].run_id);
    }
    assert forall|i: int| 0 <= i < p.len() implies 1 <= #[trigger] p[i].run_id < m.next_run_id by {
        assert(p[i] == all[start + i]);
        assert(run_wf(m.history[start + i]));
    }
    assert forall|i: int|
        0 <= i < p.len() implies (spec_snapshot(m, 0).run_id matches Some(id) ==> #[trigger] p[i].run_id
        != id) by {
        assert(p[i] == all[start + i]);
        if let Some(r) = m.current_run {
            assert(m.history[start + i].run_id < r.run_id);
        }
    }
}

/// A reset from Armed or Running leaves the stopwatch Armed with no run, and the run
/// that was in progress is appended to the archive exactly once.
pub proof fn lemma_reset_archives_once(m: StopwatchModel)
    requires
        model_wf(m),
        m.state != StopwatchState::Disarmed,
    ensures
        after_reset(m).state == StopwatchState::Armed,
        after_reset(m).current_run is None,
        after_reset(m).next_run_id == m.next_run_id,
        after_reset(m).history == match m.current_run {
            Some(r) => m.history.push(r),
            None => m.history,
        },
{
    if let Some(r) = m.current_run {
        assert(!crate::stopwatch::history_has_run(m.history, r.run_id)) by {
            if crate::stopwatch::history_has_run(m.history, r.run_id) {
                let i = choose|i: int| 0 <= i < m.history.len() && #[trigger] m.history[i].run_id == r.run_id;
                assert(m.history[i].run_id < r.run_id);
            }
        }
    }
}

/// Unarming and timing out both end the run in progress by appending it to the archive.
pub proof fn lemma_ending_a_run_archives_it(m: StopwatchModel)
    requires
        model_wf(m),
        m.state == StopwatchState::Running,
    ensures
        after_unarm(m).history == m.history.push(m.current_run->0),
        after_timeout(m).history == m.history.push(m.current_run->0),
        after_unarm(m).state == StopwatchState::Disarmed,
        after_timeout(m).state == StopwatchState::Armed,
{
}

/// A snapshot names a run and counts laps or time only while running; while running
/// its elapsed time is the time from the run's first to its latest trigger.
pub proof fn lemma_snapshot_shows_only_confirmed_time(m: StopwatchModel, now: u64)
    requires
        model_wf(m),
    ensures
        spec_snapshot(m, now).running == (m.state == StopwatchState::Running),
        spec_snapshot(m, now).run_id is Some <==> spec_snapshot(m, now).running,
        !spec_snapshot(m, now).running ==> spec_snapshot(m, now).elapsed_ns == 0
            && spec_snapshot(m, now).lap_count == 0,
        spec_snapshot(m, now).running && m.current_run->0.start_ns != 0
            ==> spec_snapshot(m, now).elapsed_ns == m.current_run->0.last_trigger_ns
            - m.current_run->0.start_ns,
{
    if let Some(r) = m.current_run {
        assert(r.laps[0].start_ns <= r.laps[r.laps.len() - 1].start_ns);
    }
}

/// Sum of the lap times of a sequence of finished laps.
pub open spec fn sum_lap_times(d: Seq<LapDetailView>) -> int
    decreases d.len(),
{
    if d.len() == 0 {
        0
    } else {
        sum_lap_times(d.drop_last()) + d.last().lap_time_ns
    }
}

/// In the laps of a run, the time up to the end of each lap is the sum of the lap
/// times so far, and all lap times add up to the run's total time.
pub proof fn lemma_lap_times_add_up(r: crate::stopwatch::RunModel)
    requires
        run_wf(r),
    ensures
        forall|i: int|
            0 <= i < run_lap_details(r).len() ==> #[trigger] run_lap_details(r)[i].total_time_ns
                == sum_lap_times(run_lap_details(r).take(i + 1)),
        sum_lap_times(run_lap_details(r)) == run_summary(r).total_time_ns,
{
    let d = run_lap_details(r);
    assert forall|i: int| 0 <= i < d.len() implies #[trigger] d[i].total_time_ns == sum_lap_times(
        d.take(i + 1),
    ) by {
        lemma_prefix_sum(r, i);
    }
    if d.len() > 0 {
        lemma_prefix_sum(r, d.len() - 1);
        assert(d.take(d.len() as int) =~= d);
    } else {
        assert(r.laps.len() == 1);
    }
}

proof fn lemma_prefix_sum(r: crate::stopwatch::RunModel, i: int)
    requires
        run_wf(r),
        0 <= i < run_lap_details(r).len(),
    ensures
        sum_lap_times(run_lap_details(r).take(i + 1)) == r.laps[i + 1].start_ns - r.start_ns,
    decreases i,
{
    let d = run_lap_details(r);
    assert(r.laps[i].end_ns == Some(r.laps[i + 1].start_ns));
    assert(r.laps[0].start_ns <= r.laps[i].start_ns);
    assert(r.laps[i].start_ns <= r.laps[i + 1].start_ns);
    assert(d.take(i + 1).drop_last() =~= d.take(i));
    assert(d.take(i + 1).last() == d[i]);
    assert(d[i].lap_time_ns == r.laps[i + 1].start_ns - r.laps[i].start_ns);
    assert(sum_lap_times(d.take(i + 1)) == sum_lap_times(d.take(i)) + d[i].lap_time_ns);
    if i > 0 {
        lemma_prefix_sum(r, i - 1);
        assert(sum_lap_times(d.take(i)) == r.laps[i].start_ns - r.start_ns);
    } else {
        assert(d.take(0) =~= Seq::<LapDetailView>::empty());
        assert(sum_lap_times(d.take(0)) == 0);
    }
}

/// A trigger while running reports, as the finished lap's time, the time since the
/// previous trigger (the start of that lap), capped at the longest lap time: not the time
/// since the run started. It is the lap time that the run's history then lists for that
/// lap, capped; the reported total is the time since the run's first trigger.
pub proof fn lemma_finished_lap_time_is_its_own_span(m: StopwatchModel, ts: u64, now: u64)
    requires
        model_wf(m),
        m.state == StopwatchState::Running,
        trigger_allowed(m, ts),
    ensures
        ({
            let r = m.current_run->0;
            let span: int = ts - r.last_trigger_ns;
            let after = after_trigger(m, ts).current_run->0;
            let listed = run_lap_details(after).last();
            &&& 0 <= span
            &&& trigger_events(m, ts, now)[0].lap_time_ns == Some(
                if span <= crate::stopwatch::MAX_LAP_DURATION_NS {
                    span as u64
                } else {
                    crate::stopwatch::MAX_LAP_DURATION_NS
                },
            )
            &&& run_lap_details(after).len() == completed_laps(r) + 1
            &&& listed.lap_time_ns == span
            &&& listed.lap == trigger_events(m, ts, now)[0].lap
            &&& listed.timestamp_ns == Some(ts)
            &&& (r.start_ns != 0 ==> trigger_events(m, ts, now)[0].total_time_ns == ts - r.start_ns)
        }),
{
    let r = m.current_run->0;
    let after = after_trigger(m, ts).current_run->0;
    let n = r.laps.len();
    assert(r.laps[0].start_ns <= r.laps[n - 1].start_ns);
    assert(after.laps[n - 1].start_ns == r.laps[n - 1].start_ns);
    assert(after.laps[n as int].start_ns == ts);
    assert(r.laps[n - 1].lap == n);
}

} // verus!
