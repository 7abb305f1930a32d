//! The stopwatch state machine and its run history.
//!
//! States: `Disarmed` (triggers ignored), `Armed` (the next trigger starts a run) and
//! `Running` (each trigger finishes the current lap and starts the next). Elapsed time
//! is measured from trigger timestamps only, so the stopwatch never reports a time that
//! no trigger has confirmed.

pub mod laws;
pub mod subjects;

use vstd::prelude::*;
use crate::trigger::clock_monotonic_ns;
use crate::types::{
    lap_detail_views, lap_event_views, ErrorResponse, GetLapsResponse, GetRunResponse, LapDetail,
    LapDetailView, LapEvent, LapEventType, LapEventView, ListRunsResponse, RunSummary,
    StateSnapshot, StopwatchState, TickUpdate, TriggerEvent, transition_error_message,
};

verus! {

/// Longest lap that is reported, in nanoseconds (99.999 seconds).
pub const MAX_LAP_DURATION_NS: u64 = 99_999_000_000;

// ===========================================================================
// Model
// ===========================================================================

/// A lap: its number within the run, when it started and, once finished, when it ended.
pub struct LapModel {
    pub lap: u32,
    pub start_ns: u64,
    pub end_ns: Option<u64>,
}

/// A run: its identifier, its first trigger, its latest trigger and its laps in order.
pub struct RunModel {
    pub run_id: u64,
    pub start_ns: u64,
    pub last_trigger_ns: u64,
    pub laps: Seq<LapModel>,
}

/// The whole stopwatch: state, next run identifier, the run in progress and the archive.
pub struct StopwatchModel {
    pub state: StopwatchState,
    pub next_run_id: u64,
    pub current_run: Option<RunModel>,
    pub history: Seq<RunModel>,
}

/// A well-formed run: at least one lap; laps are numbered 1, 2, ... in order; laps
/// follow each other without gap (each lap ends where the next starts); only the last
/// lap is unfinished; lap starts never go back in time; the run starts with its first
/// lap and its latest trigger started its last lap.
pub open spec fn run_wf(r: RunModel) -> bool {
    &&& r.laps.len() >= 1
    &&& r.laps.len() <= u32::MAX
    &&& forall|i: int| 0 <= i < r.laps.len() ==> #[trigger] r.laps[i].lap == i + 1
    &&& r.laps[0].start_ns == r.start_ns
    &&& r.laps.last().end_ns is None
    &&& r.last_trigger_ns == r.laps.last().start_ns
    &&& forall|i: int|
        0 <= i < r.laps.len() - 1 ==> #[trigger] r.laps[i].end_ns == Some(r.laps[i + 1].start_ns)
    &&& forall|i: int, j: int|
        0 <= i <= j < r.laps.len() ==> #[trigger] r.laps[i].start_ns <= #[trigger] r.laps[j].start_ns
}

/// Whether some archived run has the identifier `id`.
pub open spec fn history_has_run(h: Seq<RunModel>, id: u64) -> bool {
    exists|i: int| 0 <= i < h.len() && #[trigger] h[i].run_id == id
}

/// The stopwatch invariant: a run is in progress exactly while running; every run is
/// well formed; run identifiers are at least 1 and below the next one; the archive holds
/// runs in the order they were started (strictly increasing identifiers) and the run in
/// progress was started after all of them.
pub open spec fn model_wf(m: StopwatchModel) -> bool {
    &&& m.next_run_id >= 1
    &&& (m.current_run is Some <==> m.state == StopwatchState::Running)
    &&& (m.current_run matches Some(r) ==> {
        &&& run_wf(r)
        &&& 1 <= r.run_id < m.next_run_id
        &&& forall|i: int| 0 <= i < m.history.len() ==> #[trigger] m.history[i].run_id < r.run_id
    })
    &&& history_wf(m.history, m.next_run_id)
}

/// Every archived run is well formed with an identifier from 1 up to below
/// `next_run_id`, and the identifiers strictly increase along the archive.
pub open spec fn history_wf(h: Seq<RunModel>, next_run_id: u64) -> bool {
    &&& forall|i: int|
        0 <= i < h.len() ==> run_wf(#[trigger] h[i]) && 1 <= h[i].run_id < next_run_id
    &&& forall|i: int, j: int|
        0 <= i < j < h.len() ==> #[trigger] h[i].run_id < #[trigger] h[j].run_id
}

/// The number of finished laps of a well-formed run (all but the last).
pub open spec fn completed_laps(r: RunModel) -> int {
    r.laps.len() - 1
}

/// Elapsed time of a run, from its first to its latest trigger (zero for a run that
/// started at time zero, which marks an unset start).
pub open spec fn run_elapsed(r: RunModel) -> u64 {
    if r.start_ns == 0 {
        0
    } else if r.last_trigger_ns >= r.start_ns {
        (r.last_trigger_ns - r.start_ns) as u64
    } else {
        0
    }
}

/// Elapsed time of a run that is not running: up to the end of its last lap, if finished.
pub open spec fn ended_elapsed(r: RunModel) -> u64 {
    match r.laps.last().end_ns {
        Some(e) => if e >= r.start_ns {
            (e - r.start_ns) as u64
        } else {
            0
        },
        None => 0,
    }
}

/// The snapshot of the stopwatch at server time `now`.
pub open spec fn spec_snapshot(m: StopwatchModel, now: u64) -> StateSnapshot {
    StateSnapshot {
        state: m.state,
        run_id: match m.current_run {
            Some(r) => Some(r.run_id),
            None => None,
        },
        elapsed_ns: match m.current_run {
            Some(r) => if m.state == StopwatchState::Running {
                run_elapsed(r)
            } else {
                ended_elapsed(r)
            },
            None => 0,
        },
        server_time_ns: now,
        lap_count: match m.current_run {
            Some(r) => completed_laps(r) as u32,
            None => 0,
        },
        running: m.state == StopwatchState::Running,
    }
}

/// Whether `s` is the snapshot of `m` at the server time it carries.
pub open spec fn is_snapshot_of(s: StateSnapshot, m: StopwatchModel) -> bool {
    s == spec_snapshot(m, s.server_time_ns)
}

// ---------------------------------------------------------------------------
// Transitions
// ---------------------------------------------------------------------------

/// `arm`: Disarmed becomes Armed; any other state is refused and kept.
pub open spec fn after_arm(m: StopwatchModel) -> StopwatchModel {
    if m.state == StopwatchState::Disarmed {
        StopwatchModel { state: StopwatchState::Armed, ..m }
    } else {
        m
    }
}

/// `unarm`: Armed becomes Disarmed; Running archives its run and becomes Disarmed;
/// Disarmed is refused and kept.
pub open spec fn after_unarm(m: StopwatchModel) -> StopwatchModel {
    match m.state {
        StopwatchState::Armed => StopwatchModel { state: StopwatchState::Disarmed, ..m },
        StopwatchState::Running => StopwatchModel {
            state: StopwatchState::Disarmed,
            current_run: None,
            history: match m.current_run {
                Some(r) => m.history.push(r),
                None => m.history,
            },
            ..m
        },
        StopwatchState::Disarmed => m,
    }
}

/// `reset`: any state but Disarmed archives the run in progress (unless a run of that
/// identifier is archived already) and becomes Armed without a run; Disarmed is refused.
pub open spec fn after_reset(m: StopwatchModel) -> StopwatchModel {
    if m.state == StopwatchState::Disarmed {
        m
    } else {
        StopwatchModel {
            state: StopwatchState::Armed,
            current_run: None,
            history: match m.current_run {
                Some(r) => if history_has_run(m.history, r.run_id) {
                    m.history
                } else {
                    m.history.push(r)
                },
                None => m.history,
            },
            ..m
        }
    }
}

/// Whether a lap timeout applies: running with a run that has a current lap.
pub open spec fn timeout_applies(m: StopwatchModel) -> bool {
    m.state == StopwatchState::Running && m.current_run is Some && m.current_run->0.laps.len() > 0
}

/// Lap timeout: the run is archived with its current lap left unfinished, and the
/// stopwatch is Armed again. Without a current lap nothing changes.
pub open spec fn after_timeout(m: StopwatchModel) -> StopwatchModel {
    if timeout_applies(m) {
        StopwatchModel {
            state: StopwatchState::Armed,
            current_run: None,
            history: m.history.push(m.current_run->0),
            ..m
        }
    } else {
        m
    }
}

/// A run started by a trigger at `ts`, with its lap 1 open.
pub open spec fn started_run(run_id: u64, ts: u64) -> RunModel {
    RunModel {
        run_id,
        start_ns: ts,
        last_trigger_ns: ts,
        laps: seq![LapModel { lap: 1, start_ns: ts, end_ns: None }],
    }
}

/// The number of the lap that the next trigger opens in run `r`.
pub open spec fn next_lap_number(r: RunModel) -> u32 {
    (r.laps.len() + 1) as u32
}

/// A run after a trigger at `ts`: its last lap ends at `ts` and the next lap, numbered
/// one more, starts there.
pub open spec fn run_after_trigger(r: RunModel, ts: u64) -> RunModel {
    RunModel {
        last_trigger_ns: ts,
        laps: r.laps.update(
            r.laps.len() - 1,
            LapModel { end_ns: Some(ts), ..r.laps.last() },
        ).push(LapModel { lap: next_lap_number(r), start_ns: ts, end_ns: None }),
        ..r
    }
}

/// A trigger at `ts`: ignored when Disarmed; when Armed it starts run `next_run_id` with
/// lap 1 and the state becomes Running; when Running it finishes the current lap and
/// opens the next.
pub open spec fn after_trigger(m: StopwatchModel, ts: u64) -> StopwatchModel {
    match m.state {
        StopwatchState::Disarmed => m,
        StopwatchState::Armed => StopwatchModel {
            state: StopwatchState::Running,
            next_run_id: (m.next_run_id + 1) as u64,
            current_run: Some(started_run(m.next_run_id, ts)),
            history: m.history,
        },
        StopwatchState::Running => match m.current_run {
            Some(r) => StopwatchModel { current_run: Some(run_after_trigger(r, ts)), ..m },
            None => m,
        },
    }
}

/// The time of a finished lap as reported, capped at `MAX_LAP_DURATION_NS`.
pub open spec fn capped_lap_time(start: u64, end: u64) -> u64 {
    if end - start <= MAX_LAP_DURATION_NS {
        (end - start) as u64
    } else {
        MAX_LAP_DURATION_NS
    }
}

/// The lap events of a trigger at `ts`, recorded at server time `now`: when Armed, the
/// start of lap 1; when Running, the finish of the current lap and the start of the
/// next, both carrying the run's elapsed time after the trigger.
pub open spec fn trigger_events(m: StopwatchModel, ts: u64, now: u64) -> Seq<LapEventView> {
    match m.state {
        StopwatchState::Armed => seq![
            LapEventView {
                event_type: LapEventType::Start,
                run_id: m.next_run_id,
                lap: 1,
                lap_time_ns: None,
                total_time_ns: 0,
                server_time_ns: now,
            },
        ],
        StopwatchState::Running => match m.current_run {
            Some(r) => {
                let total = run_elapsed(run_after_trigger(r, ts));
                seq![
                    LapEventView {
                        event_type: LapEventType::Finish,
                        run_id: r.run_id,
                        lap: r.laps.last().lap,
                        lap_time_ns: Some(capped_lap_time(r.laps.last().start_ns, ts)),
                        total_time_ns: total,
                        server_time_ns: now,
                    },
                    LapEventView {
                        event_type: LapEventType::Start,
                        run_id: r.run_id,
                        lap: next_lap_number(r),
                        lap_time_ns: None,
                        total_time_ns: total,
                        server_time_ns: now,
                    },
                ]
            },
            None => seq![],
        },
        StopwatchState::Disarmed => seq![],
    }
}

/// What a trigger at `ts` needs so that no count overflows and no lap ends before it
/// starts: a free run identifier when Armed; when Running, a free lap number and a
/// timestamp not before the current lap's start.
pub open spec fn trigger_allowed(m: StopwatchModel, ts: u64) -> bool {
    &&& (m.state == StopwatchState::Armed ==> m.next_run_id < u64::MAX)
    &&& (m.state == StopwatchState::Running && m.current_run is Some ==> {
        &&& 0 < m.current_run->0.laps.len() < u32::MAX
        &&& ts >= m.current_run->0.laps.last().start_ns
    })
}

/// A trigger that `trigger_allowed` admits keeps a running run well formed.
proof fn lemma_trigger_keeps_run_wf(r: RunModel, ts: u64)
    requires
        run_wf(r),
        r.laps.len() < u32::MAX,
        ts >= r.laps.last().start_ns,
    ensures
        run_wf(run_after_trigger(r, ts)),
{
    let nr = run_after_trigger(r, ts);
    let n = r.laps.len();
    assert(nr.laps.len() == n + 1);
    assert forall|i: int, j: int|
        0 <= i <= j < nr.laps.len() implies #[trigger] nr.laps[i].start_ns
        <= #[trigger] nr.laps[j].start_ns by {
        if j < n {
            assert(r.laps[i].start_ns <= r.laps[j].start_ns);
        } else if i < n {
            assert(r.laps[i].start_ns <= r.laps[n - 1].start_ns);
        }
    }
    assert forall|i: int|
        0 <= i < nr.laps.len() - 1 implies #[trigger] nr.laps[i].end_ns
        == Some(nr.laps[i + 1].start_ns) by {
        if i < n - 1 {
            assert(r.laps[i].end_ns == Some(r.laps[i + 1].start_ns));
        }
    }
    assert forall|i: int| 0 <= i < nr.laps.len() implies #[trigger] nr.laps[i].lap == i + 1 by {
        if i < n {
            assert(r.laps[i].lap == i + 1);
        }
    }
}

// ---------------------------------------------------------------------------
// History queries
// ---------------------------------------------------------------------------

/// The end of the last finished lap of a well-formed run, if any lap is finished.
pub open spec fn last_finished_end(r: RunModel) -> Option<u64> {
    if r.laps.len() >= 2 {
        r.laps[r.laps.len() - 2].end_ns
    } else {
        None
    }
}

/// Summary of an archived run: its time runs to the end of its last finished lap.
pub open spec fn run_summary(r: RunModel) -> RunSummary {
    RunSummary {
        run_id: r.run_id,
        start_time_ns: r.start_ns,
        end_time_ns: last_finished_end(r),
        total_time_ns: match last_finished_end(r) {
            Some(e) => (e - r.start_ns) as u64,
            None => 0,
        },
        lap_count: completed_laps(r) as u32,
    }
}

/// The finished laps of a well-formed run: the time of each and the time from the start
/// of the run to its end.
pub open spec fn run_lap_details(r: RunModel) -> Seq<LapDetailView> {
    Seq::new(
        (r.laps.len() - 1) as nat,
        |i: int|
            LapDetailView {
                lap: r.laps[i].lap,
                lap_time_ns: (r.laps[i + 1].start_ns - r.laps[i].start_ns) as u64,
                total_time_ns: (r.laps[i + 1].start_ns - r.start_ns) as u64,
                timestamp_ns: Some(r.laps[i + 1].start_ns),
            },
    )
}

/// The page of `s` that skips `offset` items and keeps at most `limit`.
pub open spec fn page<T>(s: Seq<T>, offset: u32, limit: u32) -> Seq<T> {
    let start = if offset <= s.len() {
        offset as int
    } else {
        s.len() as int
    };
    let end = if start + limit <= s.len() {
        start + limit
    } else {
        s.len() as int
    };
    s.subrange(start, end)
}

// ===========================================================================
// Implementation
// ===========================================================================

/// One lap of a run.
struct Lap {
    lap: u32,
    start_ns: u64,
    end_ns: Option<u64>,
}

impl View for Lap {
    type V = LapModel;

    closed spec fn view(&self) -> LapModel {
        LapModel { lap: self.lap, start_ns: self.start_ns, end_ns: self.end_ns }
    }
}

impl Lap {
    fn duplicate(&self) -> (r: Lap)
        ensures
            r@ == self@,
    {
        Lap { lap: self.lap, start_ns: self.start_ns, end_ns: self.end_ns }
    }

    /// Time of the lap, once finished.
    fn lap_time_ns(&self) -> (r: Option<u64>)
        requires
            (self.end_ns matches Some(e) ==> e >= self.start_ns),
        ensures
            r == match self.end_ns {
                Some(e) => Some((e - self.start_ns) as u64),
                None => None,
            },
    {
        match self.end_ns {
            Some(end) => Some(end - self.start_ns),
            None => None,
        }
    }
}

/// One run: from the trigger that started it to the triggers that ended its laps.
struct Run {
    run_id: u64,
    start_ns: u64,
    last_trigger_ns: u64,
    laps: Vec<Lap>,
}

spec fn lap_views(laps: Seq<Lap>) -> Seq<LapModel> {
    laps.map_values(|l: Lap| l@)
}

impl View for Run {
    type V = RunModel;

    closed spec fn view(&self) -> RunModel {
        RunModel {
            run_id: self.run_id,
            start_ns: self.start_ns,
            last_trigger_ns: self.last_trigger_ns,
            laps: lap_views(self.laps@),
        }
    }
}

spec fn run_views(runs: Seq<Run>) -> Seq<RunModel> {
    runs.map_values(|r: Run| r@)
}

impl Run {
    fn new(run_id: u64, start_ns: u64) -> (r: Run)
        ensures
            r@ == started_run(run_id, start_ns),
    {
        let mut laps: Vec<Lap> = Vec::new();
        laps.push(Lap { lap: 1, start_ns, end_ns: None });
        let r = Run { run_id, start_ns, last_trigger_ns: start_ns, laps };
        assert(r@.laps =~= started_run(run_id, start_ns).laps);
        r
    }

    /// The lap in progress (the last one).
    fn current_lap(&self) -> (r: Option<&Lap>)
        ensures
            self.laps@.len() == 0 ==> r is None,
            self.laps@.len() > 0 ==> (r matches Some(l) && l@ == self@.laps.last()),
    {
        if self.laps.len() == 0 {
            None
        } else {
            Some(&self.laps[self.laps.len() - 1])
        }
    }

    /// Number of finished laps.
    fn lap_count(&self) -> (r: u32)
        requires
            run_wf(self@),
        ensures
            r == completed_laps(self@) as u32,
    {
        let n = self.laps.len();
        let mut count: usize = 0;
        let mut i: usize = 0;
        while i < n
            invariant
                n == self.laps@.len(),
                run_wf(self@),
                i <= n,
                count == if i < n {
                    i as int
                } else {
                    n - 1
                },
            decreases n - i,
        {
            assert(self@.laps[i as int] == self.laps@[i as int]@);
            if i + 1 < n {
                assert(self@.laps[i as int].end_ns == Some(self@.laps[i + 1].start_ns));
            } else {
                assert(self@.laps[i as int].end_ns is None);
            }
            if self.laps[i].end_ns.is_some() {
                count = count + 1;
            }
            i = i + 1;
        }
        count as u32
    }

    /// Time from the first to the latest trigger of the run.
    fn total_elapsed_ns(&self) -> (r: u64)
        ensures
            r == run_elapsed(self@),
    {
        if self.start_ns == 0 {
            return 0;
        }
        self.last_trigger_ns.saturating_sub(self.start_ns)
    }

    /// A trigger at `timestamp_ns`: the current lap ends and the next lap, numbered one
    /// more than the laps so far, starts. Returns copies of the finished and of the new lap.
    fn record_trigger(&mut self, timestamp_ns: u64) -> (r: (Lap, Lap))
        requires
            0 < old(self)@.laps.len() < u32::MAX,
        ensures
            final(self)@ == (RunModel {
                last_trigger_ns: old(self)@.last_trigger_ns,
                ..run_after_trigger(old(self)@, timestamp_ns)
            }),
            r.0@ == (LapModel { end_ns: Some(timestamp_ns), ..old(self)@.laps.last() }),
            r.1@ == (LapModel {
                lap: next_lap_number(old(self)@),
                start_ns: timestamp_ns,
                end_ns: None,
            }),
    {
        assert(self.laps@.len() == self@.laps.len());
        let number = (self.laps.len() + 1) as u32;
        let mut current = self.laps.pop().unwrap();
        current.end_ns = Some(timestamp_ns);
        let finished = current.duplicate();
        self.laps.push(current);
        let new_lap = Lap { lap: number, start_ns: timestamp_ns, end_ns: None };
        let copy = new_lap.duplicate();
        self.laps.push(new_lap);
        proof {
            let o = old(self)@;
            assert(final(self)@.laps =~= run_after_trigger(o, timestamp_ns).laps);
        }
        (finished, copy)
    }

    /// End of the last finished lap.
    fn last_finished_end(&self) -> (r: Option<u64>)
        requires
            run_wf(self@),
        ensures
            r == last_finished_end(self@),
    {
        let n = self.laps.len();
        let mut k: usize = n;
        while k > 0
            invariant
                n == self.laps@.len(),
                run_wf(self@),
                k <= n,
                k < n ==> k + 1 >= n,
            decreases k,
        {
            assert(self@.laps[k - 1] == self.laps@[k - 1]@);
            if let Some(end) = self.laps[k - 1].end_ns {
                return Some(end);
            }
            k = k - 1;
        }
        None
    }

    /// The finished laps, each with its time and the time from the run's start.
    fn lap_details(&self) -> (r: Vec<LapDetail>)
        requires
            run_wf(self@),
        ensures
            lap_detail_views(r@) == run_lap_details(self@),
    {
        let n = self.laps.len();
        let mut out: Vec<LapDetail> = Vec::new();
        let mut cumulative: u64 = 0;
        let mut i: usize = 0;
        let ghost details = run_lap_details(self@);
        while i < n
            invariant
                n == self.laps@.len(),
                run_wf(self@),
                details == run_lap_details(self@),
                i <= n,
                out@.len() == if i < n {
                    i as int
                } else {
                    n - 1
                },
                cumulative == self@.laps[if i < n {
                    i as int
                } else {
                    n - 1
                }].start_ns - self.start_ns,
                forall|k: int| 0 <= k < out@.len() ==> #[trigger] out@[k]@ == details[k],
            decreases n - i,
        {
            assert(self@.laps[i as int] == self.laps@[i as int]@);
            if i + 1 < n {
                assert(self@.laps[i as int].end_ns == Some(self@.laps[i + 1].start_ns));
            } else {
                assert(self@.laps[i as int].end_ns is None);
            }
            match self.laps[i].end_ns {
                Some(end) => {
                    assert(i + 1 < n);
                    assert(self@.laps[i + 1] == self.laps@[i + 1]@);
                    assert(self@.laps[0].start_ns <= self@.laps[i as int].start_ns);
                    assert(self@.laps[i as int].start_ns <= self@.laps[i + 1].start_ns);
                    let lap_time = end - self.laps[i].start_ns;
                    cumulative = cumulative + lap_time;
                    out.push(
                        LapDetail {
                            lap: self.laps[i].lap,
                            lap_time_ns: lap_time,
                            total_time_ns: cumulative,
                            timestamp_ns: self.laps[i].end_ns,
                        },
                    );
                },
                None => {},
            }
            i = i + 1;
        }
        assert(lap_detail_views(out@) =~= details);
        out
    }

    fn summary(&self) -> (r: RunSummary)
        requires
            run_wf(self@),
        ensures
            r == run_summary(self@),
    {
        let end_ns = self.last_finished_end();
        let total_time = match end_ns {
            Some(end) => {
                assert(self@.laps[0].start_ns <= self@.laps[self@.laps.len() - 1].start_ns);
                end - self.start_ns
            },
            None => 0,
        };
        RunSummary {
            run_id: self.run_id,
            start_time_ns: self.start_ns,
            end_time_ns: end_ns,
            total_time_ns: total_time,
            lap_count: self.lap_count(),
        }
    }
}

/// The stopwatch state machine with its archive of runs.
pub struct Stopwatch {
    state: StopwatchState,
    next_run_id: u64,
    current_run: Option<Run>,
    history: Vec<Run>,
}

impl View for Stopwatch {
    type V = StopwatchModel;

    closed spec fn view(&self) -> StopwatchModel {
        StopwatchModel {
            state: self.state,
            next_run_id: self.next_run_id,
            current_run: match self.current_run {
                Some(r) => Some(r@),
                None => None,
            },
            history: run_views(self.history@),
        }
    }
}

impl Default for Stopwatch {
    fn default() -> (r: Self)
        ensures
            r.wf(),
            r@ == (StopwatchModel {
                state: StopwatchState::Disarmed,
                next_run_id: 1,
                current_run: None,
                history: Seq::empty(),
            }),
    {
        Self::new()
    }
}

impl Stopwatch {
    /// The stopwatch invariant.
    pub open spec fn wf(&self) -> bool {
        model_wf(self@)
    }

    /// A disarmed stopwatch with no run and an empty archive; the first run will be run 1.
    pub fn new() -> (r: Self)
        ensures
            r.wf(),
            r@ == (StopwatchModel {
                state: StopwatchState::Disarmed,
                next_run_id: 1,
                current_run: None,
                history: Seq::empty(),
            }),
    {
        let r = Stopwatch {
            state: StopwatchState::Disarmed,
            next_run_id: 1,
            current_run: None,
            history: Vec::new(),
        };
        assert(r@.history =~= Seq::<RunModel>::empty());
        r
    }

    /// The current state.
    pub fn state(&self) -> (r: StopwatchState)
        ensures
            r == self@.state,
    {
        self.state
    }

    /// The snapshot of the stopwatch at server time `now_ns`.
    pub fn snapshot_at(&self, now_ns: u64) -> (r: StateSnapshot)
        requires
            self.wf(),
        ensures
            r == spec_snapshot(self@, now_ns),
    {
        let (run_id, elapsed_ns, lap_count) = match &self.current_run {
            Some(run) => {
                let elapsed = if self.state == StopwatchState::Running {
                    run.total_elapsed_ns()
                } else {
                    match run.current_lap() {
                        Some(lap) => match lap.end_ns {
                            Some(end_ns) => end_ns.saturating_sub(run.start_ns),
                            None => 0,
                        },
                        None => 0,
                    }
                };
                (Some(run.run_id), elapsed, run.lap_count())
            },
            None => (None, 0, 0),
        };
        StateSnapshot {
            state: self.state,
            run_id,
            elapsed_ns,
            server_time_ns: now_ns,
            lap_count,
            running: self.state == StopwatchState::Running,
        }
    }

    /// The snapshot of the stopwatch now, by the monotonic clock.
    pub fn snapshot(&self) -> (r: StateSnapshot)
        requires
            self.wf(),
        ensures
            is_snapshot_of(r, self@),
    {
        let now = clock_monotonic_ns();
        self.snapshot_at(now)
    }
}


impl Stopwatch {
    /// Whether an archived run has identifier `id`.
    fn history_contains(&self, id: u64) -> (r: bool)
        ensures
            r == history_has_run(self@.history, id),
    {
        let mut i: usize = 0;
        while i < self.history.len()
            invariant
                i <= self.history@.len(),
                forall|k: int| 0 <= k < i ==> #[trigger] self@.history[k].run_id != id,
            decreases self.history@.len() - i,
        {
            assert(self@.history[i as int] == self.history@[i as int]@);
            if self.history[i].run_id == id {
                assert(self@.history[i as int].run_id == id);
                return true;
            }
            i = i + 1;
        }
        false
    }

    /// Index of the first archived run with identifier `id`.
    fn find_run(&self, id: u64) -> (r: Option<usize>)
        ensures
            r is None <==> !history_has_run(self@.history, id),
            (r matches Some(i) ==> i < self@.history.len() && self@.history[i as int].run_id == id),
    {
        let mut i: usize = 0;
        while i < self.history.len()
            invariant
                i <= self.history@.len(),
                forall|k: int| 0 <= k < i ==> #[trigger] self@.history[k].run_id != id,
            decreases self.history@.len() - i,
        {
            assert(self@.history[i as int] == self.history@[i as int]@);
            if self.history[i].run_id == id {
                assert(self@.history[i as int].run_id == id);
                return Some(i);
            }
            i = i + 1;
        }
        None
    }

    /// Moves the run in progress, if any, to the end of the archive.
    fn archive_current_run(&mut self)
        requires
            (old(self)@.current_run matches Some(r) ==> {
                &&& run_wf(r)
                &&& 1 <= r.run_id < old(self)@.next_run_id
                &&& forall|i: int|
                    0 <= i < old(self)@.history.len() ==> #[trigger] old(self)@.history[i].run_id
                        < r.run_id
            }),
            history_wf(old(self)@.history, old(self)@.next_run_id),
        ensures
            final(self)@ == (StopwatchModel {
                current_run: None,
                history: match old(self)@.current_run {
                    Some(r) => old(self)@.history.push(r),
                    None => old(self)@.history,
                },
                ..old(self)@
            }),
            history_wf(final(self)@.history, final(self)@.next_run_id),
    {
        let ghost old_history = self@.history;
        if let Some(run) = self.current_run.take() {
            let ghost rv = run@;
            self.history.push(run);
            proof {
                assert(self@.history =~= old_history.push(rv));
                assert forall|i: int, j: int|
                    0 <= i < j < self@.history.len() implies #[trigger] self@.history[i].run_id
                    < #[trigger] self@.history[j].run_id by {
                    if j == old_history.len() {
                        assert(old_history[i].run_id == self@.history[i].run_id);
                    }
                }
            }
        }
    }

    /// Arms the stopwatch: Disarmed becomes Armed. In any other state the command is
    /// refused with `INVALID_TRANSITION` and nothing changes.
    pub fn arm(&mut self) -> (r: Result<StateSnapshot, ErrorResponse>)
        requires
            old(self).wf(),
        ensures
            final(self).wf(),
            final(self)@ == after_arm(old(self)@),
            r is Ok <==> old(self)@.state == StopwatchState::Disarmed,
            (r matches Ok(s) ==> is_snapshot_of(s, final(self)@)),
            (r matches Err(e) ==> e.error@ == transition_error_message(old(self)@.state, "arm"@)
                && e.code@ == "INVALID_TRANSITION"@),
    {
        match self.state {
            StopwatchState::Disarmed => {
                self.state = StopwatchState::Armed;
                Ok(self.snapshot())
            },
            _ => Err(ErrorResponse::invalid_transition(self.state, "arm")),
        }
    }

    /// Unarms the stopwatch: Armed becomes Disarmed; Running archives its run and
    /// becomes Disarmed. When Disarmed the command is refused and nothing changes.
    pub fn unarm(&mut self) -> (r: Result<StateSnapshot, ErrorResponse>)
        requires
            old(self).wf(),
        ensures
            final(self).wf(),
            final(self)@ == after_unarm(old(self)@),
            r is Ok <==> old(self)@.state != StopwatchState::Disarmed,
            (r matches Ok(s) ==> is_snapshot_of(s, final(self)@)),
            (r matches Err(e) ==> e.error@ == transition_error_message(old(self)@.state, "unarm"@)
                && e.code@ == "INVALID_TRANSITION"@),
    {
        match self.state {
            StopwatchState::Armed => {
                self.state = StopwatchState::Disarmed;
                Ok(self.snapshot())
            },
            StopwatchState::Running => {
                self.archive_current_run();
                self.state = StopwatchState::Disarmed;
                Ok(self.snapshot())
            },
            _ => Err(ErrorResponse::invalid_transition(self.state, "unarm")),
        }
    }

    /// Resets the stopwatch: from Armed or Running, the run in progress is archived
    /// (unless a run with its identifier is archived already) and the stopwatch is Armed
    /// with no run. When Disarmed the command is refused and nothing changes.
    pub fn reset(&mut self) -> (r: Result<StateSnapshot, ErrorResponse>)
        requires
            old(self).wf(),
        ensures
            final(self).wf(),
            final(self)@ == after_reset(old(self)@),
            r is Ok <==> old(self)@.state != StopwatchState::Disarmed,
            (r matches Ok(s) ==> is_snapshot_of(s, final(self)@)),
            (r matches Err(e) ==> e.error@ == transition_error_message(old(self)@.state, "reset"@)
                && e.code@ == "INVALID_TRANSITION"@),
    {
        match self.state {
            StopwatchState::Disarmed => Err(ErrorResponse::invalid_transition(self.state, "reset")),
            _ => {
                let already = match &self.current_run {
                    Some(run) => self.history_contains(run.run_id),
                    None => false,
                };
                if already {
                    self.current_run = None;
                } else {
                    self.archive_current_run();
                }
                self.state = StopwatchState::Armed;
                self.current_run = None;
                Ok(self.snapshot())
            },
        }
    }

    /// Aborts the lap in progress when it reaches the longest lap time: the run is
    /// archived with that lap unfinished and the stopwatch is Armed again. Returns the
    /// new snapshot, or `None` (and changes nothing) when not running.
    pub fn timeout_reset(&mut self) -> (r: Option<StateSnapshot>)
        requires
            old(self).wf(),
        ensures
            final(self).wf(),
            final(self)@ == after_timeout(old(self)@),
            r is Some <==> old(self)@.state == StopwatchState::Running,
            (r matches Some(s) ==> is_snapshot_of(s, final(self)@)),
    {
        if self.state != StopwatchState::Running {
            return None;
        }
        let has_lap = match &self.current_run {
            Some(run) => run.current_lap().is_some(),
            None => false,
        };
        if !has_lap {
            return None;
        }
        self.archive_current_run();
        self.state = StopwatchState::Armed;
        Some(self.snapshot())
    }

    /// A trigger at `event.timestamp_ns`, handled at server time `now_ns`. Ignored when
    /// Disarmed (`None`). When Armed it starts a new run with the next run identifier and
    /// reports the start of lap 1; when Running it finishes the current lap, starts the
    /// next and reports both. The lap events and the returned snapshot carry `now_ns`.
    pub fn apply_trigger(&mut self, event: &TriggerEvent, now_ns: u64) -> (r: Option<
        (StateSnapshot, Vec<LapEvent>),
    >)
        requires
            old(self).wf(),
            trigger_allowed(old(self)@, event.timestamp_ns),
        ensures
            final(self).wf(),
            final(self)@ == after_trigger(old(self)@, event.timestamp_ns),
            r is None <==> old(self)@.state == StopwatchState::Disarmed,
            (r matches Some(out) ==> out.0 == spec_snapshot(final(self)@, now_ns)
                && lap_event_views(out.1@) == trigger_events(old(self)@, event.timestamp_ns, now_ns)),
    {
        let ts = event.timestamp_ns;
        match self.state {
            StopwatchState::Disarmed => None,
            StopwatchState::Armed => {
                let run_id = self.next_run_id;
                self.next_run_id = self.next_run_id + 1;
                let run = Run::new(run_id, ts);
                self.current_run = Some(run);
                self.state = StopwatchState::Running;
                let lap_start = LapEvent {
                    event_type: LapEventType::Start,
                    run_id,
                    lap: 1,
                    lap_time_ns: None,
                    total_time_ns: 0,
                    server_time_ns: now_ns,
                };
                let mut events: Vec<LapEvent> = Vec::new();
                events.push(lap_start);
                let snapshot = self.snapshot_at(now_ns);
                proof {
                    assert(lap_event_views(events@) =~= trigger_events(old(self)@, ts, now_ns));
                }
                Some((snapshot, events))
            },
            StopwatchState::Running => {
                let cur = self.current_run.take();
                match cur {
                    None => None,
                    Some(mut run) => {
                        let ghost old_run = run@;
                        let run_id = run.run_id;
                        run.last_trigger_ns = ts;
                        let (finished, new_lap) = run.record_trigger(ts);
                        let total_time = run.total_elapsed_ns();
                        proof {
                            assert(run@ == run_after_trigger(old_run, ts));
                            lemma_trigger_keeps_run_wf(old_run, ts);
                        }
                        self.current_run = Some(run);
                        let lap_time = match finished.lap_time_ns() {
                            Some(ns) => Some(
                                if ns <= MAX_LAP_DURATION_NS {
                                    ns
                                } else {
                                    MAX_LAP_DURATION_NS
                                },
                            ),
                            None => None,
                        };
                        let lap_finish = LapEvent {
                            event_type: LapEventType::Finish,
                            run_id,
                            lap: finished.lap,
                            lap_time_ns: lap_time,
                            total_time_ns: total_time,
                            server_time_ns: now_ns,
                        };
                        let lap_start = LapEvent {
                            event_type: LapEventType::Start,
                            run_id,
                            lap: new_lap.lap,
                            lap_time_ns: None,
                            total_time_ns: total_time,
                            server_time_ns: now_ns,
                        };
                        let mut events: Vec<LapEvent> = Vec::new();
                        events.push(lap_finish);
                        events.push(lap_start);
                        let snapshot = self.snapshot_at(now_ns);
                        proof {
                            assert(lap_event_views(events@) =~= trigger_events(
                                old(self)@,
                                ts,
                                now_ns,
                            ));
                        }
                        Some((snapshot, events))
                    },
                }
            },
        }
    }

    /// A trigger event, as `apply_trigger` at the current monotonic time: the lap events
    /// and the snapshot carry the clock reading taken while the trigger is handled.
    pub fn handle_trigger(&mut self, event: &TriggerEvent) -> (r: Option<(StateSnapshot, Vec<LapEvent>)>)
        requires
            old(self).wf(),
            trigger_allowed(old(self)@, event.timestamp_ns),
        ensures
            final(self).wf(),
            final(self)@ == after_trigger(old(self)@, event.timestamp_ns),
            r is None <==> old(self)@.state == StopwatchState::Disarmed,
            (r matches Some(out) ==> is_snapshot_of(out.0, final(self)@) && lap_event_views(out.1@)
                == trigger_events(old(self)@, event.timestamp_ns, out.0.server_time_ns)),
    {
        let now = clock_monotonic_ns();
        self.apply_trigger(event, now)
    }

    /// The run in progress at server time `now_ns`: time since the run started (zero if
    /// the clock reads earlier), `now_ns` and the number of the lap in progress. `None`
    /// unless running.
    pub fn tick_update_at(&self, now_ns: u64) -> (r: Option<TickUpdate>)
        requires
            self.wf(),
        ensures
            r is Some <==> self@.state == StopwatchState::Running,
            (r matches Some(t) ==> {
                let run = self@.current_run->0;
                &&& t.elapsed_ns == (if now_ns >= run.start_ns {
                    (now_ns - run.start_ns) as u64
                } else {
                    0
                })
                &&& t.server_time_ns == now_ns
                &&& t.lap_id == run.laps.last().lap
            }),
    {
        if self.state != StopwatchState::Running {
            return None;
        }
        match &self.current_run {
            Some(run) => {
                let lap = &run.laps[run.laps.len() - 1];
                assert(run@.laps.last() == run.laps@[run.laps@.len() - 1]@);
                Some(
                    TickUpdate {
                        elapsed_ns: now_ns.saturating_sub(run.start_ns),
                        server_time_ns: now_ns,
                        lap_id: lap.lap,
                    },
                )
            },
            None => None,
        }
    }

    /// The run in progress now, by the monotonic clock, as `tick_update_at`.
    pub fn tick_update(&self) -> (r: Option<TickUpdate>)
        requires
            self.wf(),
        ensures
            r is Some <==> self@.state == StopwatchState::Running,
            (r matches Some(t) ==> {
                let run = self@.current_run->0;
                &&& t.elapsed_ns == (if t.server_time_ns >= run.start_ns {
                    (t.server_time_ns - run.start_ns) as u64
                } else {
                    0
                })
                &&& t.lap_id == run.laps.last().lap
            }),
    {
        let now = clock_monotonic_ns();
        self.tick_update_at(now)
    }

    /// When the running lap reaches the longest lap time (its start plus
    /// `MAX_LAP_DURATION_NS`, at most `u64::MAX`); `None` unless running.
    pub fn auto_trigger_deadline(&self) -> (r: Option<u64>)
        requires
            self.wf(),
        ensures
            r is Some <==> self@.state == StopwatchState::Running,
            (r matches Some(d) ==> d == (if self@.current_run->0.laps.last().start_ns
                + MAX_LAP_DURATION_NS <= u64::MAX {
                (self@.current_run->0.laps.last().start_ns + MAX_LAP_DURATION_NS) as u64
            } else {
                u64::MAX
            })),
    {
        if self.state != StopwatchState::Running {
            return None;
        }
        match &self.current_run {
            Some(run) => match run.current_lap() {
                Some(lap) => Some(lap.start_ns.saturating_add(MAX_LAP_DURATION_NS)),
                None => None,
            },
            None => None,
        }
    }

    /// A page of run summaries, in the order the runs were archived, and the number of
    /// archived runs (as the low 32 bits of the count).
    pub fn list_runs(&self, limit: u32, offset: u32) -> (r: ListRunsResponse)
        requires
            self.wf(),
        ensures
            r.total == self@.history.len() as u32,
            r.runs@ == page(self@.history.map_values(|run: RunModel| run_summary(run)), offset, limit),
    {
        let len = self.history.len();
        let total = len as u32;
        let start: usize = if (offset as usize) <= len {
            offset as usize
        } else {
            len
        };
        let end: usize = if (limit as usize) <= len - start {
            start + limit as usize
        } else {
            len
        };
        let ghost all = self@.history.map_values(|run: RunModel| run_summary(run));
        let mut runs: Vec<RunSummary> = Vec::new();
        let mut i: usize = start;
        while i < end
            invariant
                self.wf(),
                start <= i <= end <= len,
                len == self.history@.len(),
                all == self@.history.map_values(|run: RunModel| run_summary(run)),
                runs@ == all.subrange(start as int, i as int),
            decreases end - i,
        {
            assert(self@.history[i as int] == self.history@[i as int]@);
            let s = self.history[i].summary();
            runs.push(s);
            assert(runs@ =~= all.subrange(start as int, i + 1));
            i = i + 1;
        }
        assert(runs@ =~= page(all, offset, limit));
        ListRunsResponse { runs, total }
    }

    /// The archived run with identifier `run_id`, with all its finished laps; `None` if
    /// no archived run has it.
    pub fn get_run(&self, run_id: u64) -> (r: Option<GetRunResponse>)
        requires
            self.wf(),
        ensures
            r is Some <==> history_has_run(self@.history, run_id),
            (r matches Some(resp) ==> forall|i: int|
                0 <= i < self@.history.len() && #[trigger] self@.history[i].run_id == run_id ==> {
                    let s = run_summary(self@.history[i]);
                    &&& resp.run_id == s.run_id
                    &&& resp.start_time_ns == s.start_time_ns
                    &&& resp.end_time_ns == s.end_time_ns
                    &&& resp.total_time_ns == s.total_time_ns
                    &&& resp.lap_count == s.lap_count
                    &&& lap_detail_views(resp.laps@) == run_lap_details(self@.history[i])
                }),
    {
        match self.find_run(run_id) {
            None => None,
            Some(idx) => {
                let run = &self.history[idx];
                assert(self@.history[idx as int] == run@);
                let s = run.summary();
                let laps = run.lap_details();
                Some(
                    GetRunResponse {
                        run_id: s.run_id,
                        start_time_ns: s.start_time_ns,
                        end_time_ns: s.end_time_ns,
                        total_time_ns: s.total_time_ns,
                        lap_count: s.lap_count,
                        laps,
                    },
                )
            },
        }
    }

    /// A page of the finished laps of archived run `run_id` and their number (as the
    /// low 32 bits of the count); `None` if no archived run has that identifier.
    pub fn get_laps(&self, run_id: u64, limit: u32, offset: u32) -> (r: Option<GetLapsResponse>)
        requires
            self.wf(),
        ensures
            r is Some <==> history_has_run(self@.history, run_id),
            (r matches Some(resp) ==> resp.run_id == run_id && forall|i: int|
                0 <= i < self@.history.len() && #[trigger] self@.history[i].run_id == run_id ==> {
                    &&& resp.total == run_lap_details(self@.history[i]).len() as u32
                    &&& lap_detail_views(resp.laps@) == page(
                        run_lap_details(self@.history[i]),
                        offset,
                        limit,
                    )
                }),
    {
        match self.find_run(run_id) {
            None => None,
            Some(idx) => {
                let run = &self.history[idx];
                assert(self@.history[idx as int] == run@);
                let all_laps = run.lap_details();
                let len = all_laps.len();
                let total = len as u32;
                let start: usize = if (offset as usize) <= len {
                    offset as usize
                } else {
                    len
                };
                let end: usize = if (limit as usize) <= len - start {
                    start + limit as usize
                } else {
                    len
                };
                let ghost all = lap_detail_views(all_laps@);
                let mut laps: Vec<LapDetail> = Vec::new();
                let mut i: usize = start;
                while i < end
                    invariant
                        start <= i <= end <= len,
                        len == all_laps@.len(),
                        all == lap_detail_views(all_laps@),
                        lap_detail_views(laps@) == all.subrange(start as int, i as int),
                    decreases end - i,
                {
                    let d = &all_laps[i];
                    assert(all[i as int] == all_laps@[i as int]@);
                    let item = LapDetail {
                        lap: d.lap,
                        lap_time_ns: d.lap_time_ns,
                        total_time_ns: d.total_time_ns,
                        timestamp_ns: d.timestamp_ns,
                    };
                    assert(item@ == all[i as int]);
                    let ghost before = laps@;
                    laps.push(item);
                    assert(laps@ == before.push(item));
                    assert(lap_detail_views(laps@) =~= lap_detail_views(before).push(item@));
                    assert(lap_detail_views(laps@) =~= all.subrange(start as int, i + 1));
                    i = i + 1;
                }
                assert(lap_detail_views(laps@) =~= page(all, offset, limit));
                Some(GetLapsResponse { run_id, laps, total })
            },
        }
    }
}


/// The answer to a history query for a run that is not archived.
pub fn run_not_found() -> (r: ErrorResponse)
    ensures
        r.error@ == "Run not found"@,
        r.code@ == "NOT_FOUND"@,
{
    ErrorResponse::new(crate::text::owned("Run not found"), crate::text::owned("NOT_FOUND"))
}

/// The answer to a history query that could not be read.
pub fn invalid_request() -> (r: ErrorResponse)
    ensures
        r.error@ == "Invalid request"@,
        r.code@ == "BAD_REQUEST"@,
{
    ErrorResponse::new(crate::text::owned("Invalid request"), crate::text::owned("BAD_REQUEST"))
}

impl Stopwatch {
    /// How long to wait at monotonic time `now_ns` before the running lap times out:
    /// the time left to the deadline, zero once it has passed; `None` unless running.
    pub fn auto_trigger_wait(&self, now_ns: u64) -> (r: Option<u64>)
        requires
            self.wf(),
        ensures
            r is Some <==> self@.state == StopwatchState::Running,
            (r matches Some(w) ==> {
                let lap_start = self@.current_run->0.laps.last().start_ns;
                let deadline: int = if lap_start + MAX_LAP_DURATION_NS <= u64::MAX {
                    lap_start + MAX_LAP_DURATION_NS
                } else {
                    u64::MAX as int
                };
                w == (if deadline > now_ns {
                    deadline - now_ns
                } else {
                    0
                })
            }),
    {
        match self.auto_trigger_deadline() {
            Some(deadline) => Some(deadline.saturating_sub(now_ns)),
            None => None,
        }
    }
}

impl Stopwatch {
    /// Whether a trigger at `timestamp_ns` can be handled: when Armed a run identifier
    /// is left; when Running a lap number is left and the timestamp is not before the
    /// current lap's start.
    pub fn accepts_trigger(&self, timestamp_ns: u64) -> (r: bool)
        requires
            self.wf(),
        ensures
            r == trigger_allowed(self@, timestamp_ns),
    {
        match self.state {
            StopwatchState::Armed => self.next_run_id < u64::MAX,
            StopwatchState::Running => match &self.current_run {
                Some(run) => {
                    assert(run.laps@.len() == run@.laps.len());
                    match run.current_lap() {
                        Some(lap) => run.laps.len() < u32::MAX as usize && timestamp_ns
                            >= lap.start_ns,
                        None => false,
                    }
                },
                None => true,
            },
            StopwatchState::Disarmed => true,
        }
    }
}

} // verus!
