//! Decisions of the terminal client: command subjects, the lap list it shows, when it
//! refreshes the run history, and its log panel.

use vstd::prelude::*;
use vstd::string::StringExecFns;
use vstd::string::StringSliceAdditionalSpecFns;
use crate::text::owned;
use crate::types::{LapDetail, LapEvent, LapEventType, StopwatchState};

verus! {

broadcast use vstd::seq_lib::group_to_multiset_ensures;

/// Name of the stopwatch service.
pub const SERVICE_NAME: &'static str = "stopwatch";

/// Version group of the stopwatch service.
pub const SERVICE_GROUP: &'static str = "v1";

/// Most log entries kept.
pub const MAX_LOG_ENTRIES: usize = 100;

/// The subject of a stopwatch service endpoint: `stopwatch.v1.<endpoint>`.
pub fn service_subject(endpoint: &str) -> (r: String)
    ensures
        r@ == "stopwatch"@ + "."@ + "v1"@ + "."@ + endpoint@,
{
    let mut s = owned(SERVICE_NAME);
    s.append(".");
    s.append(SERVICE_GROUP);
    s.append(".");
    s.append(endpoint);
    s
}

/// A lap as the client lists it, by its number.
#[derive(Debug, Clone, Copy, PartialEq, Eq)]
pub struct LapDisplay {
    pub lap: u32,
    pub time_ns: u64,
    pub total_ns: u64,
}

/// A listed lap as plain values.
pub struct LapDisplayView {
    pub lap: u32,
    pub time_ns: u64,
    pub total_ns: u64,
}

impl View for LapDisplay {
    type V = LapDisplayView;

    open spec fn view(&self) -> LapDisplayView {
        LapDisplayView { lap: self.lap, time_ns: self.time_ns, total_ns: self.total_ns }
    }
}

/// The views of a sequence of listed laps.
pub open spec fn lap_display_views(s: Seq<LapDisplay>) -> Seq<LapDisplayView> {
    s.map_values(|l: LapDisplay| l@)
}

/// A past run as the client lists it.
#[derive(Debug, Clone, PartialEq, Eq)]
pub struct RunDisplay {
    pub run_id: u64,
    pub lap_count: u32,
    pub total_time_ns: u64,
    pub laps: Vec<LapDisplay>,
}

/// One entry of the log panel.
#[derive(Debug, Clone, PartialEq, Eq)]
pub struct LogEntry {
    pub level: String,
    pub message: String,
}

/// The listed laps of a run's finished laps, in order.
pub fn lap_displays(details: &Vec<LapDetail>) -> (r: Vec<LapDisplay>)
    ensures
        r@.len() == details@.len(),
        forall|i: int|
            0 <= i < r@.len() ==> #[trigger] r@[i]@ == (LapDisplayView {
                lap: details@[i].lap,
                time_ns: details@[i].lap_time_ns,
                total_ns: details@[i].total_time_ns,
            }),
{
    let mut out: Vec<LapDisplay> = Vec::new();
    let mut i: usize = 0;
    while i < details.len()
        invariant
            i <= details@.len(),
            out@.len() == i,
            forall|k: int|
                0 <= k < i ==> #[trigger] out@[k]@ == (LapDisplayView {
                    lap: details@[k].lap,
                    time_ns: details@[k].lap_time_ns,
                    total_ns: details@[k].total_time_ns,
                }),
        decreases details@.len() - i,
    {
        let d = &details[i];
        out.push(
            LapDisplay { lap: d.lap, time_ns: d.lap_time_ns, total_ns: d.total_time_ns },
        );
        i = i + 1;
    }
    out
}

/// The lap to list for a live lap event: only the finish of a lap, with its time, of
/// the run the client shows.
pub fn finished_lap_display(event: &LapEvent, shown_run: Option<u64>) -> (r: Option<LapDisplay>)
    ensures
        r is Some <==> event.event_type == LapEventType::Finish && event.lap_time_ns is Some
            && shown_run == Some(event.run_id),
        (r matches Some(l) ==> l@ == (LapDisplayView {
            lap: event.lap,
            time_ns: event.lap_time_ns->0,
            total_ns: event.total_time_ns,
        })),
{
    if event.event_type != LapEventType::Finish {
        return None;
    }
    match event.lap_time_ns {
        Some(t) => match shown_run {
            Some(id) => if id == event.run_id {
                Some(LapDisplay { lap: event.lap, time_ns: t, total_ns: event.total_time_ns })
            } else {
                None
            },
            None => None,
        },
        None => None,
    }
}

/// Whether a sequence of listed laps is ordered by total time.
pub open spec fn sorted_by_total(s: Seq<LapDisplayView>) -> bool {
    forall|i: int, j: int| 0 <= i <= j < s.len() ==> #[trigger] s[i].total_ns <= #[trigger] s[j].total_ns
}

/// `x` inserted into `s` before the first lap of greater total time (at the end if none).
pub open spec fn insert_by_total(s: Seq<LapDisplayView>, x: LapDisplayView) -> Seq<LapDisplayView>
    decreases s.len(),
{
    if s.len() == 0 {
        seq![x]
    } else if s[0].total_ns > x.total_ns {
        seq![x] + s
    } else {
        seq![s[0]] + insert_by_total(s.drop_first(), x)
    }
}

/// Stable ordering by total time: each lap in turn inserted after the laps of equal or
/// smaller total placed before it.
pub open spec fn stable_sort_by_total(s: Seq<LapDisplayView>) -> Seq<LapDisplayView>
    decreases s.len(),
{
    if s.len() == 0 {
        seq![]
    } else {
        insert_by_total(stable_sort_by_total(s.drop_last()), s.last())
    }
}

proof fn lemma_insert_at_first_greater(s: Seq<LapDisplayView>, x: LapDisplayView, pos: int)
    requires
        0 <= pos <= s.len(),
        forall|k: int| 0 <= k < pos ==> #[trigger] s[k].total_ns <= x.total_ns,
        pos < s.len() ==> s[pos].total_ns > x.total_ns,
    ensures
        insert_by_total(s, x) == s.insert(pos, x),
    decreases s.len(),
{
    if s.len() == 0 {
        assert(s.insert(pos, x) =~= seq![x]);
    } else if pos == 0 {
        assert(s.insert(0, x) =~= seq![x] + s);
    } else {
        let t = s.drop_first();
        assert forall|k: int| 0 <= k < pos - 1 implies #[trigger] t[k].total_ns <= x.total_ns by {
            assert(t[k] == s[k + 1]);
        }
        if pos - 1 < t.len() {
            assert(t[pos - 1] == s[pos]);
        }
        lemma_insert_at_first_greater(t, x, pos - 1);
        assert(s.insert(pos, x) =~= seq![s[0]] + t.insert(pos - 1, x));
    }
}

/// The listed laps ordered by total time; laps of equal total keep their order.
pub fn sort_by_total(laps: &Vec<LapDisplay>) -> (r: Vec<LapDisplay>)
    ensures
        lap_display_views(r@) == stable_sort_by_total(lap_display_views(laps@)),
        sorted_by_total(lap_display_views(r@)),
        lap_display_views(r@).to_multiset() == lap_display_views(laps@).to_multiset(),
{
    let mut out: Vec<LapDisplay> = Vec::new();
    let mut i: usize = 0;
    while i < laps.len()
        invariant
            i <= laps@.len(),
            sorted_by_total(lap_display_views(out@)),
            lap_display_views(out@).to_multiset() == lap_display_views(laps@.take(i as int)).to_multiset(),
            lap_display_views(out@) == stable_sort_by_total(lap_display_views(laps@.take(i as int))),
        decreases laps@.len() - i,
    {
        let x = &laps[i];
        let mut pos: usize = 0;
        while pos < out.len() && out[pos].total_ns <= x.total_ns
            invariant
                pos <= out@.len(),
                forall|k: int| 0 <= k < pos ==> #[trigger] out@[k].total_ns <= x.total_ns,
            decreases out@.len() - pos,
        {
            pos = pos + 1;
        }
        let item = LapDisplay { lap: x.lap, time_ns: x.time_ns, total_ns: x.total_ns };
        let ghost before = out@;
        out.insert(pos, item);
        proof {
            let bv = lap_display_views(before);
            assert(lap_display_views(out@) =~= bv.insert(pos as int, item@));
            assert forall|a: int, b: int|
                0 <= a <= b < lap_display_views(out@).len() implies #[trigger] lap_display_views(out@)[a].total_ns
                <= #[trigger] lap_display_views(out@)[b].total_ns by {
                let ov = lap_display_views(out@);
                if a < pos && b > pos {
                    assert(ov[a] == bv[a]);
                    assert(ov[b] == bv[b - 1]);
                    assert(bv[a].total_ns <= bv[b - 1].total_ns);
                } else if a == pos && b > pos {
                    assert(ov[b] == bv[b - 1]);
                    if pos < before.len() {
                        assert(bv[pos as int].total_ns > x.total_ns);
                        assert(bv[pos as int].total_ns <= bv[b - 1].total_ns);
                    }
                } else if a < pos && b == pos {
                    assert(ov[a] == bv[a]);
                    assert(before[a].total_ns <= x.total_ns);
                } else if b < pos {
                    assert(ov[a] == bv[a] && ov[b] == bv[b]);
                } else if a > pos {
                    assert(ov[a] == bv[a - 1] && ov[b] == bv[b - 1]);
                }
            }
            assert(laps@.take(i + 1) =~= laps@.take(i as int).push(laps@[i as int]));
            assert(lap_display_views(laps@.take(i + 1)) =~= lap_display_views(laps@.take(i as int)).push(item@));
            let prefix = lap_display_views(laps@.take(i + 1));
            assert(prefix.drop_last() =~= lap_display_views(laps@.take(i as int)));
            assert(prefix.last() == item@);
            assert forall|k: int| 0 <= k < pos implies #[trigger] bv[k].total_ns <= item@.total_ns by {
                assert(bv[k] == before[k]@);
            }
            if pos < before.len() {
                assert(bv[pos as int] == before[pos as int]@);
            }
            lemma_insert_at_first_greater(bv, item@, pos as int);
        }
        i = i + 1;
    }
    assert(laps@.take(laps@.len() as int) =~= laps@);
    out
}

/// Whether `k` is the first listed lap with number `lap`.
pub open spec fn is_first_named(s: Seq<LapDisplayView>, lap: u32, k: int) -> bool {
    &&& 0 <= k < s.len()
    &&& s[k].lap == lap
    &&& forall|j: int| 0 <= j < k ==> #[trigger] s[j].lap != lap
}

/// Lists a finished lap: a lap already listed under its number is replaced in place;
/// otherwise it is added and the list is ordered by total time.
pub fn upsert_lap(laps: &mut Vec<LapDisplay>, lap: LapDisplay)
    ensures
        (exists|k: int| is_first_named(lap_display_views(old(laps)@), lap@.lap, k)) ==> forall|k: int|
            is_first_named(lap_display_views(old(laps)@), lap@.lap, k) ==> lap_display_views(final(laps)@)
                == lap_display_views(old(laps)@).update(k, lap@),
        !(exists|k: int| is_first_named(lap_display_views(old(laps)@), lap@.lap, k)) ==> {
            &&& lap_display_views(final(laps)@) == stable_sort_by_total(lap_display_views(old(laps)@).push(lap@))
            &&& sorted_by_total(lap_display_views(final(laps)@))
            &&& lap_display_views(final(laps)@).to_multiset() == lap_display_views(old(laps)@).push(
                lap@,
            ).to_multiset()
        },
{
    let ghost old_views = lap_display_views(laps@);
    let mut i: usize = 0;
    while i < laps.len()
        invariant
            i <= laps@.len(),
            old_views == lap_display_views(laps@),
            laps@ == old(laps)@,
            forall|j: int| 0 <= j < i ==> #[trigger] laps@[j].lap != lap.lap,
        decreases laps@.len() - i,
    {
        if laps[i].lap == lap.lap {
            proof {
                assert forall|j: int| 0 <= j < i implies #[trigger] old_views[j].lap != lap@.lap by {
                    assert(old_views[j] == laps@[j]@);
                }
                assert(is_first_named(old_views, lap@.lap, i as int));
                assert forall|k: int| is_first_named(old_views, lap@.lap, k) implies k == i by {
                    if k < i {
                        assert(old_views[k].lap != lap@.lap);
                    } else if k > i {
                        assert(old_views[i as int].lap != lap@.lap);
                    }
                }
            }
            let ghost before = laps@;
            let ghost lv = lap@;
            laps.set(i, lap);
            assert(lap_display_views(laps@) =~= old_views.update(i as int, lv));
            return;
        }
        i = i + 1;
    }
    proof {
        assert forall|k: int| !is_first_named(old_views, lap@.lap, k) by {
            if 0 <= k < old_views.len() {
                assert(old_views[k] == laps@[k]@);
            }
        }
    }
    let ghost lv = lap@;
    let ghost before = laps@;
    laps.push(lap);
    assert(lap_display_views(laps@) =~= old_views.push(lv));
    let sorted = sort_by_total(laps);
    *laps = sorted;
}

/// Whether the client refetches the run history on a state change: when a run stops
/// (Running to Disarmed), or when the stopwatch becomes Armed after having shown a run
/// and now shows none.
pub open spec fn spec_should_refresh_history(
    previous_state: Option<StopwatchState>,
    previous_run: Option<u64>,
    state: StopwatchState,
    run: Option<u64>,
) -> bool {
    match previous_state {
        Some(p) => (p == StopwatchState::Running && state == StopwatchState::Disarmed) || (state
            == StopwatchState::Armed && previous_run is Some && run is None),
        None => false,
    }
}

/// Whether the client refetches the run history on a state change.
pub fn should_refresh_history(
    previous_state: Option<StopwatchState>,
    previous_run: Option<u64>,
    state: StopwatchState,
    run: Option<u64>,
) -> (r: bool)
    ensures
        r == spec_should_refresh_history(previous_state, previous_run, state, run),
{
    match previous_state {
        Some(StopwatchState::Running) => {
            if state == StopwatchState::Disarmed {
                true
            } else {
                state == StopwatchState::Armed && previous_run.is_some() && run.is_none()
            }
        },
        Some(_) => state == StopwatchState::Armed && previous_run.is_some() && run.is_none(),
        None => false,
    }
}

/// The command the arm key sends: `unarm` when the stopwatch is known to be Armed or
/// Running, else `arm`.
pub fn toggle_command(state: Option<StopwatchState>) -> (r: &'static str)
    ensures
        r@ == (if state == Some(StopwatchState::Armed) || state == Some(StopwatchState::Running) {
            "unarm"@
        } else {
            "arm"@
        }),
{
    match state {
        Some(StopwatchState::Armed) | Some(StopwatchState::Running) => "unarm",
        _ => "arm",
    }
}

/// The key help line of the header.
pub fn header_help(tick_watching: bool) -> (r: String)
    ensures
        r@ == "[T]rigger [A]rm/Unarm [R]eset "@ + (if tick_watching {
            "[X]tick:ON"@
        } else {
            "[X]tick:OFF"@
        }) + " [Q]uit"@,
{
    let mut s = owned("[T]rigger [A]rm/Unarm [R]eset ");
    if tick_watching {
        s.append("[X]tick:ON");
    } else {
        s.append("[X]tick:OFF");
    }
    s.append(" [Q]uit");
    s
}

/// Appends a log entry, dropping the oldest when more than `MAX_LOG_ENTRIES` are held.
pub fn push_log(logs: &mut std::collections::VecDeque<LogEntry>, entry: LogEntry)
    requires
        old(logs)@.len() <= MAX_LOG_ENTRIES,
    ensures
        final(logs)@.len() <= MAX_LOG_ENTRIES,
        old(logs)@.len() < MAX_LOG_ENTRIES ==> final(logs)@ == old(logs)@.push(entry),
        old(logs)@.len() == MAX_LOG_ENTRIES ==> final(logs)@ == old(logs)@.push(entry).drop_first(),
{
    logs.push_back(entry);
    if logs.len() > MAX_LOG_ENTRIES {
        let _ = logs.pop_front();
    }
}

/// An error entry for the log panel.
pub fn error_entry(message: String) -> (r: LogEntry)
    ensures
        r.level@ == "ERROR"@,
        r.message@ == message@,
{
    LogEntry { level: owned("ERROR"), message }
}

/// Longest log message shown whole, in bytes.
pub const MAX_SHOWN_MESSAGE_BYTES: usize = 60;

/// A log message as the log panel shows it: whole up to 60 bytes, else its first 57
/// bytes and `...`.
pub fn shown_message(message: &str) -> (r: String)
    requires
        message.spec_bytes().len() <= usize::MAX,
        message.spec_bytes().len() > 60 ==> vstd::utf8::is_char_boundary(message.spec_bytes(), 57),
    ensures
        message.spec_bytes().len() <= 60 ==> r@ == message@,
        message.spec_bytes().len() > 60 ==> {
            &&& r@.len() >= 3
            &&& r@.subrange(r@.len() - 3, r@.len() as int) == "..."@
            &&& vstd::utf8::encode_utf8(r@.subrange(0, r@.len() - 3)) == message.spec_bytes().subrange(0, 57)
        },
{
    if message.len() <= MAX_SHOWN_MESSAGE_BYTES {
        return owned(message);
    }
    let (head, _) = message.split_at(57);
    let mut s = owned(head);
    s.append("...");
    proof {
        reveal_strlit("...");
        assert(s@.subrange(0, s@.len() - 3) =~= head@);
        assert(s@.subrange(s@.len() - 3, s@.len() as int) =~= "..."@);
    }
    s
}

} // verus!
