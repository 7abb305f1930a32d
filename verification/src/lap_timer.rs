//! The lap timer of the WebSocket server: laps from the edges of one switch.
//!
//! Only falling edges time laps. The first starts a lap; each later one, unless it
//! comes within the debounce period after the previous lap event, finishes the lap
//! and starts the next. A reset aborts the lap in progress.

use vstd::prelude::*;
use crate::ids::{fresh_id, is_fresh_id_shape};
use crate::text::copy_string;
use crate::trigger::clock_monotonic_ns;
use crate::wall_clock::unix_now_millis;

verus! {

/// How long after a lap event further falling edges are ignored, in nanoseconds.
pub const DEBOUNCE_PERIOD_NS: u64 = 3_000_000_000;

/// A switch reading: when it was taken (Unix milliseconds) and the level.
#[derive(Debug, Clone, Copy, PartialEq, Eq, Structural)]
pub struct SwitchState {
    pub timestamp_ms: u64,
    pub value: bool,
}

/// A lap started.
#[derive(Debug, Clone, PartialEq, Eq)]
pub struct LapStarted {
    pub id: String,
    pub timestamp_ms: u64,
}

/// A lap in progress, with its time so far.
#[derive(Debug, Clone, PartialEq, Eq)]
pub struct LapUpdated {
    pub id: String,
    pub timestamp_ms: u64,
    pub duration_ms: u64,
}

/// A lap finished, with its time.
#[derive(Debug, Clone, PartialEq, Eq)]
pub struct LapFinished {
    pub id: String,
    pub timestamp_ms: u64,
    pub duration_ms: u64,
}

/// A lap aborted.
#[derive(Debug, Clone, PartialEq, Eq)]
pub struct LapAborted {
    pub id: String,
    pub timestamp_ms: u64,
}

/// An event of the lap timer.
#[derive(Debug, Clone, PartialEq, Eq)]
pub enum LapTimerEvent {
    Started(LapStarted),
    Updated(LapUpdated),
    Finished(LapFinished),
    Aborted(LapAborted),
}

/// A lap timer event with its lap identifier as characters.
pub enum LapTimerEventView {
    Started { id: Seq<char>, timestamp_ms: u64 },
    Updated { id: Seq<char>, timestamp_ms: u64, duration_ms: u64 },
    Finished { id: Seq<char>, timestamp_ms: u64, duration_ms: u64 },
    Aborted { id: Seq<char>, timestamp_ms: u64 },
}

impl View for LapTimerEvent {
    type V = LapTimerEventView;

    open spec fn view(&self) -> LapTimerEventView {
        match self {
            LapTimerEvent::Started(e) => LapTimerEventView::Started {
                id: e.id@,
                timestamp_ms: e.timestamp_ms,
            },
            LapTimerEvent::Updated(e) => LapTimerEventView::Updated {
                id: e.id@,
                timestamp_ms: e.timestamp_ms,
                duration_ms: e.duration_ms,
            },
            LapTimerEvent::Finished(e) => LapTimerEventView::Finished {
                id: e.id@,
                timestamp_ms: e.timestamp_ms,
                duration_ms: e.duration_ms,
            },
            LapTimerEvent::Aborted(e) => LapTimerEventView::Aborted {
                id: e.id@,
                timestamp_ms: e.timestamp_ms,
            },
        }
    }
}

/// The views of a sequence of lap timer events.
pub open spec fn timer_event_views(s: Seq<LapTimerEvent>) -> Seq<LapTimerEventView> {
    s.map_values(|e: LapTimerEvent| e@)
}

/// What the monitor shows of the switch: its state on subscription, then each change.
#[derive(Debug, Clone, Copy, PartialEq, Eq)]
pub enum MonitorEvent {
    Initial(SwitchState),
    Change(SwitchState),
}

/// Periodic server time for the clients.
#[derive(Debug, Clone, Copy, PartialEq, Eq)]
pub struct HeartbeatMessage {
    pub timestamp_ms: u64,
}

/// Messages between the WebSocket server and its clients.
#[derive(Debug, Clone, PartialEq, Eq)]
pub enum DataMessage {
    ResetLap,
    Lap(LapTimerEvent),
    Monitor(MonitorEvent),
    MonitorSubscribe,
    MonitorUnSubscribe,
    Heartbeat(HeartbeatMessage),
}

/// The lap in progress: its identifier, when its last event was sent (monotonic
/// nanoseconds) and the switch timestamp that started it.
pub struct StartedLapModel {
    pub id: Seq<char>,
    pub last_sent_ns: u64,
    pub event_ts: u64,
}

/// The lap timer: the latest switch reading and the lap in progress.
pub struct LapControllerModel {
    pub last_switch_state: Option<SwitchState>,
    pub started_lap: Option<StartedLapModel>,
}

/// Whether a falling edge at monotonic time `now_ns` comes too soon after the last
/// lap event.
pub open spec fn debounced(m: LapControllerModel, now_ns: u64) -> bool {
    m.started_lap matches Some(l) && (if now_ns >= l.last_sent_ns {
        now_ns - l.last_sent_ns
    } else {
        0
    }) < DEBOUNCE_PERIOD_NS
}

/// Whether a reading times a lap: a falling edge outside the debounce period.
pub open spec fn times_lap(m: LapControllerModel, s: SwitchState, now_ns: u64) -> bool {
    !s.value && !debounced(m, now_ns)
}

/// The lap timer after reading `s` at wall time `now_ms` and monotonic time `now_ns`,
/// where `id` names the lap a timing edge starts.
pub open spec fn after_switch(m: LapControllerModel, s: SwitchState, now_ns: u64, id: Seq<char>) -> LapControllerModel {
    LapControllerModel {
        last_switch_state: Some(s),
        started_lap: if times_lap(m, s, now_ns) {
            Some(StartedLapModel { id, last_sent_ns: now_ns, event_ts: s.timestamp_ms })
        } else {
            m.started_lap
        },
    }
}

/// The events of reading `s`: none unless it times a lap; then the finish of the lap in
/// progress (its time runs between the two switch timestamps), if any, and the start of
/// lap `id`.
pub open spec fn switch_events(m: LapControllerModel, s: SwitchState, now_ms: u64, now_ns: u64, id: Seq<char>) -> Option<Seq<LapTimerEventView>> {
    if !times_lap(m, s, now_ns) {
        None
    } else {
        match m.started_lap {
            Some(l) => Some(seq![
                LapTimerEventView::Finished {
                    id: l.id,
                    timestamp_ms: now_ms,
                    duration_ms: (s.timestamp_ms - l.event_ts) as u64,
                },
                LapTimerEventView::Started { id, timestamp_ms: now_ms },
            ]),
            None => Some(seq![LapTimerEventView::Started { id, timestamp_ms: now_ms }]),
        }
    }
}

/// The events of aborting lap `id` at wall time `now_ms`: its abort.
pub open spec fn abort_events(id: Seq<char>, now_ms: u64) -> Seq<LapTimerEventView> {
    seq![LapTimerEventView::Aborted { id, timestamp_ms: now_ms }]
}

/// Whether reading `s` can be handled: a falling edge never carries a timestamp before
/// the one that started the lap in progress.
pub open spec fn switch_allowed(m: LapControllerModel, s: SwitchState) -> bool {
    !s.value && m.started_lap is Some ==> s.timestamp_ms >= m.started_lap->0.event_ts
}

struct StartedLap {
    id: String,
    last_sent_ns: u64,
    event_ts: u64,
}

/// The lap timer.
pub struct LapController {
    last_switch_state: Option<SwitchState>,
    started_lap: Option<StartedLap>,
}

impl View for LapController {
    type V = LapControllerModel;

    closed spec fn view(&self) -> LapControllerModel {
        LapControllerModel {
            last_switch_state: self.last_switch_state,
            started_lap: match self.started_lap {
                Some(l) => Some(
                    StartedLapModel { id: l.id@, last_sent_ns: l.last_sent_ns, event_ts: l.event_ts },
                ),
                None => None,
            },
        }
    }
}

impl LapController {
    /// No reading yet, no lap.
    pub fn new() -> (r: Self)
        ensures
            r@.last_switch_state is None,
            r@.started_lap is None,
    {
        LapController { last_switch_state: None, started_lap: None }
    }

    /// Whether reading `s` can be handled: a falling edge's timestamp is not before the
    /// one that started the lap in progress.
    pub fn accepts_switch_state(&self, s: SwitchState) -> (r: bool)
        ensures
            r == switch_allowed(self@, s),
    {
        if s.value {
            return true;
        }
        match &self.started_lap {
            Some(l) => s.timestamp_ms >= l.event_ts,
            None => true,
        }
    }

    /// The latest switch reading.
    pub fn last_switch_state(&self) -> (r: Option<SwitchState>)
        ensures
            r == self@.last_switch_state,
    {
        self.last_switch_state
    }

    /// Aborts the lap in progress at wall time `now_ms`: reports its abort, or `None`
    /// when no lap is in progress. Either way no lap is in progress afterwards.
    pub fn reset_lap_at(&mut self, now_ms: u64) -> (r: Option<Vec<LapTimerEvent>>)
        ensures
            final(self)@.started_lap is None,
            final(self)@.last_switch_state == old(self)@.last_switch_state,
            r is Some <==> old(self)@.started_lap is Some,
            (r matches Some(evs) ==> timer_event_views(evs@) == abort_events(
                old(self)@.started_lap->0.id,
                now_ms,
            )),
    {
        let lap = self.started_lap.take();
        match lap {
            Some(l) => {
                let mut events: Vec<LapTimerEvent> = Vec::new();
                events.push(LapTimerEvent::Aborted(LapAborted { id: l.id, timestamp_ms: now_ms }));
                assert(timer_event_views(events@) =~= seq![
                    LapTimerEventView::Aborted { id: old(self)@.started_lap->0.id, timestamp_ms: now_ms },
                ]);
                Some(events)
            },
            None => None,
        }
    }

    /// Aborts the lap in progress now, by the wall clock, as `reset_lap_at`: the abort of
    /// the lap in progress, stamped with the clock reading.
    pub fn reset_lap(&mut self) -> (r: Option<Vec<LapTimerEvent>>)
        ensures
            final(self)@.started_lap is None,
            final(self)@.last_switch_state == old(self)@.last_switch_state,
            r is Some <==> old(self)@.started_lap is Some,
            (r matches Some(evs) ==> exists|now_ms: u64|
                timer_event_views(evs@) == #[trigger] abort_events(
                    old(self)@.started_lap->0.id,
                    now_ms,
                )),
    {
        let now_ms = unix_now_millis() as u64;
        let r = self.reset_lap_at(now_ms);
        assert(r matches Some(evs) ==> timer_event_views(evs@) == abort_events(
            old(self)@.started_lap->0.id,
            now_ms,
        ));
        r
    }

    /// Reads switch state `s` at wall time `now_ms` and monotonic time `now_ns`; `id`
    /// names the lap a timing edge starts.
    pub fn update_switch_state_at(
        &mut self,
        s: SwitchState,
        now_ms: u64,
        now_ns: u64,
        id: String,
    ) -> (r: Option<Vec<LapTimerEvent>>)
        requires
            switch_allowed(old(self)@, s),
        ensures
            final(self)@ == after_switch(old(self)@, s, now_ns, id@),
            match switch_events(old(self)@, s, now_ms, now_ns, id@) {
                None => r is None,
                Some(evs) => r matches Some(v) && timer_event_views(v@) == evs,
            },
    {
        self.last_switch_state = Some(s);
        if s.value {
            return None;
        }
        let debounce = match &self.started_lap {
            Some(l) => now_ns.saturating_sub(l.last_sent_ns) < DEBOUNCE_PERIOD_NS,
            None => false,
        };
        if debounce {
            return None;
        }
        let mut events: Vec<LapTimerEvent> = Vec::new();
        let started_id = copy_string(&id);
        let previous = self.started_lap.take();
        match previous {
            Some(l) => {
                events.push(
                    LapTimerEvent::Finished(
                        LapFinished {
                            id: l.id,
                            timestamp_ms: now_ms,
                            duration_ms: s.timestamp_ms - l.event_ts,
                        },
                    ),
                );
            },
            None => {},
        }
        self.started_lap = Some(StartedLap { id, last_sent_ns: now_ns, event_ts: s.timestamp_ms });
        events.push(LapTimerEvent::Started(LapStarted { id: started_id, timestamp_ms: now_ms }));
        assert(timer_event_views(events@) =~= switch_events(old(self)@, s, now_ms, now_ns, self@.started_lap->0.id)->0);
        Some(events)
    }

    /// Reads switch state `s` now, by the wall and monotonic clocks, as
    /// `update_switch_state_at` with a fresh random lap identifier.
    pub fn update_switch_state(&mut self, s: SwitchState) -> (r: Option<Vec<LapTimerEvent>>)
        requires
            switch_allowed(old(self)@, s),
        ensures
            exists|now_ms: u64, now_ns: u64, id: Seq<char>|
                #![trigger switch_events(old(self)@, s, now_ms, now_ns, id)]
                {
                    &&& is_fresh_id_shape(id)
                    &&& final(self)@ == after_switch(old(self)@, s, now_ns, id)
                    &&& match switch_events(old(self)@, s, now_ms, now_ns, id) {
                        None => r is None,
                        Some(evs) => r matches Some(v) && timer_event_views(v@) == evs,
                    }
                },
    {
        let now_ms = unix_now_millis() as u64;
        let now_ns = clock_monotonic_ns();
        let id = fresh_id();
        let ghost g = id@;
        let r = self.update_switch_state_at(s, now_ms, now_ns, id);
        assert(is_fresh_id_shape(g));
        let ghost evs = switch_events(old(self)@, s, now_ms, now_ns, g);
        r
    }
}

/// A rising edge never times a lap, and a timing edge always leaves a lap in progress
/// that started at that edge.
pub proof fn lemma_only_falling_edges_time_laps(
    m: LapControllerModel,
    s: SwitchState,
    now_ms: u64,
    now_ns: u64,
    id: Seq<char>,
)
    ensures
        s.value ==> switch_events(m, s, now_ms, now_ns, id) is None && after_switch(
            m,
            s,
            now_ns,
            id,
        ).started_lap == m.started_lap,
        times_lap(m, s, now_ns) ==> after_switch(m, s, now_ns, id).started_lap == Some(
            StartedLapModel { id, last_sent_ns: now_ns, event_ts: s.timestamp_ms },
        ),
{
}

/// Debounce of the lap timer, over the monotonic time at which a falling edge is read: an
/// edge read 3 s or more after the last lap event finishes the lap in progress (its
/// duration is the time between the two switch timestamps) and starts the next; an edge
/// read less than 3 s after it is ignored and changes no lap.
pub proof fn lemma_debounce_is_three_seconds(
    m: LapControllerModel,
    s: SwitchState,
    now_ms: u64,
    now_ns: u64,
    id: Seq<char>,
)
    requires
        !s.value,
        m.started_lap is Some,
        switch_allowed(m, s),
    ensures
        ({
            let l = m.started_lap->0;
            &&& now_ns >= l.last_sent_ns + 3_000_000_000 ==> {
                &&& switch_events(m, s, now_ms, now_ns, id) == Some(
                    seq![
                        LapTimerEventView::Finished {
                            id: l.id,
                            timestamp_ms: now_ms,
                            duration_ms: (s.timestamp_ms - l.event_ts) as u64,
                        },
                        LapTimerEventView::Started { id, timestamp_ms: now_ms },
                    ],
                )
                &&& after_switch(m, s, now_ns, id).started_lap == Some(
                    StartedLapModel { id, last_sent_ns: now_ns, event_ts: s.timestamp_ms },
                )
            }
            &&& l.last_sent_ns <= now_ns < l.last_sent_ns + 3_000_000_000 ==> {
                &&& switch_events(m, s, now_ms, now_ns, id) is None
                &&& after_switch(m, s, now_ns, id).started_lap == m.started_lap
            }
        }),
{
}

} // verus!
