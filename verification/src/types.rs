//! Message and configuration types of the timing services.

use vstd::prelude::*;
use vstd::string::StringExecFns;
use crate::text::owned;

verus! {

// ---------------------------------------------------------------------------
// Stopwatch states
// ---------------------------------------------------------------------------

/// States of the stopwatch state machine.
#[derive(Debug, Clone, Copy, PartialEq, Eq, Structural)]
pub enum StopwatchState {
    /// Triggers are ignored.
    Disarmed,
    /// The next trigger starts a run.
    Armed,
    /// Triggers finish a lap and start the next one.
    Running,
}

impl Default for StopwatchState {
    fn default() -> (r: Self)
        ensures
            r == StopwatchState::Disarmed,
    {
        StopwatchState::Disarmed
    }
}

/// The name of a state, as its debug form prints it.
pub open spec fn state_name(s: StopwatchState) -> Seq<char> {
    match s {
        StopwatchState::Disarmed => "Disarmed"@,
        StopwatchState::Armed => "Armed"@,
        StopwatchState::Running => "Running"@,
    }
}

/// The name of a state.
pub fn state_label(s: StopwatchState) -> (r: &'static str)
    ensures
        r@ == state_name(s),
{
    match s {
        StopwatchState::Disarmed => "Disarmed",
        StopwatchState::Armed => "Armed",
        StopwatchState::Running => "Running",
    }
}

// ---------------------------------------------------------------------------
// System service
// ---------------------------------------------------------------------------

/// Ping request; it carries nothing.
#[derive(Debug, Clone, PartialEq, Eq)]
pub struct PingRequest {}

impl Default for PingRequest {
    fn default() -> (r: Self) {
        PingRequest {  }
    }
}

/// Ping response with the server's monotonic time.
#[derive(Debug, Clone, PartialEq, Eq)]
pub struct PingResponse {
    pub server_time_ns: u64,
}

// ---------------------------------------------------------------------------
// Triggers
// ---------------------------------------------------------------------------

/// One logical trigger pulse.
#[derive(Debug, Clone, PartialEq, Eq)]
pub struct TriggerEvent {
    pub timestamp_ns: u64,
    pub source: String,
}

// ---------------------------------------------------------------------------
// Commands
// ---------------------------------------------------------------------------

/// Request of the arm, unarm, reset and get_state commands.
#[derive(Debug, Clone, PartialEq, Eq)]
pub struct EmptyRequest {}

impl Default for EmptyRequest {
    fn default() -> (r: Self) {
        EmptyRequest {  }
    }
}

/// State snapshot sent in answer to commands and on every state change.
#[derive(Debug, Clone, Copy, PartialEq, Eq)]
pub struct StateSnapshot {
    pub state: StopwatchState,
    /// The run in progress; `None` while no run is in progress (run identifiers start
    /// at 1).
    pub run_id: Option<u64>,
    pub elapsed_ns: u64,
    pub server_time_ns: u64,
    pub lap_count: u32,
    pub running: bool,
}

// ---------------------------------------------------------------------------
// Live events
// ---------------------------------------------------------------------------

/// Periodic update while running: time since the run started, the server time, and the
/// number of the lap in progress.
#[derive(Debug, Clone, Copy, PartialEq, Eq)]
pub struct TickUpdate {
    pub elapsed_ns: u64,
    pub server_time_ns: u64,
    pub lap_id: u32,
}

/// Whether a lap event marks the start or the finish of a lap.
#[derive(Debug, Clone, Copy, PartialEq, Eq, Structural)]
pub enum LapEventType {
    Start,
    Finish,
}

/// A lap starting or finishing. Laps are numbered from 1 within a run.
#[derive(Debug, Clone, Copy, PartialEq, Eq)]
pub struct LapEvent {
    pub event_type: LapEventType,
    pub run_id: u64,
    pub lap: u32,
    pub lap_time_ns: Option<u64>,
    pub total_time_ns: u64,
    pub server_time_ns: u64,
}

/// A lap event as plain values.
pub struct LapEventView {
    pub event_type: LapEventType,
    pub run_id: u64,
    pub lap: u32,
    pub lap_time_ns: Option<u64>,
    pub total_time_ns: u64,
    pub server_time_ns: u64,
}

impl View for LapEvent {
    type V = LapEventView;

    open spec fn view(&self) -> LapEventView {
        LapEventView {
            event_type: self.event_type,
            run_id: self.run_id,
            lap: self.lap,
            lap_time_ns: self.lap_time_ns,
            total_time_ns: self.total_time_ns,
            server_time_ns: self.server_time_ns,
        }
    }
}

/// The views of a sequence of lap events.
pub open spec fn lap_event_views(s: Seq<LapEvent>) -> Seq<LapEventView> {
    s.map_values(|e: LapEvent| e@)
}

// ---------------------------------------------------------------------------
// History
// ---------------------------------------------------------------------------

/// The page size a history request has when it names none.
pub fn default_limit() -> (r: u32)
    ensures
        r == 100,
{
    100
}

/// Request to list the archived runs.
#[derive(Debug, Clone, PartialEq, Eq)]
pub struct ListRunsRequest {
    pub limit: u32,
    pub offset: u32,
}

impl Default for ListRunsRequest {
    /// Both fields zero (the page size default applies to decoded requests only).
    fn default() -> (r: Self)
        ensures
            r.limit == 0,
            r.offset == 0,
    {
        ListRunsRequest { limit: 0, offset: 0 }
    }
}

/// Summary of one archived run.
#[derive(Debug, Clone, Copy, PartialEq, Eq)]
pub struct RunSummary {
    pub run_id: u64,
    pub start_time_ns: u64,
    pub end_time_ns: Option<u64>,
    pub total_time_ns: u64,
    pub lap_count: u32,
}

/// A page of run summaries and the number of archived runs.
#[derive(Debug, Clone, PartialEq, Eq)]
pub struct ListRunsResponse {
    pub runs: Vec<RunSummary>,
    pub total: u32,
}

/// Request for one archived run.
#[derive(Debug, Clone, PartialEq, Eq)]
pub struct GetRunRequest {
    pub run_id: u64,
}

/// One finished lap of a run, by its number.
#[derive(Debug, Clone, Copy, PartialEq, Eq)]
pub struct LapDetail {
    pub lap: u32,
    pub lap_time_ns: u64,
    pub total_time_ns: u64,
    pub timestamp_ns: Option<u64>,
}

/// A finished lap as plain values.
pub struct LapDetailView {
    pub lap: u32,
    pub lap_time_ns: u64,
    pub total_time_ns: u64,
    pub timestamp_ns: Option<u64>,
}

impl View for LapDetail {
    type V = LapDetailView;

    open spec fn view(&self) -> LapDetailView {
        LapDetailView {
            lap: self.lap,
            lap_time_ns: self.lap_time_ns,
            total_time_ns: self.total_time_ns,
            timestamp_ns: self.timestamp_ns,
        }
    }
}

/// The views of a sequence of lap details.
pub open spec fn lap_detail_views(v: Seq<LapDetail>) -> Seq<LapDetailView> {
    v.map_values(|d: LapDetail| d@)
}

/// One archived run with all its finished laps.
#[derive(Debug, Clone, PartialEq, Eq)]
pub struct GetRunResponse {
    pub run_id: u64,
    pub start_time_ns: u64,
    pub end_time_ns: Option<u64>,
    pub total_time_ns: u64,
    pub lap_count: u32,
    pub laps: Vec<LapDetail>,
}

/// Request for a page of the finished laps of one run.
#[derive(Debug, Clone, PartialEq, Eq)]
pub struct GetLapsRequest {
    pub run_id: u64,
    pub limit: u32,
    pub offset: u32,
}

/// A page of finished laps and the number of finished laps of the run.
#[derive(Debug, Clone, PartialEq, Eq)]
pub struct GetLapsResponse {
    pub run_id: u64,
    pub laps: Vec<LapDetail>,
    pub total: u32,
}

// ---------------------------------------------------------------------------
// Errors
// ---------------------------------------------------------------------------

/// Error answer of a command.
#[derive(Debug, Clone, PartialEq, Eq)]
pub struct ErrorResponse {
    pub error: String,
    pub code: String,
}

/// The message of a refused state transition.
pub open spec fn transition_error_message(from: StopwatchState, action: Seq<char>) -> Seq<char> {
    "Cannot "@ + action + " from "@ + state_name(from) + " state"@
}

impl ErrorResponse {
    /// An error answer with the given message and code.
    pub fn new(error: String, code: String) -> (r: Self)
        ensures
            r.error@ == error@,
            r.code@ == code@,
    {
        ErrorResponse { error, code }
    }

    /// The answer to a command that the current state does not allow.
    pub fn invalid_transition(from: StopwatchState, action: &str) -> (r: Self)
        ensures
            r.error@ == transition_error_message(from, action@),
            r.code@ == "INVALID_TRANSITION"@,
    {
        let mut msg = owned("Cannot ");
        msg.append(action);
        msg.append(" from ");
        msg.append(state_label(from));
        msg.append(" state");
        Self::new(msg, owned("INVALID_TRANSITION"))
    }
}

// ---------------------------------------------------------------------------
// GPIO configuration
// ---------------------------------------------------------------------------

/// Whether a pin is active high when its configuration does not say.
pub fn default_active_high() -> (r: bool)
    ensures
        r,
{
    true
}

/// One configured GPIO pin.
#[derive(Debug, Clone, PartialEq, Eq)]
pub struct GpioPinConfig {
    pub pin: u32,
    pub name: String,
    /// If true, a rising edge makes the pin active; otherwise a falling edge does.
    pub active_high: bool,
}

/// Debounce timing of the GPIO trigger.
#[derive(Debug, Clone, Copy, PartialEq, Eq)]
pub struct GpioDebounceConfig {
    pub quiet_period_ms: u64,
    pub max_wait_ms: u64,
}

impl Default for GpioDebounceConfig {
    fn default() -> (r: Self)
        ensures
            r.quiet_period_ms == 200,
            r.max_wait_ms == 3000,
    {
        GpioDebounceConfig { quiet_period_ms: 200, max_wait_ms: 3000 }
    }
}

/// GPIO configuration of the trigger source.
#[derive(Debug, Clone, PartialEq, Eq)]
pub struct GpioConfig {
    pub chip: String,
    pub debounce: GpioDebounceConfig,
    pub pins: Vec<GpioPinConfig>,
}

impl Default for GpioConfig {
    fn default() -> (r: Self)
        ensures
            r.chip@ == "/dev/gpiochip0"@,
            r.debounce.quiet_period_ms == 200,
            r.debounce.max_wait_ms == 3000,
            r.pins@.len() == 1,
            r.pins@[0].pin == 1,
            r.pins@[0].name@ == "Start/Finish Line"@,
            r.pins@[0].active_high,
    {
        let mut pins: Vec<GpioPinConfig> = Vec::new();
        pins.push(GpioPinConfig { pin: 1, name: owned("Start/Finish Line"), active_high: true });
        GpioConfig { chip: owned("/dev/gpiochip0"), debounce: GpioDebounceConfig::default(), pins }
    }
}

// ---------------------------------------------------------------------------
// Hardware setup
// ---------------------------------------------------------------------------

/// State of one GPIO pin.
#[derive(Debug, Clone, PartialEq, Eq)]
pub struct PinState {
    pub pin: u32,
    pub name: String,
    /// True when the beam is broken (closed), false when it is clear (open).
    pub active: bool,
}

/// Hardware setup state for IR sensor alignment.
#[derive(Debug, Clone, PartialEq, Eq)]
pub struct HardwareSetupState {
    pub armed: bool,
    pub pins: Vec<PinState>,
}

// ---------------------------------------------------------------------------
// Authentication answer
// ---------------------------------------------------------------------------

/// Answer of the authentication service.
#[derive(Debug, Clone, PartialEq, Eq)]
pub enum AuthResponse {
    Jwt { jwt: String },
    Error { error: String, code: String },
}

impl AuthResponse {
    /// A successful answer carrying a token.
    pub fn jwt(jwt: String) -> (r: Self)
        ensures
            r matches AuthResponse::Jwt { jwt: j } && j@ == jwt@,
    {
        AuthResponse::Jwt { jwt }
    }

    /// An error answer.
    pub fn error(error: String, code: String) -> (r: Self)
        ensures
            r matches AuthResponse::Error { error: e, code: c } && e@ == error@ && c@ == code@,
    {
        AuthResponse::Error { error, code }
    }

    /// An error answer with the message and code of an error response.
    pub fn from_error_response(err: ErrorResponse) -> (r: Self)
        ensures
            r matches AuthResponse::Error { error: e, code: c } && e@ == err.error@ && c@
                == err.code@,
    {
        AuthResponse::Error { error: err.error, code: err.code }
    }
}

} // verus!
