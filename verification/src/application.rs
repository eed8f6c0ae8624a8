//! The decisions of an application session: the tuning-experiment runtime
//! that a background worker and the user's Stop race on, the Repeat cursor of
//! position motion, and the routing of Actions.

use vstd::prelude::*;

use crate::config_service::ConfigServiceError;
use crate::mixed_scope::{hex_id, hex_id_text, label_for, label_text, MixedScopeError, ScopeRate, ScopeSelection};
use crate::motion::MotionMode;
use crate::motor_actions::MotorActionError;
use crate::parameter_service::{decimal_text, has_byte, readable, starts, sym_starts, u8_text, ParameterServiceError};
use crate::plot_capabilities::{first_channel, DevicePlotCapabilities, PlotCapabilitiesError};
use crate::schema::{first_parameter_named, HostSchema, ParameterMetadata};
use crate::preflight::PreflightError;
use crate::protocol::status::AxdrStatus;
use crate::session::SessionError;
use crate::stream::TimeSpan;
use crate::text::{concat, same_text};

verus! {

/// Why an application-level request failed.
#[derive(Debug)]
pub enum ApplicationError {
    Session(SessionError),
    PlotCapabilities(PlotCapabilitiesError),
    Parameter(ParameterServiceError),
    Scope(MixedScopeError),
    MotorAction(MotorActionError),
    Config(ConfigServiceError),
    Preflight(PreflightError),
    Poisoned,
    UnknownAction(String),
    ScopeNotConfigured,
    TuningExperimentBusy,
    TuningExperimentMotorNotEnabled,
    TuningExperimentChannel(String),
    ParameterSync(String),
    Motion(String),
}

/// Where a tuning experiment stands.
#[derive(Debug, Clone, Copy, PartialEq, Eq, Structural)]
pub enum TuningExperimentState {
    Idle,
    Preparing,
    Running,
    Stopping,
    Completed,
    Failed,
}

/// An experiment between its start and its end owns the motor.
pub open spec fn spec_active(state: TuningExperimentState) -> bool {
    state is Preparing || state is Running || state is Stopping
}

/// Whether an experiment in `state` is still under way.
pub fn tuning_active(state: TuningExperimentState) -> (res: bool)
    ensures
        res == spec_active(state),
{
    match state {
        TuningExperimentState::Preparing | TuningExperimentState::Running | TuningExperimentState::Stopping => true,
        _ => false,
    }
}

/// What the user sees of the experiment.
#[derive(Debug, Clone, PartialEq, Eq)]
pub struct TuningExperimentStatus {
    pub state: TuningExperimentState,
    pub message: Option<String>,
}

/// The shared record of the current tuning experiment. Each start opens a new
/// generation; a worker acts on the record only while it still holds the
/// current generation.
#[derive(Debug)]
pub struct TuningExperimentRuntime {
    pub generation: u64,
    pub state: TuningExperimentState,
    pub stop_requested: bool,
    pub message: Option<String>,
}

impl TuningExperimentRuntime {
    pub fn new() -> (res: Self)
        ensures
            res.generation == 0,
            res.state == TuningExperimentState::Idle,
            !res.stop_requested,
            res.message is None,
    {
        TuningExperimentRuntime {
            generation: 0,
            state: TuningExperimentState::Idle,
            stop_requested: false,
            message: None,
        }
    }

    /// Motor commands other than the experiment's own are refused while an
    /// experiment is under way.
    pub fn ensure_idle(&self) -> (res: Result<(), ApplicationError>)
        ensures
            spec_active(self.state) ==> res matches Err(ApplicationError::TuningExperimentBusy),
            !spec_active(self.state) ==> res is Ok,
    {
        if tuning_active(self.state) {
            Err(ApplicationError::TuningExperimentBusy)
        } else {
            Ok(())
        }
    }

    /// Opens a new experiment in PREPARING and returns its generation; an
    /// experiment still under way is not replaced.
    pub fn begin(&mut self) -> (res: Result<u64, ApplicationError>)
        ensures
            spec_active(old(self).state) ==> (res matches Err(ApplicationError::TuningExperimentBusy)
                && final(self).generation == old(self).generation && final(self).state == old(self).state
                && final(self).stop_requested == old(self).stop_requested && final(self).message
                == old(self).message),
            !spec_active(old(self).state) ==> (res matches Ok(g) && g == final(self).generation
                && final(self).generation == (if old(self).generation == u64::MAX {
                0
            } else {
                (old(self).generation + 1) as u64
            }) && final(self).generation != old(self).generation && final(self).state
                == TuningExperimentState::Preparing && !final(self).stop_requested && final(self).message is None),
    {
        if tuning_active(self.state) {
            return Err(ApplicationError::TuningExperimentBusy);
        }
        self.generation = self.generation.wrapping_add(1);
        self.state = TuningExperimentState::Preparing;
        self.stop_requested = false;
        self.message = None;
        Ok(self.generation)
    }

    /// Marks the experiment under way as asked to stop; a RUNNING one becomes
    /// STOPPING. A finished experiment is left as it is.
    pub fn request_stop(&mut self)
        ensures
            final(self).generation == old(self).generation,
            final(self).message == old(self).message,
            spec_active(old(self).state) ==> final(self).stop_requested && final(self).state == (
            if old(self).state == TuningExperimentState::Running {
                TuningExperimentState::Stopping
            } else {
                old(self).state
            }),
            !spec_active(old(self).state) ==> final(self).stop_requested == old(self).stop_requested
                && final(self).state == old(self).state,
    {
        if tuning_active(self.state) {
            self.stop_requested = true;
            if self.state == TuningExperimentState::Running {
                self.state = TuningExperimentState::Stopping;
            }
        }
    }

    /// Whether the worker of `generation` must give up: the motor gate is
    /// closed, a newer experiment replaced it, or Stop was asked for.
    pub fn stop_requested_for(&self, generation: u64, gate_closed: bool) -> (res: bool)
        ensures
            res == (gate_closed || self.generation != generation || self.stop_requested),
    {
        gate_closed || self.generation != generation || self.stop_requested
    }

    /// Whether the motion Run of an experiment (or, with `None`, a plain Run)
    /// may be sent now.
    pub fn check_run(&self, experiment: Option<u64>) -> (res: Result<(), ApplicationError>)
        ensures
            match experiment {
                Some(g) => if self.generation != g || self.stop_requested {
                    res matches Err(ApplicationError::Motion(m)) && m@ == "tuning Run was cancelled"@
                } else {
                    res is Ok
                },
                None => if spec_active(self.state) {
                    res matches Err(ApplicationError::TuningExperimentBusy)
                } else {
                    res is Ok
                },
            },
    {
        match experiment {
            Some(g) => {
                if self.generation != g || self.stop_requested {
                    return Err(ApplicationError::Motion("tuning Run was cancelled".to_owned()));
                }
                Ok(())
            },
            None => self.ensure_idle(),
        }
    }

    /// Moves the experiment of `generation` to `state`; a stale generation
    /// changes nothing. Returns whether the change was made.
    pub fn set_state(&mut self, generation: u64, state: TuningExperimentState) -> (res: bool)
        ensures
            res == (old(self).generation == generation),
            final(self).generation == old(self).generation,
            final(self).stop_requested == old(self).stop_requested,
            final(self).message == old(self).message,
            final(self).state == (if res {
                state
            } else {
                old(self).state
            }),
    {
        if self.generation != generation {
            return false;
        }
        self.state = state;
        true
    }

    /// Ends the experiment of `generation` in `state` with `message`; a stale
    /// generation changes nothing.
    pub fn settle(&mut self, generation: u64, state: TuningExperimentState, message: String)
        ensures
            final(self).generation == old(self).generation,
            final(self).stop_requested == old(self).stop_requested,
            old(self).generation == generation ==> final(self).state == state && final(self).message
                == Some(message),
            old(self).generation != generation ==> final(self).state == old(self).state && final(self).message
                == old(self).message,
    {
        if self.generation == generation {
            self.state = state;
            self.message = Some(message);
        }
    }

    /// Leaves a note on the experiment of `generation` without changing its
    /// state.
    pub fn note(&mut self, generation: u64, message: String)
        ensures
            final(self).generation == old(self).generation,
            final(self).stop_requested == old(self).stop_requested,
            final(self).state == old(self).state,
            old(self).generation == generation ==> final(self).message == Some(message),
            old(self).generation != generation ==> final(self).message == old(self).message,
    {
        if self.generation == generation {
            self.message = Some(message);
        }
    }

    /// Records how a preparation that failed with `error` ends: when it was
    /// cancelled it completes as cancelled before Run, else it fails with the
    /// error. Returns whether the error must reach the caller.
    pub fn fail_preparation(&mut self, generation: u64, cancelled: bool, error: String) -> (res: bool)
        ensures
            res == !cancelled,
            final(self).generation == old(self).generation,
            final(self).stop_requested == old(self).stop_requested,
            old(self).generation == generation && cancelled ==> (final(self).state
                == TuningExperimentState::Completed && (final(self).message matches Some(m) && m@
                == "Cancelled before Run"@)),
            old(self).generation == generation && !cancelled ==> final(self).state
                == TuningExperimentState::Failed && final(self).message == Some(error),
            old(self).generation != generation ==> final(self).state == old(self).state && final(self).message
                == old(self).message,
    {
        if cancelled {
            self.settle(generation, TuningExperimentState::Completed, "Cancelled before Run".to_owned());
        } else {
            self.settle(generation, TuningExperimentState::Failed, error);
        }
        !cancelled
    }

    /// The status the user sees.
    pub fn status(&self) -> (res: TuningExperimentStatus)
        ensures
            res.state == self.state,
            res.message == self.message,
    {
        TuningExperimentStatus { state: self.state, message: self.message.clone() }
    }
}

/// Which endpoint the next Repeat leg of position motion goes to, and the
/// leg that was sent and has not completed yet.
#[derive(Debug, Clone, Copy, PartialEq, Eq, Structural)]
pub struct RepeatCursor {
    pub next_is_b: bool,
    pub pending_target_is_b: Option<bool>,
}

/// What a completed leg leaves of the cursor.
pub open spec fn spec_completed(c: RepeatCursor, status: AxdrStatus) -> RepeatCursor {
    match c.pending_target_is_b {
        Some(t) => RepeatCursor {
            next_is_b: if status == AxdrStatus::Success {
                !t
            } else {
                c.next_is_b
            },
            pending_target_is_b: None,
        },
        None => c,
    }
}

/// What sending a leg toward the next endpoint leaves of the cursor.
pub open spec fn spec_leg_sent(c: RepeatCursor) -> RepeatCursor {
    RepeatCursor { next_is_b: c.next_is_b, pending_target_is_b: Some(c.next_is_b) }
}

impl RepeatCursor {
    /// A fresh cursor: the first leg goes to endpoint B.
    pub fn new() -> (res: Self)
        ensures
            res == (RepeatCursor { next_is_b: true, pending_target_is_b: None }),
    {
        RepeatCursor { next_is_b: true, pending_target_is_b: None }
    }

    /// The endpoint the next leg goes to: B when true.
    pub fn target_is_b(&self) -> (res: bool)
        ensures
            res == self.next_is_b,
    {
        self.next_is_b
    }

    /// Records that a leg toward `target_is_b` was sent.
    pub fn leg_sent(&mut self, target_is_b: bool)
        ensures
            *final(self) == (RepeatCursor { next_is_b: old(self).next_is_b, pending_target_is_b: Some(target_is_b) }),
    {
        self.pending_target_is_b = Some(target_is_b);
    }

    /// Forgets the leg in flight: it will not move the cursor when it ends.
    pub fn leg_cancelled(&mut self)
        ensures
            *final(self) == (RepeatCursor { next_is_b: old(self).next_is_b, pending_target_is_b: None }),
    {
        self.pending_target_is_b = None;
    }

    /// Records the end of the leg in flight: only a successful leg turns the
    /// cursor to the other endpoint.
    pub fn completed(&mut self, status: AxdrStatus)
        ensures
            *final(self) == spec_completed(*old(self), status),
    {
        match self.pending_target_is_b {
            Some(t) => {
                self.pending_target_is_b = None;
                if status == AxdrStatus::Success {
                    self.next_is_b = !t;
                }
            },
            None => {},
        }
    }
}

/// A leg that completes successfully sends the next one to the other
/// endpoint; a leg that fails, or was cancelled, leaves the target as it was.
pub proof fn lemma_repeat_alternates(c: RepeatCursor, status: AxdrStatus)
    ensures
        spec_completed(spec_leg_sent(c), status).next_is_b == (if status == AxdrStatus::Success {
            !c.next_is_b
        } else {
            c.next_is_b
        }),
        spec_completed(spec_leg_sent(c), status).pending_target_is_b is None,
        spec_completed(RepeatCursor { next_is_b: c.next_is_b, pending_target_is_b: None }, status).next_is_b
            == c.next_is_b,
{
}

/// How an Action requested by key is carried out.
#[derive(Debug, Clone, Copy, PartialEq, Eq, Structural)]
pub enum ActionRoute {
    /// Through the controlled motor Stop.
    MotorStop,
    /// Through the controlled motor Disable.
    MotorDisable,
    /// Started as is; then the cache is refreshed as given.
    Start(RefreshAfter),
}

/// Which cached parameters an Action invalidates once it was accepted.
#[derive(Debug, Clone, Copy, PartialEq, Eq, Structural)]
pub enum RefreshAfter {
    Nothing,
    AllParameters,
    MotorContext,
}

/// The route of the Action `symbol`. An Action whose response means it has
/// already run (`immediate`) always refreshes every parameter.
pub fn action_route(symbol: &str, immediate: bool) -> (res: ActionRoute)
    ensures
        symbol@ == "ACTION_MOTOR_STOP"@ ==> res == ActionRoute::MotorStop,
        symbol@ == "ACTION_MOTOR_DISABLE"@ ==> res == ActionRoute::MotorDisable,
        symbol@ != "ACTION_MOTOR_STOP"@ && symbol@ != "ACTION_MOTOR_DISABLE"@ ==> res == ActionRoute::Start(
            if immediate || symbol@ == "ACTION_IDENT_APPLY"@ || symbol@ == "ACTION_POSITION_SET_ZERO"@ || symbol@
                == "ACTION_PROTECTION_CLEAR"@ {
                RefreshAfter::AllParameters
            } else if symbol@ == "ACTION_MOTOR_ENABLE"@ {
                RefreshAfter::MotorContext
            } else {
                RefreshAfter::Nothing
            },
        ),
{
    proof {
        reveal_strlit("ACTION_MOTOR_STOP");
        reveal_strlit("ACTION_MOTOR_DISABLE");
        assert("ACTION_MOTOR_STOP"@.len() != "ACTION_MOTOR_DISABLE"@.len());
    }
    if same_text(symbol, "ACTION_MOTOR_STOP") {
        return ActionRoute::MotorStop;
    }
    if same_text(symbol, "ACTION_MOTOR_DISABLE") {
        return ActionRoute::MotorDisable;
    }
    if immediate || same_text(symbol, "ACTION_IDENT_APPLY") || same_text(symbol, "ACTION_POSITION_SET_ZERO")
        || same_text(symbol, "ACTION_PROTECTION_CLEAR") {
        ActionRoute::Start(RefreshAfter::AllParameters)
    } else if same_text(symbol, "ACTION_MOTOR_ENABLE") {
        ActionRoute::Start(RefreshAfter::MotorContext)
    } else {
        ActionRoute::Start(RefreshAfter::Nothing)
    }
}

/// The symbol's UTF-8 bytes.
pub open spec fn symbol_bytes(m: ParameterMetadata) -> Seq<u8> {
    vstd::utf8::encode_utf8(m.symbol@)
}

/// A readable parameter that tells the motor's state, mode or targets.
pub open spec fn in_motor_context(m: ParameterMetadata) -> bool {
    readable(m) && (m.symbol@ == "PARAM_MOTOR_STATE"@ || m.symbol@ == "PARAM_MOTOR_MODE"@ || sym_starts(
        symbol_bytes(m),
        "PARAM_TARGET_",
    ))
}

/// A readable parameter a tuning experiment's motion depends on.
pub open spec fn in_tuning_context(m: ParameterMetadata) -> bool {
    readable(m) && (sym_starts(symbol_bytes(m), "PARAM_CTRL_") || sym_starts(symbol_bytes(m), "PARAM_MOTION_")
        || sym_starts(symbol_bytes(m), "PARAM_TARGET_") || m.symbol@ == "PARAM_RUN_POSITION"@ || m.symbol@
        == "PARAM_LIMIT_WM_EFFECTIVE"@)
}

/// The IDs of the parameters that satisfy `keep`, in schema order.
pub open spec fn ids_where(params: Seq<ParameterMetadata>, keep: spec_fn(ParameterMetadata) -> bool) -> Seq<u16>
    decreases params.len(),
{
    if params.len() == 0 {
        Seq::empty()
    } else {
        let rest = ids_where(params.drop_last(), keep);
        if keep(params.last()) {
            rest.push(params.last().id)
        } else {
            rest
        }
    }
}

fn keeps_motor_context(m: &ParameterMetadata) -> (res: bool)
    ensures
        res == in_motor_context(*m),
{
    let symbol = m.symbol.as_str();
    has_byte(m.access.as_str(), 0x72) && (same_text(symbol, "PARAM_MOTOR_STATE") || same_text(
        symbol,
        "PARAM_MOTOR_MODE",
    ) || starts(symbol.as_bytes(), "PARAM_TARGET_"))
}

fn keeps_tuning_context(m: &ParameterMetadata) -> (res: bool)
    ensures
        res == in_tuning_context(*m),
{
    let symbol = m.symbol.as_str();
    let bytes = symbol.as_bytes();
    has_byte(m.access.as_str(), 0x72) && (starts(bytes, "PARAM_CTRL_") || starts(bytes, "PARAM_MOTION_") || starts(
        bytes,
        "PARAM_TARGET_",
    ) || same_text(symbol, "PARAM_RUN_POSITION") || same_text(symbol, "PARAM_LIMIT_WM_EFFECTIVE"))
}

/// The parameters to reread after a motor command: state, mode and targets.
pub fn motor_context_ids(schema: &HostSchema) -> (res: Vec<u16>)
    ensures
        res@ == ids_where(schema.parameters@, |m: ParameterMetadata| in_motor_context(m)),
{
    let ghost keep = |m: ParameterMetadata| in_motor_context(m);
    let mut ids: Vec<u16> = Vec::new();
    let mut i: usize = 0;
    while i < schema.parameters.len()
        invariant
            i <= schema.parameters@.len(),
            keep == (|m: ParameterMetadata| in_motor_context(m)),
            ids@ == ids_where(schema.parameters@.take(i as int), keep),
        decreases schema.parameters@.len() - i,
    {
        let m = &schema.parameters[i];
        assert(schema.parameters@.take(i as int + 1).drop_last() == schema.parameters@.take(i as int));
        assert(schema.parameters@.take(i as int + 1).last() == *m);
        if keeps_motor_context(m) {
            ids.push(m.id);
        }
        i = i + 1;
    }
    assert(schema.parameters@.take(schema.parameters@.len() as int) == schema.parameters@);
    ids
}

/// The parameters a tuning experiment rereads before it starts.
pub fn tuning_context_ids(schema: &HostSchema) -> (res: Vec<u16>)
    ensures
        res@ == ids_where(schema.parameters@, |m: ParameterMetadata| in_tuning_context(m)),
{
    let ghost keep = |m: ParameterMetadata| in_tuning_context(m);
    let mut ids: Vec<u16> = Vec::new();
    let mut i: usize = 0;
    while i < schema.parameters.len()
        invariant
            i <= schema.parameters@.len(),
            keep == (|m: ParameterMetadata| in_tuning_context(m)),
            ids@ == ids_where(schema.parameters@.take(i as int), keep),
        decreases schema.parameters@.len() - i,
    {
        let m = &schema.parameters[i];
        assert(schema.parameters@.take(i as int + 1).drop_last() == schema.parameters@.take(i as int));
        assert(schema.parameters@.take(i as int + 1).last() == *m);
        if keeps_tuning_context(m) {
            ids.push(m.id);
        }
        i = i + 1;
    }
    assert(schema.parameters@.take(schema.parameters@.len() as int) == schema.parameters@);
    ids
}

/// The channels a tuning experiment records by default for `mode`: the
/// current reference and response at the FAST rate, then the outer loops'
/// references and responses at the NORMAL rate.
pub open spec fn spec_tuning_default_keys(mode: MotionMode) -> Seq<(Seq<char>, ScopeRate)> {
    let current = seq![("PARAM_REF_IQ"@, ScopeRate::Fast), ("PARAM_RUN_IQ"@, ScopeRate::Fast)];
    let speed = seq![("PARAM_REF_WM"@, ScopeRate::Normal), ("PARAM_RUN_WM"@, ScopeRate::Normal)];
    match mode {
        MotionMode::Position => current + seq![
            ("PARAM_REF_POSITION"@, ScopeRate::Normal),
            ("PARAM_RUN_POSITION"@, ScopeRate::Normal),
        ] + speed,
        MotionMode::Speed | MotionMode::SensorlessSpeed => current + speed,
        MotionMode::Torque => current,
    }
}

/// The view of a list of keys and rates.
pub open spec fn keys_view(keys: Seq<(&'static str, ScopeRate)>) -> Seq<(Seq<char>, ScopeRate)> {
    keys.map_values(|k: (&'static str, ScopeRate)| (k.0@, k.1))
}

/// The default tuning channels of `mode`, by key.
pub fn tuning_default_keys(mode: MotionMode) -> (res: Vec<(&'static str, ScopeRate)>)
    ensures
        keys_view(res@) == spec_tuning_default_keys(mode),
{
    let mut keys: Vec<(&'static str, ScopeRate)> = Vec::new();
    keys.push(("PARAM_REF_IQ", ScopeRate::Fast));
    keys.push(("PARAM_RUN_IQ", ScopeRate::Fast));
    match mode {
        MotionMode::Position => {
            keys.push(("PARAM_REF_POSITION", ScopeRate::Normal));
            keys.push(("PARAM_RUN_POSITION", ScopeRate::Normal));
            keys.push(("PARAM_REF_WM", ScopeRate::Normal));
            keys.push(("PARAM_RUN_WM", ScopeRate::Normal));
        },
        MotionMode::Speed | MotionMode::SensorlessSpeed => {
            keys.push(("PARAM_REF_WM", ScopeRate::Normal));
            keys.push(("PARAM_RUN_WM", ScopeRate::Normal));
        },
        MotionMode::Torque => {},
    }
    assert(keys_view(keys@) == spec_tuning_default_keys(mode));
    keys
}

/// The channel `c` is available at `rate`.
pub open spec fn supports_rate(modes: u8, rate: ScopeRate) -> bool {
    match rate {
        ScopeRate::Fast => modes % 2 == 1,
        ScopeRate::Normal => (modes / 2) % 2 == 1,
    }
}

/// Resolves one tuning channel: the schema names it, the device can plot it,
/// and at the rate asked for.
pub fn tuning_selection(schema: &HostSchema, capabilities: &DevicePlotCapabilities, key: &str, rate: ScopeRate) -> (res:
    Result<ScopeSelection, ApplicationError>)
    ensures
        match first_parameter_named(schema.parameters@, key@) {
            None => res matches Err(ApplicationError::TuningExperimentChannel(k)) && k@ == key@,
            Some(m) => match first_channel(capabilities.channels@, m.id) {
                Some(c) if supports_rate(c.modes, rate) => res == Ok::<ScopeSelection, ApplicationError>(
                    ScopeSelection { id: m.id, rate },
                ),
                _ => res matches Err(ApplicationError::TuningExperimentChannel(l)) && l@ == label_text(
                    Some(m),
                    m.id,
                ),
            },
        },
{
    let metadata = match schema.parameter_by_key(key) {
        Some(m) => m,
        None => return Err(ApplicationError::TuningExperimentChannel(key.to_owned())),
    };
    let channel = match capabilities.channel(metadata.id) {
        Some(c) => c,
        None => return Err(ApplicationError::TuningExperimentChannel(label_for(Some(metadata), metadata.id))),
    };
    let supported = match rate {
        ScopeRate::Fast => channel.supports_fast(),
        ScopeRate::Normal => channel.supports_normal(),
    };
    if !supported {
        return Err(ApplicationError::TuningExperimentChannel(label_for(Some(metadata), metadata.id)));
    }
    Ok(ScopeSelection { id: metadata.id, rate })
}

/// How long a tuning recording keeps going after the motor stopped.
pub const TUNING_POST_CAPTURE_NANOS: u128 = 750_000_000;
/// The window a running experiment shows of its recording.
pub const TUNING_LIVE_WINDOW_NANOS: u128 = 3_000_000_000;

/// The channel of `sel` can be plotted at its rate.
pub open spec fn selection_plottable(caps: DevicePlotCapabilities, sel: ScopeSelection) -> bool {
    match first_channel(caps.channels@, sel.id) {
        Some(c) => supports_rate(c.modes, sel.rate),
        None => false,
    }
}

/// The first selection that cannot be plotted at its rate.
pub open spec fn first_unplottable(caps: DevicePlotCapabilities, sels: Seq<ScopeSelection>) -> Option<u16>
    decreases sels.len(),
{
    if sels.len() == 0 {
        None
    } else {
        match first_unplottable(caps, sels.drop_last()) {
            Some(id) => Some(id),
            None => if selection_plottable(caps, sels.last()) {
                None
            } else {
                Some(sels.last().id)
            },
        }
    }
}

/// The samples per second the selections produce together.
pub open spec fn rate_total(caps: DevicePlotCapabilities, sels: Seq<ScopeSelection>) -> int
    decreases sels.len(),
{
    if sels.len() == 0 {
        0
    } else {
        rate_total(caps, sels.drop_last()) + match sels.last().rate {
            ScopeRate::Fast => caps.fast_rate_hz as int,
            ScopeRate::Normal => caps.normal_rate_hz as int,
        }
    }
}

/// The sample rate a tuning recording of `selections` needs, saturated at
/// `u64::MAX`. Every channel must be plottable at its rate, and there must be
/// at least one sample per second.
pub fn tuning_samples_per_second(capabilities: &DevicePlotCapabilities, selections: &[ScopeSelection]) -> (res:
    Result<u64, ApplicationError>)
    ensures
        match first_unplottable(*capabilities, selections@) {
            Some(id) => res matches Err(ApplicationError::TuningExperimentChannel(t)) && t@ == hex_id_text(id),
            None => if rate_total(*capabilities, selections@) == 0 {
                res matches Err(ApplicationError::TuningExperimentChannel(t)) && t@
                    == "no capture channels selected"@
            } else {
                res matches Ok(v) && v == (if rate_total(*capabilities, selections@) > u64::MAX {
                    u64::MAX as int
                } else {
                    rate_total(*capabilities, selections@)
                })
            },
        },
{
    let mut total: u64 = 0;
    let mut i: usize = 0;
    while i < selections.len()
        invariant
            i <= selections@.len(),
            first_unplottable(*capabilities, selections@.take(i as int)) is None,
            total == (if rate_total(*capabilities, selections@.take(i as int)) > u64::MAX {
                u64::MAX as int
            } else {
                rate_total(*capabilities, selections@.take(i as int))
            }),
        decreases selections@.len() - i,
    {
        let selection = selections[i];
        assert(selections@.take(i as int + 1).drop_last() == selections@.take(i as int));
        assert(selections@.take(i as int + 1).last() == selection);
        let channel = match capabilities.channel(selection.id) {
            Some(c) => c,
            None => {
                proof { lemma_unplottable_stays(*capabilities, selections@, i as int + 1); }
                return Err(ApplicationError::TuningExperimentChannel(hex_id(selection.id)));
            },
        };
        let (rate, supported) = match selection.rate {
            ScopeRate::Fast => (capabilities.fast_rate_hz, channel.supports_fast()),
            ScopeRate::Normal => (capabilities.normal_rate_hz, channel.supports_normal()),
        };
        if !supported {
            proof { lemma_unplottable_stays(*capabilities, selections@, i as int + 1); }
            return Err(ApplicationError::TuningExperimentChannel(hex_id(selection.id)));
        }
        total = total.saturating_add(rate as u64);
        i = i + 1;
    }
    assert(selections@.take(selections@.len() as int) == selections@);
    if total == 0 {
        return Err(ApplicationError::TuningExperimentChannel("no capture channels selected".to_owned()));
    }
    Ok(total)
}

proof fn lemma_unplottable_stays(caps: DevicePlotCapabilities, sels: Seq<ScopeSelection>, n: int)
    requires
        0 < n <= sels.len(),
        first_unplottable(caps, sels.take(n - 1)) is None,
        !selection_plottable(caps, sels[n - 1]),
    ensures
        first_unplottable(caps, sels) == Some(sels[n - 1].id),
    decreases sels.len() - n,
{
    assert(sels.take(n).drop_last() == sels.take(n - 1));
    if n == sels.len() {
        assert(sels.take(n) == sels);
    } else {
        lemma_unplottable_prefix(caps, sels, n);
    }
}

proof fn lemma_unplottable_prefix(caps: DevicePlotCapabilities, sels: Seq<ScopeSelection>, n: int)
    requires
        0 < n <= sels.len(),
        first_unplottable(caps, sels.take(n)) is Some,
    ensures
        first_unplottable(caps, sels) == first_unplottable(caps, sels.take(n)),
    decreases sels.len() - n,
{
    if n < sels.len() {
        assert(sels.take(n + 1).drop_last() == sels.take(n));
        lemma_unplottable_prefix(caps, sels, n + 1);
    } else {
        assert(sels.take(n) == sels);
    }
}

/// Whether a recording of `capacity` samples, of which `samples` are used,
/// has reached the share that must stay free for the tail of an experiment
/// of length `capture`: the last `TUNING_POST_CAPTURE_NANOS` of it, or all of
/// it when the capture is no longer than that.
pub fn capture_nearly_full(samples: usize, capacity: usize, capture: TimeSpan) -> (res: bool)
    requires
        capture.nanos <= u64::MAX,
    ensures
        res == (capacity > 0 && (capture.nanos <= TUNING_POST_CAPTURE_NANOS || samples * capture.nanos >= capacity
            * (capture.nanos - TUNING_POST_CAPTURE_NANOS))),
{
    if capacity == 0 {
        return false;
    }
    if capture.nanos <= TUNING_POST_CAPTURE_NANOS {
        return true;
    }
    let used = samples as u128;
    let total = capacity as u128;
    proof {
        assert(used * capture.nanos <= u64::MAX * u64::MAX) by (nonlinear_arith)
            requires
                used <= u64::MAX,
                capture.nanos <= u64::MAX,
        ;
        assert(total * (capture.nanos - TUNING_POST_CAPTURE_NANOS) <= u64::MAX * u64::MAX) by (nonlinear_arith)
            requires
                total <= u64::MAX,
                capture.nanos - TUNING_POST_CAPTURE_NANOS <= u64::MAX,
                capture.nanos > TUNING_POST_CAPTURE_NANOS,
        ;
    }
    used * capture.nanos >= total * (capture.nanos - TUNING_POST_CAPTURE_NANOS)
}

/// What a tuning worker does after one look at the motor while the
/// experiment runs.
#[derive(Debug, Clone, PartialEq, Eq)]
pub enum RunCheck {
    /// The motor left RUN on its own: the experiment fails with this text.
    Fail(String),
    /// The motor stopped as asked: the recording can be finished.
    Finished,
    /// The motor is still RUN after the controlled-stop timeout.
    TimedOut,
    /// Stop was asked for and has not been sent yet.
    SendStop,
    /// Nothing to do but see whether the recording is nearly full.
    CheckCapture,
    /// A stop was sent; keep waiting for the motor.
    Wait,
}

/// The text of a motor that left RUN while nobody asked it to stop.
pub open spec fn left_run_text(state: u8) -> Seq<char> {
    "Motor left RUN unexpectedly (state "@ + decimal_text(state) + "); check firmware faults"@
}

/// Motor state RUN of the AxDr firmware.
pub const MOTOR_STATE_RUN: u8 = 2;

/// Judges one look at the motor while a tuning experiment runs.
pub fn tuning_run_check(stop_requested: bool, stop_sent: bool, motor_state: u8, deadline_passed: bool) -> (res:
    RunCheck)
    ensures
        motor_state != MOTOR_STATE_RUN && !stop_requested && !stop_sent ==> (res matches RunCheck::Fail(t) && t@
            == left_run_text(motor_state)),
        motor_state != MOTOR_STATE_RUN && (stop_requested || stop_sent) ==> res == RunCheck::Finished,
        motor_state == MOTOR_STATE_RUN && stop_sent && deadline_passed ==> res == RunCheck::TimedOut,
        motor_state == MOTOR_STATE_RUN && !stop_sent && stop_requested ==> res == RunCheck::SendStop,
        motor_state == MOTOR_STATE_RUN && !stop_sent && !stop_requested ==> res == RunCheck::CheckCapture,
        motor_state == MOTOR_STATE_RUN && stop_sent && !deadline_passed ==> res == RunCheck::Wait,
{
    if motor_state != MOTOR_STATE_RUN {
        if !stop_requested && !stop_sent {
            return RunCheck::Fail(left_run(motor_state));
        }
        return RunCheck::Finished;
    }
    if stop_sent && deadline_passed {
        return RunCheck::TimedOut;
    }
    if stop_requested && !stop_sent {
        return RunCheck::SendStop;
    }
    if !stop_sent {
        RunCheck::CheckCapture
    } else {
        RunCheck::Wait
    }
}

/// The text of a motor that left RUN in `state`.
pub fn left_run(state: u8) -> (res: String)
    ensures
        res@ == left_run_text(state),
{
    let number = u8_text(state);
    let head = concat("Motor left RUN unexpectedly (state ", number.as_str());
    concat(head.as_str(), "); check firmware faults")
}

/// What one read of the motor state tells a controlled stop: `Ok(true)` once
/// the motor is DISABLED or ENABLED, `Ok(false)` while it may still be
/// waited for.
pub fn stop_poll(state: u8, deadline_passed: bool) -> (res: Result<bool, String>)
    ensures
        state < MOTOR_STATE_RUN ==> res == Ok::<bool, String>(true),
        state > MOTOR_STATE_RUN ==> (res matches Err(t) && t@ == "Unknown motor state "@ + decimal_text(state)
            + " while stopping"@),
        state == MOTOR_STATE_RUN && deadline_passed ==> (res matches Err(t) && t@
            == "Motor is still RUN after the 60 s controlled-stop timeout; use Disable to turn off the drive"@),
        state == MOTOR_STATE_RUN && !deadline_passed ==> res == Ok::<bool, String>(false),
{
    if state < MOTOR_STATE_RUN {
        return Ok(true);
    }
    if state > MOTOR_STATE_RUN {
        let number = u8_text(state);
        let head = concat("Unknown motor state ", number.as_str());
        return Err(concat(head.as_str(), " while stopping"));
    }
    if deadline_passed {
        return Err(
            "Motor is still RUN after the 60 s controlled-stop timeout; use Disable to turn off the drive".to_owned(),
        );
    }
    Ok(false)
}

/// How much of its recording an experiment shows: the last few seconds while
/// it runs, all of it once it ended.
pub fn tuning_snapshot_span(state: TuningExperimentState, history: TimeSpan) -> (res: TimeSpan)
    ensures
        spec_active(state) ==> res.nanos == (if history.nanos < TUNING_LIVE_WINDOW_NANOS {
            history.nanos
        } else {
            TUNING_LIVE_WINDOW_NANOS
        }),
        !spec_active(state) ==> res == history,
{
    if tuning_active(state) && history.nanos >= TUNING_LIVE_WINDOW_NANOS {
        TimeSpan { nanos: TUNING_LIVE_WINDOW_NANOS }
    } else {
        history
    }
}

/// What a position experiment's run window learns from one look at the
/// motor.
#[derive(Debug, Clone, PartialEq, Eq)]
pub enum WindowCheck {
    /// Still running: keep watching.
    Continue,
    /// The window ends early; the experiment goes on to its stop.
    Cut,
    /// The motor left RUN on its own: the experiment fails with this text.
    Fail(String),
}

/// Judges the motor state read during a position experiment's run window.
pub fn window_check(stop_requested: bool, stop_sent: bool, motor_state: u8) -> (res: WindowCheck)
    ensures
        motor_state == MOTOR_STATE_RUN ==> res == WindowCheck::Continue,
        motor_state != MOTOR_STATE_RUN && !stop_requested && !stop_sent ==> (res matches WindowCheck::Fail(t) && t@
            == left_run_text(motor_state)),
        motor_state != MOTOR_STATE_RUN && (stop_requested || stop_sent) ==> res == WindowCheck::Cut,
{
    if motor_state == MOTOR_STATE_RUN {
        return WindowCheck::Continue;
    }
    if !stop_requested && !stop_sent {
        return WindowCheck::Fail(left_run(motor_state));
    }
    WindowCheck::Cut
}

} // verus!
