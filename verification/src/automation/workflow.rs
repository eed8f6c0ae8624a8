//! The policies of the Automation API on one device session: what a script's
//! requests must look like, which operations a task owns, and what its
//! cleanup must undo.

use vstd::prelude::*;

use crate::application::TuningExperimentState;
use crate::mixed_scope::ScopeRate;
use crate::preflight::IdentificationKind;
use crate::stream::StreamState;
use crate::text::same_text;

verus! {

pub const MAX_READ_KEYS: usize = 256;
pub const MAX_SELECTIONS: usize = 64;
/// Motor state values of the AxDr firmware.
pub const MOTOR_DISABLED: u8 = 0;
pub const MOTOR_ENABLED: u8 = 1;
pub const MOTOR_RUN: u8 = 2;

/// What a task has started and must stop on its way out, and the
/// identification it may apply.
#[derive(Debug, Clone, Copy, PartialEq, Eq, Structural)]
pub struct Ownership {
    pub motor: bool,
    pub scope: bool,
    pub tuning: bool,
    pub identified: Option<IdentificationKind>,
}

/// What the cleanup of a finished task does: stop the motor and wait for it,
/// join the tuning worker, stop the Scope.
#[derive(Debug, Clone, Copy, PartialEq, Eq, Structural)]
pub struct CleanupPlan {
    pub stop_motor: bool,
    pub join_tuning: bool,
    pub stop_scope: bool,
}

impl Ownership {
    pub fn new() -> (res: Self)
        ensures
            res == (Ownership { motor: false, scope: false, tuning: false, identified: None }),
    {
        Ownership { motor: false, scope: false, tuning: false, identified: None }
    }

    /// Takes ownership of a motion about to start from motor state `state`;
    /// motion that was already running before the task is never taken over.
    pub fn claim_motion(&mut self, state: u8) -> (res: Result<(), String>)
        ensures
            *final(self) == spec_claimed(*old(self), state),
            state == MOTOR_RUN ==> (res matches Err(e) && e@
                == "Motor is already RUN; stop it before starting another operation"@),
            state != MOTOR_RUN ==> res is Ok,
    {
        if state == MOTOR_RUN {
            return Err("Motor is already RUN; stop it before starting another operation".to_owned());
        }
        self.motor = true;
        Ok(())
    }

    /// What cleanup must undo.
    pub fn cleanup_plan(&self) -> (res: CleanupPlan)
        ensures
            res == spec_cleanup(*self),
    {
        CleanupPlan { stop_motor: self.motor || self.tuning, join_tuning: self.tuning, stop_scope: self.scope }
    }

    /// An identification result may be applied only after the same workflow
    /// completed an identification of that kind.
    pub fn check_apply(&self, kind: IdentificationKind) -> (res: Result<(), String>)
        ensures
            self.identified == Some(kind) ==> res is Ok,
            self.identified != Some(kind) ==> (res matches Err(e) && e@
                == "Apply requires a matching successful identification from this workflow"@),
    {
        match self.identified {
            Some(k) => if k == kind {
                Ok(())
            } else {
                Err("Apply requires a matching successful identification from this workflow".to_owned())
            },
            None => Err("Apply requires a matching successful identification from this workflow".to_owned()),
        }
    }
}

/// The number of keys a read request names must be 1..=256.
pub fn check_key_count(count: usize) -> (res: Result<(), String>)
    ensures
        (1 <= count <= MAX_READ_KEYS) ==> res is Ok,
        !(1 <= count <= MAX_READ_KEYS) ==> (res matches Err(e) && e@ == "Read 1..256 keys per request"@),
{
    if count == 0 || count > MAX_READ_KEYS {
        return Err("Read 1..256 keys per request".to_owned());
    }
    Ok(())
}

/// A Scope request names at most 64 channels.
pub fn check_selection_count(count: usize) -> (res: Result<(), String>)
    ensures
        count <= MAX_SELECTIONS ==> res is Ok,
        count > MAX_SELECTIONS ==> (res matches Err(e) && e@ == "Too many channel selections"@),
{
    if count > MAX_SELECTIONS {
        return Err("Too many channel selections".to_owned());
    }
    Ok(())
}

/// The rate a channel selection asks for; NORMAL when it names none.
pub fn parse_rate(text: Option<&str>) -> (res: Result<ScopeRate, String>)
    ensures
        match text {
            None => res == Ok::<ScopeRate, String>(ScopeRate::Normal),
            Some(t) => if t@ == "normal"@ {
                res == Ok::<ScopeRate, String>(ScopeRate::Normal)
            } else if t@ == "fast"@ {
                res == Ok::<ScopeRate, String>(ScopeRate::Fast)
            } else {
                res matches Err(e) && e@ == "rate must be normal or fast"@
            },
        },
{
    match text {
        None => Ok(ScopeRate::Normal),
        Some(t) => if same_text(t, "normal") {
            Ok(ScopeRate::Normal)
        } else if same_text(t, "fast") {
            Ok(ScopeRate::Fast)
        } else {
            Err("rate must be normal or fast".to_owned())
        },
    }
}

/// The identification kind a script names.
pub fn parse_identification_kind(text: &str) -> (res: Result<IdentificationKind, String>)
    ensures
        if text@ == "rs_ls"@ {
            res == Ok::<IdentificationKind, String>(IdentificationKind::RsLs)
        } else if text@ == "flux"@ {
            res == Ok::<IdentificationKind, String>(IdentificationKind::Flux)
        } else if text@ == "jb"@ {
            res == Ok::<IdentificationKind, String>(IdentificationKind::Jb)
        } else {
            res matches Err(e) && e@ == "kind must be rs_ls, flux or jb"@
        },
{
    if same_text(text, "rs_ls") {
        Ok(IdentificationKind::RsLs)
    } else if same_text(text, "flux") {
        Ok(IdentificationKind::Flux)
    } else if same_text(text, "jb") {
        Ok(IdentificationKind::Jb)
    } else {
        Err("kind must be rs_ls, flux or jb".to_owned())
    }
}

/// The name a script uses for an identification kind.
pub fn identification_kind_name(kind: IdentificationKind) -> (res: &'static str)
    ensures
        res@ == match kind {
            IdentificationKind::RsLs => "rs_ls"@,
            IdentificationKind::Flux => "flux"@,
            IdentificationKind::Jb => "jb"@,
        },
{
    match kind {
        IdentificationKind::RsLs => "rs_ls",
        IdentificationKind::Flux => "flux",
        IdentificationKind::Jb => "jb",
    }
}

/// The name a script sees for a Scope record state.
pub fn stream_state_name(state: StreamState) -> (res: &'static str)
    ensures
        res@ == match state {
            StreamState::Live => "LIVE"@,
            StreamState::Capturing => "CAPTURING"@,
            StreamState::Paused => "PAUSED"@,
            StreamState::Stopped => "STOPPED"@,
        },
{
    match state {
        StreamState::Live => "LIVE",
        StreamState::Capturing => "CAPTURING",
        StreamState::Paused => "PAUSED",
        StreamState::Stopped => "STOPPED",
    }
}

/// A finite capture may not replace a Scope record that is still running.
pub fn check_capture_start(state: StreamState) -> (res: Result<(), String>)
    ensures
        (state is Live || state is Capturing) ==> (res matches Err(e) && e@
            == "Stop the existing Scope record explicitly before starting a finite capture"@),
        !(state is Live || state is Capturing) ==> res is Ok,
{
    match state {
        StreamState::Live | StreamState::Capturing => Err(
            "Stop the existing Scope record explicitly before starting a finite capture".to_owned(),
        ),
        _ => Ok(()),
    }
}

/// What waiting for a controlled stop learns from one read of the motor state.
#[derive(Debug, Clone, PartialEq, Eq)]
pub enum StopWait {
    /// The motor is no longer running.
    Stopped(u8),
    /// The motor is still running.
    Running,
}

/// Judges one read of the motor state while waiting for a controlled stop.
pub fn stop_wait_step(state: u8) -> (res: Result<StopWait, String>)
    ensures
        (state == MOTOR_DISABLED || state == MOTOR_ENABLED) ==> res == Ok::<StopWait, String>(StopWait::Stopped(state)),
        state == MOTOR_RUN ==> res == Ok::<StopWait, String>(StopWait::Running),
        state > MOTOR_RUN ==> (res matches Err(e) && e@ == "Unknown motor state "@
            + crate::parameter_service::decimal_text(state)),
{
    if state == MOTOR_DISABLED || state == MOTOR_ENABLED {
        Ok(StopWait::Stopped(state))
    } else if state == MOTOR_RUN {
        Ok(StopWait::Running)
    } else {
        let number = crate::parameter_service::u8_text(state);
        Err(crate::text::concat("Unknown motor state ", number.as_str()))
    }
}

/// What waiting for a tuning experiment learns from one status read:
/// `Ok(true)` when it completed, `Ok(false)` while it still runs.
pub fn tuning_wait_step(state: TuningExperimentState, message: Option<String>) -> (res: Result<bool, String>)
    ensures
        state == TuningExperimentState::Completed ==> res == Ok::<bool, String>(true),
        state == TuningExperimentState::Failed ==> (res matches Err(e) && e@ == match message {
            Some(m) => m@,
            None => "Tuning experiment failed"@,
        }),
        state == TuningExperimentState::Idle ==> (res matches Err(e) && e@ == "No tuning experiment is running"@),
        (state is Preparing || state is Running || state is Stopping) ==> res == Ok::<bool, String>(false),
{
    match state {
        TuningExperimentState::Completed => Ok(true),
        TuningExperimentState::Failed => match message {
            Some(m) => Err(m),
            None => Err("Tuning experiment failed".to_owned()),
        },
        TuningExperimentState::Idle => Err("No tuning experiment is running".to_owned()),
        _ => Ok(false),
    }
}

/// The effect a successful call of `method` publishes to the application,
/// if any.
pub fn effect_kind(method: &str) -> (res: Option<&'static str>)
    ensures
        method@ == "config.save"@ ==> res == Some("config.saved"),
        (method@ == "scope.configure"@ || method@ == "scope.live"@ || method@ == "scope.stop"@ || method@
            == "scope.clear"@ || method@ == "scope.capture"@) && method@ != "config.save"@ ==> res == Some(
            "scope.changed",
        ),
        method@ == "motion.set"@ && !(method@ == "config.save"@ || method@ == "scope.configure"@ || method@
            == "scope.live"@ || method@ == "scope.stop"@ || method@ == "scope.clear"@ || method@ == "scope.capture"@)
            ==> res == Some("motion.changed"),
        !(method@ == "config.save"@ || method@ == "scope.configure"@ || method@ == "scope.live"@ || method@
            == "scope.stop"@ || method@ == "scope.clear"@ || method@ == "scope.capture"@ || method@ == "motion.set"@)
            ==> res is None,
{
    if same_text(method, "config.save") {
        Some("config.saved")
    } else if same_text(method, "scope.configure") || same_text(method, "scope.live") || same_text(method, "scope.stop")
        || same_text(method, "scope.clear") || same_text(method, "scope.capture") {
        Some("scope.changed")
    } else if same_text(method, "motion.set") {
        Some("motion.changed")
    } else {
        None
    }
}

/// The Application operations a script can call, by the name it calls them.
#[derive(Debug, Clone, Copy, PartialEq, Eq, Structural)]
pub enum Operation {
    SessionInfo,
    ParameterList,
    ParameterCached,
    ParameterRead,
    ParameterSet,
    ParameterRefresh,
    MotorEnable,
    MotorDisable,
    MotorStop,
    MotorWaitStopped,
    MotionGet,
    MotionSet,
    MotionRun,
    IdentificationRun,
    IdentificationApply,
    EncoderPhaseSearch,
    ConfigSave,
    ScopeConfigure,
    ScopeLive,
    ScopeCapture,
    ScopeStop,
    ScopeClear,
    ScopeStatus,
    ScopeSnapshot,
    ScopeSummary,
    TuningStart,
    TuningStatus,
    TuningStop,
    TuningWait,
    TuningSnapshot,
    StreamProgress,
    Wait,
}

/// The operation a script names `method`, if any.
pub open spec fn spec_operation(method: Seq<char>) -> Option<Operation> {
    if method == "session.info"@ {
        Some(Operation::SessionInfo)
    } else if method == "parameter.list"@ {
        Some(Operation::ParameterList)
    } else if method == "parameter.cached"@ {
        Some(Operation::ParameterCached)
    } else if method == "parameter.read"@ {
        Some(Operation::ParameterRead)
    } else if method == "parameter.set"@ {
        Some(Operation::ParameterSet)
    } else if method == "parameter.refresh"@ {
        Some(Operation::ParameterRefresh)
    } else if method == "motor.enable"@ {
        Some(Operation::MotorEnable)
    } else if method == "motor.disable"@ {
        Some(Operation::MotorDisable)
    } else if method == "motor.stop"@ {
        Some(Operation::MotorStop)
    } else if method == "motor.wait_stopped"@ {
        Some(Operation::MotorWaitStopped)
    } else if method == "motion.get"@ {
        Some(Operation::MotionGet)
    } else if method == "motion.set"@ {
        Some(Operation::MotionSet)
    } else if method == "motion.run"@ {
        Some(Operation::MotionRun)
    } else if method == "identification.run"@ {
        Some(Operation::IdentificationRun)
    } else if method == "identification.apply"@ {
        Some(Operation::IdentificationApply)
    } else if method == "encoder.phase_search"@ {
        Some(Operation::EncoderPhaseSearch)
    } else if method == "config.save"@ {
        Some(Operation::ConfigSave)
    } else if method == "scope.configure"@ {
        Some(Operation::ScopeConfigure)
    } else if method == "scope.live"@ {
        Some(Operation::ScopeLive)
    } else if method == "scope.capture"@ {
        Some(Operation::ScopeCapture)
    } else if method == "scope.stop"@ {
        Some(Operation::ScopeStop)
    } else if method == "scope.clear"@ {
        Some(Operation::ScopeClear)
    } else if method == "scope.status"@ {
        Some(Operation::ScopeStatus)
    } else if method == "scope.snapshot"@ {
        Some(Operation::ScopeSnapshot)
    } else if method == "scope.summary"@ {
        Some(Operation::ScopeSummary)
    } else if method == "tuning.start"@ {
        Some(Operation::TuningStart)
    } else if method == "tuning.status"@ {
        Some(Operation::TuningStatus)
    } else if method == "tuning.stop"@ {
        Some(Operation::TuningStop)
    } else if method == "tuning.wait"@ {
        Some(Operation::TuningWait)
    } else if method == "tuning.snapshot"@ {
        Some(Operation::TuningSnapshot)
    } else if method == "stream.progress"@ {
        Some(Operation::StreamProgress)
    } else if method == "wait"@ {
        Some(Operation::Wait)
    } else {
        None
    }
}

/// The operation `method` names; any other name is refused by name.
pub fn operation(method: &str) -> (res: Result<Operation, String>)
    ensures
        match spec_operation(method@) {
            Some(op) => res == Ok::<Operation, String>(op),
            None => res matches Err(e) && e@ == "Unknown Application operation '"@ + method@ + "'"@,
        },
{
    if same_text(method, "session.info") {
        Ok(Operation::SessionInfo)
    } else if same_text(method, "parameter.list") {
        Ok(Operation::ParameterList)
    } else if same_text(method, "parameter.cached") {
        Ok(Operation::ParameterCached)
    } else if same_text(method, "parameter.read") {
        Ok(Operation::ParameterRead)
    } else if same_text(method, "parameter.set") {
        Ok(Operation::ParameterSet)
    } else if same_text(method, "parameter.refresh") {
        Ok(Operation::ParameterRefresh)
    } else if same_text(method, "motor.enable") {
        Ok(Operation::MotorEnable)
    } else if same_text(method, "motor.disable") {
        Ok(Operation::MotorDisable)
    } else if same_text(method, "motor.stop") {
        Ok(Operation::MotorStop)
    } else if same_text(method, "motor.wait_stopped") {
        Ok(Operation::MotorWaitStopped)
    } else if same_text(method, "motion.get") {
        Ok(Operation::MotionGet)
    } else if same_text(method, "motion.set") {
        Ok(Operation::MotionSet)
    } else if same_text(method, "motion.run") {
        Ok(Operation::MotionRun)
    } else if same_text(method, "identification.run") {
        Ok(Operation::IdentificationRun)
    } else if same_text(method, "identification.apply") {
        Ok(Operation::IdentificationApply)
    } else if same_text(method, "encoder.phase_search") {
        Ok(Operation::EncoderPhaseSearch)
    } else if same_text(method, "config.save") {
        Ok(Operation::ConfigSave)
    } else if same_text(method, "scope.configure") {
        Ok(Operation::ScopeConfigure)
    } else if same_text(method, "scope.live") {
        Ok(Operation::ScopeLive)
    } else if same_text(method, "scope.capture") {
        Ok(Operation::ScopeCapture)
    } else if same_text(method, "scope.stop") {
        Ok(Operation::ScopeStop)
    } else if same_text(method, "scope.clear") {
        Ok(Operation::ScopeClear)
    } else if same_text(method, "scope.status") {
        Ok(Operation::ScopeStatus)
    } else if same_text(method, "scope.snapshot") {
        Ok(Operation::ScopeSnapshot)
    } else if same_text(method, "scope.summary") {
        Ok(Operation::ScopeSummary)
    } else if same_text(method, "tuning.start") {
        Ok(Operation::TuningStart)
    } else if same_text(method, "tuning.status") {
        Ok(Operation::TuningStatus)
    } else if same_text(method, "tuning.stop") {
        Ok(Operation::TuningStop)
    } else if same_text(method, "tuning.wait") {
        Ok(Operation::TuningWait)
    } else if same_text(method, "tuning.snapshot") {
        Ok(Operation::TuningSnapshot)
    } else if same_text(method, "stream.progress") {
        Ok(Operation::StreamProgress)
    } else if same_text(method, "wait") {
        Ok(Operation::Wait)
    } else {
        let head = crate::text::concat("Unknown Application operation '", method);
        Err(crate::text::concat(head.as_str(), "'"))
    }
}

/// A call is served only while the task runs and its session stays open.
pub fn call_gate(finished: bool, closing: bool) -> (res: Result<(), String>)
    ensures
        finished ==> (res matches Err(e) && e@ == "Automation task has already finished"@),
        !finished && closing ==> (res matches Err(e) && e@ == "The original device session is closing"@),
        !finished && !closing ==> res is Ok,
{
    if finished {
        return Err("Automation task has already finished".to_owned());
    }
    if closing {
        return Err("The original device session is closing".to_owned());
    }
    Ok(())
}

/// What happened to an operation the task owns.
#[derive(Debug, Clone, Copy, PartialEq, Eq, Structural)]
pub enum OwnershipEvent {
    /// The motor is known to be out of RUN: stopped, disabled, or never started.
    MotionSettled,
    /// An identification is about to start; an earlier result no longer applies.
    IdentificationStarted,
    /// An identification of this kind completed successfully.
    IdentificationCompleted(IdentificationKind),
    /// The identification result was applied.
    IdentificationApplied,
    /// The task started a Scope recording.
    ScopeStarted,
    /// The task stopped the Scope.
    ScopeStopped,
    /// The task started a tuning experiment.
    TuningStarted,
    /// The task's tuning experiment completed.
    TuningCompleted,
}

/// The ownership after `event`.
pub open spec fn spec_owned_after(o: Ownership, event: OwnershipEvent) -> Ownership {
    match event {
        OwnershipEvent::MotionSettled => Ownership { motor: false, ..o },
        OwnershipEvent::IdentificationStarted => Ownership { identified: None, ..o },
        OwnershipEvent::IdentificationCompleted(k) => Ownership { motor: false, identified: Some(k), ..o },
        OwnershipEvent::IdentificationApplied => Ownership { identified: None, ..o },
        OwnershipEvent::ScopeStarted => Ownership { scope: true, ..o },
        OwnershipEvent::ScopeStopped => Ownership { scope: false, ..o },
        OwnershipEvent::TuningStarted => Ownership { tuning: true, ..o },
        OwnershipEvent::TuningCompleted => Ownership { motor: false, tuning: false, ..o },
    }
}

/// The motor state in which a task may start motion of its own.
pub open spec fn spec_claimed(o: Ownership, state: u8) -> Ownership {
    if state == MOTOR_RUN {
        o
    } else {
        Ownership { motor: true, ..o }
    }
}

/// What the cleanup of a task with ownership `o` does.
pub open spec fn spec_cleanup(o: Ownership) -> CleanupPlan {
    CleanupPlan { stop_motor: o.motor || o.tuning, join_tuning: o.tuning, stop_scope: o.scope }
}

impl Ownership {
    /// Records `event`.
    pub fn record(&mut self, event: OwnershipEvent)
        ensures
            *final(self) == spec_owned_after(*old(self), event),
    {
        match event {
            OwnershipEvent::MotionSettled => {
                self.motor = false;
            },
            OwnershipEvent::IdentificationStarted => {
                self.identified = None;
            },
            OwnershipEvent::IdentificationCompleted(k) => {
                self.motor = false;
                self.identified = Some(k);
            },
            OwnershipEvent::IdentificationApplied => {
                self.identified = None;
            },
            OwnershipEvent::ScopeStarted => {
                self.scope = true;
            },
            OwnershipEvent::ScopeStopped => {
                self.scope = false;
            },
            OwnershipEvent::TuningStarted => {
                self.tuning = true;
            },
            OwnershipEvent::TuningCompleted => {
                self.motor = false;
                self.tuning = false;
            },
        }
    }
}

/// A task's cleanup stops the motion it started and never takes over a
/// motion that was running before it: a claim from RUN is refused and owns
/// nothing, a claim from any other state makes the cleanup stop the motor.
pub proof fn lemma_cleanup_stops_only_claimed_motion(o: Ownership, state: u8)
    ensures
        state != MOTOR_RUN ==> spec_cleanup(spec_claimed(o, state)).stop_motor,
        state == MOTOR_RUN ==> spec_claimed(o, state) == o,
        spec_cleanup(spec_owned_after(o, OwnershipEvent::TuningStarted)).stop_motor,
        spec_cleanup(spec_owned_after(o, OwnershipEvent::TuningStarted)).join_tuning,
        spec_cleanup(spec_owned_after(o, OwnershipEvent::ScopeStarted)).stop_scope,
        !spec_cleanup(spec_owned_after(spec_owned_after(o, OwnershipEvent::ScopeStarted), OwnershipEvent::ScopeStopped)).stop_scope,
{
}

/// An identification result applies only after a successful identification
/// of the same kind by the same task, and only once.
pub proof fn lemma_apply_needs_matching_identification(o: Ownership, kind: IdentificationKind, other: IdentificationKind)
    ensures
        spec_owned_after(o, OwnershipEvent::IdentificationCompleted(kind)).identified == Some(kind),
        kind != other ==> spec_owned_after(o, OwnershipEvent::IdentificationCompleted(kind)).identified != Some(other),
        spec_owned_after(o, OwnershipEvent::IdentificationApplied).identified is None,
        spec_owned_after(o, OwnershipEvent::IdentificationStarted).identified is None,
{
}

} // verus!
