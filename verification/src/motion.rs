//! Motion modes as the firmware numbers them, and the motion surface a
//! device advertises through its Host schema.

use vstd::prelude::*;

use crate::application::ApplicationError;
use crate::parameter_service::{decimal_text, u8_text};
use crate::protocol::plot::positive_finite_f32;
use crate::schema::{first_action_named, first_parameter_named, HostSchema, ParameterMetadata};
use crate::text::{concat, same_text};

verus! {

/// The control mode of the motor.
#[derive(Debug, Clone, Copy, PartialEq, Eq, Structural)]
pub enum MotionMode {
    Position,
    Speed,
    SensorlessSpeed,
    Torque,
}

/// How a position move names its target.
#[derive(Debug, Clone, Copy, PartialEq, Eq, Structural)]
pub enum PositionCommand {
    Absolute,
    Incremental,
}

/// The value of `PARAM_MOTOR_MODE` for each mode.
pub open spec fn spec_mode_wire_value(mode: MotionMode) -> u8 {
    match mode {
        MotionMode::Torque => 0,
        MotionMode::Speed => 1,
        MotionMode::Position => 2,
        MotionMode::SensorlessSpeed => 5,
    }
}

/// The mode a `PARAM_MOTOR_MODE` value stands for, if any.
pub open spec fn spec_mode_from_wire(value: u8) -> Option<MotionMode> {
    if value == 0 {
        Some(MotionMode::Torque)
    } else if value == 1 {
        Some(MotionMode::Speed)
    } else if value == 2 {
        Some(MotionMode::Position)
    } else if value == 5 {
        Some(MotionMode::SensorlessSpeed)
    } else {
        None
    }
}

/// The firmware's number for `mode`.
pub fn mode_wire_value(mode: MotionMode) -> (res: u8)
    ensures
        res == spec_mode_wire_value(mode),
{
    match mode {
        MotionMode::Torque => 0,
        MotionMode::Speed => 1,
        MotionMode::Position => 2,
        MotionMode::SensorlessSpeed => 5,
    }
}

/// The mode the firmware's number `value` stands for; any other number is
/// refused by name.
pub fn mode_from_wire_value(value: u8) -> (res: Result<MotionMode, String>)
    ensures
        match spec_mode_from_wire(value) {
            Some(m) => res == Ok::<MotionMode, String>(m),
            None => res matches Err(e) && e@ == "unsupported motor mode value "@ + decimal_text(value),
        },
{
    match value {
        0 => Ok(MotionMode::Torque),
        1 => Ok(MotionMode::Speed),
        2 => Ok(MotionMode::Position),
        5 => Ok(MotionMode::SensorlessSpeed),
        _ => {
            let number = u8_text(value);
            Err(concat("unsupported motor mode value ", number.as_str()))
        },
    }
}

/// Every mode survives the trip to its wire number and back, and exactly the
/// numbers of the four modes are understood.
pub proof fn lemma_mode_round_trip(mode: MotionMode, value: u8)
    ensures
        spec_mode_from_wire(spec_mode_wire_value(mode)) == Some(mode),
        spec_mode_from_wire(value) matches Some(m) ==> spec_mode_wire_value(m) == value,
{
}

/// What the device lets the motion page do.
#[derive(Debug, Clone, Copy, PartialEq, Eq, Structural)]
pub struct MotionCapabilities {
    pub position: bool,
    pub speed: bool,
    pub sensorless_speed: bool,
    pub torque: bool,
    pub mit: bool,
    pub trajectory_trapezoidal: bool,
    pub trajectory_s_curve: bool,
    pub trajectory_filtered: bool,
    pub max_speed: bool,
    pub acceleration: bool,
    pub deceleration: bool,
    pub filter_time: bool,
    pub run: bool,
    pub stop: bool,
    pub enable: bool,
    pub disable: bool,
    pub position_target: bool,
    pub speed_target: bool,
    pub torque_target: bool,
}

/// The schema exposes the parameter `key`.
pub open spec fn has_parameter(schema: HostSchema, key: &str) -> bool {
    first_parameter_named(schema.parameters@, key@) is Some
}

/// The schema exposes the action `key`.
pub open spec fn has_action(schema: HostSchema, key: &str) -> bool {
    first_action_named(schema.actions@, key@) is Some
}

/// One of `symbols` reads `wanted`.
pub open spec fn lists_symbol(symbols: Seq<String>, wanted: Seq<char>) -> bool {
    exists|i: int| 0 <= i < symbols.len() && #[trigger] symbols[i]@ == wanted
}

/// The motor-mode parameter lists the mode `symbol`.
pub open spec fn has_mode(schema: HostSchema, symbol: &str) -> bool {
    match first_parameter_named(schema.parameters@, "PARAM_MOTOR_MODE"@) {
        Some(m) => lists_symbol(m.allowed_symbols@, symbol@),
        None => false,
    }
}

/// The motion surface a schema advertises. Trajectory profiles beyond the
/// trapezoid are reported only when the schema names their parameters.
pub open spec fn spec_motion_capabilities(schema: HostSchema) -> MotionCapabilities {
    let position_target = has_parameter(schema, "PARAM_TARGET_POSITION");
    let speed_target = has_parameter(schema, "PARAM_TARGET_SPEED");
    let torque_target = has_parameter(schema, "PARAM_TARGET_TORQUE");
    let acceleration = has_parameter(schema, "PARAM_MOTION_WM_ACC");
    let deceleration = has_parameter(schema, "PARAM_MOTION_WM_DEC");
    let filter_time = has_parameter(schema, "PARAM_MOTION_FILTER_TIME");
    MotionCapabilities {
        position: has_mode(schema, "POSITION") && position_target,
        speed: has_mode(schema, "SPEED") && speed_target,
        sensorless_speed: has_mode(schema, "SENSORLESS_SPEED") && speed_target,
        torque: has_mode(schema, "TORQUE") && torque_target,
        mit: has_mode(schema, "MIT"),
        trajectory_trapezoidal: acceleration && deceleration,
        trajectory_s_curve: has_parameter(schema, "PARAM_MOTION_SCURVE_MODE") || has_parameter(
            schema,
            "PARAM_MOTION_SCURVE_ENABLE",
        ),
        trajectory_filtered: filter_time,
        max_speed: has_parameter(schema, "PARAM_MOTION_WM_MAX"),
        acceleration,
        deceleration,
        filter_time,
        run: has_action(schema, "ACTION_MOTOR_RUN"),
        stop: has_action(schema, "ACTION_MOTOR_STOP"),
        enable: has_action(schema, "ACTION_MOTOR_ENABLE"),
        disable: has_action(schema, "ACTION_MOTOR_DISABLE"),
        position_target,
        speed_target,
        torque_target,
    }
}

/// The schema has a parameter named `key`.
pub open spec fn names_parameter(schema: HostSchema, key: Seq<char>) -> bool {
    first_parameter_named(schema.parameters@, key) is Some
}

/// The schema has an action named `key`.
pub open spec fn names_action(schema: HostSchema, key: Seq<char>) -> bool {
    first_action_named(schema.actions@, key) is Some
}

/// Each capability is read off the schema entry of its own name: the speed
/// limit off PARAM_MOTION_WM_MAX, the ramps off PARAM_MOTION_WM_ACC and
/// PARAM_MOTION_WM_DEC, the targets off PARAM_TARGET_POSITION, _SPEED and
/// _TORQUE, the filter off PARAM_MOTION_FILTER_TIME, the S-curve off
/// PARAM_MOTION_SCURVE_MODE or PARAM_MOTION_SCURVE_ENABLE, and the motor
/// commands off ACTION_MOTOR_RUN, _STOP, _ENABLE and _DISABLE.
pub proof fn lemma_capabilities_follow_names(schema: HostSchema, caps: MotionCapabilities)
    requires
        caps == spec_motion_capabilities(schema),
    ensures
        caps.max_speed == names_parameter(schema, "PARAM_MOTION_WM_MAX"@),
        caps.acceleration == names_parameter(schema, "PARAM_MOTION_WM_ACC"@),
        caps.deceleration == names_parameter(schema, "PARAM_MOTION_WM_DEC"@),
        caps.trajectory_trapezoidal == (names_parameter(schema, "PARAM_MOTION_WM_ACC"@) && names_parameter(
            schema,
            "PARAM_MOTION_WM_DEC"@,
        )),
        caps.position_target == names_parameter(schema, "PARAM_TARGET_POSITION"@),
        caps.speed_target == names_parameter(schema, "PARAM_TARGET_SPEED"@),
        caps.torque_target == names_parameter(schema, "PARAM_TARGET_TORQUE"@),
        caps.filter_time == names_parameter(schema, "PARAM_MOTION_FILTER_TIME"@),
        caps.trajectory_filtered == names_parameter(schema, "PARAM_MOTION_FILTER_TIME"@),
        caps.trajectory_s_curve == (names_parameter(schema, "PARAM_MOTION_SCURVE_MODE"@) || names_parameter(
            schema,
            "PARAM_MOTION_SCURVE_ENABLE"@,
        )),
        caps.run == names_action(schema, "ACTION_MOTOR_RUN"@),
        caps.stop == names_action(schema, "ACTION_MOTOR_STOP"@),
        caps.enable == names_action(schema, "ACTION_MOTOR_ENABLE"@),
        caps.disable == names_action(schema, "ACTION_MOTOR_DISABLE"@),
        caps.mit == has_mode(schema, "MIT"),
        caps.position == (has_mode(schema, "POSITION") && names_parameter(schema, "PARAM_TARGET_POSITION"@)),
        caps.speed == (has_mode(schema, "SPEED") && names_parameter(schema, "PARAM_TARGET_SPEED"@)),
        caps.sensorless_speed == (has_mode(schema, "SENSORLESS_SPEED") && names_parameter(
            schema,
            "PARAM_TARGET_SPEED"@,
        )),
        caps.torque == (has_mode(schema, "TORQUE") && names_parameter(schema, "PARAM_TARGET_TORQUE"@)),
{
}

fn lists(symbols: &Vec<String>, wanted: &str) -> (res: bool)
    ensures
        res == lists_symbol(symbols@, wanted@),
{
    let mut i: usize = 0;
    while i < symbols.len()
        invariant
            i <= symbols@.len(),
            forall|k: int| 0 <= k < i ==> symbols@[k]@ != wanted@,
        decreases symbols@.len() - i,
    {
        if same_text(symbols[i].as_str(), wanted) {
            return true;
        }
        i = i + 1;
    }
    false
}

fn mode_listed(mode: Option<&ParameterMetadata>, symbol: &str) -> (res: bool)
    ensures
        res == match crate::schema::opt_ref(mode) {
            Some(m) => lists_symbol(m.allowed_symbols@, symbol@),
            None => false,
        },
{
    match mode {
        Some(m) => lists(&m.allowed_symbols, symbol),
        None => false,
    }
}

fn parameter_exposed(schema: &HostSchema, key: &str) -> (res: bool)
    ensures
        res == has_parameter(*schema, key),
{
    schema.parameter_by_key(key).is_some()
}

fn action_exposed(schema: &HostSchema, key: &str) -> (res: bool)
    ensures
        res == has_action(*schema, key),
{
    schema.action_by_key(key).is_some()
}

impl MotionCapabilities {
    /// Reads the motion surface off the schema.
    pub fn from_schema(schema: &HostSchema) -> (res: Self)
        ensures
            res == spec_motion_capabilities(*schema),
            res.max_speed == names_parameter(*schema, "PARAM_MOTION_WM_MAX"@),
            res.acceleration == names_parameter(*schema, "PARAM_MOTION_WM_ACC"@),
            res.deceleration == names_parameter(*schema, "PARAM_MOTION_WM_DEC"@),
    {
        let mode = schema.parameter_by_key("PARAM_MOTOR_MODE");
        let position_target = parameter_exposed(schema, "PARAM_TARGET_POSITION");
        let speed_target = parameter_exposed(schema, "PARAM_TARGET_SPEED");
        let torque_target = parameter_exposed(schema, "PARAM_TARGET_TORQUE");
        let acceleration = parameter_exposed(schema, "PARAM_MOTION_WM_ACC");
        let deceleration = parameter_exposed(schema, "PARAM_MOTION_WM_DEC");
        let max_speed = parameter_exposed(schema, "PARAM_MOTION_WM_MAX");
        let s_curve = parameter_exposed(schema, "PARAM_MOTION_SCURVE_MODE") || parameter_exposed(
            schema,
            "PARAM_MOTION_SCURVE_ENABLE",
        );
        let filter_time = parameter_exposed(schema, "PARAM_MOTION_FILTER_TIME");
        MotionCapabilities {
            position: mode_listed(mode, "POSITION") && position_target,
            speed: mode_listed(mode, "SPEED") && speed_target,
            sensorless_speed: mode_listed(mode, "SENSORLESS_SPEED") && speed_target,
            torque: mode_listed(mode, "TORQUE") && torque_target,
            mit: mode_listed(mode, "MIT"),
            trajectory_trapezoidal: acceleration && deceleration,
            trajectory_s_curve: s_curve,
            trajectory_filtered: filter_time,
            max_speed,
            acceleration,
            deceleration,
            filter_time,
            run: action_exposed(schema, "ACTION_MOTOR_RUN"),
            stop: action_exposed(schema, "ACTION_MOTOR_STOP"),
            enable: action_exposed(schema, "ACTION_MOTOR_ENABLE"),
            disable: action_exposed(schema, "ACTION_MOTOR_DISABLE"),
            position_target,
            speed_target,
            torque_target,
        }
    }
}

/// The device can run `mode`.
pub open spec fn spec_mode_supported(caps: MotionCapabilities, mode: MotionMode) -> bool {
    match mode {
        MotionMode::Position => caps.position,
        MotionMode::Speed => caps.speed,
        MotionMode::SensorlessSpeed => caps.sensorless_speed,
        MotionMode::Torque => caps.torque,
    }
}

/// Whether the device advertises `mode`.
pub fn motion_mode_supported(capabilities: &MotionCapabilities, mode: MotionMode) -> (res: bool)
    ensures
        res == spec_mode_supported(*capabilities, mode),
{
    match mode {
        MotionMode::Position => capabilities.position,
        MotionMode::Speed => capabilities.speed,
        MotionMode::SensorlessSpeed => capabilities.sensorless_speed,
        MotionMode::Torque => capabilities.torque,
    }
}

/// The name Rust's `Debug` gives a mode.
pub open spec fn mode_name_text(mode: MotionMode) -> Seq<char> {
    match mode {
        MotionMode::Position => "Position"@,
        MotionMode::Speed => "Speed"@,
        MotionMode::SensorlessSpeed => "SensorlessSpeed"@,
        MotionMode::Torque => "Torque"@,
    }
}

/// The name a mode is shown by in messages.
pub fn mode_name(mode: MotionMode) -> (res: &'static str)
    ensures
        res@ == mode_name_text(mode),
{
    match mode {
        MotionMode::Position => "Position",
        MotionMode::Speed => "Speed",
        MotionMode::SensorlessSpeed => "SensorlessSpeed",
        MotionMode::Torque => "Torque",
    }
}

/// A mode change is refused for a mode the device does not advertise.
pub fn check_mode_supported(capabilities: &MotionCapabilities, mode: MotionMode) -> (res: Result<(), ApplicationError>)
    ensures
        spec_mode_supported(*capabilities, mode) ==> res is Ok,
        !spec_mode_supported(*capabilities, mode) ==> (res matches Err(ApplicationError::Motion(m)) && m@
            == "connected device does not expose "@ + mode_name_text(mode) + " motion"@),
{
    if motion_mode_supported(capabilities, mode) {
        return Ok(());
    }
    let head = concat("connected device does not expose ", mode_name(mode));
    Err(ApplicationError::Motion(concat(head.as_str(), " motion")))
}

/// A motion command runs only in the mode it was written for.
pub fn require_mode(expected: MotionMode, current: MotionMode) -> (res: Result<(), ApplicationError>)
    ensures
        expected == current ==> res is Ok,
        expected != current ==> (res matches Err(ApplicationError::Motion(m)) && m@
            == "motion command requires "@ + mode_name_text(expected) + " mode, current mode is "@
            + mode_name_text(current) + "; change mode while DISABLED first"@),
{
    if expected == current {
        return Ok(());
    }
    let a = concat("motion command requires ", mode_name(expected));
    let b = concat(a.as_str(), " mode, current mode is ");
    let c = concat(b.as_str(), mode_name(current));
    Err(ApplicationError::Motion(concat(c.as_str(), "; change mode while DISABLED first")))
}

/// An IEEE-754 single-precision bit pattern denotes a finite number.
pub open spec fn finite_f32(bits: u32) -> bool {
    (bits / 0x80_0000) % 0x100 != 0xff
}

/// A motion value given as an `f32` bit pattern must be finite.
pub fn require_finite_f32(bits: u32, name: &str) -> (res: Result<(), ApplicationError>)
    ensures
        finite_f32(bits) ==> res is Ok,
        !finite_f32(bits) ==> (res matches Err(ApplicationError::Motion(m)) && m@ == name@ + " must be finite"@),
{
    if (bits / 0x80_0000) % 0x100 != 0xff {
        return Ok(());
    }
    Err(ApplicationError::Motion(concat(name, " must be finite")))
}

/// An optional motion limit, given as an `f32` bit pattern, must be a finite
/// number above zero when it is given.
pub fn require_optional_positive(value: Option<u32>, name: &str) -> (res: Result<(), ApplicationError>)
    ensures
        match value {
            None => res is Ok,
            Some(bits) => if positive_finite_f32(bits) {
                res is Ok
            } else {
                res matches Err(ApplicationError::Motion(m)) && m@ == name@ + " must be positive and finite"@
            },
        },
{
    match value {
        None => Ok(()),
        Some(bits) => if 0 < bits && bits < 0x7f80_0000 {
            Ok(())
        } else {
            Err(ApplicationError::Motion(concat(name, " must be positive and finite")))
        },
    }
}

/// Motion Run is started only while the motor is ENABLED (state 1).
pub fn check_run_state(state: u8) -> (res: Result<(), String>)
    ensures
        state == 1 ==> res is Ok,
        state != 1 ==> (res matches Err(e) && e@ == "motor must be ENABLED before Run"@),
{
    if state != 1 {
        return Err("motor must be ENABLED before Run".to_owned());
    }
    Ok(())
}

} // verus!
