//! The decisions of the application-level motor workflows: identification
//! start (with the enable/mode dance it needs) and phase search.

use vstd::prelude::*;

use crate::parameter_service::ParameterServiceError;
use crate::preflight::{IdentificationKind, PreflightError, PreflightIssue};
use crate::protocol::ActionHandle;
use crate::schema::{enum_u8, EnumValueError, HostSchema, ParameterMetadata};
use crate::session::SessionError;

verus! {

pub const MOTOR_MODE: &'static str = "PARAM_MOTOR_MODE";
pub const MOTOR_STATE: &'static str = "PARAM_MOTOR_STATE";
pub const IDENT_MODE: &'static str = "IDENT";
pub const PHASE_SEARCH_MODE: &'static str = "PHASE_SEARCH";
pub const MOTOR_STATE_DISABLED: &'static str = "DISABLED";
pub const MOTOR_STATE_ENABLED: &'static str = "ENABLED";
pub const MOTOR_STATE_RUN: &'static str = "RUN";
pub const MOTOR_ENABLE: &'static str = "ACTION_MOTOR_ENABLE";
pub const MOTOR_RUN: &'static str = "ACTION_MOTOR_RUN";
pub const MOTOR_STOP: &'static str = "ACTION_MOTOR_STOP";
pub const MOTOR_DISABLE: &'static str = "ACTION_MOTOR_DISABLE";
pub const IDENT_RS_LS_START: &'static str = "ACTION_IDENT_RS_LS_START";
pub const IDENT_FLUX_START: &'static str = "ACTION_IDENT_FLUX_START";
pub const IDENT_JB_START: &'static str = "ACTION_IDENT_JB_START";
pub const IDENT_APPLY: &'static str = "ACTION_IDENT_APPLY";

#[derive(Debug)]
pub enum MotorActionError {
    MissingParameter(String),
    MissingAction(String),
    MissingEnumValue { parameter: String, symbol: String },
    InvalidEnumValue { parameter: String, symbol: String },
    PreflightFailed(String),
    IdentificationPreflightFailed(String),
    InvalidParameterValue(String),
    MotorRunning,
    Preflight(PreflightError),
    Parameter(ParameterServiceError),
    Session(SessionError),
}

#[derive(Debug, Clone, Copy, PartialEq, Eq)]
pub enum IdentificationStart {
    RequiresEnable,
    Started(ActionHandle),
}

/// The enum value of `wanted` of `parameter`, or the service's error naming both.
pub fn motor_enum_u8(parameter: &ParameterMetadata, wanted: &str) -> (res: Result<u8, MotorActionError>)
    ensures
        match crate::schema::spec_enum_u8(*parameter, wanted@) {
            Ok(v) => res matches Ok(r) && r == v,
            Err(EnumValueError::MissingSymbol) => res matches Err(MotorActionError::MissingEnumValue {
                parameter: p,
                symbol: s,
            }) && p@ == parameter.symbol@ && s@ == wanted@,
            Err(EnumValueError::NotU8) => res matches Err(MotorActionError::InvalidEnumValue {
                parameter: p,
                symbol: s,
            }) && p@ == parameter.symbol@ && s@ == wanted@,
        },
{
    match enum_u8(parameter, wanted) {
        Ok(v) => Ok(v),
        Err(EnumValueError::MissingSymbol) => Err(
            MotorActionError::MissingEnumValue { parameter: parameter.symbol.clone(), symbol: wanted.to_owned() },
        ),
        Err(EnumValueError::NotU8) => Err(
            MotorActionError::InvalidEnumValue { parameter: parameter.symbol.clone(), symbol: wanted.to_owned() },
        ),
    }
}

/// The schema parameter named `key`, or `MissingParameter(key)`.
pub fn required_parameter<'a>(schema: &'a HostSchema, key: &str) -> (res: Result<&'a ParameterMetadata, MotorActionError>)
    ensures
        match crate::schema::first_parameter_named(schema.parameters@, key@) {
            Some(m) => res matches Ok(r) && *r == m,
            None => res matches Err(MotorActionError::MissingParameter(k)) && k@ == key@,
        },
{
    match schema.parameter_by_key(key) {
        Some(m) => Ok(m),
        None => Err(MotorActionError::MissingParameter(key.to_owned())),
    }
}

/// The ID of the schema action named `key`, or `MissingAction(key)`.
pub fn required_action(schema: &HostSchema, key: &str) -> (res: Result<u16, MotorActionError>)
    ensures
        match crate::schema::first_action_named(schema.actions@, key@) {
            Some(a) => res == Ok::<u16, MotorActionError>(a.id),
            None => res matches Err(MotorActionError::MissingAction(k)) && k@ == key@,
        },
{
    match schema.action_by_key(key) {
        Some(a) => Ok(a.id),
        None => Err(MotorActionError::MissingAction(key.to_owned())),
    }
}

/// The first preflight issue stops an identification.
pub fn identification_preflight(issues: &Vec<PreflightIssue>) -> (res: Result<(), MotorActionError>)
    ensures
        issues@.len() == 0 ==> res is Ok,
        issues@.len() > 0 ==> (res matches Err(MotorActionError::IdentificationPreflightFailed(r)) && r
            == issues@[0].reason),
{
    if issues.len() > 0 {
        return Err(MotorActionError::IdentificationPreflightFailed(issues[0].reason.clone()));
    }
    Ok(())
}

/// The motor-state and motor-mode values identification works with.
#[derive(Debug, Clone, Copy, PartialEq, Eq, Structural)]
pub struct MotorEnums {
    pub ident_mode: u8,
    pub disabled: u8,
    pub enabled: u8,
    pub running: u8,
}

/// Whether identification may go on from motor state `state`: never while
/// running, and from DISABLED only when enabling was allowed (`Ok(false)`
/// asks the caller to enable explicitly).
pub fn identification_gate(enums: MotorEnums, state: u8, allow_enable: bool) -> (res: Result<bool, MotorActionError>)
    ensures
        state == enums.running ==> res matches Err(MotorActionError::MotorRunning),
        state != enums.running && state == enums.disabled && !allow_enable ==> res matches Ok(false),
        state != enums.running && !(state == enums.disabled && !allow_enable) ==> res matches Ok(true),
{
    if state == enums.running {
        return Err(MotorActionError::MotorRunning);
    }
    if state == enums.disabled && !allow_enable {
        return Ok(false);
    }
    Ok(true)
}

/// How the drive is brought into identification mode from `state`/`mode`:
/// whether it is disabled first (enabled in another mode), and whether the
/// mode is then written and the drive enabled (it was or is then disabled).
pub fn identification_plan(enums: MotorEnums, state: u8, mode: u8) -> (res: (bool, bool))
    ensures
        res.0 == (state == enums.enabled && mode != enums.ident_mode),
        res.1 == (res.0 || state == enums.disabled),
{
    let disable_first = state == enums.enabled && mode != enums.ident_mode;
    (disable_first, disable_first || state == enums.disabled)
}

/// Checks the motor state reread after a step that must reach `expected`.
pub fn require_motor_state(expected: u8, state: u8) -> (res: Result<(), MotorActionError>)
    ensures
        state == expected ==> res is Ok,
        state != expected ==> (res matches Err(MotorActionError::InvalidParameterValue(k)) && k@ == MOTOR_STATE@),
{
    if state != expected {
        return Err(MotorActionError::InvalidParameterValue(MOTOR_STATE.to_owned()));
    }
    Ok(())
}

/// The action that starts an identification of `kind`.
pub fn identification_action(kind: IdentificationKind) -> (res: &'static str)
    ensures
        res == match kind {
            IdentificationKind::RsLs => IDENT_RS_LS_START,
            IdentificationKind::Flux => IDENT_FLUX_START,
            IdentificationKind::Jb => IDENT_JB_START,
        },
{
    match kind {
        IdentificationKind::RsLs => IDENT_RS_LS_START,
        IdentificationKind::Flux => IDENT_FLUX_START,
        IdentificationKind::Jb => IDENT_JB_START,
    }
}

/// The mode parameter, the motor-state parameter and the enum values of an
/// identification, looked up in the order the workflow needs them.
pub fn identification_enums(schema: &HostSchema) -> (res: Result<(u16, u16, MotorEnums), MotorActionError>)
    ensures
        res matches Ok((mode_id, state_id, enums)) ==> {
            let mode = crate::schema::first_parameter_named(schema.parameters@, MOTOR_MODE@);
            let state = crate::schema::first_parameter_named(schema.parameters@, MOTOR_STATE@);
            &&& mode matches Some(m) && m.id == mode_id && crate::schema::spec_enum_u8(m, IDENT_MODE@) == Ok::<
                u8,
                EnumValueError,
            >(enums.ident_mode)
            &&& state matches Some(s) && s.id == state_id && crate::schema::spec_enum_u8(s, MOTOR_STATE_DISABLED@)
                == Ok::<u8, EnumValueError>(enums.disabled) && crate::schema::spec_enum_u8(s, MOTOR_STATE_ENABLED@)
                == Ok::<u8, EnumValueError>(enums.enabled) && crate::schema::spec_enum_u8(s, MOTOR_STATE_RUN@)
                == Ok::<u8, EnumValueError>(enums.running)
        },
        crate::schema::first_parameter_named(schema.parameters@, MOTOR_MODE@) is None ==> (res matches Err(
            MotorActionError::MissingParameter(k),
        ) && k@ == MOTOR_MODE@),
        res is Ok <==> ({
            let mode = crate::schema::first_parameter_named(schema.parameters@, MOTOR_MODE@);
            let state = crate::schema::first_parameter_named(schema.parameters@, MOTOR_STATE@);
            &&& mode matches Some(m) && crate::schema::spec_enum_u8(m, IDENT_MODE@) is Ok
            &&& state matches Some(s) && crate::schema::spec_enum_u8(s, MOTOR_STATE_DISABLED@) is Ok
                && crate::schema::spec_enum_u8(s, MOTOR_STATE_ENABLED@) is Ok && crate::schema::spec_enum_u8(
                s,
                MOTOR_STATE_RUN@,
            ) is Ok
        }),
{
    let mode = required_parameter(schema, MOTOR_MODE)?;
    let state = required_parameter(schema, MOTOR_STATE)?;
    let ident_mode = motor_enum_u8(mode, IDENT_MODE)?;
    let disabled = motor_enum_u8(state, MOTOR_STATE_DISABLED)?;
    let enabled = motor_enum_u8(state, MOTOR_STATE_ENABLED)?;
    let running = motor_enum_u8(state, MOTOR_STATE_RUN)?;
    Ok((mode.id, state.id, MotorEnums { ident_mode, disabled, enabled, running }))
}

/// The mode parameter, its PHASE_SEARCH value, and the enable and run actions
/// a phase search uses, looked up in the order the workflow needs them.
pub fn phase_search_targets(schema: &HostSchema) -> (res: Result<(u16, u8, u16, u16), MotorActionError>)
    ensures
        res matches Ok((mode_id, phase, enable, run)) ==> {
            &&& crate::schema::first_parameter_named(schema.parameters@, MOTOR_MODE@) matches Some(m) && m.id
                == mode_id && crate::schema::spec_enum_u8(m, PHASE_SEARCH_MODE@) == Ok::<u8, EnumValueError>(phase)
            &&& crate::schema::first_action_named(schema.actions@, MOTOR_ENABLE@) matches Some(a) && a.id == enable
            &&& crate::schema::first_action_named(schema.actions@, MOTOR_RUN@) matches Some(a) && a.id == run
        },
        crate::schema::first_parameter_named(schema.parameters@, MOTOR_MODE@) is None ==> (res matches Err(
            MotorActionError::MissingParameter(k),
        ) && k@ == MOTOR_MODE@),
        res is Ok <==> ({
            &&& crate::schema::first_parameter_named(schema.parameters@, MOTOR_MODE@) matches Some(m)
                && crate::schema::spec_enum_u8(m, PHASE_SEARCH_MODE@) is Ok
            &&& crate::schema::first_action_named(schema.actions@, MOTOR_ENABLE@) is Some
            &&& crate::schema::first_action_named(schema.actions@, MOTOR_RUN@) is Some
        }),
{
    let mode = required_parameter(schema, MOTOR_MODE)?;
    let phase_search = motor_enum_u8(mode, PHASE_SEARCH_MODE)?;
    let enable = required_action(schema, MOTOR_ENABLE)?;
    let run = required_action(schema, MOTOR_RUN)?;
    Ok((mode.id, phase_search, enable, run))
}

} // verus!
