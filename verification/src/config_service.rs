//! Saving the device's persistent configuration: allowed only while the motor
//! is DISABLED, through the schema's save action.

use vstd::prelude::*;

use crate::parameter_service::ParameterServiceError;
use crate::protocol::ParameterValue;
use crate::schema::{enum_u8, EnumValueError, HostSchema, ParameterMetadata};
use crate::session::SessionError;

verus! {

pub const MOTOR_STATE: &'static str = "PARAM_MOTOR_STATE";
pub const MOTOR_STATE_DISABLED: &'static str = "DISABLED";
pub const PARAMETER_SAVE: &'static str = "ACTION_PARAMETER_SAVE";

#[derive(Debug)]
pub enum ConfigServiceError {
    MissingParameter(String),
    MissingAction(String),
    MissingEnumValue { parameter: String, symbol: String },
    InvalidEnumValue { parameter: String, symbol: String },
    MotorNotDisabled,
    Parameter(ParameterServiceError),
    Session(SessionError),
}

/// Whether the schema offers the save action.
pub fn save_available(schema: &HostSchema) -> (res: bool)
    ensures
        res == crate::schema::first_action_named(schema.actions@, PARAMETER_SAVE@) is Some,
{
    schema.action_by_key(PARAMETER_SAVE).is_some()
}

/// The enum value of `wanted` of `parameter`, or the service's error naming both.
pub fn config_enum_u8(parameter: &ParameterMetadata, wanted: &str) -> (res: Result<u8, ConfigServiceError>)
    ensures
        match crate::schema::spec_enum_u8(*parameter, wanted@) {
            Ok(v) => res matches Ok(r) && r == v,
            Err(EnumValueError::MissingSymbol) => res matches Err(ConfigServiceError::MissingEnumValue {
                parameter: p,
                symbol: s,
            }) && p@ == parameter.symbol@ && s@ == wanted@,
            Err(EnumValueError::NotU8) => res matches Err(ConfigServiceError::InvalidEnumValue {
                parameter: p,
                symbol: s,
            }) && p@ == parameter.symbol@ && s@ == wanted@,
        },
{
    match enum_u8(parameter, wanted) {
        Ok(v) => Ok(v),
        Err(EnumValueError::MissingSymbol) => Err(
            ConfigServiceError::MissingEnumValue { parameter: parameter.symbol.clone(), symbol: wanted.to_owned() },
        ),
        Err(EnumValueError::NotU8) => Err(
            ConfigServiceError::InvalidEnumValue { parameter: parameter.symbol.clone(), symbol: wanted.to_owned() },
        ),
    }
}

/// The motor-state parameter to read before saving and its DISABLED value.
pub fn save_state_check(schema: &HostSchema) -> (res: Result<(u16, u8), ConfigServiceError>)
    ensures
        match crate::schema::first_parameter_named(schema.parameters@, MOTOR_STATE@) {
            None => res matches Err(ConfigServiceError::MissingParameter(k)) && k@ == MOTOR_STATE@,
            Some(m) => match crate::schema::spec_enum_u8(m, MOTOR_STATE_DISABLED@) {
                Ok(v) => res == Ok::<(u16, u8), ConfigServiceError>((m.id, v)),
                Err(EnumValueError::MissingSymbol) => res matches Err(ConfigServiceError::MissingEnumValue {
                    parameter: p,
                    symbol: s,
                }) && p@ == m.symbol@ && s@ == MOTOR_STATE_DISABLED@,
                Err(EnumValueError::NotU8) => res matches Err(ConfigServiceError::InvalidEnumValue {
                    parameter: p,
                    symbol: s,
                }) && p@ == m.symbol@ && s@ == MOTOR_STATE_DISABLED@,
            },
        },
{
    let state = match schema.parameter_by_key(MOTOR_STATE) {
        Some(m) => m,
        None => return Err(ConfigServiceError::MissingParameter(MOTOR_STATE.to_owned())),
    };
    let disabled = config_enum_u8(state, MOTOR_STATE_DISABLED)?;
    Ok((state.id, disabled))
}

/// Judges the motor state read before saving.
pub fn require_disabled(disabled: u8, value: ParameterValue) -> (res: Result<(), ConfigServiceError>)
    ensures
        match value {
            ParameterValue::U8(v) => if v == disabled {
                res is Ok
            } else {
                res matches Err(ConfigServiceError::MotorNotDisabled)
            },
            _ => res matches Err(ConfigServiceError::InvalidEnumValue { parameter: p, symbol: s }) && p@
                == MOTOR_STATE@ && s@ == MOTOR_STATE_DISABLED@,
        },
{
    match value {
        ParameterValue::U8(v) => if v == disabled {
            Ok(())
        } else {
            Err(ConfigServiceError::MotorNotDisabled)
        },
        _ => Err(
            ConfigServiceError::InvalidEnumValue {
                parameter: MOTOR_STATE.to_owned(),
                symbol: MOTOR_STATE_DISABLED.to_owned(),
            },
        ),
    }
}

/// The action that saves the configuration.
pub fn save_action_id(schema: &HostSchema) -> (res: Result<u16, ConfigServiceError>)
    ensures
        match crate::schema::first_action_named(schema.actions@, PARAMETER_SAVE@) {
            Some(a) => res == Ok::<u16, ConfigServiceError>(a.id),
            None => res matches Err(ConfigServiceError::MissingAction(k)) && k@ == PARAMETER_SAVE@,
        },
{
    match schema.action_by_key(PARAMETER_SAVE) {
        Some(a) => Ok(a.id),
        None => Err(ConfigServiceError::MissingAction(PARAMETER_SAVE.to_owned())),
    }
}

} // verus!
