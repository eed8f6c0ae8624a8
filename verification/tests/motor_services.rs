use nmixx::config_service::{require_disabled, ConfigServiceError};
use nmixx::motor_actions::{
    identification_action, identification_gate, identification_plan, identification_preflight, require_motor_state,
    MotorActionError, MotorEnums,
};
use nmixx::preflight::{evaluate_check, identification_checks, IdentificationKind, PreflightDomain, PreflightError, PreflightIssue};
use nmixx::protocol::{ParameterValue, PositionValue};

fn enums() -> MotorEnums {
    MotorEnums { ident_mode: 3, disabled: 0, enabled: 1, running: 2 }
}

#[test]
fn identification_never_starts_from_run_and_asks_before_enabling() {
    assert!(matches!(identification_gate(enums(), 2, true), Err(MotorActionError::MotorRunning)));
    assert!(matches!(identification_gate(enums(), 0, false), Ok(false)));
    assert!(matches!(identification_gate(enums(), 0, true), Ok(true)));
    assert!(matches!(identification_gate(enums(), 1, false), Ok(true)));
}

#[test]
fn identification_plans_the_mode_change() {
    assert_eq!(identification_plan(enums(), 1, 2), (true, true));
    assert_eq!(identification_plan(enums(), 1, 3), (false, false));
    assert_eq!(identification_plan(enums(), 0, 2), (false, true));
    assert!(require_motor_state(1, 1).is_ok());
    assert!(matches!(require_motor_state(1, 0), Err(MotorActionError::InvalidParameterValue(k)) if k == "PARAM_MOTOR_STATE"));
    assert_eq!(identification_action(IdentificationKind::Flux), "ACTION_IDENT_FLUX_START");
}

#[test]
fn the_first_preflight_issue_blocks_identification() {
    assert!(identification_preflight(&Vec::new()).is_ok());
    let issues = vec![
        PreflightIssue { parameter_id: Some(1), reason: "first".to_owned(), suggested_domain: PreflightDomain::Motor },
        PreflightIssue { parameter_id: Some(2), reason: "second".to_owned(), suggested_domain: PreflightDomain::Motor },
    ];
    assert!(matches!(identification_preflight(&issues), Err(MotorActionError::IdentificationPreflightFailed(r)) if r == "first"));
}

#[test]
fn preflight_checks_judge_values() {
    let checks = identification_checks(IdentificationKind::RsLs);
    assert!(!checks.is_empty());
    let check = checks[0];
    assert!(matches!(evaluate_check(&check, 7, ParameterValue::F32(2.0f32.to_bits())), Ok(None)));
    let issue = evaluate_check(&check, 7, ParameterValue::F32(0.0f32.to_bits())).unwrap().unwrap();
    assert_eq!(issue.parameter_id, Some(7));
    assert_eq!(issue.reason, check.reason);
    assert!(matches!(
        evaluate_check(&check, 7, ParameterValue::Position(PositionValue { turns: 1, theta: 0 })),
        Err(PreflightError::InvalidParameterType(k)) if k == check.key
    ));
}

#[test]
fn saving_needs_a_disabled_motor() {
    assert!(require_disabled(0, ParameterValue::U8(0)).is_ok());
    assert!(matches!(require_disabled(0, ParameterValue::U8(1)), Err(ConfigServiceError::MotorNotDisabled)));
    assert!(matches!(require_disabled(0, ParameterValue::I8(0)),
        Err(ConfigServiceError::InvalidEnumValue { parameter, symbol }) if parameter == "PARAM_MOTOR_STATE" && symbol == "DISABLED"));
}
