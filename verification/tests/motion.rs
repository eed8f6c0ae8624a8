use nmixx::application::ApplicationError;
use nmixx::motion::{
    check_mode_supported, check_run_state, mode_from_wire_value, mode_wire_value, motion_mode_supported, require_finite_f32, require_mode,
    require_optional_positive, MotionCapabilities, MotionMode,
};
use nmixx::schema::{ActionMetadata, HostSchema, ParameterMetadata, SchemaSource};

fn parameter(symbol: &str, id: u16, value_type: &str, allowed_symbols: &[&str]) -> ParameterMetadata {
    ParameterMetadata {
        symbol: symbol.to_owned(),
        name: None,
        id,
        value_type: value_type.to_owned(),
        access: "rw".to_owned(),
        unit: None,
        description: String::new(),
        write_state: None,
        range: None,
        allowed: Vec::new(),
        allowed_symbols: allowed_symbols.iter().map(|s| s.to_string()).collect(),
        plot_scale: None,
    }
}

fn action(symbol: &str, id: u16) -> ActionMetadata {
    ActionMetadata { symbol: symbol.to_owned(), name: None, id, description: String::new() }
}

fn axdr_like_schema() -> HostSchema {
    HostSchema {
        schema_version: 1,
        protocol: "axdr-canfd-v1".to_owned(),
        source: SchemaSource { repository: "AxDr_L_Motor".to_owned(), git_sha: "abc".to_owned(), parameter_schema: 1 },
        parameters: vec![
            parameter("PARAM_MOTOR_MODE", 1793, "u8", &["TORQUE", "SPEED", "POSITION", "SENSORLESS_SPEED"]),
            parameter("PARAM_TARGET_POSITION", 1796, "position", &[]),
            parameter("PARAM_TARGET_SPEED", 1795, "f32", &[]),
            parameter("PARAM_TARGET_TORQUE", 1794, "f32", &[]),
            parameter("PARAM_MOTION_WM_MAX", 1537, "f32", &[]),
            parameter("PARAM_MOTION_WM_ACC", 1538, "f32", &[]),
            parameter("PARAM_MOTION_WM_DEC", 1539, "f32", &[]),
        ],
        actions: vec![action("ACTION_MOTOR_RUN", 4098), action("ACTION_MOTOR_STOP", 4099)],
    }
}

#[test]
fn discovers_axdr_like_motion_surface_without_inventing_advanced_profiles() {
    let capabilities = MotionCapabilities::from_schema(&axdr_like_schema());
    assert!(capabilities.position);
    assert!(capabilities.speed);
    assert!(capabilities.sensorless_speed);
    assert!(capabilities.torque);
    assert!(capabilities.trajectory_trapezoidal);
    assert!(!capabilities.trajectory_s_curve);
    assert!(!capabilities.trajectory_filtered);
    assert!(capabilities.run);
    assert!(capabilities.stop);
}

#[test]
fn a_mode_needs_its_target_and_missing_actions_stay_off() {
    let mut schema = axdr_like_schema();
    schema.parameters.retain(|p| p.symbol != "PARAM_TARGET_TORQUE");
    let capabilities = MotionCapabilities::from_schema(&schema);
    assert!(!capabilities.torque);
    assert!(!capabilities.mit);
    assert!(!capabilities.enable);
    assert!(!capabilities.disable);
    assert!(!motion_mode_supported(&capabilities, MotionMode::Torque));
    assert!(matches!(check_mode_supported(&capabilities, MotionMode::Torque),
        Err(ApplicationError::Motion(m)) if m == "connected device does not expose Torque motion"));
    assert!(check_mode_supported(&capabilities, MotionMode::Speed).is_ok());
}

#[test]
fn optional_motion_limits_reject_nonpositive_values() {
    assert!(require_optional_positive(None, "Acceleration").is_ok());
    assert!(require_optional_positive(Some(1.0f32.to_bits()), "Acceleration").is_ok());
    assert!(require_optional_positive(Some(0.0f32.to_bits()), "Acceleration").is_err());
    assert!(require_optional_positive(Some(f32::NAN.to_bits()), "Acceleration").is_err());
}

#[test]
fn negative_infinite_and_nan_limits_are_refused_by_name() {
    assert!(matches!(require_optional_positive(Some((-1.0f32).to_bits()), "Max speed"),
        Err(ApplicationError::Motion(m)) if m == "Max speed must be positive and finite"));
    assert!(require_optional_positive(Some(f32::INFINITY.to_bits()), "Max speed").is_err());
    assert!(require_finite_f32((-3.5f32).to_bits(), "Speed target").is_ok());
    assert!(matches!(require_finite_f32(f32::NAN.to_bits(), "Speed target"),
        Err(ApplicationError::Motion(m)) if m == "Speed target must be finite"));
    assert!(require_finite_f32(f32::NEG_INFINITY.to_bits(), "Speed target").is_err());
}

#[test]
fn modes_use_the_firmware_numbers() {
    for mode in [MotionMode::Torque, MotionMode::Speed, MotionMode::Position, MotionMode::SensorlessSpeed] {
        assert_eq!(mode_from_wire_value(mode_wire_value(mode)), Ok(mode));
    }
    assert_eq!(mode_wire_value(MotionMode::SensorlessSpeed), 5);
    assert_eq!(mode_from_wire_value(3), Err("unsupported motor mode value 3".to_owned()));
}

#[test]
fn a_command_for_another_mode_is_refused() {
    assert!(require_mode(MotionMode::Speed, MotionMode::Speed).is_ok());
    assert!(matches!(require_mode(MotionMode::Speed, MotionMode::Position), Err(ApplicationError::Motion(m))
        if m == "motion command requires Speed mode, current mode is Position; change mode while DISABLED first"));
}

#[test]
fn run_needs_an_enabled_motor() {
    assert_eq!(check_run_state(1), Ok(()));
    for state in [0u8, 2, 3] {
        assert_eq!(check_run_state(state), Err("motor must be ENABLED before Run".to_owned()));
    }
}
