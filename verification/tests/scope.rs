use nmixx::desktop::{
    builtin_workflow, check_script_size, identification_kind, preflight_domain_name, tuning_experiment_state_name,
    BuiltinWorkflow,
};
use nmixx::application::TuningExperimentState;
use nmixx::plot_capabilities::{DevicePlotCapabilities, DevicePlotChannel};
use nmixx::preflight::{IdentificationKind, PreflightDomain};
use nmixx::schema::{HostSchema, ParameterMetadata, SchemaSource};
use nmixx::scope::{capture_reached_target, check_config, fast_config, plot_running, ScopeError};
use nmixx::stream::{StreamState, TimeSpan};

fn schema() -> HostSchema {
    HostSchema {
        schema_version: 1,
        protocol: "axdr-canfd-v1".to_owned(),
        source: SchemaSource { repository: "r".to_owned(), git_sha: "s".to_owned(), parameter_schema: 1 },
        parameters: vec![ParameterMetadata {
            symbol: "PARAM_RUN_IQ".to_owned(),
            name: Some("Iq".to_owned()),
            id: 0x10,
            value_type: "f32".to_owned(),
            access: "r".to_owned(),
            unit: Some("A".to_owned()),
            description: String::new(),
            write_state: None,
            range: None,
            allowed: Vec::new(),
            allowed_symbols: Vec::new(),
            plot_scale: None,
        }],
        actions: Vec::new(),
    }
}

fn caps(max: u8) -> DevicePlotCapabilities {
    DevicePlotCapabilities {
        fast_max_channels: max,
        normal_max_channels: 15,
        fast_block_samples: 20,
        fast_rate_hz: 20_000,
        normal_rate_hz: 1_000,
        channels: vec![
            DevicePlotChannel { id: 0x10, modes: 3, fast_scale: 0.001f32.to_bits() },
            DevicePlotChannel { id: 0x11, modes: 2, fast_scale: 0 },
            DevicePlotChannel { id: 0x12, modes: 1, fast_scale: 0.5f32.to_bits() },
        ],
    }
}

#[test]
fn fast_scope_channels_come_from_schema_and_device() {
    let history = TimeSpan { nanos: 1_000_000_000 };
    let config = fast_config(&caps(8), &schema(), &[0x10, 0x12], history, 3).unwrap();
    assert_eq!(config.config_id, 3);
    assert_eq!(config.sample_rate_hz, 20_000);
    assert_eq!(config.history, history);
    assert_eq!(config.channels[0].label, "Iq");
    assert_eq!(config.channels[0].unit.as_deref(), Some("A"));
    assert_eq!(config.channels[0].scale, 0.001f32.to_bits());
    assert_eq!(config.channels[1].label, "0x0012");
    assert_eq!(config.channels[1].unit, None);
    assert!(check_config(&config).is_ok());
}

#[test]
fn fast_scope_refuses_bad_selections_in_order() {
    let history = TimeSpan { nanos: 1_000_000_000 };
    assert!(matches!(fast_config(&caps(8), &schema(), &[], history, 1), Err(ScopeError::EmptyChannels)));
    assert!(matches!(fast_config(&caps(1), &schema(), &[0x10, 0x12], history, 1),
        Err(ScopeError::TooManyChannels { actual: 2, max: 1 })));
    assert!(matches!(fast_config(&caps(8), &schema(), &[0x10, 0x99, 0x11], history, 1), Err(ScopeError::UnknownChannel(0x99))));
    assert!(matches!(fast_config(&caps(8), &schema(), &[0x11, 0x99], history, 1), Err(ScopeError::NotFastCapable(0x11))));
}

#[test]
fn a_scope_config_needs_positive_finite_scales() {
    let history = TimeSpan { nanos: 1_000_000_000 };
    let mut config = fast_config(&caps(8), &schema(), &[0x10], history, 1).unwrap();
    config.channels[0].scale = f32::INFINITY.to_bits();
    assert!(matches!(check_config(&config), Err(ScopeError::InvalidScale(l)) if l == "Iq"));
    config.channels.clear();
    assert!(matches!(check_config(&config), Err(ScopeError::EmptyChannels)));
}

#[test]
fn the_device_streams_only_for_running_records() {
    assert!(plot_running(StreamState::Live));
    assert!(plot_running(StreamState::Capturing));
    assert!(!plot_running(StreamState::Paused));
    assert!(capture_reached_target(StreamState::Paused, 1));
    assert!(!capture_reached_target(StreamState::Paused, 0));
    assert!(!capture_reached_target(StreamState::Capturing, 5));
}

#[test]
fn desktop_names_and_builtin_workflows() {
    assert_eq!(builtin_workflow(None), Ok(("runtime_diagnosis.py", BuiltinWorkflow::Diagnosis)));
    assert_eq!(builtin_workflow(Some("motion")), Ok(("motion_workflow.py", BuiltinWorkflow::Motion)));
    assert_eq!(builtin_workflow(Some("x")), Err("Unknown built-in workflow".to_owned()));
    assert!(check_script_size(1).is_ok());
    assert!(check_script_size(262_144).is_ok());
    assert_eq!(check_script_size(0), Err("Script must contain 1..262144 bytes".to_owned()));
    assert!(check_script_size(262_145).is_err());
    assert_eq!(preflight_domain_name(PreflightDomain::LimitsSafety), "limits");
    assert_eq!(tuning_experiment_state_name(TuningExperimentState::Stopping), "STOPPING");
    assert_eq!(identification_kind("flux"), Ok(IdentificationKind::Flux));
    assert_eq!(identification_kind("abc"), Err("unknown identification kind 'abc'".to_owned()));
}
