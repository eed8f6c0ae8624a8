use nmixx::parameter_service::related_parameter;

#[test]
fn motion_limit_write_invalidates_the_effective_speed_view() {
    assert!(related_parameter("PARAM_MOTION_WM_MAX", "PARAM_LIMIT_WM_EFFECTIVE"));
}

#[test]
fn model_and_encoder_changes_reread_actual_calibration_validity() {
    for written in ["PARAM_MOTOR_PP", "PARAM_ENCODER_PROTOCOL", "PARAM_ENCODER_SPI_TYPE"] {
        assert!(related_parameter(written, "PARAM_CAL_VALID"));
    }
    assert!(!related_parameter("PARAM_ENCODER_PROTOCOL", "PARAM_POSITION_ZERO_VALID"));
}

#[test]
fn encoder_reset_and_direction_mapping_refresh_user_feedback() {
    for written in ["PARAM_ENCODER_PROTOCOL", "PARAM_ENCODER_SPI_TYPE", "PARAM_MOTOR_DIR"] {
        for candidate in ["PARAM_RUN_POSITION", "PARAM_RUN_WM"] {
            assert!(related_parameter(written, candidate));
        }
    }
}

#[test]
fn current_bandwidth_and_gains_always_include_source() {
    assert!(related_parameter("PARAM_CTRL_CURRENT_BW_HZ", "PARAM_CTRL_CURRENT_SOURCE"));
    assert!(related_parameter("PARAM_CTRL_ID_KP", "PARAM_CTRL_CURRENT_SOURCE"));
    assert!(related_parameter("PARAM_CTRL_CURRENT_SOURCE", "PARAM_CTRL_IQ_KI"));
    assert!(related_parameter("PARAM_MOTOR_RS", "PARAM_CTRL_IQ_KI"));
    assert!(related_parameter("PARAM_MOTOR_J", "PARAM_CTRL_SPEED_KP"));
    assert!(!related_parameter("PARAM_TARGET_SPEED", "PARAM_CTRL_SPEED_KP"));
}

#[test]
fn mode_changes_reread_state_and_targets_only() {
    assert!(related_parameter("PARAM_MOTOR_MODE", "PARAM_MOTOR_STATE"));
    assert!(related_parameter("PARAM_MOTOR_MODE", "PARAM_TARGET_SPEED"));
    assert!(!related_parameter("PARAM_MOTOR_MODE", "PARAM_RUN_WM"));
    assert!(related_parameter("PARAM_LIMIT_IQ_MAX", "PARAM_LIMIT_WM_EFFECTIVE"));
    assert!(!related_parameter("PARAM_LIMIT", "PARAM_LIMIT_IQ_MAX"));
    assert!(!related_parameter("", ""));
}

use nmixx::parameter_service::{update_cache, CacheEntry};
use nmixx::protocol::{ParameterValue, PositionValue};
use std::collections::HashMap;

#[test]
fn repeated_reads_do_not_publish_changes() {
    let mut cache: HashMap<u16, CacheEntry> = HashMap::new();
    let entry: (u16, CacheEntry) = (7, Ok(ParameterValue::F32(1.25f32.to_bits())));
    assert_eq!(update_cache(&mut cache, vec![entry.clone()]), vec![7]);
    assert!(update_cache(&mut cache, vec![entry]).is_empty());
}

#[test]
fn failures_replace_stale_values_and_recovery_is_a_change() {
    let mut cache: HashMap<u16, CacheEntry> = HashMap::new();
    update_cache(&mut cache, vec![(7, Ok(ParameterValue::F32(1.25f32.to_bits())))]);
    let error: (u16, CacheEntry) = (7, Err("timeout".to_owned()));
    assert_eq!(update_cache(&mut cache, vec![error.clone()]), vec![7]);
    assert!(cache.get(&7).unwrap().is_err());
    assert!(update_cache(&mut cache, vec![error]).is_empty());
    assert_eq!(update_cache(&mut cache, vec![(7, Ok(ParameterValue::F32(1.25f32.to_bits())))]), vec![7]);
}

#[test]
fn groups_publish_only_the_ids_that_changed() {
    let mut cache: HashMap<u16, CacheEntry> = HashMap::new();
    update_cache(&mut cache, vec![(1, Ok(ParameterValue::U8(0)))]);
    assert_eq!(
        update_cache(&mut cache, vec![(1, Ok(ParameterValue::U8(0))), (2, Ok(ParameterValue::F32(10.0f32.to_bits())))]),
        vec![2]
    );
}

#[test]
fn one_group_reports_a_changed_id_once() {
    let mut cache: HashMap<u16, CacheEntry> = HashMap::new();
    let changed = update_cache(
        &mut cache,
        vec![(3, Ok(ParameterValue::U8(1))), (3, Ok(ParameterValue::U8(2))), (4, Err("busy".to_owned()))],
    );
    assert_eq!(changed, vec![3, 4]);
    assert_eq!(cache.get(&3), Some(&Ok(ParameterValue::U8(2))));
}

use nmixx::parameter_service::{cached, cached_rows, ParameterServiceError};
use nmixx::schema::{HostSchema, ParameterMetadata, SchemaSource};

fn cache_schema() -> HostSchema {
    let parameter = |symbol: &str, id: u16| ParameterMetadata {
        symbol: symbol.to_owned(),
        name: None,
        id,
        value_type: "u8".to_owned(),
        access: "r".to_owned(),
        unit: None,
        description: String::new(),
        write_state: None,
        range: None,
        allowed: Vec::new(),
        allowed_symbols: Vec::new(),
        plot_scale: None,
    };
    HostSchema {
        schema_version: 1,
        protocol: "axdr-canfd-v1".to_owned(),
        source: SchemaSource { repository: "r".to_owned(), git_sha: "s".to_owned(), parameter_schema: 1 },
        parameters: vec![parameter("PARAM_A", 1), parameter("PARAM_B", 2), parameter("PARAM_C", 3)],
        actions: Vec::new(),
    }
}

#[test]
fn cache_reads_answer_without_io() {
    let schema = cache_schema();
    let mut cache: HashMap<u16, CacheEntry> = HashMap::new();
    update_cache(&mut cache, vec![(1, Ok(ParameterValue::U8(4))), (2, Err("timeout".to_owned()))]);
    assert_eq!(cached(&schema, &cache, 1).unwrap(), Some(ParameterValue::U8(4)));
    assert_eq!(cached(&schema, &cache, 3).unwrap(), None);
    assert!(matches!(cached(&schema, &cache, 2), Err(ParameterServiceError::CachedReadFailed { id: 2, message }) if message == "timeout"));
    assert!(matches!(cached(&schema, &cache, 9), Err(ParameterServiceError::UnknownParameter(9))));
    let rows = cached_rows(&schema, &cache, &[3, 1, 9]);
    assert_eq!(rows.len(), 3);
    assert!(matches!(rows[0], (3, Err(ParameterServiceError::CacheMissing(3)))));
    assert!(matches!(rows[1], (1, Ok(ParameterValue::U8(4)))));
    assert!(matches!(rows[2], (9, Err(ParameterServiceError::UnknownParameter(9)))));
}

#[test]
fn floats_compare_as_numbers_in_the_cache() {
    let mut cache: HashMap<u16, CacheEntry> = HashMap::new();
    let nan = (5u16, Ok(ParameterValue::F32(f32::NAN.to_bits())));
    assert_eq!(update_cache(&mut cache, vec![nan.clone()]), vec![5]);
    assert_eq!(update_cache(&mut cache, vec![nan]), vec![5]);
    update_cache(&mut cache, vec![(6, Ok(ParameterValue::F32(0.0f32.to_bits())))]);
    assert!(update_cache(&mut cache, vec![(6, Ok(ParameterValue::F32((-0.0f32).to_bits())))]).is_empty());
    let position = |theta: f32| Ok(ParameterValue::Position(PositionValue { turns: 2, theta: theta.to_bits() }));
    update_cache(&mut cache, vec![(8, position(-0.0))]);
    assert!(update_cache(&mut cache, vec![(8, position(0.0))]).is_empty());
    assert_eq!(update_cache(&mut cache, vec![(8, position(0.5))]), vec![8]);
}

use nmixx::parameter_service::store_reads;

#[test]
fn stored_reads_leave_unknown_parameters_alone() {
    let schema = cache_schema();
    let mut cache: HashMap<u16, CacheEntry> = HashMap::new();
    cache.insert(9, Ok(ParameterValue::U8(5)));
    let changed = store_reads(
        &schema,
        &mut cache,
        vec![(9, Err("unknown".to_owned())), (1, Ok(ParameterValue::U8(4))), (8, Ok(ParameterValue::U8(1)))],
    );
    assert_eq!(changed, vec![1]);
    assert_eq!(cache.get(&9), Some(&Ok(ParameterValue::U8(5))));
    assert_eq!(cache.get(&8), None);
    assert_eq!(cache.get(&1), Some(&Ok(ParameterValue::U8(4))));
    assert!(store_reads(&schema, &mut cache, vec![(1, Ok(ParameterValue::U8(4)))]).is_empty());
}

use nmixx::parameter_service::state_symbol;

#[test]
fn motor_states_without_a_symbol_are_shown_as_decimal() {
    let mut meta = cache_schema().parameters[0].clone();
    meta.allowed_symbols = vec!["DISABLED".to_owned(), "IDLE".to_owned()];
    assert_eq!(state_symbol(&meta, 1), "IDLE");
    assert_eq!(state_symbol(&meta, 2), "2");
    assert_eq!(state_symbol(&meta, 42), "42");
    assert_eq!(state_symbol(&meta, 105), "105");
    assert_eq!(state_symbol(&meta, 255), "255");
}
