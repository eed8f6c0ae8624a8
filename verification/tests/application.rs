use nmixx::application::{
    action_route, capture_nearly_full, motor_context_ids, stop_poll, tuning_context_ids, tuning_default_keys,
    tuning_run_check, tuning_samples_per_second, tuning_selection, tuning_snapshot_span, ActionRoute,
    ApplicationError, RefreshAfter, RepeatCursor, RunCheck, TuningExperimentRuntime, TuningExperimentState,
    window_check, WindowCheck,
};
use nmixx::mixed_scope::{ScopeRate, ScopeSelection};
use nmixx::motion::MotionMode;
use nmixx::plot_capabilities::{DevicePlotCapabilities, DevicePlotChannel};
use nmixx::protocol::status::AxdrStatus;
use nmixx::schema::{HostSchema, ParameterMetadata, SchemaSource};
use nmixx::stream::TimeSpan;

fn parameter(symbol: &str, name: Option<&str>, id: u16, access: &str) -> ParameterMetadata {
    ParameterMetadata {
        symbol: symbol.to_owned(),
        name: name.map(str::to_owned),
        id,
        value_type: "f32".to_owned(),
        access: access.to_owned(),
        unit: None,
        description: String::new(),
        write_state: None,
        range: None,
        allowed: Vec::new(),
        allowed_symbols: Vec::new(),
        plot_scale: None,
    }
}

fn schema(parameters: Vec<ParameterMetadata>) -> HostSchema {
    HostSchema {
        schema_version: 1,
        protocol: "axdr-canfd-v1".to_owned(),
        source: SchemaSource { repository: "AxDr_L_Motor".to_owned(), git_sha: "abc".to_owned(), parameter_schema: 1 },
        parameters,
        actions: Vec::new(),
    }
}

fn capabilities() -> DevicePlotCapabilities {
    DevicePlotCapabilities {
        fast_max_channels: 8,
        normal_max_channels: 15,
        fast_block_samples: 20,
        fast_rate_hz: 20_000,
        normal_rate_hz: 1_000,
        channels: vec![
            DevicePlotChannel { id: 0x10, modes: 3, fast_scale: 0.001f32.to_bits() },
            DevicePlotChannel { id: 0x11, modes: 2, fast_scale: 0 },
        ],
    }
}

#[test]
fn a_new_experiment_opens_a_new_generation_in_preparing() {
    let mut runtime = TuningExperimentRuntime::new();
    let generation = runtime.begin().unwrap();
    assert_eq!(generation, 1);
    assert_eq!(runtime.state, TuningExperimentState::Preparing);
    assert!(matches!(runtime.begin(), Err(ApplicationError::TuningExperimentBusy)));
    assert!(matches!(runtime.ensure_idle(), Err(ApplicationError::TuningExperimentBusy)));
    assert_eq!(runtime.generation, 1);
}

#[test]
fn the_generation_wraps_and_still_changes() {
    let mut runtime = TuningExperimentRuntime::new();
    runtime.generation = u64::MAX;
    assert_eq!(runtime.begin().unwrap(), 0);
}

#[test]
fn stop_turns_a_running_experiment_into_stopping() {
    let mut runtime = TuningExperimentRuntime::new();
    let generation = runtime.begin().unwrap();
    assert!(runtime.set_state(generation, TuningExperimentState::Running));
    runtime.request_stop();
    assert_eq!(runtime.state, TuningExperimentState::Stopping);
    assert!(runtime.stop_requested);
    assert!(runtime.stop_requested_for(generation, false));
    assert!(matches!(runtime.check_run(Some(generation)), Err(ApplicationError::Motion(m)) if m == "tuning Run was cancelled"));
}

#[test]
fn stop_leaves_a_finished_experiment_alone() {
    let mut runtime = TuningExperimentRuntime::new();
    runtime.request_stop();
    assert!(!runtime.stop_requested);
    assert_eq!(runtime.state, TuningExperimentState::Idle);
    assert!(runtime.check_run(None).is_ok());
}

#[test]
fn a_stale_worker_cannot_change_the_new_experiment() {
    let mut runtime = TuningExperimentRuntime::new();
    let old = runtime.begin().unwrap();
    runtime.settle(old, TuningExperimentState::Completed, "done".to_owned());
    let new = runtime.begin().unwrap();
    assert!(!runtime.set_state(old, TuningExperimentState::Failed));
    runtime.settle(old, TuningExperimentState::Failed, "late".to_owned());
    runtime.note(old, "late".to_owned());
    assert_eq!(runtime.state, TuningExperimentState::Preparing);
    assert_eq!(runtime.message, None);
    assert!(runtime.stop_requested_for(old, false));
    assert!(!runtime.stop_requested_for(new, false));
    assert!(runtime.stop_requested_for(new, true));
}

#[test]
fn a_cancelled_preparation_completes_and_a_failed_one_reports() {
    let mut runtime = TuningExperimentRuntime::new();
    let generation = runtime.begin().unwrap();
    assert!(!runtime.fail_preparation(generation, true, "timeout".to_owned()));
    let status = runtime.status();
    assert_eq!(status.state, TuningExperimentState::Completed);
    assert_eq!(status.message.as_deref(), Some("Cancelled before Run"));

    let generation = runtime.begin().unwrap();
    assert!(runtime.fail_preparation(generation, false, "timeout".to_owned()));
    assert_eq!(runtime.state, TuningExperimentState::Failed);
    assert_eq!(runtime.message.as_deref(), Some("timeout"));
}

#[test]
fn repeat_alternates_only_after_a_successful_leg() {
    let mut cursor = RepeatCursor::new();
    assert!(cursor.target_is_b());
    let target = cursor.target_is_b();
    cursor.leg_sent(target);
    cursor.completed(AxdrStatus::Success);
    assert!(!cursor.target_is_b());
    assert_eq!(cursor.pending_target_is_b, None);

    let target = cursor.target_is_b();
    cursor.leg_sent(target);
    cursor.completed(AxdrStatus::ErrState);
    assert!(!cursor.target_is_b());

    cursor.leg_sent(false);
    cursor.leg_cancelled();
    cursor.completed(AxdrStatus::Success);
    assert!(!cursor.target_is_b());
}

#[test]
fn actions_are_routed_by_symbol() {
    assert_eq!(action_route("ACTION_MOTOR_STOP", false), ActionRoute::MotorStop);
    assert_eq!(action_route("ACTION_MOTOR_DISABLE", true), ActionRoute::MotorDisable);
    assert_eq!(action_route("ACTION_IDENT_APPLY", false), ActionRoute::Start(RefreshAfter::AllParameters));
    assert_eq!(action_route("ACTION_MOTOR_ENABLE", false), ActionRoute::Start(RefreshAfter::MotorContext));
    assert_eq!(action_route("ACTION_MOTOR_ENABLE", true), ActionRoute::Start(RefreshAfter::AllParameters));
    assert_eq!(action_route("ACTION_MOTOR_RUN", false), ActionRoute::Start(RefreshAfter::Nothing));
}

#[test]
fn motor_context_is_state_mode_and_readable_targets() {
    let schema = schema(vec![
        parameter("PARAM_MOTOR_STATE", None, 1, "r"),
        parameter("PARAM_TARGET_SPEED", None, 2, "rw"),
        parameter("PARAM_TARGET_TORQUE", None, 3, "w"),
        parameter("PARAM_CTRL_IQ_KP", None, 4, "rw"),
        parameter("PARAM_MOTOR_MODE", None, 5, "rw"),
        parameter("PARAM_RUN_POSITION", None, 6, "r"),
        parameter("PARAM_LIMIT_WM_EFFECTIVE", None, 7, "r"),
    ]);
    assert_eq!(motor_context_ids(&schema), vec![1, 2, 5]);
    assert_eq!(tuning_context_ids(&schema), vec![2, 4, 6, 7]);
}

#[test]
fn default_tuning_channels_follow_the_mode() {
    let keys = |mode| tuning_default_keys(mode).into_iter().map(|(k, _)| k).collect::<Vec<_>>();
    assert_eq!(keys(MotionMode::Torque), vec!["PARAM_REF_IQ", "PARAM_RUN_IQ"]);
    assert_eq!(keys(MotionMode::Speed), vec!["PARAM_REF_IQ", "PARAM_RUN_IQ", "PARAM_REF_WM", "PARAM_RUN_WM"]);
    assert_eq!(
        keys(MotionMode::Position),
        vec!["PARAM_REF_IQ", "PARAM_RUN_IQ", "PARAM_REF_POSITION", "PARAM_RUN_POSITION", "PARAM_REF_WM", "PARAM_RUN_WM"]
    );
    assert_eq!(tuning_default_keys(MotionMode::SensorlessSpeed)[2].1, ScopeRate::Normal);
    assert_eq!(tuning_default_keys(MotionMode::Torque)[0].1, ScopeRate::Fast);
}

#[test]
fn tuning_channels_must_be_plottable_at_their_rate() {
    let schema = schema(vec![parameter("PARAM_REF_IQ", Some("Iq ref"), 0x10, "r"), parameter("PARAM_RUN_WM", None, 0x11, "r")]);
    let caps = capabilities();
    assert_eq!(
        tuning_selection(&schema, &caps, "PARAM_REF_IQ", ScopeRate::Fast).unwrap(),
        ScopeSelection { id: 0x10, rate: ScopeRate::Fast }
    );
    assert!(matches!(tuning_selection(&schema, &caps, "PARAM_RUN_WM", ScopeRate::Fast),
        Err(ApplicationError::TuningExperimentChannel(l)) if l == "PARAM_RUN_WM"));
    assert!(matches!(tuning_selection(&schema, &caps, "PARAM_MISSING", ScopeRate::Normal),
        Err(ApplicationError::TuningExperimentChannel(l)) if l == "PARAM_MISSING"));
}

#[test]
fn the_recording_rate_sums_the_channel_rates() {
    let caps = capabilities();
    let both = [ScopeSelection { id: 0x10, rate: ScopeRate::Fast }, ScopeSelection { id: 0x11, rate: ScopeRate::Normal }];
    assert_eq!(tuning_samples_per_second(&caps, &both).unwrap(), 21_000);
    let bad = [ScopeSelection { id: 0x10, rate: ScopeRate::Fast }, ScopeSelection { id: 0x11, rate: ScopeRate::Fast }];
    assert!(matches!(tuning_samples_per_second(&caps, &bad), Err(ApplicationError::TuningExperimentChannel(l)) if l == "0x0011"));
    assert!(matches!(tuning_samples_per_second(&caps, &[]),
        Err(ApplicationError::TuningExperimentChannel(l)) if l == "no capture channels selected"));
}

#[test]
fn the_recording_keeps_its_tail_free() {
    let capture = TimeSpan { nanos: 3_000_000_000 };
    assert!(!capture_nearly_full(74, 100, capture));
    assert!(capture_nearly_full(75, 100, capture));
    assert!(capture_nearly_full(0, 100, TimeSpan { nanos: 750_000_000 }));
    assert!(!capture_nearly_full(100, 0, capture));
}

#[test]
fn run_checks_follow_the_motor() {
    assert!(matches!(tuning_run_check(false, false, 1, false),
        RunCheck::Fail(t) if t == "Motor left RUN unexpectedly (state 1); check firmware faults"));
    assert_eq!(tuning_run_check(true, false, 0, false), RunCheck::Finished);
    assert_eq!(tuning_run_check(false, true, 2, true), RunCheck::TimedOut);
    assert_eq!(tuning_run_check(true, false, 2, true), RunCheck::SendStop);
    assert_eq!(tuning_run_check(false, false, 2, false), RunCheck::CheckCapture);
    assert_eq!(tuning_run_check(false, true, 2, false), RunCheck::Wait);
}

#[test]
fn a_controlled_stop_waits_for_the_motor() {
    assert_eq!(stop_poll(1, true), Ok(true));
    assert_eq!(stop_poll(2, false), Ok(false));
    assert_eq!(stop_poll(7, false), Err("Unknown motor state 7 while stopping".to_owned()));
    assert_eq!(
        stop_poll(2, true),
        Err("Motor is still RUN after the 60 s controlled-stop timeout; use Disable to turn off the drive".to_owned())
    );
}

#[test]
fn a_running_experiment_shows_its_last_seconds() {
    let history = TimeSpan { nanos: 10_000_000_000 };
    assert_eq!(tuning_snapshot_span(TuningExperimentState::Running, history).nanos, 3_000_000_000);
    assert_eq!(tuning_snapshot_span(TuningExperimentState::Completed, history), history);
    let short = TimeSpan { nanos: 1_000_000_000 };
    assert_eq!(tuning_snapshot_span(TuningExperimentState::Preparing, short), short);
}

#[test]
fn position_window_watches_the_motor_state() {
    assert_eq!(window_check(false, false, 2), WindowCheck::Continue);
    assert_eq!(window_check(true, false, 2), WindowCheck::Continue);
    assert_eq!(window_check(true, false, 1), WindowCheck::Cut);
    assert_eq!(window_check(false, true, 0), WindowCheck::Cut);
    assert_eq!(
        window_check(false, false, 3),
        WindowCheck::Fail("Motor left RUN unexpectedly (state 3); check firmware faults".to_owned())
    );
}

#[test]
fn plot_channels_are_described_with_the_schema() {
    let mut known = parameter("PARAM_REF_IQ", Some("Iq reference"), 0x10, "r");
    known.unit = Some("A".to_owned());
    known.description = "commanded q-axis current".to_owned();
    let infos = capabilities().with_schema(&schema(vec![known]));
    assert_eq!(infos.len(), 2);
    assert_eq!(infos[0].id, 0x10);
    assert_eq!(infos[0].symbol.as_deref(), Some("PARAM_REF_IQ"));
    assert_eq!(infos[0].name.as_deref(), Some("Iq reference"));
    assert_eq!(infos[0].unit.as_deref(), Some("A"));
    assert_eq!(infos[0].description.as_deref(), Some("commanded q-axis current"));
    assert!(infos[0].supports_fast);
    assert!(infos[0].supports_normal);
    assert_eq!(infos[0].fast_scale, Some(0.001f32.to_bits()));
    assert_eq!(infos[1].id, 0x11);
    assert_eq!(infos[1].symbol, None);
    assert_eq!(infos[1].description, None);
    assert!(!infos[1].supports_fast);
    assert!(infos[1].supports_normal);
    assert_eq!(infos[1].fast_scale, None);
}
