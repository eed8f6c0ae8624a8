use nmixx::application::TuningExperimentState;
use nmixx::automation::workflow::{
    call_gate, check_capture_start, check_key_count, check_selection_count, effect_kind, identification_kind_name,
    operation, parse_identification_kind, parse_rate, stop_wait_step, stream_state_name, tuning_wait_step, CleanupPlan,
    Operation, Ownership, OwnershipEvent, StopWait,
};
use nmixx::mixed_scope::ScopeRate;
use nmixx::preflight::IdentificationKind;
use nmixx::stream::StreamState;

#[test]
fn script_methods_name_operations() {
    assert_eq!(operation("scope.capture"), Ok(Operation::ScopeCapture));
    assert_eq!(operation("tuning.wait"), Ok(Operation::TuningWait));
    assert_eq!(operation("wait"), Ok(Operation::Wait));
    assert_eq!(operation("motor.launch"), Err("Unknown Application operation 'motor.launch'".to_owned()));
}

#[test]
fn calls_need_a_running_task_on_an_open_session() {
    assert_eq!(call_gate(true, true), Err("Automation task has already finished".to_owned()));
    assert_eq!(call_gate(false, true), Err("The original device session is closing".to_owned()));
    assert_eq!(call_gate(false, false), Ok(()));
}

#[test]
fn motion_already_running_is_never_taken_over() {
    let mut owned = Ownership::new();
    assert_eq!(
        owned.claim_motion(2),
        Err("Motor is already RUN; stop it before starting another operation".to_owned())
    );
    assert_eq!(owned, Ownership::new());
    assert!(owned.claim_motion(1).is_ok());
    assert!(owned.motor);
    assert_eq!(owned.cleanup_plan(), CleanupPlan { stop_motor: true, join_tuning: false, stop_scope: false });
    owned.record(OwnershipEvent::MotionSettled);
    assert_eq!(owned.cleanup_plan(), CleanupPlan { stop_motor: false, join_tuning: false, stop_scope: false });
}

#[test]
fn cleanup_undoes_what_the_task_started() {
    let mut owned = Ownership::new();
    owned.record(OwnershipEvent::TuningStarted);
    owned.record(OwnershipEvent::ScopeStarted);
    assert_eq!(owned.cleanup_plan(), CleanupPlan { stop_motor: true, join_tuning: true, stop_scope: true });
    owned.record(OwnershipEvent::TuningCompleted);
    owned.record(OwnershipEvent::ScopeStopped);
    assert_eq!(owned.cleanup_plan(), CleanupPlan { stop_motor: false, join_tuning: false, stop_scope: false });
}

#[test]
fn apply_needs_the_same_identification() {
    let mut owned = Ownership::new();
    assert!(owned.check_apply(IdentificationKind::Flux).is_err());
    owned.record(OwnershipEvent::IdentificationCompleted(IdentificationKind::Flux));
    assert!(owned.check_apply(IdentificationKind::Flux).is_ok());
    assert_eq!(
        owned.check_apply(IdentificationKind::Jb),
        Err("Apply requires a matching successful identification from this workflow".to_owned())
    );
    owned.record(OwnershipEvent::IdentificationApplied);
    assert!(owned.check_apply(IdentificationKind::Flux).is_err());
}

#[test]
fn request_sizes_are_bounded() {
    assert!(check_key_count(1).is_ok());
    assert!(check_key_count(256).is_ok());
    assert_eq!(check_key_count(0), Err("Read 1..256 keys per request".to_owned()));
    assert!(check_key_count(257).is_err());
    assert!(check_selection_count(64).is_ok());
    assert_eq!(check_selection_count(65), Err("Too many channel selections".to_owned()));
}

#[test]
fn names_parse_and_print() {
    assert_eq!(parse_rate(None), Ok(ScopeRate::Normal));
    assert_eq!(parse_rate(Some("fast")), Ok(ScopeRate::Fast));
    assert_eq!(parse_rate(Some("slow")), Err("rate must be normal or fast".to_owned()));
    assert_eq!(parse_identification_kind("rs_ls"), Ok(IdentificationKind::RsLs));
    assert_eq!(parse_identification_kind("x"), Err("kind must be rs_ls, flux or jb".to_owned()));
    assert_eq!(identification_kind_name(IdentificationKind::Jb), "jb");
    assert_eq!(stream_state_name(StreamState::Capturing), "CAPTURING");
}

#[test]
fn a_finite_capture_waits_for_a_stopped_record() {
    assert!(check_capture_start(StreamState::Live).is_err());
    assert!(check_capture_start(StreamState::Capturing).is_err());
    assert!(check_capture_start(StreamState::Paused).is_ok());
}

#[test]
fn waits_judge_each_read() {
    assert_eq!(stop_wait_step(0), Ok(StopWait::Stopped(0)));
    assert_eq!(stop_wait_step(2), Ok(StopWait::Running));
    assert_eq!(stop_wait_step(9), Err("Unknown motor state 9".to_owned()));
    assert_eq!(tuning_wait_step(TuningExperimentState::Completed, None), Ok(true));
    assert_eq!(tuning_wait_step(TuningExperimentState::Running, None), Ok(false));
    assert_eq!(tuning_wait_step(TuningExperimentState::Failed, Some("boom".to_owned())), Err("boom".to_owned()));
    assert_eq!(tuning_wait_step(TuningExperimentState::Failed, None), Err("Tuning experiment failed".to_owned()));
    assert_eq!(tuning_wait_step(TuningExperimentState::Idle, None), Err("No tuning experiment is running".to_owned()));
}

#[test]
fn successful_calls_publish_their_effect() {
    assert_eq!(effect_kind("config.save"), Some("config.saved"));
    assert_eq!(effect_kind("scope.clear"), Some("scope.changed"));
    assert_eq!(effect_kind("motion.set"), Some("motion.changed"));
    assert_eq!(effect_kind("scope.status"), None);
}
