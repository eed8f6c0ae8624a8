use std::collections::VecDeque;

use nmixx::mixed_scope::{
    accept_config_frame, group_runtime, retire_config_id, target_ids, ConfigIdAllocator, GroupLayout,
    MixedScopeError, PlotGroups, RETIRED_CONFIG_HISTORY,
};
use nmixx::protocol::{NormalDataFrame, PLOT_FAST_MASK, PLOT_NORMAL_MASK};

fn layout(config_id: u8) -> GroupLayout {
    GroupLayout { config_id, ids: vec![1], scales: vec![1.0f32.to_bits()] }
}

#[test]
fn accepts_active_and_pending_frames_and_ignores_multiple_retired_generations() {
    let mut group = group_runtime(layout(1));
    let mut retired = VecDeque::new();

    for config_id in 2..=4 {
        group.pending = Some(layout(config_id));
        assert!(accept_config_frame(&mut group, &mut retired, config_id).unwrap());
    }

    assert_eq!(group.active.config_id, 4);
    assert_eq!(retired, VecDeque::from([1, 2, 3]));
    for config_id in 1..=3 {
        assert!(!accept_config_frame(&mut group, &mut retired, config_id).unwrap());
    }
    assert!(accept_config_frame(&mut group, &mut retired, 4).unwrap());
    assert!(matches!(
        accept_config_frame(&mut group, &mut retired, 99),
        Err(MixedScopeError::UnknownConfig(99))
    ));
}

#[test]
fn retired_config_history_is_unique_and_bounded() {
    let mut retired = VecDeque::new();
    for config_id in 1..=(RETIRED_CONFIG_HISTORY as u8 + 4) {
        retire_config_id(&mut retired, config_id);
    }

    assert_eq!(retired.len(), RETIRED_CONFIG_HISTORY);
    assert_eq!(retired.front().copied(), Some(5));
    retire_config_id(&mut retired, 10);
    assert_eq!(retired.len(), RETIRED_CONFIG_HISTORY);
    assert_eq!(retired.back().copied(), Some(10));
    assert_eq!(retired.iter().filter(|config_id| **config_id == 10).count(), 1);
}

#[test]
fn pending_target_can_be_superseded_without_accepting_its_late_frames() {
    let mut group = group_runtime(layout(1));
    let mut retired = VecDeque::new();

    group.pending = Some(GroupLayout { config_id: 2, ids: vec![2], scales: vec![1.0f32.to_bits()] });
    assert_eq!(target_ids(Some(&group)), vec![2]);

    let superseded =
        group.pending.replace(GroupLayout { config_id: 3, ids: vec![3], scales: vec![1.0f32.to_bits()] });
    retire_config_id(&mut retired, superseded.unwrap().config_id);

    assert!(!accept_config_frame(&mut group, &mut retired, 2).unwrap());
    assert!(accept_config_frame(&mut group, &mut retired, 3).unwrap());
    assert_eq!(group.active.ids, vec![3]);
    assert!(!accept_config_frame(&mut group, &mut retired, 1).unwrap());
}

#[test]
fn config_ids_wrap_from_255_to_1() {
    let mut ids = ConfigIdAllocator::after(254);
    assert_eq!(ids.allocate(), 255);
    assert_eq!(ids.allocate(), 1);
    assert_eq!(ids.current(), 1);
    assert_eq!(ids.allocate(), 2);
    assert_eq!(ids.current(), 2);
}

#[test]
fn normal_frames_are_routed_to_the_active_generation() {
    let mut groups = PlotGroups {
        fast: None,
        normal: Some(group_runtime(GroupLayout { config_id: 7, ids: vec![0x10, 0x11], scales: vec![] })),
        retired_fast_config_ids: VecDeque::new(),
        retired_normal_config_ids: VecDeque::new(),
    };
    assert_eq!(groups.mask(), PLOT_NORMAL_MASK);
    let frame = NormalDataFrame { sequence: 5, config_id: 7, values: vec![1, 2] };
    assert_eq!(groups.admit_normal(&frame).unwrap(), Some(vec![0x10, 0x11]));
    let gap = NormalDataFrame { sequence: 8, config_id: 7, values: vec![3, 4] };
    assert_eq!(groups.admit_normal(&gap).unwrap(), Some(vec![0x10, 0x11]));
    assert_eq!(groups.lost_frames(), 2);
    let short = NormalDataFrame { sequence: 9, config_id: 7, values: vec![3] };
    assert!(matches!(groups.admit_normal(&short), Err(MixedScopeError::Runtime(_))));
    let unknown = NormalDataFrame { sequence: 10, config_id: 9, values: vec![3, 4] };
    assert!(matches!(groups.admit_normal(&unknown), Err(MixedScopeError::UnknownConfig(9))));
    groups.fast = Some(group_runtime(layout(1)));
    assert_eq!(groups.mask(), PLOT_FAST_MASK | PLOT_NORMAL_MASK);
}

use nmixx::mixed_scope::{
    drop_group, install_group, regroup_step, snapshot_span, stage_pending, unstage_pending, RegroupStep,
};
use nmixx::stream::TimeSpan;
use nmixx::stream::StreamState;

#[test]
fn a_refused_switch_restores_the_superseded_generation() {
    let mut slot = Some(group_runtime(layout(1)));
    let mut retired = VecDeque::from([5]);
    let previous = stage_pending(slot.as_mut().unwrap(), &mut retired, layout(5));
    assert_eq!(retired, VecDeque::new());
    assert!(!unstage_pending(&mut slot, &mut retired, 5, previous));
    assert!(slot.as_ref().unwrap().pending.is_none());
    assert_eq!(retired, VecDeque::from([5]));
    assert!(unstage_pending(&mut slot, &mut retired, 1, None));
}

#[test]
fn groups_are_installed_and_dropped_with_their_generations_retired() {
    let mut slot = None;
    let mut retired = VecDeque::from([7]);
    install_group(&mut slot, &mut retired, layout(7));
    assert_eq!(retired, VecDeque::new());
    install_group(&mut slot, &mut retired, layout(8));
    assert_eq!(retired, VecDeque::from([7]));
    drop_group(&mut slot, &mut retired);
    assert!(slot.is_none());
    assert_eq!(retired, VecDeque::from([7, 8]));
}

#[test]
fn regrouping_follows_the_recording_state() {
    assert_eq!(regroup_step(0, true, StreamState::Live), RegroupStep::Remove { stop_plot: true });
    assert_eq!(regroup_step(0, true, StreamState::Paused), RegroupStep::Remove { stop_plot: false });
    assert_eq!(regroup_step(2, true, StreamState::Capturing), RegroupStep::Stage);
    assert_eq!(regroup_step(2, false, StreamState::Live), RegroupStep::Install { start_plot: true });
    assert_eq!(regroup_step(2, true, StreamState::Stopped), RegroupStep::Install { start_plot: false });
}

#[test]
fn snapshot_spans_round_to_whole_samples() {
    let second = TimeSpan { nanos: 1_000_000_000 };
    let none = TimeSpan { nanos: 0 };
    assert_eq!(snapshot_span(second, none, 1_000), (1_000, 0));
    assert_eq!(snapshot_span(TimeSpan { nanos: 1 }, none, 1_000), (1, 0));
    assert_eq!(snapshot_span(none, none, 1_000), (1, 0));
    assert_eq!(snapshot_span(TimeSpan { nanos: 2_500_000 }, TimeSpan { nanos: 1_500_000 }, 1_000), (3, 2));
    assert_eq!(snapshot_span(second, TimeSpan { nanos: 1_499_999 }, 1_000), (1_000, 1));
    assert_eq!(snapshot_span(second, second, 0), (1, 0));
    assert_eq!(snapshot_span(TimeSpan { nanos: u128::MAX }, TimeSpan { nanos: u128::MAX }, 20_000), (usize::MAX, usize::MAX));
}

use nmixx::mixed_scope::{control_step, ControlStep, PlotCommand, ScopeControl};

#[test]
fn recording_requests_start_and_stop_the_configured_groups() {
    let live = control_step(ScopeControl::Live, &None, StreamState::Stopped, 3).unwrap();
    assert_eq!(live, ControlStep { command: Some(PlotCommand::Start(3)), enter: Some(StreamState::Live), enter_first: true });
    let again = control_step(ScopeControl::Live, &None, StreamState::Live, 3).unwrap();
    assert_eq!(again, ControlStep { command: None, enter: None, enter_first: true });
    let pause = control_step(ScopeControl::Pause, &None, StreamState::Live, 1).unwrap();
    assert_eq!(pause, ControlStep { command: Some(PlotCommand::Stop(1)), enter: Some(StreamState::Paused), enter_first: false });
    let stop = control_step(ScopeControl::Stop, &None, StreamState::Live, 0).unwrap();
    assert_eq!(stop, ControlStep { command: None, enter: Some(StreamState::Stopped), enter_first: false });
    let capture = control_step(ScopeControl::Capture(TimeSpan { nanos: 5 }), &None, StreamState::Paused, 2).unwrap();
    assert_eq!(capture, ControlStep { command: Some(PlotCommand::Start(2)), enter: Some(StreamState::Capturing), enter_first: true });
}

#[test]
fn recording_requests_are_refused_after_a_worker_failure() {
    let refused = control_step(ScopeControl::Live, &Some("decoder failed".to_owned()), StreamState::Stopped, 3);
    assert!(matches!(refused, Err(MixedScopeError::Runtime(m)) if m == "decoder failed"));
}
