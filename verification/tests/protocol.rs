use nmixx::protocol::{
    build_action_start_default, build_parameter_read_default, build_parameter_write,
    build_plot_caps_default, build_plot_config_default, build_plot_start_default,
    build_plot_stop_default, can_id, decode_fast_data, decode_inbound, decode_normal_data,
    parse_action_accept, parse_parameter_read, parse_parameter_write, parse_plot_caps_response,
    parse_plot_config_response, split_can_id, ActionCompleteFrame, ActionError, ActionHandle,
    ActionState, ActionTracker, AxdrStatus, DecodeError, InboundFrame, ParameterError,
    ParameterType, ParameterValue, PlotError, PositionValue, ResponseFrame, SequenceStatus,
    SequenceTracker, StreamDecodeError, TransactionError, TransactionId, TransactionTable,
    EVENT_ACTION_COMPLETE, MSG_EVENT, MSG_PARAMETER, MSG_PLOT, MSG_RESPONSE, NODE_ID_DEFAULT,
    PARAM_WRITE, PLOT_CAPS, PLOT_CAP_END, PLOT_CAP_FAST, PLOT_CAP_NORMAL, PLOT_CONFIG,
    PLOT_FAST_MASK, PLOT_GROUP_FAST, PLOT_NORMAL_MASK, PLOT_START, PLOT_STOP,
};
use nmixx::wire::CanFdFrame;

fn response(txn: u8, message: u8, op: u8, status: AxdrStatus) -> ResponseFrame {
    ResponseFrame { txn, request_message: message, request_op: op, status, data: Vec::new() }
}

#[test]
fn tracks_accept_then_complete() {
    let handle = ActionHandle { txn: TransactionId::from_raw(3), action_id: 0x1102 };
    let mut tracker = ActionTracker::default();
    tracker.track(handle);
    tracker.accepted(handle);
    assert_eq!(tracker.state(handle), Some(ActionState::Running));
    tracker.complete(&ActionCompleteFrame { txn: 3, action_id: 0x1102, status: AxdrStatus::Success }).unwrap();
    assert_eq!(tracker.state(handle), Some(ActionState::Completed(AxdrStatus::Success)));
}

#[test]
fn late_accept_does_not_overwrite_early_completion() {
    let handle = ActionHandle { txn: TransactionId::from_raw(4), action_id: 0x1004 };
    let mut tracker = ActionTracker::default();
    tracker.track(handle);
    tracker.complete(&ActionCompleteFrame { txn: 4, action_id: 0x1004, status: AxdrStatus::Success }).unwrap();
    tracker.accepted(handle);
    assert_eq!(tracker.state(handle), Some(ActionState::Completed(AxdrStatus::Success)));
}

#[test]
fn unknown_completion_and_removal() {
    let handle = ActionHandle { txn: TransactionId::from_raw(5), action_id: 0x0001 };
    let mut tracker = ActionTracker::default();
    assert_eq!(
        tracker.complete(&ActionCompleteFrame { txn: 5, action_id: 0x0001, status: AxdrStatus::Success }),
        Err(ActionError::UnknownCompletion)
    );
    assert_eq!(
        tracker.complete(&ActionCompleteFrame { txn: 0, action_id: 0x0001, status: AxdrStatus::Success }),
        Err(ActionError::UnknownCompletion)
    );
    tracker.track(handle);
    assert_eq!(tracker.remove(handle), Some(ActionState::AwaitingAcceptance));
    assert_eq!(tracker.state(handle), None);
}

#[test]
fn builds_fast_config_group_controls_and_caps() {
    let mut txns = TransactionTable::default();
    let txn = txns.allocate(MSG_PLOT, PLOT_CONFIG).unwrap();
    let frame = build_plot_config_default(txn, PLOT_GROUP_FAST, 7, &[0x0001, 0x0011]).unwrap();
    assert_eq!(frame.data()[..9], [1, PLOT_CONFIG, 0, 7, 2, 1, 0, 0x11, 0]);

    let start = build_plot_start_default(txn, PLOT_FAST_MASK).unwrap();
    assert_eq!(start.data()[..3], [1, PLOT_START, PLOT_FAST_MASK]);
    let stop = build_plot_stop_default(txn, PLOT_FAST_MASK | PLOT_NORMAL_MASK).unwrap();
    assert_eq!(stop.data()[..3], [1, PLOT_STOP, 3]);
    let caps = build_plot_caps_default(txn, 6).unwrap();
    assert_eq!(caps.data()[..3], [1, PLOT_CAPS, 6]);
}

#[test]
fn plot_requests_reject_bad_groups_and_channel_counts() {
    let txn = TransactionId::from_raw(1);
    assert_eq!(build_plot_config_default(txn, PLOT_GROUP_FAST, 1, &[]), Err(PlotError::EmptyChannels));
    assert_eq!(build_plot_config_default(txn, PLOT_GROUP_FAST, 1, &[1; 9]), Err(PlotError::TooManyFastChannels(9)));
    assert_eq!(build_plot_config_default(txn, 1, 1, &[1; 16]), Err(PlotError::TooManyNormalChannels(16)));
    assert_eq!(build_plot_config_default(txn, 5, 1, &[1; 16]), Err(PlotError::InvalidGroup(5)));
    assert_eq!(build_plot_start_default(txn, 0), Err(PlotError::InvalidGroupMask(0)));
    assert_eq!(build_plot_stop_default(txn, 4), Err(PlotError::InvalidGroupMask(4)));
}

#[test]
fn decodes_capability_page() {
    let mut data = vec![0, PLOT_CAP_END, 2, 8, 15, 20];
    data.extend_from_slice(&20_000u32.to_le_bytes());
    data.extend_from_slice(&1_000u32.to_le_bytes());
    data.extend_from_slice(&0x0001u16.to_le_bytes());
    data.push(PLOT_CAP_FAST | PLOT_CAP_NORMAL);
    data.extend_from_slice(&0.001f32.to_le_bytes());
    data.extend_from_slice(&0x0004u16.to_le_bytes());
    data.push(PLOT_CAP_NORMAL);
    data.extend_from_slice(&0.0f32.to_le_bytes());
    let response = ResponseFrame {
        txn: 1,
        request_message: MSG_PLOT,
        request_op: PLOT_CAPS,
        status: AxdrStatus::Success,
        data,
    };

    let page = parse_plot_caps_response(&response, 0).unwrap();
    assert_eq!(page.next, None);
    assert_eq!(page.fast_max_channels, 8);
    assert_eq!(page.normal_max_channels, 15);
    assert_eq!(page.fast_block_samples, 20);
    assert_eq!(page.fast_rate_hz, 20_000);
    assert_eq!(page.normal_rate_hz, 1_000);
    assert!(page.entries[0].supports_fast());
    assert!(page.entries[0].supports_normal());
    assert!(!page.entries[1].supports_fast());
    assert!(page.entries[1].supports_normal());
    assert_eq!(f32::from_bits(page.entries[0].fast_scale), 0.001);
}

#[test]
fn capability_page_rejects_nonpositive_fast_scale_and_bad_next() {
    let mut data = vec![0, PLOT_CAP_END, 1, 8, 15, 20];
    data.extend_from_slice(&20_000u32.to_le_bytes());
    data.extend_from_slice(&1_000u32.to_le_bytes());
    data.extend_from_slice(&0x0001u16.to_le_bytes());
    data.push(PLOT_CAP_FAST);
    data.extend_from_slice(&(-1.0f32).to_le_bytes());
    let mut response = ResponseFrame { txn: 1, request_message: MSG_PLOT, request_op: PLOT_CAPS, status: AxdrStatus::Success, data };
    assert_eq!(
        parse_plot_caps_response(&response, 0),
        Err(PlotError::InvalidCapabilityScale { id: 1, scale: (-1.0f32).to_bits() })
    );
    response.data[17..21].copy_from_slice(&2.0f32.to_le_bytes());
    response.data[1] = 5;
    assert_eq!(parse_plot_caps_response(&response, 0), Err(PlotError::MalformedCapabilitiesResponse));
    response.data[1] = 1;
    assert_eq!(parse_plot_caps_response(&response, 0).unwrap().next, Some(1));
    assert_eq!(parse_plot_caps_response(&response, 3), Err(PlotError::CapabilityStartMismatch { expected: 3, actual: 0 }));
}

#[test]
fn plot_config_response_must_echo_layout() {
    let mut response = response(1, MSG_PLOT, PLOT_CONFIG, AxdrStatus::Success);
    response.data = vec![0, 7, 2, 0x01, 0x00, 0x11, 0x00];
    assert_eq!(parse_plot_config_response(&response, 0, 7, &[0x0001, 0x0011]), Ok(()));
    assert_eq!(parse_plot_config_response(&response, 0, 7, &[0x0001, 0x0012]), Err(PlotError::MalformedConfigResponse));
    response.status = AxdrStatus::ErrConfig;
    assert_eq!(parse_plot_config_response(&response, 0, 7, &[0x0001, 0x0011]), Err(PlotError::Status(AxdrStatus::ErrConfig)));
}

#[test]
fn decodes_response_header() {
    let frame = CanFdFrame::new(can_id(MSG_RESPONSE, NODE_ID_DEFAULT), &[7, 0x07, 0x01, 0, 0x10, 0x01]).unwrap();

    let InboundFrame::Response(response) = decode_inbound(frame).unwrap() else {
        panic!("expected response");
    };
    assert_eq!(response.txn, 7);
    assert_eq!(response.request_message, 0x07);
    assert_eq!(response.request_op, 0x01);
    assert_eq!(response.status, AxdrStatus::Success);
    assert_eq!(&response.data[..2], &[0x10, 0x01]);
}

#[test]
fn decodes_action_complete() {
    let frame = CanFdFrame::new(can_id(MSG_EVENT, NODE_ID_DEFAULT), &[EVENT_ACTION_COMPLETE, 9, 0x02, 0x11, 0]).unwrap();

    let InboundFrame::ActionComplete(event) = decode_inbound(frame).unwrap() else {
        panic!("expected action completion");
    };
    assert_eq!(event.txn, 9);
    assert_eq!(event.action_id, 0x1102);
    assert_eq!(event.status, AxdrStatus::Success);
}

#[test]
fn decode_reports_short_frames_and_unknown_status() {
    let short = CanFdFrame::new(can_id(MSG_RESPONSE, NODE_ID_DEFAULT), &[1, 2]).unwrap();
    assert_eq!(decode_inbound(short), Err(DecodeError::TooShort("response")));
    let bad = CanFdFrame::new(can_id(MSG_RESPONSE, NODE_ID_DEFAULT), &[1, 2, 3, 42]).unwrap();
    assert_eq!(decode_inbound(bad), Err(DecodeError::UnknownStatus(42)));
    let fast = CanFdFrame::new(0x0601, &[0; 4]).unwrap();
    assert!(matches!(decode_inbound(fast), Ok(InboundFrame::FastData(_))));
}

#[test]
fn can_id_packs_and_splits() {
    assert_eq!(can_id(MSG_PARAMETER, NODE_ID_DEFAULT), 0x01c1);
    assert_eq!(split_can_id(0x01c1), (MSG_PARAMETER, NODE_ID_DEFAULT));
    assert_eq!(can_id(MSG_FAST_DATA_TYPE, 0x41), 0x0601);
}

const MSG_FAST_DATA_TYPE: u8 = 0x18;

#[test]
fn allocates_and_matches_response() {
    let mut table = TransactionTable::default();
    let txn = table.allocate(0x07, 0x01).unwrap();
    assert_eq!(txn.get(), 1);
    table.complete(&response(1, 0x07, 0x01, AxdrStatus::Success)).unwrap();
    assert!(table.is_empty());
}

#[test]
fn matching_error_status_still_completes_transaction() {
    let mut table = TransactionTable::default();
    let txn = table.allocate(0x07, 0x02).unwrap();
    assert_eq!(table.complete(&response(1, 0x07, 0x02, AxdrStatus::ErrState)), Ok(txn));
    assert!(table.is_empty());
}

#[test]
fn mismatch_does_not_consume_pending_request() {
    let mut table = TransactionTable::default();
    table.allocate(0x07, 0x01).unwrap();
    assert!(matches!(table.complete(&response(1, 0x07, 0x02, AxdrStatus::Success)), Err(TransactionError::ResponseMismatch { .. })));
    assert_eq!(table.len(), 1);
}

#[test]
fn allocation_skips_pending_numbers_and_exhausts_after_255() {
    let mut table = TransactionTable::default();
    for expected in 1..=255u8 {
        assert_eq!(table.allocate(0x07, 0x01).unwrap().get(), expected);
    }
    assert_eq!(table.allocate(0x07, 0x01), Err(TransactionError::Exhausted));
    table.cancel(TransactionId::from_raw(9));
    assert_eq!(table.allocate(0x07, 0x01).unwrap().get(), 9);
    assert_eq!(table.complete(&response(0, 0x07, 0x01, AxdrStatus::Success)), Err(TransactionError::Unknown(0)));
}

#[test]
fn writes_position_in_one_payload() {
    let frame = build_parameter_write(
        TransactionId::from_raw(7),
        0x0704,
        ParameterValue::Position(PositionValue { turns: -2, theta: 1.5f32.to_bits() }),
        1,
    )
    .unwrap();
    assert_eq!(&frame.data()[0..5], &[7, PARAM_WRITE, 0x04, 0x07, ParameterType::Position.to_u8()]);
}

#[test]
fn parameter_write_then_read_round_trips_each_type() {
    let values = [
        ParameterValue::U8(200),
        ParameterValue::I8(-5),
        ParameterValue::F32(1.25f32.to_bits()),
        ParameterValue::I32(-123456),
        ParameterValue::U32(0xdead_beef),
        ParameterValue::Position(PositionValue { turns: -2, theta: 1.5f32.to_bits() }),
    ];
    for value in values {
        let frame = build_parameter_write(TransactionId::from_raw(3), 0x0110, value, 1).unwrap();
        // A read response carries the same ID/type/value layout after the status byte.
        let response = ResponseFrame {
            txn: 3,
            request_message: MSG_PARAMETER,
            request_op: 0x01,
            status: AxdrStatus::Success,
            data: frame.data()[2..].to_vec(),
        };
        assert_eq!(parse_parameter_read(&response, 0x0110, value.parameter_type()), Ok(value));
    }
}

#[test]
fn parameter_parsers_report_each_error() {
    let mut ok = response(1, MSG_PARAMETER, 0x01, AxdrStatus::Success);
    ok.data = vec![0x10, 0x01, 2, 0, 0, 0xa0, 0x3f];
    assert_eq!(parse_parameter_read(&ok, 0x0110, ParameterType::F32), Ok(ParameterValue::F32(1.25f32.to_bits())));
    assert_eq!(parse_parameter_read(&ok, 0x0111, ParameterType::F32), Err(ParameterError::IdMismatch { expected: 0x0111, actual: 0x0110 }));
    assert_eq!(
        parse_parameter_read(&ok, 0x0110, ParameterType::U8),
        Err(ParameterError::TypeMismatch { expected: ParameterType::U8, actual: ParameterType::F32 })
    );
    ok.data[2] = 9;
    assert_eq!(parse_parameter_read(&ok, 0x0110, ParameterType::F32), Err(ParameterError::UnknownType(9)));
    ok.data.truncate(2);
    assert_eq!(parse_parameter_read(&ok, 0x0110, ParameterType::F32), Err(ParameterError::InvalidLength));
    assert_eq!(parse_parameter_write(&ok, 0x0110), Ok(()));
    ok.status = AxdrStatus::ErrReadOnly;
    assert_eq!(parse_parameter_write(&ok, 0x0110), Err(ParameterError::Status(AxdrStatus::ErrReadOnly)));
    let read = build_parameter_read_default(TransactionId::from_raw(2), 0x0110).unwrap();
    assert_eq!(read.data(), &[2, 0x01, 0x10, 0x01]);
}

#[test]
fn action_start_and_accept() {
    let frame = build_action_start_default(TransactionId::from_raw(4), 0x1102).unwrap();
    assert_eq!(frame.id, can_id(MSG_PARAMETER, NODE_ID_DEFAULT));
    assert_eq!(frame.data(), &[4, PARAM_WRITE, 0x02, 0x11, 6]);
    let mut accept = response(4, MSG_PARAMETER, PARAM_WRITE, AxdrStatus::Success);
    accept.data = vec![0x02, 0x11];
    assert_eq!(parse_action_accept(&accept, 0x1102), Ok(()));
    assert_eq!(parse_action_accept(&accept, 0x1103), Err(ActionError::IdMismatch { expected: 0x1103, actual: 0x1102 }));
    accept.data.clear();
    assert_eq!(parse_action_accept(&accept, 0x1102), Err(ActionError::InvalidLength));
}

#[test]
fn decodes_normal_float_payload() {
    let mut payload = vec![2, 0, 9, 2];
    payload.extend_from_slice(&1.25f32.to_le_bytes());
    payload.extend_from_slice(&(-3.5f32).to_le_bytes());
    let frame = CanFdFrame::new(0x0401, &payload).unwrap();
    let decoded = decode_normal_data(&frame).unwrap();
    assert_eq!(decoded.sequence, 2);
    assert_eq!(decoded.config_id, 9);
    let values: Vec<f32> = decoded.values.iter().map(|bits| f32::from_bits(*bits)).collect();
    assert_eq!(values, vec![1.25, -3.5]);
}

#[test]
fn decodes_fast_samples_and_checks_padding() {
    let frame = CanFdFrame::new(0x0601, &[1, 0, 7, 2, 10, 0, 236, 255, 20, 0, 216, 255]).unwrap();
    let decoded = decode_fast_data(&frame, 2).unwrap();
    assert_eq!(decoded.sequence, 1);
    assert_eq!(decoded.config_id, 7);
    assert_eq!(decoded.sample_count, 2);
    assert_eq!(decoded.samples, vec![10, -20, 20, -40]);
    assert_eq!(decoded.sample(1, 0), Some(20));
    assert_eq!(decoded.sample(2, 0), None);
    assert_eq!(decode_fast_data(&frame, 0), Err(StreamDecodeError::InvalidFastChannelCount(0)));
    assert_eq!(decode_fast_data(&frame, 3), Err(StreamDecodeError::Truncated { required: 16, actual: 12 }));
    let padded = CanFdFrame::new(0x0601, &[1, 0, 7, 1, 10, 0, 0, 0, 5]).unwrap();
    assert_eq!(decode_fast_data(&padded, 1), Err(StreamDecodeError::NonZeroPadding));
}

#[test]
fn tracks_gap_wrap_and_reset_or_reorder() {
    let mut tracker = SequenceTracker::default();
    assert_eq!(tracker.observe(65534), SequenceStatus::First);
    assert_eq!(tracker.observe(65535), SequenceStatus::Continuous);
    assert_eq!(tracker.observe(1), SequenceStatus::Gap { expected: 0, actual: 1, lost: 1 });
    assert_eq!(tracker.lost_total(), 1);
    assert_eq!(tracker.observe(0), SequenceStatus::ResetOrReorder { expected: 2, actual: 0 });
    tracker.reset();
    assert_eq!(tracker.lost_total(), 0);
    assert_eq!(tracker.observe(0), SequenceStatus::First);
}

#[test]
fn config_frames_pad_to_the_smallest_canonical_length() {
    let mut txns = TransactionTable::default();
    let txn = txns.allocate(MSG_PLOT, PLOT_CONFIG).unwrap();
    let frame = build_plot_config_default(txn, PLOT_GROUP_FAST, 7, &[0x0001, 0x0011]).unwrap();
    assert_eq!(frame.data_len(), 12);
    assert_eq!(frame.data()[9..], [0, 0, 0]);
}

#[test]
fn allocation_is_exhausted_exactly_at_255_pending() {
    let mut table = TransactionTable::default();
    for _ in 0..254 {
        table.allocate(0x07, 0x01).unwrap();
    }
    assert_eq!(table.len(), 254);
    assert!(table.allocate(0x07, 0x01).is_ok());
    assert_eq!(table.len(), 255);
    assert_eq!(table.allocate(0x07, 0x01), Err(TransactionError::Exhausted));
    assert_eq!(table.len(), 255);
}
