use nmixx::plot_capabilities::{CapabilityDiscovery, PlotCapabilitiesError};
use nmixx::protocol::{
    can_id, parse_parameter_read, parse_parameter_write, AxdrStatus, ParameterType, ParameterValue,
    PlotCapabilitiesPage, PlotCapabilityEntry, MSG_PARAMETER, MSG_RESPONSE, NODE_ID_DEFAULT, PARAM_READ, PARAM_WRITE,
    PLOT_CAP_FAST, PLOT_CAP_NORMAL,
};
use nmixx::session::{SessionCore, SessionError, SessionEvent, WaitStep};
use nmixx::transport::{is_macos_usb_serial_path, is_usb_serial_path, TransportError, UsbFrameQueue};
use nmixx::wire::{encode_usb_envelope, CanFdFrame};

fn response(txn: u8, op: u8, status: u8, data: &[u8]) -> CanFdFrame {
    let mut payload = vec![txn, MSG_PARAMETER, op, status];
    payload.extend_from_slice(data);
    CanFdFrame::new(can_id(MSG_RESPONSE, NODE_ID_DEFAULT), &payload).unwrap()
}

#[test]
fn parameter_read_round_trip_uses_session_runtime() {
    let mut core = SessionCore::new();
    let (txn, frame) = core.begin_parameter_read(0x0110).unwrap();
    assert_eq!(frame.id, can_id(MSG_PARAMETER, NODE_ID_DEFAULT));
    assert_eq!(&frame.data()[..4], &[1, PARAM_READ, 0x10, 0x01]);
    let mut read_data = vec![0x10, 0x01, 2];
    read_data.extend_from_slice(&0.147f32.to_le_bytes());
    let WaitStep::Response(reply) = core.wait_step(txn, response(1, PARAM_READ, 0, &read_data)) else {
        panic!("expected the read response");
    };
    let ParameterValue::F32(bits) = parse_parameter_read(&reply, 0x0110, ParameterType::F32).unwrap() else {
        panic!("expected f32 parameter value");
    };
    assert!((f32::from_bits(bits) - 0.147).abs() < 1.0e-6);
    assert_eq!(core.pending_requests(), 0);
}

#[test]
fn parameter_write_round_trip_uses_session_runtime() {
    let mut core = SessionCore::new();
    let (txn, frame) = core.begin_parameter_write(0x0101, ParameterValue::U8(16)).unwrap();
    assert_eq!(&frame.data()[..6], &[1, PARAM_WRITE, 0x01, 0x01, 0, 16]);
    let WaitStep::Response(reply) = core.wait_step(txn, response(1, PARAM_WRITE, 0, &[0x01, 0x01])) else {
        panic!("expected the write response");
    };
    assert_eq!(parse_parameter_write(&reply, 0x0101), Ok(()));
}

#[test]
fn another_reply_keeps_the_request_waiting() {
    let mut core = SessionCore::new();
    let (txn, _) = core.begin_parameter_read(0x0110).unwrap();
    assert!(matches!(core.wait_step(txn, response(9, PARAM_READ, 0, &[])), WaitStep::Pending(None)));
    assert_eq!(core.pending_requests(), 1);
    assert!(matches!(core.expired(txn), SessionError::Timeout));
    assert_eq!(core.pending_requests(), 0);
}

#[test]
fn a_failed_send_releases_its_transaction() {
    let mut core = SessionCore::new();
    let (txn, _) = core.begin_parameter_read(0x0110).unwrap();
    assert!(matches!(core.send_failed(txn, TransportError::NotConnected), SessionError::Transport(TransportError::NotConnected)));
    assert_eq!(core.pending_requests(), 0);
    let (next, _) = core.begin_parameter_read(0x0110).unwrap();
    assert_eq!(next.get(), 2);
}

#[test]
fn action_completion_before_acceptance_is_kept() {
    let mut core = SessionCore::new();
    let (handle, frame) = core.begin_action_start(0x1102).unwrap();
    assert_eq!(frame.data()[0], handle.txn.get());
    let event = CanFdFrame::new(can_id(nmixx::protocol::MSG_EVENT, NODE_ID_DEFAULT), &[
        nmixx::protocol::EVENT_ACTION_COMPLETE, handle.txn.get(), 0x02, 0x11, 0,
    ]).unwrap();
    let step = core.wait_step(handle.txn, event);
    assert!(matches!(step, WaitStep::Pending(Some(SessionEvent::ActionCompleted { status: AxdrStatus::Success, .. }))));
}

#[test]
fn usb_bytes_become_frames_in_order() {
    let mut queue = UsbFrameQueue::new();
    assert!(queue.pop().is_none());
    let first = CanFdFrame::new(0x123, &[1, 2, 3]).unwrap();
    let second = CanFdFrame::new(0x124, &[4]).unwrap();
    let mut bytes = b"noise".to_vec();
    bytes.extend_from_slice(&encode_usb_envelope(&first));
    bytes.extend_from_slice(&encode_usb_envelope(&second));
    assert!(queue.accept(&bytes[..7]).is_ok());
    assert!(queue.pop().is_none());
    assert!(queue.accept(&bytes[7..]).is_ok());
    assert_eq!(queue.pop(), Some(first));
    assert_eq!(queue.pop(), Some(second));
    assert!(queue.pop().is_none());
}

fn page(start: u8, next: Option<u8>, entries: Vec<PlotCapabilityEntry>) -> PlotCapabilitiesPage {
    PlotCapabilitiesPage {
        start,
        next,
        fast_max_channels: 8,
        normal_max_channels: 15,
        fast_block_samples: 20,
        fast_rate_hz: 20_000,
        normal_rate_hz: 1_000,
        entries,
    }
}

#[test]
fn capability_pages_are_collected_in_order() {
    let scale = 0.001f32.to_bits();
    let mut discovery = CapabilityDiscovery::new();
    let first = page(0, Some(2), vec![
        PlotCapabilityEntry { id: 0x0001, modes: PLOT_CAP_FAST | PLOT_CAP_NORMAL, fast_scale: scale },
        PlotCapabilityEntry { id: 0x0004, modes: PLOT_CAP_NORMAL, fast_scale: 0 },
    ]);
    assert_eq!(discovery.add_page(0, first).unwrap(), Some(2));
    let last = page(2, None, vec![PlotCapabilityEntry { id: 0x0011, modes: PLOT_CAP_FAST | PLOT_CAP_NORMAL, fast_scale: scale }]);
    assert_eq!(discovery.add_page(2, last).unwrap(), None);
    let capabilities = discovery.finish().unwrap();
    assert_eq!(capabilities.fast_max_channels, 8);
    assert_eq!(capabilities.normal_max_channels, 15);
    assert_eq!(capabilities.fast_block_samples, 20);
    assert_eq!(capabilities.fast_rate_hz, 20_000);
    assert_eq!(capabilities.normal_rate_hz, 1_000);
    assert_eq!(capabilities.channels.len(), 3);
    assert!(capabilities.channel(0x0001).unwrap().supports_fast());
    assert!(!capabilities.channel(0x0004).unwrap().supports_fast());
    assert!(capabilities.channel(0x0004).unwrap().supports_normal());
}

#[test]
fn capability_pages_must_agree_and_not_repeat() {
    let mut discovery = CapabilityDiscovery::new();
    discovery.add_page(0, page(0, Some(1), vec![PlotCapabilityEntry { id: 1, modes: 2, fast_scale: 0 }])).unwrap();
    assert!(matches!(
        discovery.add_page(1, page(1, None, vec![PlotCapabilityEntry { id: 1, modes: 2, fast_scale: 0 }])),
        Err(PlotCapabilitiesError::DuplicateParameter(1))
    ));
    let mut other = page(1, None, Vec::new());
    other.fast_rate_hz = 10_000;
    assert!(matches!(discovery.add_page(1, other), Err(PlotCapabilitiesError::InconsistentPages)));
}

#[test]
fn only_usb_serial_devices_are_listed() {
    assert!(is_usb_serial_path("/dev/ttyACM0"));
    assert!(is_usb_serial_path("/dev/ttyUSB12"));
    assert!(!is_usb_serial_path("/dev/ttyS0"));
    assert!(!is_usb_serial_path("/dev/ttyAC"));
    assert!(!is_usb_serial_path("ttyACM0"));
    assert!(!is_usb_serial_path(""));
}

#[test]
fn macos_usb_serial_devices_are_listed() {
    assert!(is_macos_usb_serial_path("/dev/cu.usbmodem1101"));
    assert!(is_macos_usb_serial_path("/dev/tty.usbserial-A1"));
    assert!(!is_macos_usb_serial_path("/dev/cu.Bluetooth-Incoming-Port"));
    assert!(!is_macos_usb_serial_path("/dev/ttyACM0"));
}
