use nmixx::stream::{StreamConfig, StreamError, StreamSession, StreamState, TimeSpan};

fn config() -> StreamConfig {
    StreamConfig { sample_rate_hz: 4, channel_count: 2, history: TimeSpan::from_secs(1) }
}

#[test]
fn live_mode_overwrites_oldest_samples() {
    let mut stream = StreamSession::new(config()).unwrap();
    stream.live();
    for n in 0..6 {
        stream.push_sample(&[n as f32, -(n as f32)]).unwrap();
    }

    let snapshot = stream.snapshot();
    assert_eq!(snapshot.sample_count(), 4);
    assert_eq!(snapshot.sample(0).unwrap(), &[2.0, -2.0]);
    assert_eq!(snapshot.sample(3).unwrap(), &[5.0, -5.0]);
}

#[test]
fn tail_snapshot_keeps_only_newest_samples_in_order() {
    let mut stream = StreamSession::new(config()).unwrap();
    stream.live();
    for n in 0..6 {
        stream.push_sample(&[n as f32, -(n as f32)]).unwrap();
    }
    let snapshot = stream.snapshot_tail(2);
    assert_eq!(snapshot.sample_count(), 2);
    assert_eq!(snapshot.sample(0).unwrap(), &[4.0, -4.0]);
    assert_eq!(snapshot.sample(1).unwrap(), &[5.0, -5.0]);
}

#[test]
fn window_snapshot_reads_offset_range_without_full_copy_semantics() {
    let mut stream = StreamSession::new(config()).unwrap();
    stream.live();
    for n in 0..6 {
        stream.push_sample(&[n as f32, -(n as f32)]).unwrap();
    }

    let snapshot = stream.snapshot_window(2, 1);
    assert_eq!(snapshot.sample_count(), 2);
    assert_eq!(snapshot.sample(0).unwrap(), &[3.0, -3.0]);
    assert_eq!(snapshot.sample(1).unwrap(), &[4.0, -4.0]);
}

#[test]
fn pause_freezes_current_buffer() {
    let mut stream = StreamSession::new(config()).unwrap();
    stream.live();
    stream.push_sample(&[1.0, 2.0]).unwrap();
    stream.pause();
    assert!(!stream.push_sample(&[3.0, 4.0]).unwrap());
    assert_eq!(stream.snapshot().sample(0).unwrap(), &[1.0, 2.0]);
}

#[test]
fn clear_while_live_restarts_history_from_now() {
    let mut stream = StreamSession::new(config()).unwrap();
    stream.live();
    stream.push_sample(&[1.0, 2.0]).unwrap();
    stream.clear();
    stream.push_sample(&[3.0, 4.0]).unwrap();
    let snapshot = stream.snapshot();
    assert_eq!(snapshot.sample_count(), 1);
    assert_eq!(snapshot.sample(0).unwrap(), &[3.0, 4.0]);
    assert_eq!(stream.state(), StreamState::Live);
}

#[test]
fn finite_capture_clears_then_pauses_at_target() {
    let mut stream = StreamSession::new(config()).unwrap();
    stream.live();
    stream.push_sample(&[9.0, 9.0]).unwrap();

    stream.capture(TimeSpan::from_millis(500)).unwrap();
    assert_eq!(stream.state(), StreamState::Capturing);
    stream.push_sample(&[1.0, 2.0]).unwrap();
    stream.push_sample(&[3.0, 4.0]).unwrap();

    let snapshot = stream.snapshot();
    assert_eq!(stream.state(), StreamState::Paused);
    assert_eq!(snapshot.sample_count(), 2);
    assert_eq!(snapshot.sample(0).unwrap(), &[1.0, 2.0]);
    assert_eq!(snapshot.sample(1).unwrap(), &[3.0, 4.0]);
}

#[test]
fn capture_cannot_exceed_ring_capacity() {
    let mut stream = StreamSession::<f32>::new(config()).unwrap();
    assert_eq!(
        stream.capture(TimeSpan::from_secs(2)),
        Err(StreamError::CaptureTooLong { requested: 8, capacity: 4 })
    );
}

#[test]
fn snapshot_reports_duration_and_ram_estimate() {
    let mut stream = StreamSession::new(config()).unwrap();
    assert_eq!(stream.config().estimated_ram_bytes().unwrap(), 32);
    stream.live();
    stream.push_sample(&[1.0, 2.0]).unwrap();
    stream.push_sample(&[3.0, 4.0]).unwrap();
    assert_eq!(stream.snapshot().duration(), TimeSpan::from_millis(500));
}

#[test]
fn invalid_configs_and_samples_are_refused() {
    let zero_rate = StreamConfig { sample_rate_hz: 0, ..config() };
    assert_eq!(
        zero_rate.capacity_samples(),
        Err(StreamError::InvalidConfig("sample_rate_hz must be greater than zero"))
    );
    let zero_channels = StreamConfig { channel_count: 0, ..config() };
    assert!(StreamSession::<f32>::new(zero_channels).is_err());
    let empty_history = StreamConfig { history: TimeSpan::from_secs(0), ..config() };
    assert_eq!(
        empty_history.capacity_samples(),
        Err(StreamError::InvalidConfig("history must be greater than zero"))
    );
    let mut stream = StreamSession::new(config()).unwrap();
    stream.live();
    assert_eq!(stream.push_sample(&[1.0]), Err(StreamError::ChannelCount { expected: 2, actual: 1 }));
    assert!(stream.is_empty());
    assert_eq!(stream.capture(TimeSpan { nanos: 0 }), Err(StreamError::InvalidCaptureDuration));
}

#[test]
fn capacity_rounds_a_partial_sample_up() {
    let config = StreamConfig { sample_rate_hz: 3, channel_count: 1, history: TimeSpan::from_millis(500) };
    assert_eq!(config.capacity_samples(), Ok(2));
    let stream = StreamSession::<f32>::new(config).unwrap();
    assert_eq!(stream.capacity_samples(), 2);
    assert_eq!(stream.len(), 0);
    assert_eq!(stream.state(), StreamState::Stopped);
}

#[test]
fn stopped_stream_ignores_samples_and_capture_stops_at_its_target() {
    let mut stream = StreamSession::new(config()).unwrap();
    assert!(!stream.push_sample(&[1.0, 1.0]).unwrap());
    stream.capture(TimeSpan::from_millis(250)).unwrap();
    assert!(stream.push_sample(&[1.0, 1.0]).unwrap());
    assert_eq!(stream.state(), StreamState::Paused);
    assert!(!stream.push_sample(&[2.0, 2.0]).unwrap());
    assert_eq!(stream.len(), 1);
    stream.resume();
    assert!(stream.push_sample(&[2.0, 2.0]).unwrap());
    assert_eq!(stream.len(), 2);
    assert_eq!(stream.snapshot().sample(2), None);
}
