use nmixx::protocol::{FastDataFrame, SequenceStatus};
use nmixx::stream::{StreamConfig, StreamSession, TimeSpan};
use nmixx::stream_pipeline::{StreamPipeline, StreamPipelineError, StreamWireMode};
use nmixx::wire::CanFdFrame;

fn stream(channels: usize) -> StreamSession<f32> {
    StreamSession::new(StreamConfig { sample_rate_hz: 1000, channel_count: channels, history: TimeSpan::from_secs(1) })
        .unwrap()
}

fn dequantize(decoded: &FastDataFrame, scales: &[u32]) -> Vec<f32> {
    let width = scales.len();
    decoded.samples.iter().enumerate().map(|(k, raw)| *raw as f32 * f32::from_bits(scales[k % width])).collect()
}

#[test]
fn fast_frames_are_dequantized_and_written_to_ring() {
    let scales = vec![0.1f32.to_bits(), 0.5f32.to_bits()];
    let mut runtime = StreamPipeline::new(7, StreamWireMode::Fast { scales: scales.clone() }, 2).unwrap();
    let mut ring = stream(2);
    ring.live();

    let frame = CanFdFrame::new(0x0601, &[1, 0, 7, 2, 10, 0, 236, 255, 20, 0, 216, 255]).unwrap();
    let (decoded, sequence) = runtime.begin_fast(&frame).unwrap();
    let values = dequantize(&decoded, &scales);
    let report = runtime.store(&mut ring, sequence, decoded.sample_count as usize, &values);
    assert_eq!(report.sequence, SequenceStatus::First);
    assert_eq!(report.samples_received, 2);
    assert_eq!(report.samples_stored, 2);
    let snapshot = ring.snapshot();
    assert_eq!(snapshot.sample(0), Some(&[1.0, -10.0][..]));
    assert_eq!(snapshot.sample(1), Some(&[2.0, -20.0][..]));
}

#[test]
fn normal_gap_is_reported_but_data_is_still_stored() {
    let mut runtime = StreamPipeline::new(9, StreamWireMode::Normal, 2).unwrap();
    let mut ring = stream(2);
    ring.live();

    for sequence in [1u16, 3] {
        let mut payload = vec![sequence as u8, (sequence >> 8) as u8, 9, 2];
        payload.extend_from_slice(&1.0f32.to_le_bytes());
        payload.extend_from_slice(&2.0f32.to_le_bytes());
        let frame = CanFdFrame::new(0x0401, &payload).unwrap();
        let (decoded, status) = runtime.begin_normal(&frame).unwrap();
        let values: Vec<f32> = decoded.values.iter().map(|bits| f32::from_bits(*bits)).collect();
        let report = runtime.store(&mut ring, status, 1, &values);
        if sequence == 3 {
            assert_eq!(report.sequence, SequenceStatus::Gap { expected: 2, actual: 3, lost: 1 });
            assert_eq!(report.lost_frames_total, 1);
        }
    }
    assert_eq!(ring.snapshot().sample_count(), 2);
}

#[test]
fn paused_stream_decodes_but_does_not_store_samples() {
    let mut runtime = StreamPipeline::new(9, StreamWireMode::Normal, 1).unwrap();
    let mut ring = stream(1);
    ring.pause();
    let mut payload = vec![1, 0, 9, 1];
    payload.extend_from_slice(&1.5f32.to_le_bytes());
    let frame = CanFdFrame::new(0x0401, &payload).unwrap();
    let (decoded, status) = runtime.begin_normal(&frame).unwrap();
    let values: Vec<f32> = decoded.values.iter().map(|bits| f32::from_bits(*bits)).collect();
    let report = runtime.store(&mut ring, status, 1, &values);
    assert_eq!(report.samples_received, 1);
    assert_eq!(report.samples_stored, 0);
    assert!(ring.is_empty());
}

#[test]
fn frames_of_another_stream_are_refused() {
    let mut fast = StreamPipeline::new(7, StreamWireMode::Fast { scales: vec![1.0f32.to_bits()] }, 1).unwrap();
    let frame = CanFdFrame::new(0x0601, &[1, 0, 8, 1, 10, 0]).unwrap();
    assert!(matches!(fast.begin_fast(&frame), Err(StreamPipelineError::ConfigId { expected: 7, actual: 8 })));
    assert!(matches!(fast.begin_normal(&frame), Err(StreamPipelineError::WrongMode)));
    assert!(matches!(
        StreamPipeline::new(1, StreamWireMode::Fast { scales: vec![] }, 2),
        Err(StreamPipelineError::ScaleCount { expected: 2, actual: 0 })
    ));
    let mut normal = StreamPipeline::new(9, StreamWireMode::Normal, 2).unwrap();
    let mut payload = vec![1, 0, 9, 1];
    payload.extend_from_slice(&1.5f32.to_le_bytes());
    let one = CanFdFrame::new(0x0401, &payload).unwrap();
    assert!(matches!(normal.begin_normal(&one), Err(StreamPipelineError::ChannelCount { expected: 2, actual: 1 })));
    assert_eq!(normal.lost_frames_total(), 0);
}
