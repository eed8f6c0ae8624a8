use vstd::prelude::*;

use crate::bytes::{le_u16, le_u32, read_le_u16, read_le_u32};
use crate::wire::canfd::CanFdFrame;

verus! {

#[derive(Debug, Clone, Copy, PartialEq, Eq, Structural)]
pub enum StreamDecodeError {
    TooShort,
    InvalidFastChannelCount(usize),
    Truncated { required: usize, actual: usize },
    NonZeroPadding,
}

/// One FAST telemetry frame: a block of quantized samples.
#[derive(Debug, Clone, PartialEq, Eq)]
pub struct FastDataFrame {
    pub sequence: u16,
    pub config_id: u8,
    pub sample_count: u8,
    pub channel_count: u8,
    /// Sample-major, channel-minor signed quantized values.
    pub samples: Vec<i16>,
}

/// One NORMAL telemetry frame. Each value is the IEEE-754 bit pattern of a
/// single-precision engineering value.
#[derive(Debug, Clone, PartialEq, Eq)]
pub struct NormalDataFrame {
    pub sequence: u16,
    pub config_id: u8,
    pub values: Vec<u32>,
}

/// The payload is at least `required` bytes long and zero after them.
pub open spec fn length_and_padding(data: Seq<u8>, required: int) -> Result<(), StreamDecodeError> {
    if required > data.len() {
        Err(StreamDecodeError::Truncated { required: required as usize, actual: data.len() as usize })
    } else if exists|i: int| required <= i < data.len() && data[i] != 0 {
        Err(StreamDecodeError::NonZeroPadding)
    } else {
        Ok(())
    }
}

/// The `n` little-endian `i16` values that follow the four-byte header.
pub open spec fn fast_samples(data: Seq<u8>, n: int) -> Seq<i16> {
    Seq::new(n as nat, |i: int| le_u16(data[4 + 2 * i], data[5 + 2 * i]) as i16)
}

/// The `n` little-endian `u32` values that follow the four-byte header.
pub open spec fn normal_values(data: Seq<u8>, n: int) -> Seq<u32> {
    Seq::new(n as nat, |i: int| le_u32(data[4 + 4 * i], data[5 + 4 * i], data[6 + 4 * i], data[7 + 4 * i]))
}

/// Why a FAST frame is refused for `channel_count` channels, if it is.
pub open spec fn fast_error(data: Seq<u8>, channel_count: int) -> Option<StreamDecodeError> {
    if !(1 <= channel_count <= 8) {
        Some(StreamDecodeError::InvalidFastChannelCount(channel_count as usize))
    } else if data.len() < 4 {
        Some(StreamDecodeError::TooShort)
    } else {
        match length_and_padding(data, 4 + data[3] * channel_count * 2) {
            Err(e) => Some(e),
            Ok(_) => None,
        }
    }
}

/// Why a NORMAL frame is refused, if it is.
pub open spec fn normal_error(data: Seq<u8>) -> Option<StreamDecodeError> {
    if data.len() < 4 {
        Some(StreamDecodeError::TooShort)
    } else {
        match length_and_padding(data, 4 + data[3] * 4) {
            Err(e) => Some(e),
            Ok(_) => None,
        }
    }
}

impl FastDataFrame {
    /// Value of `channel` in sample `sample`, if both are in range.
    pub fn sample(&self, sample: usize, channel: usize) -> (res: Option<i16>)
        ensures
            ({
                let index = sample * self.channel_count + channel;
                if sample < self.sample_count && channel < self.channel_count && index < self.samples@.len() {
                    res == Some(self.samples@[index])
                } else {
                    res == None::<i16>
                }
            }),
    {
        if sample >= self.sample_count as usize || channel >= self.channel_count as usize {
            return None;
        }
        let cc = self.channel_count as usize;
        assert(sample * cc <= 255 * 255) by (nonlinear_arith)
            requires
                sample < 256,
                cc < 256,
        ;
        let index = sample * cc + channel;
        if index < self.samples.len() {
            Some(self.samples[index])
        } else {
            None
        }
    }
}

fn validate_length_and_padding(data: &[u8], required: usize) -> (res: Result<(), StreamDecodeError>)
    ensures
        res == length_and_padding(data@, required as int),
{
    if required > data.len() {
        return Err(StreamDecodeError::Truncated { required, actual: data.len() });
    }
    let mut i = required;
    while i < data.len()
        invariant
            required <= i <= data@.len(),
            forall|j: int| required <= j < i ==> data@[j] == 0,
        decreases data@.len() - i,
    {
        if data[i] != 0 {
            return Err(StreamDecodeError::NonZeroPadding);
        }
        i = i + 1;
    }
    Ok(())
}

/// Decodes a FAST frame laid out for `channel_count` channels.
pub fn decode_fast_data(frame: &CanFdFrame, channel_count: usize) -> (res: Result<FastDataFrame, StreamDecodeError>)
    ensures
        match fast_error(frame@.data, channel_count as int) {
            Some(e) => res == Err::<FastDataFrame, StreamDecodeError>(e),
            None => res matches Ok(decoded) && {
                let data = frame@.data;
                &&& decoded.sequence == le_u16(data[0], data[1])
                &&& decoded.config_id == data[2]
                &&& decoded.sample_count == data[3]
                &&& decoded.channel_count == channel_count
                &&& decoded.samples@ == fast_samples(data, data[3] * channel_count)
            },
        },
{
    if channel_count < 1 || channel_count > 8 {
        return Err(StreamDecodeError::InvalidFastChannelCount(channel_count));
    }
    let data = frame.data();
    if data.len() < 4 {
        return Err(StreamDecodeError::TooShort);
    }
    let sequence = read_le_u16(data[0], data[1]);
    let config_id = data[2];
    let sample_count = data[3] as usize;
    assert(sample_count * channel_count <= 2040) by (nonlinear_arith)
        requires
            sample_count <= 255,
            channel_count <= 8,
    ;
    let count = sample_count * channel_count;
    let required = 4 + count * 2;
    validate_length_and_padding(data, required)?;
    let mut samples: Vec<i16> = Vec::new();
    let mut i: usize = 0;
    while i < count
        invariant
            i <= count,
            count <= 2040,
            4 + count * 2 <= data@.len(),
            samples@ == fast_samples(data@, i as int),
        decreases count - i,
    {
        let raw = read_le_u16(data[4 + 2 * i], data[5 + 2 * i]);
        samples.push(#[verifier::truncate] (raw as i16));
        i = i + 1;
        assert(samples@ =~= fast_samples(data@, i as int));
    }
    Ok(FastDataFrame { sequence, config_id, sample_count: sample_count as u8, channel_count: channel_count as u8, samples })
}

/// Decodes a NORMAL frame.
pub fn decode_normal_data(frame: &CanFdFrame) -> (res: Result<NormalDataFrame, StreamDecodeError>)
    ensures
        match normal_error(frame@.data) {
            Some(e) => res == Err::<NormalDataFrame, StreamDecodeError>(e),
            None => res matches Ok(decoded) && {
                let data = frame@.data;
                &&& decoded.sequence == le_u16(data[0], data[1])
                &&& decoded.config_id == data[2]
                &&& decoded.values@ == normal_values(data, data[3] as int)
            },
        },
{
    let data = frame.data();
    if data.len() < 4 {
        return Err(StreamDecodeError::TooShort);
    }
    let sequence = read_le_u16(data[0], data[1]);
    let config_id = data[2];
    let count = data[3] as usize;
    let required = 4 + count * 4;
    validate_length_and_padding(data, required)?;
    let mut values: Vec<u32> = Vec::new();
    let mut i: usize = 0;
    while i < count
        invariant
            i <= count,
            count <= 255,
            4 + count * 4 <= data@.len(),
            values@ == normal_values(data@, i as int),
        decreases count - i,
    {
        let raw = read_le_u32(data[4 + 4 * i], data[5 + 4 * i], data[6 + 4 * i], data[7 + 4 * i]);
        values.push(raw);
        i = i + 1;
        assert(values@ =~= normal_values(data@, i as int));
    }
    Ok(NormalDataFrame { sequence, config_id, values })
}

/// How a sequence number relates to the one that was expected.
#[derive(Debug, Clone, Copy, PartialEq, Eq, Structural)]
pub enum SequenceStatus {
    First,
    Continuous,
    Gap { expected: u16, actual: u16, lost: u16 },
    ResetOrReorder { expected: u16, actual: u16 },
}

/// Detects lost frames from 16-bit wrapping sequence numbers.
#[derive(Debug, Clone)]
pub struct SequenceTracker {
    expected: Option<u16>,
    lost_total: u64,
}

/// The state of a tracker: the number expected next and the frames lost so far.
pub struct TrackerView {
    pub expected: Option<u16>,
    pub lost_total: u64,
}

impl View for SequenceTracker {
    type V = TrackerView;

    closed spec fn view(&self) -> TrackerView {
        TrackerView { expected: self.expected, lost_total: self.lost_total }
    }
}

/// How far `actual` is ahead of `expected`, modulo 2^16.
pub open spec fn seq_delta(expected: u16, actual: u16) -> u16 {
    ((actual as int - expected as int + 65536) % 65536) as u16
}

/// The status observing `sequence` reports from tracker state `t`.
pub open spec fn spec_observe_status(t: TrackerView, sequence: u16) -> SequenceStatus {
    match t.expected {
        None => SequenceStatus::First,
        Some(expected) => if sequence == expected {
            SequenceStatus::Continuous
        } else if seq_delta(expected, sequence) < 0x8000 {
            SequenceStatus::Gap { expected, actual: sequence, lost: seq_delta(expected, sequence) }
        } else {
            SequenceStatus::ResetOrReorder { expected, actual: sequence }
        },
    }
}

/// Frames counted as lost by that status.
pub open spec fn lost_by(status: SequenceStatus) -> int {
    match status {
        SequenceStatus::Gap { lost, .. } => lost as int,
        _ => 0,
    }
}

impl Default for SequenceTracker {
    fn default() -> (res: Self)
        ensures
            res@.expected == None::<u16>,
            res@.lost_total == 0,
    {
        SequenceTracker { expected: None, lost_total: 0 }
    }
}

impl SequenceTracker {
    /// Classifies the next received sequence number and counts the frames skipped.
    pub fn observe(&mut self, sequence: u16) -> (res: SequenceStatus)
        requires
            old(self)@.lost_total + lost_by(spec_observe_status(old(self)@, sequence)) <= u64::MAX,
        ensures
            res == spec_observe_status(old(self)@, sequence),
            final(self)@.expected == Some(((sequence as int + 1) % 65536) as u16),
            final(self)@.lost_total == old(self)@.lost_total + lost_by(res),
    {
        let next = sequence.wrapping_add(1);
        let expected = match self.expected {
            None => {
                self.expected = Some(next);
                return SequenceStatus::First;
            },
            Some(expected) => expected,
        };
        let status = if sequence == expected {
            SequenceStatus::Continuous
        } else {
            let delta = sequence.wrapping_sub(expected);
            if delta < 0x8000 {
                self.lost_total = self.lost_total + delta as u64;
                SequenceStatus::Gap { expected, actual: sequence, lost: delta }
            } else {
                SequenceStatus::ResetOrReorder { expected, actual: sequence }
            }
        };
        self.expected = Some(next);
        status
    }

    pub fn lost_total(&self) -> (res: u64)
        ensures
            res == self@.lost_total,
    {
        self.lost_total
    }

    /// Forgets the expected number and the loss count.
    pub fn reset(&mut self)
        ensures
            final(self)@.expected == None::<u16>,
            final(self)@.lost_total == 0,
    {
        self.expected = None;
        self.lost_total = 0;
    }
}

/// After any observation the next consecutive number is reported as
/// continuous, and a continuous stream never adds to the loss count.
pub proof fn lemma_consecutive_is_continuous(t: TrackerView, sequence: u16)
    requires
        t.expected == Some(sequence),
    ensures
        spec_observe_status(t, sequence) == SequenceStatus::Continuous,
        lost_by(spec_observe_status(t, sequence)) == 0,
{
}

} // verus!
