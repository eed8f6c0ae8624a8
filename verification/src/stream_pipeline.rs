//! What feeding telemetry frames into a stream ring can go wrong with, and
//! what one frame did to it.

use vstd::prelude::*;

use crate::protocol::stream::{
    decode_fast_data, decode_normal_data, fast_error, fast_samples, lost_by, normal_error, normal_values,
    spec_observe_status, FastDataFrame, NormalDataFrame, SequenceStatus, SequenceTracker, StreamDecodeError,
    TrackerView,
};
use crate::stream::{kept, pushed, pushed_all, StreamError, StreamSession, StreamView};
use crate::bytes::le_u16;
use crate::wire::canfd::CanFdFrame;

verus! {

/// Why a telemetry frame could not be stored.
#[derive(Debug, Clone, PartialEq, Eq)]
pub enum StreamPipelineError {
    Decode(StreamDecodeError),
    Buffer(StreamError),
    ConfigId { expected: u8, actual: u8 },
    ChannelCount { expected: usize, actual: usize },
    ScaleCount { expected: usize, actual: usize },
    WrongMode,
}

/// What one telemetry frame did: its place in the sequence, the samples it
/// carried and kept, and the frames lost so far.
#[derive(Debug, Clone, Copy, PartialEq, Eq)]
pub struct StreamIngestReport {
    pub sequence: SequenceStatus,
    pub samples_received: usize,
    pub samples_stored: usize,
    pub lost_frames_total: u64,
}

/// How the frames of a stream are encoded: FAST frames of quantized samples
/// with one scale per channel (IEEE-754 single-precision bit patterns), or
/// NORMAL frames of one sample each.
#[derive(Debug, Clone, PartialEq, Eq)]
pub enum StreamWireMode {
    Fast { scales: Vec<u32> },
    Normal,
}

/// Takes the telemetry frames of one configured stream apart before their
/// samples go into its ring: the stream's Config_ID and wire mode, the
/// width of its samples, and the loss accounting of its sequence numbers.
#[derive(Debug)]
pub struct StreamPipeline {
    config_id: u8,
    mode: StreamWireMode,
    channel_count: usize,
    sequence: SequenceTracker,
}

/// The state of a pipeline.
pub struct PipelineView {
    pub config_id: u8,
    pub mode: StreamWireMode,
    pub channel_count: usize,
    pub tracker: TrackerView,
}

impl View for StreamPipeline {
    type V = PipelineView;

    closed spec fn view(&self) -> PipelineView {
        PipelineView {
            config_id: self.config_id,
            mode: self.mode,
            channel_count: self.channel_count,
            tracker: self.sequence@,
        }
    }
}

/// The samples of a flat sample-major list, `width` values each; a trailing
/// part shorter than `width` is not a sample.
pub open spec fn chunked<T>(values: Seq<T>, width: nat) -> Seq<Seq<T>> {
    Seq::new(values.len() / width, |i: int| values.subrange(i * width, i * width + width))
}

/// How many of the samples `xs`, offered in turn from ring state `v`, are kept.
pub open spec fn kept_count<T>(v: StreamView<T>, xs: Seq<Seq<T>>) -> nat
    decreases xs.len(),
{
    if xs.len() == 0 {
        0
    } else {
        kept_count(v, xs.drop_last()) + if kept(pushed_all(v, xs.drop_last())) {
            1nat
        } else {
            0nat
        }
    }
}

/// The frames a tracker can still count without overflowing its total.
pub open spec fn room_for_losses(t: TrackerView) -> bool {
    t.lost_total <= u64::MAX - 0x1_0000
}

impl StreamPipeline {
    /// A pipeline for a stream of `channel_count`-wide samples; FAST streams
    /// need one scale per channel.
    pub fn new(config_id: u8, mode: StreamWireMode, channel_count: usize) -> (res: Result<Self, StreamPipelineError>)
        ensures
            match mode {
                StreamWireMode::Fast { scales } if scales@.len() != channel_count => res matches Err(
                    StreamPipelineError::ScaleCount { expected, actual },
                ) && expected == channel_count && actual == scales@.len(),
                _ => res matches Ok(p) && p@.config_id == config_id && p@.mode == mode && p@.channel_count
                    == channel_count && p@.tracker.expected is None && p@.tracker.lost_total == 0,
            },
    {
        if let StreamWireMode::Fast { scales } = &mode {
            if scales.len() != channel_count {
                return Err(StreamPipelineError::ScaleCount { expected: channel_count, actual: scales.len() });
            }
        }
        Ok(StreamPipeline { config_id, mode, channel_count, sequence: SequenceTracker::default() })
    }

    /// The FAST scales, one per channel; none for a NORMAL stream.
    pub fn scales(&self) -> (res: Option<&Vec<u32>>)
        ensures
            match self@.mode {
                StreamWireMode::Fast { scales } => res matches Some(s) && *s == scales,
                StreamWireMode::Normal => res is None,
            },
    {
        match &self.mode {
            StreamWireMode::Fast { scales } => Some(scales),
            StreamWireMode::Normal => None,
        }
    }

    /// Frames lost so far.
    pub fn lost_frames_total(&self) -> (res: u64)
        ensures
            res == self@.tracker.lost_total,
    {
        self.sequence.lost_total()
    }

    /// Starts loss detection over, as after a restart of the device's stream.
    pub fn reset_sequence(&mut self)
        ensures
            final(self)@.config_id == old(self)@.config_id,
            final(self)@.mode == old(self)@.mode,
            final(self)@.channel_count == old(self)@.channel_count,
            final(self)@.tracker.expected is None,
            final(self)@.tracker.lost_total == 0,
    {
        self.sequence.reset();
    }

    /// Takes a FAST frame of this stream apart: it must be a FAST stream,
    /// the frame must decode at this width, and it must carry this stream's
    /// Config_ID; then its sequence number is accounted for.
    pub fn begin_fast(&mut self, frame: &CanFdFrame) -> (res: Result<(FastDataFrame, SequenceStatus), StreamPipelineError>)
        requires
            room_for_losses(old(self)@.tracker),
        ensures
            final(self)@.config_id == old(self)@.config_id,
            final(self)@.mode == old(self)@.mode,
            final(self)@.channel_count == old(self)@.channel_count,
            old(self)@.mode is Normal ==> (res matches Err(StreamPipelineError::WrongMode) && final(self)@.tracker
                == old(self)@.tracker),
            old(self)@.mode is Fast ==> match fast_error(frame@.data, old(self)@.channel_count as int) {
                Some(e) => res matches Err(StreamPipelineError::Decode(d)) && d == e && final(self)@.tracker
                    == old(self)@.tracker,
                None => {
                    let data = frame@.data;
                    if data[2] != old(self)@.config_id {
                        res matches Err(StreamPipelineError::ConfigId { expected, actual }) && expected
                            == old(self)@.config_id && actual == data[2] && final(self)@.tracker == old(self)@.tracker
                    } else {
                        res matches Ok((decoded, status)) && decoded.sequence == le_u16(data[0], data[1])
                            && decoded.config_id == data[2] && decoded.sample_count == data[3] && decoded.samples@ == fast_samples(data, data[3] * old(self)@.channel_count)
                            && status == spec_observe_status(old(self)@.tracker, decoded.sequence)
                            && final(self)@.tracker.lost_total == old(self)@.tracker.lost_total + lost_by(status)
                            && final(self)@.tracker.expected == Some(((decoded.sequence as int + 1) % 65536) as u16)
                    }
                },
            },
    {
        if let StreamWireMode::Normal = &self.mode {
            return Err(StreamPipelineError::WrongMode);
        }
        let decoded = match decode_fast_data(frame, self.channel_count) {
            Ok(d) => d,
            Err(e) => return Err(StreamPipelineError::Decode(e)),
        };
        if decoded.config_id != self.config_id {
            return Err(StreamPipelineError::ConfigId { expected: self.config_id, actual: decoded.config_id });
        }
        proof {
            assert(lost_by(spec_observe_status(self.sequence@, decoded.sequence)) <= 0xffff);
        }
        let status = self.sequence.observe(decoded.sequence);
        Ok((decoded, status))
    }

    /// Takes a NORMAL frame of this stream apart: it must be a NORMAL stream,
    /// the frame must decode, carry this stream's Config_ID and one value per
    /// channel; then its sequence number is accounted for.
    pub fn begin_normal(&mut self, frame: &CanFdFrame) -> (res: Result<
        (NormalDataFrame, SequenceStatus),
        StreamPipelineError,
    >)
        requires
            room_for_losses(old(self)@.tracker),
        ensures
            final(self)@.config_id == old(self)@.config_id,
            final(self)@.mode == old(self)@.mode,
            final(self)@.channel_count == old(self)@.channel_count,
            !(old(self)@.mode is Normal) ==> (res matches Err(StreamPipelineError::WrongMode) && final(self)@.tracker
                == old(self)@.tracker),
            old(self)@.mode is Normal ==> match normal_error(frame@.data) {
                Some(e) => res matches Err(StreamPipelineError::Decode(d)) && d == e && final(self)@.tracker
                    == old(self)@.tracker,
                None => {
                    let data = frame@.data;
                    let values = normal_values(data, data[3] as int);
                    if data[2] != old(self)@.config_id {
                        res matches Err(StreamPipelineError::ConfigId { expected, actual }) && expected
                            == old(self)@.config_id && actual == data[2] && final(self)@.tracker == old(self)@.tracker
                    } else if values.len() != old(self)@.channel_count {
                        res matches Err(StreamPipelineError::ChannelCount { expected, actual }) && expected
                            == old(self)@.channel_count && actual == values.len() && final(self)@.tracker
                            == old(self)@.tracker
                    } else {
                        res matches Ok((decoded, status)) && decoded.sequence == le_u16(data[0], data[1])
                            && decoded.config_id == data[2] && decoded.values@ == values
                            && status == spec_observe_status(old(self)@.tracker, decoded.sequence)
                            && final(self)@.tracker.lost_total == old(self)@.tracker.lost_total + lost_by(status)
                            && final(self)@.tracker.expected == Some(((decoded.sequence as int + 1) % 65536) as u16)
                    }
                },
            },
    {
        if let StreamWireMode::Fast { .. } = &self.mode {
            return Err(StreamPipelineError::WrongMode);
        }
        let decoded = match decode_normal_data(frame) {
            Ok(d) => d,
            Err(e) => return Err(StreamPipelineError::Decode(e)),
        };
        if decoded.config_id != self.config_id {
            return Err(StreamPipelineError::ConfigId { expected: self.config_id, actual: decoded.config_id });
        }
        if decoded.values.len() != self.channel_count {
            return Err(
                StreamPipelineError::ChannelCount { expected: self.channel_count, actual: decoded.values.len() },
            );
        }
        proof {
            assert(lost_by(spec_observe_status(self.sequence@, decoded.sequence)) <= 0xffff);
        }
        let status = self.sequence.observe(decoded.sequence);
        Ok((decoded, status))
    }

    /// Offers the engineering values of one frame to the ring, one
    /// `channel_count`-wide sample after the other, and reports the frame.
    pub fn store<T: Copy>(
        &self,
        stream: &mut StreamSession<T>,
        sequence: SequenceStatus,
        samples_received: usize,
        values: &[T],
    ) -> (res: StreamIngestReport)
        requires
            old(stream).wf(),
            old(stream)@.config.channel_count == self@.channel_count,
        ensures
            final(stream).wf(),
            final(stream)@ == pushed_all(old(stream)@, chunked(values@, self@.channel_count as nat)),
            res.sequence == sequence,
            res.samples_received == samples_received,
            res.samples_stored == kept_count(old(stream)@, chunked(values@, self@.channel_count as nat)),
            res.lost_frames_total == self@.tracker.lost_total,
    {
        let width = self.channel_count;
        proof {
            stream.lemma_width_positive();
        }
        let total = values.len();
        let count = total / width;
        let ghost all = chunked(values@, width as nat);
        let mut stored: usize = 0;
        let mut i: usize = 0;
        while i < count
            invariant
                width == self@.channel_count,
                width > 0,
                total == values@.len(),
                count as int == values@.len() as int / (width as int),
                all == chunked(values@, width as nat),
                i <= count,
                stream.wf(),
                stream@.config.channel_count == width,
                stream@ == pushed_all(old(stream)@, all.take(i as int)),
                stored == kept_count(old(stream)@, all.take(i as int)),
                stored <= i,
            decreases count - i,
        {
            proof {
                assert((i + 1) * width <= count * width) by (nonlinear_arith)
                    requires
                        i < count,
                        width > 0,
                ;
                assert(count * width <= values@.len()) by (nonlinear_arith)
                    requires
                        count as int == values@.len() as int / (width as int),
                        width > 0,
                ;
                assert((i + 1) * width == i * width + width) by (nonlinear_arith);
                assert(i * width + width <= values@.len());
            }
            let start = i * width;
            let mut sample: Vec<T> = Vec::new();
            let mut j: usize = 0;
            while j < width
                invariant
                    start == i * width,
                    start + width <= values@.len(),
                    total == values@.len(),
                    j <= width,
                    sample@ == values@.subrange(start as int, start + j),
                decreases width - j,
            {
                sample.push(values[start + j]);
                j = j + 1;
            }
            assert(sample@ == all[i as int]);
            let ghost before = stream@;
            let kept_now = match stream.push_sample(sample.as_slice()) {
                Ok(k) => k,
                Err(_) => false,
            };
            proof {
                assert(all.take(i as int + 1).drop_last() == all.take(i as int));
                assert(all.take(i as int + 1).last() == all[i as int]);
            }
            if kept_now {
                stored = stored + 1;
            }
            i = i + 1;
        }
        assert(all.take(count as int) == all);
        StreamIngestReport {
            sequence,
            samples_received,
            samples_stored: stored,
            lost_frames_total: self.sequence.lost_total(),
        }
    }
}

} // verus!
