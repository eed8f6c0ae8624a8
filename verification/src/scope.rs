//! The FAST-only Scope: which channels it records, and the checks a Scope
//! configuration must pass before the device is asked for anything.

use vstd::prelude::*;

use crate::mixed_scope::{hex_id, label_for, label_text, opt_text};
use crate::plot_capabilities::{first_channel, DevicePlotCapabilities};
use crate::protocol::plot::positive_finite_f32;
use crate::schema::{first_parameter_with_id, opt_ref, HostSchema, ParameterMetadata};
use crate::session::SessionError;
use crate::stream::{StreamError, StreamState, TimeSpan};
use crate::stream_pipeline::StreamPipelineError;

verus! {

/// One recorded channel; `scale` is its FAST scale as an IEEE-754
/// single-precision bit pattern.
#[derive(Debug, Clone, PartialEq, Eq)]
pub struct ScopeChannel {
    pub id: u16,
    pub label: String,
    pub unit: Option<String>,
    pub scale: u32,
}

/// A Scope recording: its Config_ID, sample rate, history and channels.
#[derive(Debug, Clone, PartialEq, Eq)]
pub struct ScopeConfig {
    pub config_id: u8,
    pub sample_rate_hz: u32,
    pub history: TimeSpan,
    pub channels: Vec<ScopeChannel>,
}

/// What the Scope reports of its recording.
#[derive(Debug, Clone, Copy, PartialEq, Eq, Structural)]
pub struct ScopeStatus {
    pub state: StreamState,
    pub samples: usize,
    pub capacity_samples: usize,
    pub lost_frames: u64,
}

/// Why the Scope refused a request.
#[derive(Debug)]
pub enum ScopeError {
    EmptyChannels,
    TooManyChannels { actual: usize, max: usize },
    UnknownChannel(u16),
    NotFastCapable(u16),
    InvalidScale(String),
    Runtime(String),
    Session(SessionError),
    Stream(StreamError),
    Pipeline(StreamPipelineError),
    Closed,
}

/// The first requested ID the device cannot record at the FAST rate, and
/// whether the device knows it at all.
pub open spec fn first_unrecordable(caps: DevicePlotCapabilities, ids: Seq<u16>) -> Option<(u16, bool)>
    decreases ids.len(),
{
    if ids.len() == 0 {
        None
    } else {
        match first_unrecordable(caps, ids.drop_last()) {
            Some(bad) => Some(bad),
            None => match first_channel(caps.channels@, ids.last()) {
                None => Some((ids.last(), false)),
                Some(c) => if c.modes % 2 == 1 {
                    None
                } else {
                    Some((ids.last(), true))
                },
            },
        }
    }
}

/// `c` is the Scope channel of parameter `id`: labelled and united from the
/// schema, scaled by the device.
pub open spec fn scope_channel_for(
    c: ScopeChannel,
    caps: DevicePlotCapabilities,
    params: Seq<ParameterMetadata>,
    id: u16,
) -> bool {
    let meta = first_parameter_with_id(params, id);
    &&& c.id == id
    &&& c.label@ == label_text(meta, id)
    &&& opt_text(c.unit) == match meta {
        Some(m) => opt_text(m.unit),
        None => None,
    }
    &&& c.scale == first_channel(caps.channels@, id)->0.fast_scale
}

proof fn lemma_unrecordable_stays(caps: DevicePlotCapabilities, ids: Seq<u16>, n: int)
    requires
        0 < n <= ids.len(),
        first_unrecordable(caps, ids.take(n)) is Some,
    ensures
        first_unrecordable(caps, ids) == first_unrecordable(caps, ids.take(n)),
    decreases ids.len() - n,
{
    if n < ids.len() {
        assert(ids.take(n + 1).drop_last() == ids.take(n));
        lemma_unrecordable_stays(caps, ids, n + 1);
    } else {
        assert(ids.take(n) == ids);
    }
}

fn unit_of(meta: Option<&ParameterMetadata>) -> (res: Option<String>)
    ensures
        opt_text(res) == match opt_ref(meta) {
            Some(m) => opt_text(m.unit),
            None => None,
        },
{
    match meta {
        Some(m) => match &m.unit {
            Some(u) => Some(u.clone()),
            None => None,
        },
        None => None,
    }
}

/// The configuration of a FAST Scope over `parameter_ids`: at least one
/// channel and no more than the device records at once, each known to the
/// device and FAST-capable, checked in order.
pub fn fast_config(
    capabilities: &DevicePlotCapabilities,
    schema: &HostSchema,
    parameter_ids: &[u16],
    history: TimeSpan,
    config_id: u8,
) -> (res: Result<ScopeConfig, ScopeError>)
    ensures
        parameter_ids@.len() == 0 ==> res matches Err(ScopeError::EmptyChannels),
        parameter_ids@.len() > 0 && parameter_ids@.len() > capabilities.fast_max_channels ==> (res matches Err(
            ScopeError::TooManyChannels { actual, max },
        ) && actual == parameter_ids@.len() && max == capabilities.fast_max_channels),
        0 < parameter_ids@.len() <= capabilities.fast_max_channels ==> match first_unrecordable(
            *capabilities,
            parameter_ids@,
        ) {
            Some((id, false)) => res matches Err(ScopeError::UnknownChannel(u)) && u == id,
            Some((id, true)) => res matches Err(ScopeError::NotFastCapable(u)) && u == id,
            None => res matches Ok(config) && config.config_id == config_id && config.sample_rate_hz
                == capabilities.fast_rate_hz && config.history == history && config.channels@.len()
                == parameter_ids@.len() && forall|i: int|
                0 <= i < parameter_ids@.len() ==> scope_channel_for(
                    #[trigger] config.channels@[i],
                    *capabilities,
                    schema.parameters@,
                    parameter_ids@[i],
                ),
        },
{
    if parameter_ids.len() == 0 {
        return Err(ScopeError::EmptyChannels);
    }
    if parameter_ids.len() > capabilities.fast_max_channels as usize {
        return Err(
            ScopeError::TooManyChannels {
                actual: parameter_ids.len(),
                max: capabilities.fast_max_channels as usize,
            },
        );
    }
    let mut channels: Vec<ScopeChannel> = Vec::new();
    let mut i: usize = 0;
    while i < parameter_ids.len()
        invariant
            i <= parameter_ids@.len(),
            0 < parameter_ids@.len() <= capabilities.fast_max_channels,
            first_unrecordable(*capabilities, parameter_ids@.take(i as int)) is None,
            channels@.len() == i,
            forall|k: int|
                0 <= k < i ==> scope_channel_for(
                    #[trigger] channels@[k],
                    *capabilities,
                    schema.parameters@,
                    parameter_ids@[k],
                ),
        decreases parameter_ids@.len() - i,
    {
        let id = parameter_ids[i];
        assert(parameter_ids@.take(i as int + 1).drop_last() == parameter_ids@.take(i as int));
        assert(parameter_ids@.take(i as int + 1).last() == id);
        let capability = match capabilities.channel(id) {
            Some(c) => c,
            None => {
                proof { lemma_unrecordable_stays(*capabilities, parameter_ids@, i as int + 1); }
                return Err(ScopeError::UnknownChannel(id));
            },
        };
        if !capability.supports_fast() {
            proof { lemma_unrecordable_stays(*capabilities, parameter_ids@, i as int + 1); }
            return Err(ScopeError::NotFastCapable(id));
        }
        let metadata = schema.parameter_by_id(id);
        let channel = ScopeChannel {
            id,
            label: label_for(metadata, id),
            unit: unit_of(metadata),
            scale: capability.fast_scale,
        };
        channels.push(channel);
        i = i + 1;
    }
    assert(parameter_ids@.take(parameter_ids@.len() as int) == parameter_ids@);
    Ok(ScopeConfig { config_id, sample_rate_hz: capabilities.fast_rate_hz, history, channels })
}

/// The first channel whose scale is not a finite number above zero.
pub open spec fn first_bad_scale(chs: Seq<ScopeChannel>) -> Option<ScopeChannel>
    decreases chs.len(),
{
    if chs.len() == 0 {
        None
    } else if !positive_finite_f32(chs[0].scale) {
        Some(chs[0])
    } else {
        first_bad_scale(chs.drop_first())
    }
}

/// A configuration the Scope can record: at least one channel, each scaled
/// by a finite number above zero.
pub fn check_config(config: &ScopeConfig) -> (res: Result<(), ScopeError>)
    ensures
        config.channels@.len() == 0 ==> res matches Err(ScopeError::EmptyChannels),
        config.channels@.len() > 0 ==> match first_bad_scale(config.channels@) {
            Some(c) => res matches Err(ScopeError::InvalidScale(l)) && l@ == c.label@,
            None => res is Ok,
        },
{
    if config.channels.len() == 0 {
        return Err(ScopeError::EmptyChannels);
    }
    let mut i: usize = 0;
    assert(config.channels@.skip(0) == config.channels@);
    while i < config.channels.len()
        invariant
            i <= config.channels@.len(),
            first_bad_scale(config.channels@) == first_bad_scale(config.channels@.skip(i as int)),
        decreases config.channels@.len() - i,
    {
        assert(config.channels@.skip(i as int).drop_first() == config.channels@.skip(i as int + 1));
        let scale = config.channels[i].scale;
        if !(0 < scale && scale < 0x7f80_0000) {
            return Err(ScopeError::InvalidScale(config.channels[i].label.clone()));
        }
        i = i + 1;
    }
    Ok(())
}

/// The device is streaming for a recording in `state`, so stopping it means
/// telling the device.
pub fn plot_running(state: StreamState) -> (res: bool)
    ensures
        res == (state is Live || state is Capturing),
{
    match state {
        StreamState::Live | StreamState::Capturing => true,
        _ => false,
    }
}

/// A capture that just reached its target (the ring paused while storing)
/// no longer needs the device's stream.
pub fn capture_reached_target(state: StreamState, stored: usize) -> (res: bool)
    ensures
        res == (state is Paused && stored > 0),
{
    state == StreamState::Paused && stored > 0
}

} // verus!
