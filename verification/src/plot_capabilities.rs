//! The device's Plot capabilities, assembled from the pages of the capability
//! list, and the lookups scope configuration makes in them.

use vstd::prelude::*;

use crate::protocol::{PlotCapabilitiesPage, PlotCapabilityEntry, PLOT_CAP_FAST, PLOT_CAP_NORMAL};
use crate::mixed_scope::opt_text;
use crate::schema::{first_parameter_with_id, HostSchema, ParameterMetadata};

verus! {

/// One plottable parameter: its ID, its mode bits, and its FAST scale as an
/// IEEE-754 single-precision bit pattern.
#[derive(Debug, Clone, Copy, PartialEq, Eq, Structural)]
pub struct DevicePlotChannel {
    pub id: u16,
    pub modes: u8,
    pub fast_scale: u32,
}

impl DevicePlotChannel {
    pub fn supports_fast(self) -> (res: bool)
        ensures
            res == (self.modes % 2 == 1),
    {
        let modes = self.modes;
        assert((modes & 1u8 != 0) == (modes % 2 == 1)) by (bit_vector);
        modes & PLOT_CAP_FAST != 0
    }

    pub fn supports_normal(self) -> (res: bool)
        ensures
            res == ((self.modes / 2) % 2 == 1),
    {
        let modes = self.modes;
        assert((modes & 2u8 != 0) == ((modes / 2) % 2 == 1)) by (bit_vector);
        modes & PLOT_CAP_NORMAL != 0
    }
}

impl From<PlotCapabilityEntry> for DevicePlotChannel {
    fn from(value: PlotCapabilityEntry) -> (res: Self) {
        DevicePlotChannel { id: value.id, modes: value.modes, fast_scale: value.fast_scale }
    }
}

impl vstd::std_specs::convert::FromSpecImpl<PlotCapabilityEntry> for DevicePlotChannel {
    open spec fn obeys_from_spec() -> bool {
        true
    }

    open spec fn from_spec(value: PlotCapabilityEntry) -> Self {
        DevicePlotChannel { id: value.id, modes: value.modes, fast_scale: value.fast_scale }
    }
}

/// The channel an entry describes.
pub open spec fn entry_channel(e: PlotCapabilityEntry) -> DevicePlotChannel {
    DevicePlotChannel { id: e.id, modes: e.modes, fast_scale: e.fast_scale }
}

/// What the device can stream: group limits, rates, and every plottable channel.
#[derive(Debug, Clone, PartialEq, Eq)]
pub struct DevicePlotCapabilities {
    pub fast_max_channels: u8,
    pub normal_max_channels: u8,
    pub fast_block_samples: u8,
    pub fast_rate_hz: u32,
    pub normal_rate_hz: u32,
    pub channels: Vec<DevicePlotChannel>,
}

/// The first channel of `channels` with ID `id`.
pub open spec fn first_channel(channels: Seq<DevicePlotChannel>, id: u16) -> Option<DevicePlotChannel>
    decreases channels.len(),
{
    if channels.len() == 0 {
        None
    } else if channels[0].id == id {
        Some(channels[0])
    } else {
        first_channel(channels.drop_first(), id)
    }
}

impl DevicePlotCapabilities {
    /// The first reported channel with ID `id`.
    pub fn channel(&self, id: u16) -> (res: Option<DevicePlotChannel>)
        ensures
            res == first_channel(self.channels@, id),
    {
        let mut i: usize = 0;
        assert(self.channels@.skip(0) == self.channels@);
        while i < self.channels.len()
            invariant
                i <= self.channels@.len(),
                first_channel(self.channels@, id) == first_channel(self.channels@.skip(i as int), id),
            decreases self.channels@.len() - i,
        {
            let channel = self.channels[i];
            assert(self.channels@.skip(i as int).drop_first() == self.channels@.skip(i as int + 1));
            if channel.id == id {
                return Some(channel);
            }
            i = i + 1;
        }
        None
    }
}

#[derive(Debug)]
pub enum PlotCapabilitiesError {
    InconsistentPages,
    InvalidPagination,
    DuplicateParameter(u16),
}

/// The IDs of `channels`, in order.
pub open spec fn channel_ids(channels: Seq<DevicePlotChannel>) -> Seq<u16> {
    channels.map_values(|c: DevicePlotChannel| c.id)
}

/// The first entry ID that is already in `known` or repeats an earlier entry.
pub open spec fn first_duplicate(known: Seq<u16>, entries: Seq<PlotCapabilityEntry>) -> Option<u16>
    decreases entries.len(),
{
    if entries.len() == 0 {
        None
    } else if known.contains(entries[0].id) {
        Some(entries[0].id)
    } else {
        first_duplicate(known.push(entries[0].id), entries.drop_first())
    }
}

/// The limits and rates a page reports.
pub open spec fn page_globals(p: PlotCapabilitiesPage) -> (u8, u8, u8, u32, u32) {
    (p.fast_max_channels, p.normal_max_channels, p.fast_block_samples, p.fast_rate_hz, p.normal_rate_hz)
}

/// Capability pages collected so far.
#[derive(Debug)]
pub struct CapabilityDiscovery {
    pub global: Option<(u8, u8, u8, u32, u32)>,
    pub channels: Vec<DevicePlotChannel>,
}

fn contains_id(channels: &Vec<DevicePlotChannel>, id: u16) -> (res: bool)
    ensures
        res == channel_ids(channels@).contains(id),
{
    let mut i: usize = 0;
    while i < channels.len()
        invariant
            i <= channels@.len(),
            forall|k: int| 0 <= k < i ==> channels@[k].id != id,
        decreases channels@.len() - i,
    {
        if channels[i].id == id {
            assert(channel_ids(channels@)[i as int] == id);
            return true;
        }
        i = i + 1;
    }
    proof {
        if channel_ids(channels@).contains(id) {
            let k = choose|k: int| 0 <= k < channel_ids(channels@).len() && channel_ids(channels@)[k] == id;
            assert(channels@[k].id == id);
        }
    }
    false
}

impl CapabilityDiscovery {
    pub fn new() -> (res: Self)
        ensures
            res.global is None,
            res.channels@ == Seq::<DevicePlotChannel>::empty(),
    {
        CapabilityDiscovery { global: None, channels: Vec::new() }
    }

    /// Takes the page that was requested at `start` and returns the start of
    /// the next page to request, or `None` when the list is complete. Every
    /// page must report the same limits, no parameter may appear twice, and
    /// pagination must move forward.
    pub fn add_page(&mut self, start: u8, page: PlotCapabilitiesPage) -> (res: Result<
        Option<u8>,
        PlotCapabilitiesError,
    >)
        ensures
            match old(self).global {
                Some(g) if g != page_globals(page) => res matches Err(PlotCapabilitiesError::InconsistentPages),
                _ => match first_duplicate(channel_ids(old(self).channels@), page.entries@) {
                    Some(id) => res matches Err(PlotCapabilitiesError::DuplicateParameter(d)) && d == id,
                    None => {
                        &&& final(self).global == Some(page_globals(page))
                        &&& final(self).channels@ == old(self).channels@ + page.entries@.map_values(
                            |e: PlotCapabilityEntry| entry_channel(e),
                        )
                        &&& match page.next {
                            None => res == Ok::<Option<u8>, PlotCapabilitiesError>(None),
                            Some(n) => if n > start {
                                res == Ok::<Option<u8>, PlotCapabilitiesError>(Some(n))
                            } else {
                                res matches Err(PlotCapabilitiesError::InvalidPagination)
                            },
                        }
                    },
                },
            },
    {
        let globals = (
            page.fast_max_channels,
            page.normal_max_channels,
            page.fast_block_samples,
            page.fast_rate_hz,
            page.normal_rate_hz,
        );
        match self.global {
            Some(expected) => {
                if expected.0 != globals.0 || expected.1 != globals.1 || expected.2 != globals.2 || expected.3
                    != globals.3 || expected.4 != globals.4 {
                    return Err(PlotCapabilitiesError::InconsistentPages);
                }
            },
            None => {},
        }
        self.global = Some(globals);
        let ghost before = self.channels@;
        let mut i: usize = 0;
        assert(page.entries@.skip(0) == page.entries@);
        assert(self.channels@ == before + page.entries@.take(0).map_values(|e: PlotCapabilityEntry| entry_channel(e)));
        while i < page.entries.len()
            invariant
                i <= page.entries@.len(),
                self.channels@ == before + page.entries@.take(i as int).map_values(
                    |e: PlotCapabilityEntry| entry_channel(e),
                ),
                first_duplicate(channel_ids(before), page.entries@) == first_duplicate(
                    channel_ids(self.channels@),
                    page.entries@.skip(i as int),
                ),
                self.global == Some(page_globals(page)),
                before == old(self).channels@,
                old(self).global matches Some(g) ==> g == page_globals(page),
            decreases page.entries@.len() - i,
        {
            let entry = page.entries[i];
            let ghost rest = page.entries@.skip(i as int);
            assert(rest[0] == entry);
            assert(rest.drop_first() == page.entries@.skip(i as int + 1));
            if contains_id(&self.channels, entry.id) {
                return Err(PlotCapabilitiesError::DuplicateParameter(entry.id));
            }
            let ghost ids_before = channel_ids(self.channels@);
            self.channels.push(DevicePlotChannel::from(entry));
            proof {
                assert(channel_ids(self.channels@) == ids_before.push(entry.id));
                assert(page.entries@.take(i as int + 1) == page.entries@.take(i as int).push(entry));
                assert(page.entries@.take(i as int + 1).map_values(|e: PlotCapabilityEntry| entry_channel(e))
                    == page.entries@.take(i as int).map_values(|e: PlotCapabilityEntry| entry_channel(e)).push(
                    entry_channel(entry),
                ));
            }
            i = i + 1;
        }
        assert(page.entries@.take(page.entries@.len() as int) == page.entries@);
        match page.next {
            None => Ok(None),
            Some(next) => if next > start {
                Ok(Some(next))
            } else {
                Err(PlotCapabilitiesError::InvalidPagination)
            },
        }
    }

    /// The capabilities of all pages taken; none taken is a pagination error.
    pub fn finish(self) -> (res: Result<DevicePlotCapabilities, PlotCapabilitiesError>)
        ensures
            match self.global {
                None => res matches Err(PlotCapabilitiesError::InvalidPagination),
                Some(g) => res matches Ok(c) && (c.fast_max_channels, c.normal_max_channels, c.fast_block_samples,
                c.fast_rate_hz, c.normal_rate_hz) == g && c.channels@ == self.channels@,
            },
    {
        match self.global {
            None => Err(PlotCapabilitiesError::InvalidPagination),
            Some(g) => Ok(DevicePlotCapabilities {
                fast_max_channels: g.0,
                normal_max_channels: g.1,
                fast_block_samples: g.2,
                fast_rate_hz: g.3,
                normal_rate_hz: g.4,
                channels: self.channels,
            }),
        }
    }
}

/// A plottable channel described for display: its schema names, when the
/// schema knows the ID, and what the device can stream of it.
#[derive(Debug, Clone, PartialEq, Eq)]
pub struct PlotChannelInfo {
    pub id: u16,
    pub symbol: Option<String>,
    pub name: Option<String>,
    pub unit: Option<String>,
    pub description: Option<String>,
    pub supports_fast: bool,
    pub supports_normal: bool,
    /// The FAST scale as an IEEE-754 single-precision bit pattern, for
    /// FAST-capable channels.
    pub fast_scale: Option<u32>,
}

/// `info` describes channel `c`, whose schema entry is `meta`.
pub open spec fn describes(info: PlotChannelInfo, c: DevicePlotChannel, meta: Option<ParameterMetadata>) -> bool {
    &&& info.id == c.id
    &&& opt_text(info.symbol) == (match meta { Some(m) => Some(m.symbol@), None => None })
    &&& opt_text(info.name) == (match meta { Some(m) => opt_text(m.name), None => None })
    &&& opt_text(info.unit) == (match meta { Some(m) => opt_text(m.unit), None => None })
    &&& opt_text(info.description) == (match meta { Some(m) => Some(m.description@), None => None })
    &&& info.supports_fast == (c.modes % 2 == 1)
    &&& info.supports_normal == ((c.modes / 2) % 2 == 1)
    &&& info.fast_scale == (if c.modes % 2 == 1 { Some(c.fast_scale) } else { None::<u32> })
}

fn copy_text(o: &Option<String>) -> (res: Option<String>)
    ensures
        opt_text(res) == opt_text(*o),
{
    match o {
        Some(t) => Some(t.clone()),
        None => None,
    }
}

fn channel_info(c: DevicePlotChannel, meta: Option<&ParameterMetadata>) -> (res: PlotChannelInfo)
    ensures
        describes(res, c, crate::schema::opt_ref(meta)),
{
    let supports_fast = c.supports_fast();
    PlotChannelInfo {
        id: c.id,
        symbol: match meta {
            Some(m) => Some(m.symbol.clone()),
            None => None,
        },
        name: match meta {
            Some(m) => copy_text(&m.name),
            None => None,
        },
        unit: match meta {
            Some(m) => copy_text(&m.unit),
            None => None,
        },
        description: match meta {
            Some(m) => Some(m.description.clone()),
            None => None,
        },
        supports_fast,
        supports_normal: c.supports_normal(),
        fast_scale: if supports_fast {
            Some(c.fast_scale)
        } else {
            None
        },
    }
}

impl DevicePlotCapabilities {
    /// Every reported channel, in order, described with the first schema
    /// entry of its ID.
    pub fn with_schema(&self, schema: &HostSchema) -> (res: Vec<PlotChannelInfo>)
        ensures
            res@.len() == self.channels@.len(),
            forall|i: int|
                0 <= i < res@.len() ==> describes(
                    #[trigger] res@[i],
                    self.channels@[i],
                    first_parameter_with_id(schema.parameters@, self.channels@[i].id),
                ),
    {
        let mut out: Vec<PlotChannelInfo> = Vec::new();
        let mut i: usize = 0;
        while i < self.channels.len()
            invariant
                i <= self.channels@.len(),
                out@.len() == i,
                forall|k: int|
                    0 <= k < i ==> describes(
                        #[trigger] out@[k],
                        self.channels@[k],
                        first_parameter_with_id(schema.parameters@, self.channels@[k].id),
                    ),
            decreases self.channels@.len() - i,
        {
            let c = self.channels[i];
            let meta = schema.parameter_by_id(c.id);
            out.push(channel_info(c, meta));
            i = i + 1;
        }
        out
    }
}

} // verus!
