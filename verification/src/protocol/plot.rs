use vstd::prelude::*;

use crate::bytes::{copy_range, le_u16, le_u32, read_le_u16, read_le_u32};
use crate::wire::canfd::{spec_canonical_len, zeros, CanFdFrame};

use super::ids::{MSG_PLOT, PLOT_CAPS, PLOT_CONFIG, PLOT_START, PLOT_STOP};
use super::router::ResponseFrame;
use super::status::AxdrStatus;
use super::transaction::TransactionId;
use super::{can_id, spec_can_id, NODE_ID_DEFAULT};

verus! {

pub const PLOT_GROUP_FAST: u8 = 0;
pub const PLOT_GROUP_NORMAL: u8 = 1;
pub const PLOT_FAST_MASK: u8 = 1;
pub const PLOT_NORMAL_MASK: u8 = 2;

pub const PLOT_CAP_FAST: u8 = 1;
pub const PLOT_CAP_NORMAL: u8 = 2;
pub const PLOT_CAP_END: u8 = 0xff;
pub const PLOT_CAP_HEADER_LEN: usize = 14;
pub const PLOT_CAP_ENTRY_LEN: usize = 7;

/// Channel limits of the two Plot groups.
pub const MAX_FAST_CHANNELS: usize = 8;
pub const MAX_NORMAL_CHANNELS: usize = 15;

/// One plottable parameter. `fast_scale` is the IEEE-754 bit pattern of the
/// single-precision scale that turns a FAST sample into engineering units.
#[derive(Debug, Clone, Copy, PartialEq, Eq, Structural)]
pub struct PlotCapabilityEntry {
    pub id: u16,
    pub modes: u8,
    pub fast_scale: u32,
}

impl PlotCapabilityEntry {
    pub fn supports_fast(self) -> (res: bool)
        ensures
            res == (self.modes % 2 == 1),
    {
        let modes = self.modes;
        let bit = modes & PLOT_CAP_FAST;
        assert((modes & 1u8 != 0) == (modes % 2 == 1)) by (bit_vector);
        bit != 0
    }

    pub fn supports_normal(self) -> (res: bool)
        ensures
            res == ((self.modes / 2) % 2 == 1),
    {
        let modes = self.modes;
        let bit = modes & PLOT_CAP_NORMAL;
        assert((modes & 2u8 != 0) == ((modes / 2) % 2 == 1)) by (bit_vector);
        bit != 0
    }
}

/// One page of the device's Plot capability list.
#[derive(Debug, Clone, PartialEq, Eq)]
pub struct PlotCapabilitiesPage {
    pub start: u8,
    pub next: Option<u8>,
    pub fast_max_channels: u8,
    pub normal_max_channels: u8,
    pub fast_block_samples: u8,
    pub fast_rate_hz: u32,
    pub normal_rate_hz: u32,
    pub entries: Vec<PlotCapabilityEntry>,
}

#[derive(Debug, Clone, Copy, PartialEq, Eq, Structural)]
pub enum PlotError {
    TooManyFastChannels(usize),
    TooManyNormalChannels(usize),
    EmptyChannels,
    InvalidGroup(u8),
    InvalidGroupMask(u8),
    UnexpectedResponse,
    Status(AxdrStatus),
    MalformedConfigResponse,
    MalformedCapabilitiesResponse,
    CapabilityStartMismatch { expected: u8, actual: u8 },
    InvalidCapabilityModes { id: u16, modes: u8 },
    InvalidCapabilityScale { id: u16, scale: u32 },
}

/// A FAST scale bit pattern denotes a finite number greater than zero.
pub open spec fn positive_finite_f32(bits: u32) -> bool {
    0 < bits < 0x7f80_0000
}

/// The group masks Plot START/STOP accept: FAST, NORMAL or both.
pub open spec fn valid_group_mask(mask: u8) -> bool {
    1 <= mask <= 3
}

/// The little-endian bytes of each parameter ID, in order.
pub open spec fn ids_bytes(parameters: Seq<u16>) -> Seq<u8>
    decreases parameters.len(),
{
    if parameters.len() == 0 {
        Seq::empty()
    } else {
        ids_bytes(parameters.drop_last()) + seq![
            (parameters.last() % 256) as u8,
            (parameters.last() / 256) as u8,
        ]
    }
}

/// The Plot CONFIG payload for a group layout.
pub open spec fn config_payload(txn: u8, group: u8, config_id: u8, parameters: Seq<u16>) -> Seq<u8> {
    seq![txn, PLOT_CONFIG, group, config_id, parameters.len() as u8] + ids_bytes(parameters)
}

/// Why a CONFIG request for `group` with `count` channels is refused, if it is.
pub open spec fn config_error(group: u8, count: int) -> Option<PlotError> {
    if count == 0 {
        Some(PlotError::EmptyChannels)
    } else if group == PLOT_GROUP_FAST && count > 8 {
        Some(PlotError::TooManyFastChannels(count as usize))
    } else if group == PLOT_GROUP_NORMAL && count > 15 {
        Some(PlotError::TooManyNormalChannels(count as usize))
    } else if group != PLOT_GROUP_FAST && group != PLOT_GROUP_NORMAL {
        Some(PlotError::InvalidGroup(group))
    } else {
        None
    }
}

pub fn build_plot_config_default(txn: TransactionId, group: u8, config_id: u8, parameters: &[u16]) -> (res: Result<
    CanFdFrame,
    PlotError,
>)
    ensures
        match config_error(group, parameters@.len() as int) {
            Some(e) => res == Err::<CanFdFrame, PlotError>(e),
            None => res matches Ok(frame) && frame@.id == spec_can_id(MSG_PLOT, NODE_ID_DEFAULT) && frame@.data
                == config_payload(txn@, group, config_id, parameters@) + zeros(
                spec_canonical_len(config_payload(txn@, group, config_id, parameters@).len() as int)
                    - config_payload(txn@, group, config_id, parameters@).len(),
            ),
        },
{
    build_plot_config(txn, group, config_id, parameters, NODE_ID_DEFAULT)
}

/// Builds a Plot CONFIG request that selects `parameters` for `group`.
pub fn build_plot_config(txn: TransactionId, group: u8, config_id: u8, parameters: &[u16], node_id: u8) -> (res:
    Result<CanFdFrame, PlotError>)
    ensures
        match config_error(group, parameters@.len() as int) {
            Some(e) => res == Err::<CanFdFrame, PlotError>(e),
            None => res matches Ok(frame) && frame@.id == spec_can_id(MSG_PLOT, node_id) && frame@.data
                == config_payload(txn@, group, config_id, parameters@) + zeros(
                spec_canonical_len(config_payload(txn@, group, config_id, parameters@).len() as int)
                    - config_payload(txn@, group, config_id, parameters@).len(),
            ),
        },
{
    if parameters.len() == 0 {
        return Err(PlotError::EmptyChannels);
    }
    if group == PLOT_GROUP_FAST && parameters.len() > MAX_FAST_CHANNELS {
        return Err(PlotError::TooManyFastChannels(parameters.len()));
    }
    if group == PLOT_GROUP_NORMAL && parameters.len() > MAX_NORMAL_CHANNELS {
        return Err(PlotError::TooManyNormalChannels(parameters.len()));
    }
    if group != PLOT_GROUP_FAST && group != PLOT_GROUP_NORMAL {
        return Err(PlotError::InvalidGroup(group));
    }
    let mut payload: Vec<u8> = vec![txn.get(), PLOT_CONFIG, group, config_id, parameters.len() as u8];
    let ghost head = payload@;
    let mut i: usize = 0;
    while i < parameters.len()
        invariant
            i <= parameters@.len(),
            payload@ == head + ids_bytes(parameters@.subrange(0, i as int)),
        decreases parameters@.len() - i,
    {
        let parameter = parameters[i];
        payload.push((parameter % 256) as u8);
        payload.push((parameter / 256) as u8);
        proof {
            let prev = parameters@.subrange(0, i as int);
            let next = parameters@.subrange(0, i + 1);
            assert(next.drop_last() =~= prev);
            assert(payload@ =~= head + ids_bytes(next));
        }
        i = i + 1;
    }
    assert(parameters@.subrange(0, parameters@.len() as int) =~= parameters@);
    assert(payload@ =~= config_payload(txn@, group, config_id, parameters@));
    proof {
        lemma_ids_bytes_len(parameters@);
    }
    match CanFdFrame::new(can_id(MSG_PLOT, node_id), payload.as_slice()) {
        Ok(frame) => Ok(frame),
        Err(_) => Err(PlotError::MalformedConfigResponse),
    }
}

proof fn lemma_ids_bytes_len(parameters: Seq<u16>)
    ensures
        ids_bytes(parameters).len() == 2 * parameters.len(),
    decreases parameters.len(),
{
    if parameters.len() > 0 {
        lemma_ids_bytes_len(parameters.drop_last());
    }
}

/// Checks a START/STOP group mask.
pub fn validate_group_mask(group_mask: u8) -> (res: Result<(), PlotError>)
    ensures
        valid_group_mask(group_mask) ==> res == Ok::<(), PlotError>(()),
        !valid_group_mask(group_mask) ==> res == Err::<(), PlotError>(PlotError::InvalidGroupMask(group_mask)),
{
    let valid = PLOT_FAST_MASK | PLOT_NORMAL_MASK;
    assert(group_mask & !(1u8 | 2u8) == 0 <==> group_mask <= 3) by (bit_vector);
    if group_mask == 0 || group_mask & !valid != 0 {
        return Err(PlotError::InvalidGroupMask(group_mask));
    }
    Ok(())
}

/// A three-byte Plot control payload: transaction, operation, argument.
fn control_frame(txn: TransactionId, op: u8, argument: u8, node_id: u8) -> (res: Option<CanFdFrame>)
    ensures
        res matches Some(frame) && frame@.id == spec_can_id(MSG_PLOT, node_id) && frame@.data == seq![txn@, op, argument],
{
    let payload = vec![txn.get(), op, argument];
    match CanFdFrame::new(can_id(MSG_PLOT, node_id), payload.as_slice()) {
        Ok(frame) => {
            assert(payload@ + zeros(0) =~= seq![txn@, op, argument]);
            Some(frame)
        },
        Err(_) => None,
    }
}

pub fn build_plot_start_default(txn: TransactionId, group_mask: u8) -> (res: Result<CanFdFrame, PlotError>)
    ensures
        !valid_group_mask(group_mask) ==> res == Err::<CanFdFrame, PlotError>(PlotError::InvalidGroupMask(group_mask)),
        valid_group_mask(group_mask) ==> (res matches Ok(frame) && frame@.id == spec_can_id(MSG_PLOT, NODE_ID_DEFAULT)
            && frame@.data == seq![txn@, PLOT_START, group_mask]),
{
    build_plot_start(txn, group_mask, NODE_ID_DEFAULT)
}

/// Builds a Plot START request for the groups in `group_mask`.
pub fn build_plot_start(txn: TransactionId, group_mask: u8, node_id: u8) -> (res: Result<CanFdFrame, PlotError>)
    ensures
        !valid_group_mask(group_mask) ==> res == Err::<CanFdFrame, PlotError>(PlotError::InvalidGroupMask(group_mask)),
        valid_group_mask(group_mask) ==> (res matches Ok(frame) && frame@.id == spec_can_id(MSG_PLOT, node_id)
            && frame@.data == seq![txn@, PLOT_START, group_mask]),
{
    validate_group_mask(group_mask)?;
    match control_frame(txn, PLOT_START, group_mask, node_id) {
        Some(frame) => Ok(frame),
        None => Err(PlotError::UnexpectedResponse),
    }
}

pub fn build_plot_stop_default(txn: TransactionId, group_mask: u8) -> (res: Result<CanFdFrame, PlotError>)
    ensures
        !valid_group_mask(group_mask) ==> res == Err::<CanFdFrame, PlotError>(PlotError::InvalidGroupMask(group_mask)),
        valid_group_mask(group_mask) ==> (res matches Ok(frame) && frame@.id == spec_can_id(MSG_PLOT, NODE_ID_DEFAULT)
            && frame@.data == seq![txn@, PLOT_STOP, group_mask]),
{
    build_plot_stop(txn, group_mask, NODE_ID_DEFAULT)
}

/// Builds a Plot STOP request for the groups in `group_mask`.
pub fn build_plot_stop(txn: TransactionId, group_mask: u8, node_id: u8) -> (res: Result<CanFdFrame, PlotError>)
    ensures
        !valid_group_mask(group_mask) ==> res == Err::<CanFdFrame, PlotError>(PlotError::InvalidGroupMask(group_mask)),
        valid_group_mask(group_mask) ==> (res matches Ok(frame) && frame@.id == spec_can_id(MSG_PLOT, node_id)
            && frame@.data == seq![txn@, PLOT_STOP, group_mask]),
{
    validate_group_mask(group_mask)?;
    match control_frame(txn, PLOT_STOP, group_mask, node_id) {
        Some(frame) => Ok(frame),
        None => Err(PlotError::UnexpectedResponse),
    }
}

pub fn build_plot_caps_default(txn: TransactionId, start: u8) -> (res: Result<CanFdFrame, PlotError>)
    ensures
        res matches Ok(frame) && frame@.id == spec_can_id(MSG_PLOT, NODE_ID_DEFAULT) && frame@.data == seq![
            txn@,
            PLOT_CAPS,
            start,
        ],
{
    build_plot_caps(txn, start, NODE_ID_DEFAULT)
}

/// Builds a Plot CAPS request for the capability page that starts at `start`.
pub fn build_plot_caps(txn: TransactionId, start: u8, node_id: u8) -> (res: Result<CanFdFrame, PlotError>)
    ensures
        res matches Ok(frame) && frame@.id == spec_can_id(MSG_PLOT, node_id) && frame@.data == seq![
            txn@,
            PLOT_CAPS,
            start,
        ],
{
    match control_frame(txn, PLOT_CAPS, start, node_id) {
        Some(frame) => Ok(frame),
        None => Err(PlotError::MalformedCapabilitiesResponse),
    }
}

/// A response answers Plot operation `op` and reports success.
pub open spec fn spec_plot_status(response: ResponseFrame, op: u8) -> Result<(), PlotError> {
    if response.request_message != MSG_PLOT || response.request_op != op {
        Err(PlotError::UnexpectedResponse)
    } else if response.status != AxdrStatus::Success {
        Err(PlotError::Status(response.status))
    } else {
        Ok(())
    }
}

fn parse_status(response: &ResponseFrame, op: u8) -> (res: Result<(), PlotError>)
    ensures
        res == spec_plot_status(*response, op),
{
    if response.request_message != MSG_PLOT || response.request_op != op {
        return Err(PlotError::UnexpectedResponse);
    }
    if response.status != AxdrStatus::Success {
        return Err(PlotError::Status(response.status));
    }
    Ok(())
}

/// The CONFIG response echoes the group, the Config_ID and every selected ID.
pub open spec fn config_echo_ok(data: Seq<u8>, group: u8, config_id: u8, parameters: Seq<u16>) -> bool {
    &&& data.len() >= 3
    &&& data[0] == group
    &&& data[1] == config_id
    &&& data[2] as int == parameters.len()
    &&& data.len() >= 3 + 2 * parameters.len()
    &&& forall|i: int| 0 <= i < parameters.len() ==> le_u16(data[3 + 2 * i], data[4 + 2 * i]) == #[trigger] parameters[i]
}

/// Checks the device's reply to a CONFIG request.
pub fn parse_plot_config_response(response: &ResponseFrame, group: u8, config_id: u8, parameters: &[u16]) -> (res:
    Result<(), PlotError>)
    ensures
        spec_plot_status(*response, PLOT_CONFIG) is Err ==> res == spec_plot_status(*response, PLOT_CONFIG),
        spec_plot_status(*response, PLOT_CONFIG) is Ok ==> (if config_echo_ok(response.data@, group, config_id, parameters@) {
            res == Ok::<(), PlotError>(())
        } else {
            res == Err::<(), PlotError>(PlotError::MalformedConfigResponse)
        }),
{
    parse_status(response, PLOT_CONFIG)?;
    let data = &response.data;
    if data.len() < 3 {
        return Err(PlotError::MalformedConfigResponse);
    }
    if data[0] != group || data[1] != config_id || data[2] as usize != parameters.len() {
        return Err(PlotError::MalformedConfigResponse);
    }
    let count = parameters.len();
    if data.len() - 3 < count * 2 {
        return Err(PlotError::MalformedConfigResponse);
    }
    let mut index: usize = 0;
    while index < count
        invariant
            index <= count,
            count == parameters@.len(),
            count <= 255,
            data@.len() >= 3 + 2 * count,
            spec_plot_status(*response, PLOT_CONFIG) is Ok,
            data@ == response.data@,
            data@[0] == group && data@[1] == config_id && data@[2] as int == count,
            forall|i: int| 0 <= i < index ==> le_u16(data@[3 + 2 * i], data@[4 + 2 * i]) == #[trigger] parameters@[i],
        decreases count - index,
    {
        let offset = 3 + index * 2;
        let actual = read_le_u16(data[offset], data[offset + 1]);
        if actual != parameters[index] {
            assert(le_u16(data@[3 + 2 * index], data@[4 + 2 * index]) != parameters@[index as int]);
            return Err(PlotError::MalformedConfigResponse);
        }
        index = index + 1;
    }
    Ok(())
}

/// Checks the device's reply to a START request.
pub fn parse_plot_start_response(response: &ResponseFrame) -> (res: Result<(), PlotError>)
    ensures
        res == spec_plot_status(*response, PLOT_START),
{
    parse_status(response, PLOT_START)
}

/// Checks the device's reply to a STOP request.
pub fn parse_plot_stop_response(response: &ResponseFrame) -> (res: Result<(), PlotError>)
    ensures
        res == spec_plot_status(*response, PLOT_STOP),
{
    parse_status(response, PLOT_STOP)
}

/// The capability entry at index `i` of a CAPS payload.
pub open spec fn entry_at(data: Seq<u8>, i: int) -> PlotCapabilityEntry {
    let o = 14 + 7 * i;
    PlotCapabilityEntry {
        id: le_u16(data[o], data[o + 1]),
        modes: data[o + 2],
        fast_scale: le_u32(data[o + 3], data[o + 4], data[o + 5], data[o + 6]),
    }
}

/// Why a capability entry is refused, if it is.
pub open spec fn entry_error(entry: PlotCapabilityEntry) -> Option<PlotError> {
    if entry.modes == 0 || entry.modes > 3 {
        Some(PlotError::InvalidCapabilityModes { id: entry.id, modes: entry.modes })
    } else if entry.modes % 2 == 1 && !positive_finite_f32(entry.fast_scale) {
        Some(PlotError::InvalidCapabilityScale { id: entry.id, scale: entry.fast_scale })
    } else {
        None
    }
}

/// The first refused entry among the first `count` entries, if any.
pub open spec fn first_entry_error(data: Seq<u8>, count: int) -> Option<PlotError>
    decreases count,
{
    if count <= 0 {
        None
    } else {
        match first_entry_error(data, count - 1) {
            Some(e) => Some(e),
            None => entry_error(entry_at(data, count - 1)),
        }
    }
}

/// The first refused entry stays the first one when more entries are checked.
proof fn lemma_first_entry_error_sticks(data: Seq<u8>, k: int, n: int)
    requires
        0 <= k < n,
        first_entry_error(data, k) is None,
        entry_error(entry_at(data, k)) is Some,
    ensures
        first_entry_error(data, n) == entry_error(entry_at(data, k)),
    decreases n - k,
{
    if n > k + 1 {
        lemma_first_entry_error_sticks(data, k, n - 1);
    }
}

/// What a CAPS response decodes to: the header and its `count` entries, or the refusal.
pub open spec fn spec_caps_error(response: ResponseFrame, expected_start: u8) -> Option<PlotError> {
    let data = response.data@;
    if spec_plot_status(response, PLOT_CAPS) is Err {
        Some(spec_plot_status(response, PLOT_CAPS)->Err_0)
    } else if data.len() < 14 {
        Some(PlotError::MalformedCapabilitiesResponse)
    } else if data[0] != expected_start {
        Some(PlotError::CapabilityStartMismatch { expected: expected_start, actual: data[0] })
    } else if data.len() < 14 + 7 * data[2] {
        Some(PlotError::MalformedCapabilitiesResponse)
    } else if data[2] == 0 || data[3] == 0 || data[4] == 0 || data[5] == 0 {
        Some(PlotError::MalformedCapabilitiesResponse)
    } else if first_entry_error(data, data[2] as int) is Some {
        first_entry_error(data, data[2] as int)
    } else if data[1] != PLOT_CAP_END && (data[0] + data[2] > 255 || data[1] != data[0] + data[2]) {
        Some(PlotError::MalformedCapabilitiesResponse)
    } else {
        None
    }
}

/// Decodes one page of the device's Plot capability list.
pub fn parse_plot_caps_response(response: &ResponseFrame, expected_start: u8) -> (res: Result<PlotCapabilitiesPage, PlotError>)
    ensures
        match spec_caps_error(*response, expected_start) {
            Some(e) => res == Err::<PlotCapabilitiesPage, PlotError>(e),
            None => res matches Ok(page) && {
                let data = response.data@;
                &&& page.start == data[0]
                &&& page.next == (if data[1] == PLOT_CAP_END { None } else { Some(data[1]) })
                &&& page.fast_max_channels == data[3]
                &&& page.normal_max_channels == data[4]
                &&& page.fast_block_samples == data[5]
                &&& page.fast_rate_hz == le_u32(data[6], data[7], data[8], data[9])
                &&& page.normal_rate_hz == le_u32(data[10], data[11], data[12], data[13])
                &&& page.entries@.len() == data[2]
                &&& forall|i: int| 0 <= i < data[2] ==> #[trigger] page.entries@[i] == entry_at(data, i)
            },
        },
{
    parse_status(response, PLOT_CAPS)?;
    let data = &response.data;
    if data.len() < PLOT_CAP_HEADER_LEN {
        return Err(PlotError::MalformedCapabilitiesResponse);
    }
    let start = data[0];
    if start != expected_start {
        return Err(PlotError::CapabilityStartMismatch { expected: expected_start, actual: start });
    }
    let next_raw = data[1];
    let count = data[2] as usize;
    if data.len() - PLOT_CAP_HEADER_LEN < count * PLOT_CAP_ENTRY_LEN {
        return Err(PlotError::MalformedCapabilitiesResponse);
    }
    let fast_max_channels = data[3];
    let normal_max_channels = data[4];
    let fast_block_samples = data[5];
    let fast_rate_hz = read_le_u32(data[6], data[7], data[8], data[9]);
    let normal_rate_hz = read_le_u32(data[10], data[11], data[12], data[13]);
    if count == 0 || fast_max_channels == 0 || normal_max_channels == 0 || fast_block_samples == 0 {
        return Err(PlotError::MalformedCapabilitiesResponse);
    }
    let mut entries: Vec<PlotCapabilityEntry> = Vec::new();
    let mut index: usize = 0;
    while index < count
        invariant
            index <= count,
            count == data@[2],
            data@.len() >= 14 + 7 * count,
            data@ == response.data@,
            spec_plot_status(*response, PLOT_CAPS) is Ok,
            data@[0] == expected_start,
            data@[2] != 0 && data@[3] != 0 && data@[4] != 0 && data@[5] != 0,
            first_entry_error(data@, index as int) is None,
            entries@.len() == index,
            forall|i: int| 0 <= i < index ==> #[trigger] entries@[i] == entry_at(data@, i),
        decreases count - index,
    {
        let offset = PLOT_CAP_HEADER_LEN + index * PLOT_CAP_ENTRY_LEN;
        let id = read_le_u16(data[offset], data[offset + 1]);
        let modes = data[offset + 2];
        let fast_scale = read_le_u32(data[offset + 3], data[offset + 4], data[offset + 5], data[offset + 6]);
        let entry = PlotCapabilityEntry { id, modes, fast_scale };
        assert(entry == entry_at(data@, index as int));
        assert(modes & !(1u8 | 2u8) != 0 <==> modes > 3) by (bit_vector);
        if modes == 0 || modes & !(PLOT_CAP_FAST | PLOT_CAP_NORMAL) != 0 {
            proof {
                lemma_first_entry_error_sticks(data@, index as int, count as int);
            }
            return Err(PlotError::InvalidCapabilityModes { id, modes });
        }
        assert((modes & 1u8 != 0) == (modes % 2 == 1)) by (bit_vector);
        if modes & PLOT_CAP_FAST != 0 && !(0 < fast_scale && fast_scale < 0x7f80_0000) {
            proof {
                lemma_first_entry_error_sticks(data@, index as int, count as int);
            }
            return Err(PlotError::InvalidCapabilityScale { id, scale: fast_scale });
        }
        entries.push(entry);
        index = index + 1;
    }
    let next = if next_raw == PLOT_CAP_END {
        None
    } else {
        if start as u16 + count as u16 > 255 {
            return Err(PlotError::MalformedCapabilitiesResponse);
        }
        let expected_next = start + count as u8;
        if next_raw != expected_next {
            return Err(PlotError::MalformedCapabilitiesResponse);
        }
        Some(next_raw)
    };
    Ok(PlotCapabilitiesPage {
        start,
        next,
        fast_max_channels,
        normal_max_channels,
        fast_block_samples,
        fast_rate_hz,
        normal_rate_hz,
        entries,
    })
}

} // verus!
