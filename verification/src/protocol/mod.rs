//! Transport-independent AXDR request/response protocol.

pub mod action;
pub mod ids;
pub mod parameter;
pub mod plot;
pub mod router;
pub mod status;
pub mod stream;
pub mod transaction;

pub use ids::{
    EVENT_ACTION_COMPLETE, EVENT_NOTIFY, MSG_EVENT, MSG_FAST_DATA, MSG_NORMAL_DATA, MSG_PARAMETER,
    MSG_PLOT, MSG_RESPONSE, PARAM_READ, PARAM_WRITE, PLOT_CAPS, PLOT_CONFIG, PLOT_START, PLOT_STOP,
};
pub use action::{
    build_action_start, build_action_start_default, parse_action_accept, ActionError, ActionHandle,
    ActionState, ActionTracker, PARAM_ACTION_TYPE,
};
pub use parameter::{
    build_parameter_read, build_parameter_read_default, build_parameter_write, parse_parameter_read,
    parse_parameter_write, ParameterError, ParameterType, ParameterValue, PositionValue,
};
pub use plot::{
    build_plot_caps, build_plot_caps_default, build_plot_config, build_plot_config_default,
    build_plot_start, build_plot_start_default, build_plot_stop, build_plot_stop_default,
    parse_plot_caps_response, parse_plot_config_response, parse_plot_start_response,
    parse_plot_stop_response, validate_group_mask, PlotCapabilitiesPage, PlotCapabilityEntry,
    PlotError, PLOT_CAP_END, PLOT_CAP_ENTRY_LEN, PLOT_CAP_FAST, PLOT_CAP_HEADER_LEN,
    PLOT_CAP_NORMAL, PLOT_FAST_MASK, PLOT_GROUP_FAST, PLOT_GROUP_NORMAL, PLOT_NORMAL_MASK,
};
pub use router::{decode_inbound, ActionCompleteFrame, DecodeError, InboundFrame, ResponseFrame};
pub use status::AxdrStatus;
pub use stream::{
    decode_fast_data, decode_normal_data, FastDataFrame, NormalDataFrame, SequenceStatus,
    SequenceTracker, StreamDecodeError,
};
pub use transaction::{PendingRequest, TransactionError, TransactionId, TransactionTable};

use vstd::prelude::*;

verus! {

/// Node addressed when the caller does not name one.
pub const NODE_ID_DEFAULT: u8 = 1;

/// The identifier that carries `message_type` to `node_id`.
pub open spec fn spec_can_id(message_type: u8, node_id: u8) -> u16 {
    (message_type as int * 64 + node_id as int % 64) as u16
}

/// Builds a CAN identifier: message type above six node-address bits.
pub fn can_id(message_type: u8, node_id: u8) -> (res: u16)
    ensures
        res == spec_can_id(message_type, node_id),
        res as int == message_type as int * 64 + node_id as int % 64,
{
    let res: u16 = ((message_type as u16) << 6u16) | (node_id as u16 & 0x3fu16);
    assert(((message_type as u16) << 6u16) | (node_id as u16 & 0x3fu16) == (message_type as u16) * 64
        + (node_id as u16) % 64) by (bit_vector)
        requires
            message_type <= 255,
    ;
    res
}

/// Splits a CAN identifier into its five message-type bits and six node bits.
pub fn split_can_id(id: u16) -> (res: (u8, u8))
    ensures
        res.0 as int == (id as int / 64) % 32,
        res.1 as int == id as int % 64,
{
    let message = ((id >> 6u16) & 0x1fu16) as u8;
    let node = (id & 0x3fu16) as u8;
    assert(((id >> 6u16) & 0x1fu16) == (id / 64) % 32) by (bit_vector);
    assert((id & 0x3fu16) == id % 64) by (bit_vector);
    (message, node)
}

/// Splitting an identifier built by `can_id` recovers the message type (in
/// its five wire bits) and the node address (in its six wire bits).
pub proof fn lemma_split_can_id_inverts(message_type: u8, node_id: u8)
    ensures
        (spec_can_id(message_type, node_id) as int / 64) % 32 == message_type as int % 32,
        spec_can_id(message_type, node_id) as int % 64 == node_id as int % 64,
{
    let id = message_type as int * 64 + node_id as int % 64;
    assert(id < 65536);
    assert(id / 64 == message_type as int) by (nonlinear_arith)
        requires
            id == message_type as int * 64 + node_id as int % 64,
            0 <= node_id as int % 64 < 64,
    ;
    assert(id % 64 == node_id as int % 64) by (nonlinear_arith)
        requires
            id == message_type as int * 64 + node_id as int % 64,
            0 <= node_id as int % 64 < 64,
    ;
}

} // verus!
