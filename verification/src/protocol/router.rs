use vstd::prelude::*;

use crate::bytes::{copy_range, le_u16, read_le_u16};
use crate::wire::canfd::CanFdFrame;

use super::ids::{EVENT_ACTION_COMPLETE, MSG_EVENT, MSG_FAST_DATA, MSG_NORMAL_DATA, MSG_RESPONSE};
use super::split_can_id;
use super::status::{spec_status_from_u8, AxdrStatus};

verus! {

#[derive(Debug, Clone, PartialEq, Eq)]
pub enum DecodeError {
    /// The payload is too short for the named kind of frame.
    TooShort(&'static str),
    /// The status byte is not an AXDR status.
    UnknownStatus(u8),
}

/// Reply to a request, matched to it by transaction number and message/op.
#[derive(Debug, Clone, PartialEq, Eq)]
pub struct ResponseFrame {
    pub txn: u8,
    pub request_message: u8,
    pub request_op: u8,
    pub status: AxdrStatus,
    pub data: Vec<u8>,
}

/// Asynchronous completion of a long-running action.
#[derive(Debug, Clone, Copy, PartialEq, Eq, Structural)]
pub struct ActionCompleteFrame {
    pub txn: u8,
    pub action_id: u16,
    pub status: AxdrStatus,
}

/// A received frame, classified by message type.
#[derive(Debug, Clone, PartialEq, Eq)]
pub enum InboundFrame {
    Response(ResponseFrame),
    ActionComplete(ActionCompleteFrame),
    Event(CanFdFrame),
    FastData(CanFdFrame),
    NormalData(CanFdFrame),
    Unknown(CanFdFrame),
}

/// The message type carried in a CAN identifier.
pub open spec fn message_type_of(id: u16) -> int {
    (id as int / 64) % 32
}

/// What `decode_inbound` returns for a frame with identifier `id` and data `data`.
pub open spec fn spec_decode_response(data: Seq<u8>) -> Result<(u8, u8, u8, AxdrStatus, Seq<u8>), DecodeError> {
    if data.len() < 4 {
        Err(DecodeError::TooShort("response"))
    } else {
        match spec_status_from_u8(data[3]) {
            None => Err(DecodeError::UnknownStatus(data[3])),
            Some(status) => Ok((data[0], data[1], data[2], status, data.skip(4))),
        }
    }
}

/// Whether a frame is an action-completion event.
pub open spec fn is_action_complete(id: u16, data: Seq<u8>) -> bool {
    message_type_of(id) == MSG_EVENT && data.len() > 0 && data[0] == EVENT_ACTION_COMPLETE
}

/// Classifies a received frame and decodes responses and action completions.
pub fn decode_inbound(frame: CanFdFrame) -> (res: Result<InboundFrame, DecodeError>)
    ensures
        message_type_of(frame@.id) == MSG_RESPONSE ==> match spec_decode_response(frame@.data) {
            Err(e) => res == Err::<InboundFrame, DecodeError>(e),
            Ok((txn, message, op, status, rest)) => res matches Ok(InboundFrame::Response(r)) && r.txn
                == txn && r.request_message == message && r.request_op == op && r.status == status
                && r.data@ == rest,
        },
        is_action_complete(frame@.id, frame@.data) ==> {
            let data = frame@.data;
            if data.len() < 5 {
                res == Err::<InboundFrame, DecodeError>(DecodeError::TooShort("action-complete event"))
            } else {
                match spec_status_from_u8(data[4]) {
                    None => res == Err::<InboundFrame, DecodeError>(DecodeError::UnknownStatus(data[4])),
                    Some(status) => res == Ok::<InboundFrame, DecodeError>(
                        InboundFrame::ActionComplete(
                            ActionCompleteFrame { txn: data[1], action_id: le_u16(data[2], data[3]), status },
                        ),
                    ),
                }
            }
        },
        message_type_of(frame@.id) == MSG_EVENT && !is_action_complete(frame@.id, frame@.data) ==> res
            == Ok::<InboundFrame, DecodeError>(InboundFrame::Event(frame)),
        message_type_of(frame@.id) == MSG_FAST_DATA ==> res == Ok::<InboundFrame, DecodeError>(
            InboundFrame::FastData(frame),
        ),
        message_type_of(frame@.id) == MSG_NORMAL_DATA ==> res == Ok::<InboundFrame, DecodeError>(
            InboundFrame::NormalData(frame),
        ),
        message_type_of(frame@.id) != MSG_RESPONSE && message_type_of(frame@.id) != MSG_EVENT
            && message_type_of(frame@.id) != MSG_FAST_DATA && message_type_of(frame@.id)
            != MSG_NORMAL_DATA ==> res == Ok::<InboundFrame, DecodeError>(InboundFrame::Unknown(frame)),
{
    let (message_type, _) = split_can_id(frame.id_of());
    let data = frame.data();
    if message_type == MSG_RESPONSE {
        if data.len() < 4 {
            return Err(DecodeError::TooShort("response"));
        }
        let status = match AxdrStatus::from_u8(data[3]) {
            Ok(status) => status,
            Err(value) => return Err(DecodeError::UnknownStatus(value)),
        };
        let rest = copy_range(data, 4, data.len());
        assert(rest@ =~= data@.skip(4));
        Ok(InboundFrame::Response(ResponseFrame {
            txn: data[0],
            request_message: data[1],
            request_op: data[2],
            status,
            data: rest,
        }))
    } else if message_type == MSG_EVENT && data.len() > 0 && data[0] == EVENT_ACTION_COMPLETE {
        if data.len() < 5 {
            return Err(DecodeError::TooShort("action-complete event"));
        }
        let status = match AxdrStatus::from_u8(data[4]) {
            Ok(status) => status,
            Err(value) => return Err(DecodeError::UnknownStatus(value)),
        };
        Ok(InboundFrame::ActionComplete(ActionCompleteFrame {
            txn: data[1],
            action_id: read_le_u16(data[2], data[3]),
            status,
        }))
    } else if message_type == MSG_EVENT {
        Ok(InboundFrame::Event(frame))
    } else if message_type == MSG_FAST_DATA {
        Ok(InboundFrame::FastData(frame))
    } else if message_type == MSG_NORMAL_DATA {
        Ok(InboundFrame::NormalData(frame))
    } else {
        Ok(InboundFrame::Unknown(frame))
    }
}

} // verus!
