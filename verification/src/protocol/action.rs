use std::collections::HashMap;

use vstd::prelude::*;

use crate::bytes::{hi_byte, le_u16, lo_byte, read_le_u16};
use crate::wire::canfd::{CanFdError, CanFdFrame};

use super::ids::{MSG_PARAMETER, PARAM_WRITE};
use super::router::{ActionCompleteFrame, ResponseFrame};
use super::status::AxdrStatus;
use super::transaction::TransactionId;
use super::{can_id, spec_can_id, NODE_ID_DEFAULT};

verus! {

broadcast use vstd::std_specs::hash::group_hash_axioms;

/// Parameter type byte that marks a write as an action start.
pub const PARAM_ACTION_TYPE: u8 = 6;

/// Identifies one started action: the transaction that started it and its ID.
#[derive(Debug, Clone, Copy, PartialEq, Eq, Hash)]
pub struct ActionHandle {
    pub txn: TransactionId,
    pub action_id: u16,
}

#[derive(Debug, Clone, Copy, PartialEq, Eq, Structural)]
pub enum ActionState {
    AwaitingAcceptance,
    Running,
    Completed(AxdrStatus),
}

#[derive(Debug, Clone, Copy, PartialEq, Eq, Structural)]
pub enum ActionError {
    Frame(CanFdError),
    InvalidLength,
    IdMismatch { expected: u16, actual: u16 },
    Status(AxdrStatus),
    UnknownCompletion,
}

/// The payload that starts `action_id` under transaction `txn`.
pub open spec fn action_start_payload(txn: u8, action_id: u16) -> Seq<u8> {
    seq![txn, PARAM_WRITE, lo_byte(action_id), hi_byte(action_id), PARAM_ACTION_TYPE]
}

/// Builds the request that starts an action on `node_id`.
pub fn build_action_start(txn: TransactionId, action_id: u16, node_id: u8) -> (res: Result<CanFdFrame, ActionError>)
    ensures
        res matches Ok(frame) && frame@.id == spec_can_id(MSG_PARAMETER, node_id) && frame@.data
            == action_start_payload(txn@, action_id),
{
    let payload = vec![txn.get(), PARAM_WRITE, (action_id % 256) as u8, (action_id / 256) as u8, PARAM_ACTION_TYPE];
    let id = can_id(MSG_PARAMETER, node_id);
    match CanFdFrame::new(id, payload.as_slice()) {
        Ok(frame) => {
            assert(payload@ + crate::wire::canfd::zeros(0) =~= action_start_payload(txn@, action_id));
            Ok(frame)
        },
        Err(error) => Err(ActionError::Frame(error)),
    }
}

pub fn build_action_start_default(txn: TransactionId, action_id: u16) -> (res: Result<CanFdFrame, ActionError>)
    ensures
        res matches Ok(frame) && frame@.id == spec_can_id(MSG_PARAMETER, NODE_ID_DEFAULT) && frame@.data
            == action_start_payload(txn@, action_id),
{
    build_action_start(txn, action_id, NODE_ID_DEFAULT)
}

/// What the acceptance of an action start says, given the response.
pub open spec fn spec_action_accept(response: ResponseFrame, action_id: u16) -> Result<(), ActionError> {
    if response.status != AxdrStatus::Success {
        Err(ActionError::Status(response.status))
    } else if response.data@.len() < 2 {
        Err(ActionError::InvalidLength)
    } else if le_u16(response.data@[0], response.data@[1]) != action_id {
        Err(ActionError::IdMismatch { expected: action_id, actual: le_u16(response.data@[0], response.data@[1]) })
    } else {
        Ok(())
    }
}

/// Checks that the device accepted the start of `action_id`.
pub fn parse_action_accept(response: &ResponseFrame, action_id: u16) -> (res: Result<(), ActionError>)
    ensures
        res == spec_action_accept(*response, action_id),
{
    if response.status != AxdrStatus::Success {
        return Err(ActionError::Status(response.status));
    }
    if response.data.len() < 2 {
        return Err(ActionError::InvalidLength);
    }
    let actual_id = read_le_u16(response.data[0], response.data[1]);
    if actual_id != action_id {
        return Err(ActionError::IdMismatch { expected: action_id, actual: actual_id });
    }
    Ok(())
}

/// The key under which a handle's state is kept.
pub open spec fn handle_key(txn: u8, action_id: u16) -> u32 {
    (txn as int * 65536 + action_id as int) as u32
}

fn key_of(txn: u8, action_id: u16) -> (res: u32)
    ensures
        res == handle_key(txn, action_id),
{
    txn as u32 * 65536 + action_id as u32
}

/// Lifecycle of every action started on a link.
#[derive(Debug)]
pub struct ActionTracker {
    states: HashMap<u32, ActionState>,
}

impl View for ActionTracker {
    type V = Map<u32, ActionState>;

    /// Action states by `handle_key`.
    closed spec fn view(&self) -> Map<u32, ActionState> {
        self.states@
    }
}

impl Default for ActionTracker {
    fn default() -> (res: Self)
        ensures
            res@ == Map::<u32, ActionState>::empty(),
    {
        ActionTracker { states: HashMap::new() }
    }
}

impl ActionTracker {
    /// Starts tracking an action that awaits acceptance.
    pub fn track(&mut self, handle: ActionHandle)
        ensures
            final(self)@ == old(self)@.insert(
                handle_key(handle.txn@, handle.action_id),
                ActionState::AwaitingAcceptance,
            ),
    {
        let key = key_of(handle.txn.get(), handle.action_id);
        self.states.insert(key, ActionState::AwaitingAcceptance);
    }

    /// Records the acceptance of an action, unless it already completed.
    pub fn accepted(&mut self, handle: ActionHandle)
        ensures
            ({
                let key = handle_key(handle.txn@, handle.action_id);
                if old(self)@.contains_key(key) && old(self)@[key] == ActionState::AwaitingAcceptance {
                    final(self)@ == old(self)@.insert(key, ActionState::Running)
                } else {
                    final(self)@ == old(self)@
                }
            }),
    {
        let key = key_of(handle.txn.get(), handle.action_id);
        let awaiting = match self.states.get(&key) {
            Some(state) => *state == ActionState::AwaitingAcceptance,
            None => false,
        };
        if awaiting {
            self.states.insert(key, ActionState::Running);
        }
    }

    /// Records the completion event of a tracked action.
    pub fn complete(&mut self, event: &ActionCompleteFrame) -> (res: Result<ActionHandle, ActionError>)
        ensures
            ({
                let key = handle_key(event.txn, event.action_id);
                if event.txn != 0 && old(self)@.contains_key(key) {
                    &&& res matches Ok(handle) && handle.txn@ == event.txn && handle.action_id
                        == event.action_id
                    &&& final(self)@ == old(self)@.insert(key, ActionState::Completed(event.status))
                } else {
                    &&& res == Err::<ActionHandle, ActionError>(ActionError::UnknownCompletion)
                    &&& final(self)@ == old(self)@
                }
            }),
    {
        if event.txn == 0 {
            return Err(ActionError::UnknownCompletion);
        }
        let key = key_of(event.txn, event.action_id);
        if !self.states.contains_key(&key) {
            return Err(ActionError::UnknownCompletion);
        }
        self.states.insert(key, ActionState::Completed(event.status));
        Ok(ActionHandle { txn: TransactionId::from_raw(event.txn), action_id: event.action_id })
    }

    /// The current state of an action, if it is tracked.
    pub fn state(&self, handle: ActionHandle) -> (res: Option<ActionState>)
        ensures
            ({
                let key = handle_key(handle.txn@, handle.action_id);
                if self@.contains_key(key) {
                    res == Some(self@[key])
                } else {
                    res == None::<ActionState>
                }
            }),
    {
        let key = key_of(handle.txn.get(), handle.action_id);
        match self.states.get(&key) {
            Some(state) => Some(*state),
            None => None,
        }
    }

    /// Stops tracking an action and returns its last state.
    pub fn remove(&mut self, handle: ActionHandle) -> (res: Option<ActionState>)
        ensures
            ({
                let key = handle_key(handle.txn@, handle.action_id);
                &&& final(self)@ == old(self)@.remove(key)
                &&& if old(self)@.contains_key(key) {
                    res == Some(old(self)@[key])
                } else {
                    res == None::<ActionState>
                }
            }),
    {
        let key = key_of(handle.txn.get(), handle.action_id);
        self.states.remove(&key)
    }
}

/// Distinct handles are tracked under distinct keys.
pub proof fn lemma_handle_key_injective(t1: u8, a1: u16, t2: u8, a2: u16)
    ensures
        handle_key(t1, a1) == handle_key(t2, a2) ==> t1 == t2 && a1 == a2,
{
}

/// Once an action has completed, a late acceptance leaves it completed.
pub proof fn lemma_late_accept_keeps_completion(before: Map<u32, ActionState>, key: u32, status: AxdrStatus)
    ensures
        ({
            let completed = before.insert(key, ActionState::Completed(status));
            !(completed.contains_key(key) && completed[key] == ActionState::AwaitingAcceptance)
                && completed[key] == ActionState::Completed(status)
        }),
{
}

} // verus!
