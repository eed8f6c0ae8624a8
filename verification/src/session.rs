//! The protocol engine of a device session: what the session worker does with
//! each request, each received frame and each transport failure. The worker
//! loop that owns the transport drives it.

use vstd::prelude::*;

use crate::protocol::{
    build_action_start_default, build_parameter_read_default, build_parameter_write, build_plot_caps_default,
    build_plot_config_default, build_plot_start_default, build_plot_stop_default, decode_inbound, parse_action_accept,
    ActionError, ActionHandle, ActionTracker, AxdrStatus, DecodeError, InboundFrame, ParameterError, ParameterValue,
    PlotError, ResponseFrame, TransactionError, TransactionId, TransactionTable, MSG_PARAMETER, MSG_PLOT,
    NODE_ID_DEFAULT, PARAM_READ, PARAM_WRITE, PLOT_CAPS, PLOT_CONFIG, PLOT_START, PLOT_STOP,
};
use crate::protocol::action::handle_key;
use crate::protocol::router::{is_action_complete, message_type_of, spec_decode_response, ActionCompleteFrame};
use crate::protocol::status::spec_status_from_u8;
use crate::protocol::transaction::{lemma_slots_cover, slot, TableView};
use crate::protocol::{ActionState, MSG_EVENT, MSG_FAST_DATA, MSG_NORMAL_DATA, MSG_RESPONSE};
use crate::bytes::le_u16;
use crate::transport::TransportError;
use crate::wire::canfd::CanFdFrame;

verus! {

/// What a session tells its subscribers.
#[derive(Debug, Clone)]
pub enum SessionEvent {
    ActionCompleted { handle: ActionHandle, status: AxdrStatus },
    DeviceEvent(CanFdFrame),
    FastData(CanFdFrame),
    NormalData(CanFdFrame),
}

#[derive(Debug)]
pub enum SessionError {
    Closed,
    Timeout,
    Transport(TransportError),
    Transaction(TransactionError),
    Decode(DecodeError),
    Parameter(ParameterError),
    Action(ActionError),
    Plot(PlotError),
}

/// What one received frame means to a request waiting under a transaction.
#[derive(Debug)]
pub enum WaitStep {
    /// The awaited response; its transaction is complete.
    Response(ResponseFrame),
    /// Another frame: still waiting, with the event it yields for subscribers.
    Pending(Option<SessionEvent>),
    /// The request failed; its transaction is cancelled.
    Failed(SessionError),
}

/// The state of a session engine: its transactions and its actions.
pub struct CoreView {
    pub table: TableView,
    pub actions: Map<u32, crate::protocol::ActionState>,
}

/// Transactions and actions of one device link.
#[derive(Debug)]
pub struct SessionCore {
    transactions: TransactionTable,
    actions: ActionTracker,
}

impl View for SessionCore {
    type V = CoreView;

    closed spec fn view(&self) -> CoreView {
        CoreView { table: self.transactions@, actions: self.actions@ }
    }
}

/// `new` is `old` with transaction `txn` newly reserved for `message`/`op`.
pub open spec fn reserved(old: TableView, new: TableView, txn: u8, message: u8, op: u8) -> bool {
    &&& txn != 0
    &&& !old.pending.contains_key(txn)
    &&& new.pending == old.pending.insert(txn, crate::protocol::PendingRequest { message, op })
    &&& new.wf()
}

/// Every transaction number is in use.
pub open spec fn exhausted(t: TableView) -> bool {
    forall|n: u8| n != 0 ==> #[trigger] t.pending.contains_key(n)
}


/// What an action completion `c` does to the tracked actions and which event
/// it yields: only a tracked action is marked completed and reported.
pub open spec fn completion_outcome(
    old: Map<u32, ActionState>,
    new: Map<u32, ActionState>,
    c: ActionCompleteFrame,
    event: Option<SessionEvent>,
) -> bool {
    let key = handle_key(c.txn, c.action_id);
    if c.txn != 0 && old.contains_key(key) {
        &&& event matches Some(SessionEvent::ActionCompleted { handle, status }) && handle.txn@ == c.txn
            && handle.action_id == c.action_id && status == c.status
        &&& new == old.insert(key, ActionState::Completed(c.status))
    } else {
        event is None && new == old
    }
}

/// What a received frame that no request claims does: the event it yields
/// for subscribers, or the reason it does not decode, and what it does to the
/// tracked actions (`old` before, `new` after). Responses yield no event.
pub open spec fn frame_outcome(
    old: Map<u32, ActionState>,
    new: Map<u32, ActionState>,
    frame: CanFdFrame,
    out: Result<Option<SessionEvent>, DecodeError>,
) -> bool {
    let t = message_type_of(frame@.id);
    let data = frame@.data;
    if t == MSG_RESPONSE {
        new == old && match spec_decode_response(data) {
            Err(e) => out == Err::<Option<SessionEvent>, DecodeError>(e),
            Ok(_) => out == Ok::<Option<SessionEvent>, DecodeError>(None),
        }
    } else if is_action_complete(frame@.id, data) {
        if data.len() < 5 {
            new == old && out == Err::<Option<SessionEvent>, DecodeError>(
                DecodeError::TooShort("action-complete event"),
            )
        } else {
            match spec_status_from_u8(data[4]) {
                None => new == old && out == Err::<Option<SessionEvent>, DecodeError>(
                    DecodeError::UnknownStatus(data[4]),
                ),
                Some(status) => out matches Ok(event) && completion_outcome(
                    old,
                    new,
                    ActionCompleteFrame { txn: data[1], action_id: le_u16(data[2], data[3]), status },
                    event,
                ),
            }
        }
    } else if t == MSG_EVENT {
        new == old && out == Ok::<Option<SessionEvent>, DecodeError>(Some(SessionEvent::DeviceEvent(frame)))
    } else if t == MSG_FAST_DATA {
        new == old && out == Ok::<Option<SessionEvent>, DecodeError>(Some(SessionEvent::FastData(frame)))
    } else if t == MSG_NORMAL_DATA {
        new == old && out == Ok::<Option<SessionEvent>, DecodeError>(Some(SessionEvent::NormalData(frame)))
    } else {
        new == old && out == Ok::<Option<SessionEvent>, DecodeError>(None)
    }
}

/// Why a response echoing `message`/`op` under `txn` does not match the
/// pending requests `t`, if it does not.
pub open spec fn match_error(t: TableView, txn: u8, message: u8, op: u8) -> Option<TransactionError> {
    if !t.pending.contains_key(txn) {
        Some(TransactionError::Unknown(txn))
    } else if t.pending[txn].message != message || t.pending[txn].op != op {
        Some(
            TransactionError::ResponseMismatch {
                txn,
                expected_message: t.pending[txn].message,
                expected_op: t.pending[txn].op,
                actual_message: message,
                actual_op: op,
            },
        )
    } else {
        None
    }
}

/// A request's frame and the transaction it was sent under.
pub type Begun = (TransactionId, CanFdFrame);

impl SessionCore {
    pub fn new() -> (res: Self)
        ensures
            res@.table.wf(),
            res@.table.pending == Map::<u8, crate::protocol::PendingRequest>::empty(),
            res@.actions == Map::<u32, crate::protocol::ActionState>::empty(),
    {
        SessionCore { transactions: TransactionTable::default(), actions: ActionTracker::default() }
    }

    fn reserve(&mut self, message: u8, op: u8) -> (res: Result<TransactionId, SessionError>)
        requires
            old(self)@.table.wf(),
        ensures
            final(self)@.table.wf(),
            final(self)@.actions == old(self)@.actions,
            match res {
                Ok(txn) => reserved(old(self)@.table, final(self)@.table, txn@, message, op),
                Err(e) => e == SessionError::Transaction(TransactionError::Exhausted) && exhausted(
                    old(self)@.table,
                ) && final(self)@.table == old(self)@.table,
            },
    {
        match self.transactions.allocate(message, op) {
            Ok(txn) => {
                let raw = txn.get();
                assert(raw != 0);
                Ok(txn)
            },
            Err(error) => {
                proof {
                    assert forall|n: u8| n != 0 implies #[trigger] old(self)@.table.pending.contains_key(n) by {
                        lemma_slots_cover(old(self)@.table.next, n);
                        let k = (n as int - old(self)@.table.next as int + 255) % 255;
                        assert(old(self)@.table.pending.contains_key(slot(old(self)@.table.next, k)));
                    }
                }
                Err(SessionError::Transaction(error))
            },
        }
    }

    /// Reserves a transaction for a parameter read and builds its request.
    pub fn begin_parameter_read(&mut self, id: u16) -> (res: Result<Begun, SessionError>)
        requires
            old(self)@.table.wf(),
        ensures
            final(self)@.table.wf(),
            final(self)@.actions == old(self)@.actions,
            match res {
                Ok((txn, frame)) => reserved(old(self)@.table, final(self)@.table, txn@, MSG_PARAMETER, PARAM_READ)
                    && frame@.id == crate::protocol::spec_can_id(MSG_PARAMETER, NODE_ID_DEFAULT) && frame@.data
                    == crate::protocol::parameter::read_payload(txn@, id),
                Err(e) => e == SessionError::Transaction(TransactionError::Exhausted) && exhausted(
                    old(self)@.table,
                ) && final(self)@.table == old(self)@.table,
            },
    {
        let txn = self.reserve(MSG_PARAMETER, PARAM_READ)?;
        match build_parameter_read_default(txn, id) {
            Ok(frame) => Ok((txn, frame)),
            Err(error) => Err(SessionError::Parameter(error)),
        }
    }

    /// Reserves a transaction for a parameter write and builds its request.
    pub fn begin_parameter_write(&mut self, id: u16, value: ParameterValue) -> (res: Result<Begun, SessionError>)
        requires
            old(self)@.table.wf(),
        ensures
            final(self)@.table.wf(),
            final(self)@.actions == old(self)@.actions,
            match res {
                Ok((txn, frame)) => reserved(old(self)@.table, final(self)@.table, txn@, MSG_PARAMETER, PARAM_WRITE)
                    && frame@.id == crate::protocol::spec_can_id(MSG_PARAMETER, NODE_ID_DEFAULT) && frame@.data.take(
                    crate::protocol::parameter::write_payload(txn@, id, value).len() as int,
                ) == crate::protocol::parameter::write_payload(txn@, id, value),
                Err(e) => e == SessionError::Transaction(TransactionError::Exhausted) && exhausted(
                    old(self)@.table,
                ) && final(self)@.table == old(self)@.table,
            },
    {
        let txn = self.reserve(MSG_PARAMETER, PARAM_WRITE)?;
        match build_parameter_write(txn, id, value, NODE_ID_DEFAULT) {
            Ok(frame) => {
                let ghost payload = crate::protocol::parameter::write_payload(txn@, id, value);
                assert(frame@.data.take(payload.len() as int) == payload);
                Ok((txn, frame))
            },
            Err(error) => Err(SessionError::Parameter(error)),
        }
    }

    /// Reserves a transaction for a Plot CONFIG request and builds it. A
    /// request that cannot be built keeps its transaction reserved until the
    /// table cycles past it.
    pub fn begin_plot_config(&mut self, group: u8, config_id: u8, parameters: &[u16]) -> (res: Result<
        Begun,
        SessionError,
    >)
        requires
            old(self)@.table.wf(),
        ensures
            final(self)@.table.wf(),
            final(self)@.actions == old(self)@.actions,
            match res {
                Ok((txn, frame)) => reserved(old(self)@.table, final(self)@.table, txn@, MSG_PLOT, PLOT_CONFIG)
                    && crate::protocol::plot::config_error(group, parameters@.len() as int) is None && frame@.id
                    == crate::protocol::spec_can_id(MSG_PLOT, NODE_ID_DEFAULT) && frame@.data.take(
                    crate::protocol::plot::config_payload(txn@, group, config_id, parameters@).len() as int,
                ) == crate::protocol::plot::config_payload(txn@, group, config_id, parameters@),
                Err(SessionError::Plot(e)) => crate::protocol::plot::config_error(group, parameters@.len() as int)
                    == Some(e) && exists|t: u8|
                    #[trigger] reserved(old(self)@.table, final(self)@.table, t, MSG_PLOT, PLOT_CONFIG),
                Err(e) => e == SessionError::Transaction(TransactionError::Exhausted) && exhausted(
                    old(self)@.table,
                ) && final(self)@.table == old(self)@.table,
            },
    {
        let txn = self.reserve(MSG_PLOT, PLOT_CONFIG)?;
        match build_plot_config_default(txn, group, config_id, parameters) {
            Ok(frame) => Ok((txn, frame)),
            Err(error) => Err(SessionError::Plot(error)),
        }
    }

    /// Reserves a transaction for a Plot START request and builds it.
    pub fn begin_plot_start(&mut self, group_mask: u8) -> (res: Result<Begun, SessionError>)
        requires
            old(self)@.table.wf(),
        ensures
            final(self)@.table.wf(),
            final(self)@.actions == old(self)@.actions,
            match res {
                Ok((txn, frame)) => reserved(old(self)@.table, final(self)@.table, txn@, MSG_PLOT, PLOT_START)
                    && crate::protocol::plot::valid_group_mask(group_mask) && frame@.data == seq![
                    txn@,
                    PLOT_START,
                    group_mask,
                ],
                Err(SessionError::Plot(e)) => e == PlotError::InvalidGroupMask(group_mask)
                    && !crate::protocol::plot::valid_group_mask(group_mask) && exists|t: u8|
                    #[trigger] reserved(old(self)@.table, final(self)@.table, t, MSG_PLOT, PLOT_START),
                Err(e) => e == SessionError::Transaction(TransactionError::Exhausted) && exhausted(
                    old(self)@.table,
                ) && final(self)@.table == old(self)@.table,
            },
    {
        let txn = self.reserve(MSG_PLOT, PLOT_START)?;
        match build_plot_start_default(txn, group_mask) {
            Ok(frame) => Ok((txn, frame)),
            Err(error) => Err(SessionError::Plot(error)),
        }
    }

    /// Reserves a transaction for a Plot STOP request and builds it.
    pub fn begin_plot_stop(&mut self, group_mask: u8) -> (res: Result<Begun, SessionError>)
        requires
            old(self)@.table.wf(),
        ensures
            final(self)@.table.wf(),
            final(self)@.actions == old(self)@.actions,
            match res {
                Ok((txn, frame)) => reserved(old(self)@.table, final(self)@.table, txn@, MSG_PLOT, PLOT_STOP)
                    && crate::protocol::plot::valid_group_mask(group_mask) && frame@.data == seq![
                    txn@,
                    PLOT_STOP,
                    group_mask,
                ],
                Err(SessionError::Plot(e)) => e == PlotError::InvalidGroupMask(group_mask)
                    && !crate::protocol::plot::valid_group_mask(group_mask) && exists|t: u8|
                    #[trigger] reserved(old(self)@.table, final(self)@.table, t, MSG_PLOT, PLOT_STOP),
                Err(e) => e == SessionError::Transaction(TransactionError::Exhausted) && exhausted(
                    old(self)@.table,
                ) && final(self)@.table == old(self)@.table,
            },
    {
        let txn = self.reserve(MSG_PLOT, PLOT_STOP)?;
        match build_plot_stop_default(txn, group_mask) {
            Ok(frame) => Ok((txn, frame)),
            Err(error) => Err(SessionError::Plot(error)),
        }
    }

    /// Reserves a transaction for a Plot CAPS request for the page at `start`.
    pub fn begin_plot_caps(&mut self, start: u8) -> (res: Result<Begun, SessionError>)
        requires
            old(self)@.table.wf(),
        ensures
            final(self)@.table.wf(),
            final(self)@.actions == old(self)@.actions,
            match res {
                Ok((txn, frame)) => reserved(old(self)@.table, final(self)@.table, txn@, MSG_PLOT, PLOT_CAPS)
                    && frame@.data == seq![txn@, PLOT_CAPS, start],
                Err(e) => e == SessionError::Transaction(TransactionError::Exhausted) && exhausted(
                    old(self)@.table,
                ) && final(self)@.table == old(self)@.table,
            },
    {
        let txn = self.reserve(MSG_PLOT, PLOT_CAPS)?;
        match build_plot_caps_default(txn, start) {
            Ok(frame) => Ok((txn, frame)),
            Err(error) => Err(SessionError::Plot(error)),
        }
    }

    /// Reserves a transaction for an action start, tracks the action as
    /// awaiting acceptance, and builds the request.
    pub fn begin_action_start(&mut self, action_id: u16) -> (res: Result<(ActionHandle, CanFdFrame), SessionError>)
        requires
            old(self)@.table.wf(),
        ensures
            final(self)@.table.wf(),
            match res {
                Ok((handle, frame)) => {
                    &&& reserved(old(self)@.table, final(self)@.table, handle.txn@, MSG_PARAMETER, PARAM_WRITE)
                    &&& handle.action_id == action_id
                    &&& final(self)@.actions == old(self)@.actions.insert(
                        handle_key(handle.txn@, action_id),
                        crate::protocol::ActionState::AwaitingAcceptance,
                    )
                    &&& frame@.data == crate::protocol::action::action_start_payload(handle.txn@, action_id)
                },
                Err(e) => e == SessionError::Transaction(TransactionError::Exhausted) && exhausted(
                    old(self)@.table,
                ) && final(self)@ == old(self)@,
            },
    {
        let txn = self.reserve(MSG_PARAMETER, PARAM_WRITE)?;
        let handle = ActionHandle { txn, action_id };
        self.actions.track(handle);
        match build_action_start_default(txn, action_id) {
            Ok(frame) => Ok((handle, frame)),
            Err(error) => Err(SessionError::Action(error)),
        }
    }

    /// The request could not be sent: its transaction is cancelled.
    pub fn send_failed(&mut self, txn: TransactionId, error: TransportError) -> (res: SessionError)
        requires
            old(self)@.table.wf(),
        ensures
            final(self)@.table.wf(),
            final(self)@.table.pending == old(self)@.table.pending.remove(txn@),
            final(self)@.actions == old(self)@.actions,
            res == SessionError::Transport(error),
    {
        self.transactions.cancel(txn);
        SessionError::Transport(error)
    }

    /// The action start could not be sent: its transaction is cancelled and
    /// the action forgotten.
    pub fn action_send_failed(&mut self, handle: ActionHandle, error: TransportError) -> (res: SessionError)
        requires
            old(self)@.table.wf(),
        ensures
            final(self)@.table.wf(),
            final(self)@.table.pending == old(self)@.table.pending.remove(handle.txn@),
            final(self)@.actions == old(self)@.actions.remove(handle_key(handle.txn@, handle.action_id)),
            res == SessionError::Transport(error),
    {
        self.transactions.cancel(handle.txn);
        self.actions.remove(handle);
        SessionError::Transport(error)
    }

    /// The event a received frame yields for subscribers; an action
    /// completion is recorded and reported only for a tracked action.
    pub fn dispatch(&mut self, inbound: InboundFrame) -> (res: Option<SessionEvent>)
        ensures
            final(self)@.table == old(self)@.table,
            match inbound {
                InboundFrame::ActionComplete(c) => {
                    let key = handle_key(c.txn, c.action_id);
                    if c.txn != 0 && old(self)@.actions.contains_key(key) {
                        &&& res matches Some(SessionEvent::ActionCompleted { handle, status }) && handle.txn@ == c.txn
                            && handle.action_id == c.action_id && status == c.status
                        &&& final(self)@.actions == old(self)@.actions.insert(
                            key,
                            crate::protocol::ActionState::Completed(c.status),
                        )
                    } else {
                        res is None && final(self)@.actions == old(self)@.actions
                    }
                },
                InboundFrame::Event(f) => res == Some(SessionEvent::DeviceEvent(f)) && final(self)@.actions
                    == old(self)@.actions,
                InboundFrame::FastData(f) => res == Some(SessionEvent::FastData(f)) && final(self)@.actions
                    == old(self)@.actions,
                InboundFrame::NormalData(f) => res == Some(SessionEvent::NormalData(f)) && final(self)@.actions
                    == old(self)@.actions,
                _ => res is None && final(self)@.actions == old(self)@.actions,
            },
    {
        match inbound {
            InboundFrame::ActionComplete(completion) => match self.actions.complete(&completion) {
                Ok(handle) => Some(SessionEvent::ActionCompleted { handle, status: completion.status }),
                Err(_) => None,
            },
            InboundFrame::Event(frame) => Some(SessionEvent::DeviceEvent(frame)),
            InboundFrame::FastData(frame) => Some(SessionEvent::FastData(frame)),
            InboundFrame::NormalData(frame) => Some(SessionEvent::NormalData(frame)),
            InboundFrame::Response(_) => None,
            InboundFrame::Unknown(_) => None,
        }
    }

    /// What a frame received while no request waits yields for subscribers.
    pub fn poll_frame(&mut self, frame: CanFdFrame) -> (res: Result<Option<SessionEvent>, SessionError>)
        ensures
            final(self)@.table == old(self)@.table,
            match res {
                Ok(event) => frame_outcome(old(self)@.actions, final(self)@.actions, frame, Ok(event)),
                Err(SessionError::Decode(e)) => frame_outcome(old(self)@.actions, final(self)@.actions, frame, Err(e)),
                Err(_) => false,
            },
    {
        let inbound = match decode_inbound(frame) {
            Ok(inbound) => inbound,
            Err(error) => return Err(SessionError::Decode(error)),
        };
        Ok(self.dispatch(inbound))
    }

    /// Handles a frame received while the request under `txn` waits: the
    /// matching response completes it; an undecodable frame or a response that
    /// does not match the request fails it; anything else is dispatched.
    pub fn wait_step(&mut self, txn: TransactionId, frame: CanFdFrame) -> (res: WaitStep)
        requires
            old(self)@.table.wf(),
        ensures
            final(self)@.table.wf(),
            message_type_of(frame@.id) == MSG_RESPONSE ==> match spec_decode_response(frame@.data) {
                Err(d) => res matches WaitStep::Failed(e) && e == SessionError::Decode(d)
                    && final(self)@.table.pending == old(self)@.table.pending.remove(txn@) && final(self)@.actions
                    == old(self)@.actions,
                Ok((rtxn, message, op, status, rest)) => if rtxn != txn@ {
                    res matches WaitStep::Pending(event) && event is None && final(self)@.table
                        == old(self)@.table && final(self)@.actions == old(self)@.actions
                } else {
                    &&& final(self)@.table.pending == old(self)@.table.pending.remove(txn@)
                    &&& final(self)@.actions == old(self)@.actions
                    &&& match match_error(old(self)@.table, rtxn, message, op) {
                        Some(te) => res matches WaitStep::Failed(e) && e == SessionError::Transaction(te),
                        None => res matches WaitStep::Response(r) && r.txn == rtxn && r.request_message
                            == message && r.request_op == op && r.status == status && r.data@ == rest,
                    }
                },
            },
            message_type_of(frame@.id) != MSG_RESPONSE ==> match res {
                WaitStep::Failed(e) => e matches SessionError::Decode(d) && frame_outcome(
                    old(self)@.actions,
                    final(self)@.actions,
                    frame,
                    Err(d),
                ) && final(self)@.table.pending == old(self)@.table.pending.remove(txn@),
                WaitStep::Pending(event) => frame_outcome(old(self)@.actions, final(self)@.actions, frame, Ok(event))
                    && final(self)@.table == old(self)@.table,
                WaitStep::Response(_) => false,
            },
    {
        let inbound = match decode_inbound(frame) {
            Ok(inbound) => inbound,
            Err(error) => {
                self.transactions.cancel(txn);
                return WaitStep::Failed(SessionError::Decode(error));
            },
        };
        match inbound {
            InboundFrame::Response(response) => {
                if response.txn == txn.get() {
                    match self.transactions.complete(&response) {
                        Ok(_) => WaitStep::Response(response),
                        Err(error) => {
                            self.transactions.cancel(txn);
                            WaitStep::Failed(SessionError::Transaction(error))
                        },
                    }
                } else {
                    WaitStep::Pending(self.dispatch(InboundFrame::Response(response)))
                }
            },
            other => WaitStep::Pending(self.dispatch(other)),
        }
    }

    /// Receiving failed while the request under `txn` waited: the
    /// transaction is cancelled and the failure reported.
    pub fn receive_failed(&mut self, txn: TransactionId, error: TransportError) -> (res: SessionError)
        requires
            old(self)@.table.wf(),
        ensures
            final(self)@.table.wf(),
            final(self)@.table.pending == old(self)@.table.pending.remove(txn@),
            final(self)@.actions == old(self)@.actions,
            error is Timeout ==> res is Timeout,
            !(error is Timeout) ==> res == SessionError::Transport(error),
    {
        self.transactions.cancel(txn);
        match error {
            TransportError::Timeout => SessionError::Timeout,
            other => SessionError::Transport(other),
        }
    }

    /// The request under `txn` ran out of time: its transaction is cancelled.
    pub fn expired(&mut self, txn: TransactionId) -> (res: SessionError)
        requires
            old(self)@.table.wf(),
        ensures
            final(self)@.table.wf(),
            final(self)@.table.pending == old(self)@.table.pending.remove(txn@),
            final(self)@.actions == old(self)@.actions,
            res is Timeout,
    {
        self.transactions.cancel(txn);
        SessionError::Timeout
    }

    /// Ends an action start with the outcome of waiting for its response: an
    /// accepted start is marked running; any failure forgets the action.
    pub fn finish_action_start(&mut self, handle: ActionHandle, reply: Result<ResponseFrame, SessionError>) -> (res:
        Result<ActionHandle, SessionError>)
        ensures
            final(self)@.table == old(self)@.table,
            ({
                let key = handle_key(handle.txn@, handle.action_id);
                match reply {
                    Err(e) => res matches Err(r) && r == e && final(self)@.actions == old(self)@.actions.remove(key),
                    Ok(r) => match crate::protocol::action::spec_action_accept(r, handle.action_id) {
                        Err(e) => res matches Err(SessionError::Action(a)) && a == e && final(self)@.actions
                            == old(self)@.actions.remove(key),
                        Ok(_) => res matches Ok(h) && h == handle && final(self)@.actions == (if old(
                            self,
                        )@.actions.contains_key(key) && old(self)@.actions[key]
                            == crate::protocol::ActionState::AwaitingAcceptance {
                            old(self)@.actions.insert(key, crate::protocol::ActionState::Running)
                        } else {
                            old(self)@.actions
                        }),
                    },
                }
            }),
    {
        let response = match reply {
            Ok(response) => response,
            Err(error) => {
                self.actions.remove(handle);
                return Err(error);
            },
        };
        if let Err(error) = parse_action_accept(&response, handle.action_id) {
            self.actions.remove(handle);
            return Err(SessionError::Action(error));
        }
        self.actions.accepted(handle);
        Ok(handle)
    }

    /// Requests awaiting a response.
    pub fn pending_requests(&self) -> (res: usize)
        ensures
            res == self@.table.pending.len(),
    {
        self.transactions.len()
    }
}

} // verus!
