//! The session: the state of one connection. It hands out operation ids,
//! keeps the table of flows that wait for the peer, queues what is to be
//! sent, and decides what becomes of each payload that arrives.

use std::collections::VecDeque;
use vstd::prelude::*;

use crate::error::Error;
use crate::error::ProtocolError;
use crate::flow::ping::PingOperation;
use crate::flow::status::StatusOperation;
use crate::flow::FlowDescriptor;
use crate::flow::MuchsyncProtocolFlow;
use crate::operation::MessageKind;
use crate::operation::MuchsyncProtocolMessage;
use crate::operation::Operation;
use crate::operation::OperationView;
use crate::operation::Payload;
use crate::operation::PayloadView;
use crate::operation::Ping;
use crate::operation::PingReply;

verus! {

/// `DashMap` of dashmap: a concurrent hash map. What it holds is known by
/// [`pending_entries`] alone.
#[verifier::external_type_specification]
#[verifier::external_body]
#[verifier::reject_recursive_types(K)]
#[verifier::reject_recursive_types(V)]
#[verifier::reject_recursive_types(S)]
pub struct ExDashMap<K, V, S>(dashmap::DashMap<K, V, S>);

/// `Uuid` of uuid. It is carried, and never looked into.
#[verifier::external_type_specification]
#[verifier::external_body]
pub struct ExUuid(uuid::Uuid);

/// What a flow in the table of a session waits for.
#[derive(Clone, Copy, Debug, PartialEq, Eq, Structural)]
pub enum WaitingState {
    /// The start was sent and the response has not arrived. The caller who
    /// takes the response is found by the operation id.
    WaitingForResponse,
    /// The start of the peer was answered, and its completion is due.
    WaitingForCompletion,
}

/// What a table of waiting flows holds: the state of each operation id in
/// it.
pub uninterp spec fn pending_entries(table: dashmap::DashMap<u64, WaitingState>) -> Map<
    u64,
    WaitingState,
>;

/// `DashMap::new` of dashmap: a table that holds nothing.
#[verifier::external_body]
fn pending_new() -> (table: dashmap::DashMap<u64, WaitingState>)
    ensures
        pending_entries(table) == (Map::<u64, WaitingState>::empty()),
{
    dashmap::DashMap::new()
}

/// `DashMap::insert` of dashmap: puts `state` under `op_id`, in place of
/// what stood there, and returns what stood there. The table is taken by
/// `&mut`, so nobody else changes it meanwhile.
#[verifier::external_body]
fn pending_insert(
    table: &mut dashmap::DashMap<u64, WaitingState>,
    op_id: u64,
    state: WaitingState,
) -> (previous: Option<WaitingState>)
    ensures
        pending_entries(*final(table)) == pending_entries(*old(table)).insert(op_id, state),
        previous == (if pending_entries(*old(table)).contains_key(op_id) {
            Some(pending_entries(*old(table))[op_id])
        } else {
            None
        }),
{
    table.insert(op_id, state)
}

/// `DashMap::remove` of dashmap: takes the entry of `op_id` out and returns
/// its state, or returns `None` and leaves the table as it is where there is
/// no such entry.
#[verifier::external_body]
fn pending_remove(table: &mut dashmap::DashMap<u64, WaitingState>, op_id: u64) -> (removed: Option<
    WaitingState,
>)
    ensures
        pending_entries(*final(table)) == pending_entries(*old(table)).remove(op_id),
        removed == (if pending_entries(*old(table)).contains_key(op_id) {
            Some(pending_entries(*old(table))[op_id])
        } else {
            None
        }),
{
    table.remove(&op_id).map(|entry| entry.1)
}

/// `DashMap::get` of dashmap: the state that stands under `op_id`, if any.
#[verifier::external_body]
fn pending_get(table: &dashmap::DashMap<u64, WaitingState>, op_id: u64) -> (found: Option<
    WaitingState,
>)
    ensures
        found == (if pending_entries(*table).contains_key(op_id) {
            Some(pending_entries(*table)[op_id])
        } else {
            None
        }),
{
    match table.get(&op_id) {
        Some(entry) => Some(*entry),
        None => None,
    }
}

/// The mathematical value of a [`SendBuffer`].
pub ghost struct SendBufferView {
    /// The next operation id that is handed out.
    pub next_op_id: u32,
    /// The payloads that wait to be sent, the next one first.
    pub queue: Seq<PayloadView>,
}

/// A call that changes a send buffer.
pub ghost enum BufferCall {
    /// `push_new_operation` with this operation.
    PushNewOperation(OperationView),
    /// `push_payload` with this payload.
    PushPayload(PayloadView),
    /// `pop_front`.
    PopFront,
}

impl SendBufferView {
    /// The id that the next new operation gets, if one is left.
    pub open spec fn fresh_op_id(self) -> Option<u64> {
        if self.next_op_id < u32::MAX {
            Some(self.next_op_id as u64)
        } else {
            None
        }
    }

    /// The buffer after `call`.
    pub open spec fn after(self, call: BufferCall) -> SendBufferView {
        match call {
            BufferCall::PushNewOperation(operation) => match self.fresh_op_id() {
                Some(op_id) => SendBufferView {
                    next_op_id: (self.next_op_id + 1) as u32,
                    queue: self.queue.push(PayloadView { op_id, operation }),
                },
                None => self,
            },
            BufferCall::PushPayload(payload) => SendBufferView {
                queue: self.queue.push(payload),
                ..self
            },
            BufferCall::PopFront => if self.queue.len() > 0 {
                SendBufferView { queue: self.queue.subrange(1, self.queue.len() as int), ..self }
            } else {
                self
            },
        }
    }

    /// The buffer after the calls of `calls`, one after the other.
    pub open spec fn after_all(self, calls: Seq<BufferCall>) -> SendBufferView
        decreases calls.len(),
    {
        if calls.len() == 0 {
            self
        } else {
            self.after_all(calls.drop_last()).after(calls.last())
        }
    }
}

/// No call lowers the next operation id of a send buffer, whatever calls
/// are made and in whatever order.
pub proof fn next_op_id_never_falls(buffer: SendBufferView, calls: Seq<BufferCall>)
    ensures
        buffer.next_op_id <= buffer.after_all(calls).next_op_id,
    decreases calls.len(),
{
    if calls.len() > 0 {
        next_op_id_never_falls(buffer, calls.drop_last());
    }
}

/// The operation ids that a send buffer hands out are strictly increasing,
/// and so pairwise distinct for the life of the buffer: an id that is handed
/// out after another, with any calls in between, is greater than the
/// other, and each of them is below the last value of 32 bits.
pub proof fn op_ids_are_strictly_increasing(
    buffer: SendBufferView,
    first: OperationView,
    calls: Seq<BufferCall>,
)
    requires
        buffer.fresh_op_id() is Some,
        buffer.after(BufferCall::PushNewOperation(first)).after_all(calls).fresh_op_id() is Some,
    ensures
        buffer.fresh_op_id()->Some_0 < buffer.after(BufferCall::PushNewOperation(first)).after_all(
            calls,
        ).fresh_op_id()->Some_0,
        buffer.after(BufferCall::PushNewOperation(first)).after_all(
            calls,
        ).fresh_op_id()->Some_0 <= u32::MAX - 1,
{
    next_op_id_never_falls(buffer.after(BufferCall::PushNewOperation(first)), calls);
}

/// The payloads that wait to be sent, first in first out, and the next
/// operation id to hand out.
pub struct SendBuffer {
    next_op_id: u32,
    buffer: VecDeque<Payload>,
}

impl View for SendBuffer {
    type V = SendBufferView;

    open spec fn view(&self) -> SendBufferView {
        SendBufferView { next_op_id: self.next_id(), queue: self.queue() }
    }
}

impl SendBuffer {
    /// The next operation id that is handed out.
    pub closed spec fn next_id(&self) -> u32 {
        self.next_op_id
    }

    /// The payloads that wait to be sent, the next one first.
    pub closed spec fn queue(&self) -> Seq<PayloadView> {
        self.buffer@.map_values(|payload: Payload| payload@)
    }

    /// An empty buffer that hands out the ids from 0 on.
    pub fn new() -> (buffer: Self)
        ensures
            buffer.next_id() == 0,
            buffer.queue() == Seq::<PayloadView>::empty(),
    {
        Self::starting_at(0)
    }

    /// An empty buffer that hands out the ids from `next_op_id` on.
    pub fn starting_at(next_op_id: u32) -> (buffer: Self)
        ensures
            buffer.next_id() == next_op_id,
            buffer.queue() == Seq::<PayloadView>::empty(),
    {
        let buffer = SendBuffer { next_op_id, buffer: VecDeque::new() };
        assert(buffer.queue() =~= Seq::<PayloadView>::empty());
        buffer
    }

    /// The id that the next new operation gets, or `None` where every id
    /// has been handed out.
    pub fn peek_op_id(&self) -> (op_id: Option<u64>)
        ensures
            op_id == (if self.next_id() < u32::MAX {
                Some(self.next_id() as u64)
            } else {
                None
            }),
    {
        if self.next_op_id < u32::MAX {
            Some(self.next_op_id as u64)
        } else {
            None
        }
    }

    /// Gives `operation` a fresh id and queues it. Where every id has been
    /// handed out, nothing is queued.
    pub fn push_new_operation(&mut self, operation: Operation) -> (result: Result<
        u64,
        ProtocolError,
    >)
        ensures
            final(self)@ == old(self)@.after(BufferCall::PushNewOperation(operation@)),
            old(self).next_id() < u32::MAX ==> {
                &&& result == Ok::<u64, ProtocolError>(old(self).next_id() as u64)
                &&& final(self).next_id() == old(self).next_id() + 1
                &&& final(self).queue() == old(self).queue().push(
                    PayloadView { op_id: old(self).next_id() as u64, operation: operation@ },
                )
            },
            old(self).next_id() == u32::MAX ==> {
                &&& result == Err::<u64, ProtocolError>(ProtocolError::OpIdExhausted)
                &&& final(self).next_id() == old(self).next_id()
                &&& final(self).queue() == old(self).queue()
            },
    {
        match self.next_op_id.checked_add(1) {
            Some(following) => {
                let op_id = self.next_op_id as u64;
                self.next_op_id = following;
                self.push_payload(Payload { op_id, operation });
                Ok(op_id)
            },
            None => Err(ProtocolError::OpIdExhausted),
        }
    }

    /// Queues `payload` behind what waits already.
    pub fn push_payload(&mut self, payload: Payload)
        ensures
            final(self)@ == old(self)@.after(BufferCall::PushPayload(payload@)),
            final(self).next_id() == old(self).next_id(),
            final(self).queue() == old(self).queue().push(payload@),
    {
        self.buffer.push_back(payload);
        assert(self.queue() =~= old(self).queue().push(payload@));
    }

    /// The payload that is to be sent next. It stays in the buffer.
    pub fn next(&self) -> (front: Option<&Payload>)
        ensures
            match front {
                Some(payload) => self.queue().len() > 0 && payload@ == self.queue()[0],
                None => self.queue().len() == 0,
            },
    {
        if self.buffer.len() > 0 {
            Some(&self.buffer[0])
        } else {
            None
        }
    }

    /// Drops the payload that was to be sent next, if there is one.
    pub fn pop_front(&mut self)
        ensures
            final(self)@ == old(self)@.after(BufferCall::PopFront),
            final(self).next_id() == old(self).next_id(),
            final(self).queue() == (if old(self).queue().len() > 0 {
                old(self).queue().subrange(1, old(self).queue().len() as int)
            } else {
                old(self).queue()
            }),
    {
        let _ = self.buffer.pop_front();
        assert(self.queue() =~= (if old(self).queue().len() > 0 {
            old(self).queue().subrange(1, old(self).queue().len() as int)
        } else {
            old(self).queue()
        }));
    }
}

/// What a message is to a session, by its kind.
#[derive(Clone, Copy, Debug, PartialEq, Eq, Structural)]
pub enum MessageClass {
    /// The start of a flow that this peer serves.
    Start,
    /// The completion of a flow that this peer serves.
    Completion,
    /// The response of a flow that this peer initiates.
    Response,
    /// Nothing that this peer handles.
    Unhandled,
}

/// Whether some flow of `flows` starts with a message of `kind`.
pub open spec fn starts_flow(flows: Seq<FlowDescriptor>, kind: MessageKind) -> bool {
    exists|i: int| 0 <= i < flows.len() && (#[trigger] flows[i]).start == kind
}

/// Whether some flow of `flows` is completed by a message of `kind`.
pub open spec fn completes_flow(flows: Seq<FlowDescriptor>, kind: MessageKind) -> bool {
    exists|i: int| 0 <= i < flows.len() && (#[trigger] flows[i]).complete == Some(kind)
}

/// Whether some flow of `flows` is answered by a message of `kind`.
pub open spec fn answers_flow(flows: Seq<FlowDescriptor>, kind: MessageKind) -> bool {
    exists|i: int| 0 <= i < flows.len() && (#[trigger] flows[i]).response == kind
}

/// What a message of `kind` is to a peer that serves the flows of
/// `receiving` and initiates those of `sending`.
pub open spec fn classify(
    receiving: Seq<FlowDescriptor>,
    sending: Seq<FlowDescriptor>,
    kind: MessageKind,
) -> MessageClass {
    if starts_flow(receiving, kind) {
        MessageClass::Start
    } else if completes_flow(receiving, kind) {
        MessageClass::Completion
    } else if answers_flow(sending, kind) {
        MessageClass::Response
    } else {
        MessageClass::Unhandled
    }
}

/// What is to be done with a payload that has arrived.
#[derive(Debug, PartialEq, Eq)]
pub enum Incoming {
    /// It starts a flow that this peer serves and that the session does not
    /// answer by itself: it is to be handled, and the flow answered.
    Start(Payload),
    /// It started a flow that the session answers by itself: the response is
    /// queued, and the flow waits for its completion.
    Answered { op_id: u64 },
    /// It completed the flow of this id, which is over.
    Completed { op_id: u64 },
    /// It answers the flow of its id: it goes to the caller who waits for
    /// it.
    Response(Payload),
    /// It is nothing that this peer handles, and is dropped.
    Dropped(Payload),
}

/// The mathematical value of an [`Incoming`].
pub ghost enum IncomingView {
    Start(PayloadView),
    Answered { op_id: u64 },
    Completed { op_id: u64 },
    Response(PayloadView),
    Dropped(PayloadView),
}

impl View for Incoming {
    type V = IncomingView;

    open spec fn view(&self) -> IncomingView {
        match *self {
            Incoming::Start(payload) => IncomingView::Start(payload@),
            Incoming::Answered { op_id } => IncomingView::Answered { op_id },
            Incoming::Completed { op_id } => IncomingView::Completed { op_id },
            Incoming::Response(payload) => IncomingView::Response(payload@),
            Incoming::Dropped(payload) => IncomingView::Dropped(payload@),
        }
    }
}

/// The mathematical value of a [`Session`].
pub ghost struct SessionView {
    /// The id of the session.
    pub id: uuid::Uuid,
    /// The flows that this peer serves.
    pub receiving: Seq<FlowDescriptor>,
    /// The flows that this peer initiates.
    pub sending: Seq<FlowDescriptor>,
    /// The flows that wait for the peer, by their operation id.
    pub pending: Map<u64, WaitingState>,
    /// The next operation id that is handed out.
    pub next_op_id: u32,
    /// The payloads that wait to be sent, the next one first.
    pub queue: Seq<PayloadView>,
}

/// The response that a session gives by itself to the start message
/// `start`: a ping is answered with the ping reply. Every other start is
/// left to the router.
pub open spec fn own_response(start: OperationView) -> Option<OperationView> {
    match start {
        OperationView::Ping => Some(OperationView::PingReply),
        _ => None,
    }
}

impl SessionView {
    /// The ids of the flows that this peer has started and that wait for
    /// their response.
    pub open spec fn outbound(self) -> Set<u64> {
        Set::new(
            |op_id: u64|
                self.pending.contains_key(op_id) && self.pending[op_id]
                    == WaitingState::WaitingForResponse,
        )
    }

    /// Every flow that waits for its response has an id that was handed
    /// out: the invariant of the session.
    pub open spec fn wf(self) -> bool {
        forall|op_id: u64| #[trigger] self.outbound().contains(op_id) ==> op_id < self.next_op_id
    }

    /// What a message of `kind` is to the session.
    pub open spec fn class_of(self, kind: MessageKind) -> MessageClass {
        classify(self.receiving, self.sending, kind)
    }

    /// What is done with `message` when it arrives, or the violation that
    /// it is.
    pub open spec fn verdict(self, message: PayloadView) -> Result<IncomingView, ProtocolError> {
        let op_id = message.op_id;
        match self.class_of(message.operation.kind()) {
            MessageClass::Start => match own_response(message.operation) {
                Some(_) => Ok(IncomingView::Answered { op_id }),
                None => Ok(IncomingView::Start(message)),
            },
            MessageClass::Completion => {
                if self.pending.contains_key(op_id) && self.pending[op_id]
                    == WaitingState::WaitingForCompletion {
                    Ok(IncomingView::Completed { op_id })
                } else {
                    Err(ProtocolError::UnexpectedCompletion { op_id })
                }
            },
            MessageClass::Response => {
                if self.outbound().contains(op_id) {
                    Ok(IncomingView::Response(message))
                } else {
                    Err(ProtocolError::UnexpectedResponse { op_id })
                }
            },
            MessageClass::Unhandled => Ok(IncomingView::Dropped(message)),
        }
    }

    /// The session after `message` has arrived: a start that the session
    /// answers by itself is answered, a completion and a response take the
    /// entry of their flow out of the table, and nothing else changes.
    pub open spec fn receive(self, message: PayloadView) -> SessionView {
        match self.verdict(message) {
            Ok(IncomingView::Answered { op_id }) => self.respond(
                op_id,
                own_response(message.operation)->Some_0,
            ),
            Ok(IncomingView::Completed { op_id }) => SessionView {
                pending: self.pending.remove(op_id),
                ..self
            },
            Ok(IncomingView::Response(_)) => SessionView {
                pending: self.pending.remove(message.op_id),
                ..self
            },
            _ => self,
        }
    }

    /// The session after the start of flow `op_id` was answered with
    /// `response`: the flow waits for its completion, and the response is
    /// queued.
    pub open spec fn respond(self, op_id: u64, response: OperationView) -> SessionView {
        SessionView {
            pending: self.pending.insert(op_id, WaitingState::WaitingForCompletion),
            queue: self.queue.push(PayloadView { op_id, operation: response }),
            ..self
        }
    }

    /// The id that the next flow of this peer gets, if one is left.
    pub open spec fn fresh_op_id(self) -> Option<u64> {
        if self.next_op_id < u32::MAX {
            Some(self.next_op_id as u64)
        } else {
            None
        }
    }

    /// The session after this peer started a flow with `start`: the flow
    /// has a fresh id and waits for its response, and the start is queued.
    /// Where no id is left, nothing changes.
    pub open spec fn send(self, start: OperationView) -> SessionView {
        match self.fresh_op_id() {
            Some(op_id) => SessionView {
                pending: self.pending.insert(op_id, WaitingState::WaitingForResponse),
                next_op_id: (self.next_op_id + 1) as u32,
                queue: self.queue.push(PayloadView { op_id, operation: start }),
                ..self
            },
            None => self,
        }
    }

    /// The session after `completion` was queued for flow `op_id`.
    pub open spec fn complete(self, op_id: u64, completion: OperationView) -> SessionView {
        SessionView {
            queue: self.queue.push(PayloadView { op_id, operation: completion }),
            ..self
        }
    }

    /// The session after the payload that was sent has left the queue.
    pub open spec fn sent(self) -> SessionView {
        if self.queue.len() > 0 {
            SessionView { queue: self.queue.subrange(1, self.queue.len() as int), ..self }
        } else {
            self
        }
    }
}

/// The state of one connection.
pub struct Session {
    id: uuid::Uuid,
    state: dashmap::DashMap<u64, WaitingState>,
    send_buffer: SendBuffer,
    receiving: Vec<FlowDescriptor>,
    sending: Vec<FlowDescriptor>,
}

impl View for Session {
    type V = SessionView;

    closed spec fn view(&self) -> SessionView {
        SessionView {
            id: self.id,
            receiving: self.receiving@,
            sending: self.sending@,
            pending: pending_entries(self.state),
            next_op_id: self.send_buffer.next_id(),
            queue: self.send_buffer.queue(),
        }
    }
}

fn has_start(flows: &Vec<FlowDescriptor>, kind: MessageKind) -> (found: bool)
    ensures
        found == starts_flow(flows@, kind),
{
    let mut i: usize = 0;
    while i < flows.len()
        invariant
            i <= flows.len(),
            forall|j: int| 0 <= j < i ==> (#[trigger] flows@[j]).start != kind,
        decreases flows.len() - i,
    {
        if flows[i].start == kind {
            return true;
        }
        i += 1;
    }
    false
}

fn has_completion(flows: &Vec<FlowDescriptor>, kind: MessageKind) -> (found: bool)
    ensures
        found == completes_flow(flows@, kind),
{
    let mut i: usize = 0;
    while i < flows.len()
        invariant
            i <= flows.len(),
            forall|j: int| 0 <= j < i ==> (#[trigger] flows@[j]).complete != Some(kind),
        decreases flows.len() - i,
    {
        match flows[i].complete {
            Some(complete) => {
                if complete == kind {
                    return true;
                }
            },
            None => {},
        }
        i += 1;
    }
    false
}

fn has_response(flows: &Vec<FlowDescriptor>, kind: MessageKind) -> (found: bool)
    ensures
        found == answers_flow(flows@, kind),
{
    let mut i: usize = 0;
    while i < flows.len()
        invariant
            i <= flows.len(),
            forall|j: int| 0 <= j < i ==> (#[trigger] flows@[j]).response != kind,
        decreases flows.len() - i,
    {
        if flows[i].response == kind {
            return true;
        }
        i += 1;
    }
    false
}

impl Session {
    /// A session that serves the ping flow and initiates the status flow.
    pub fn new(uuid: uuid::Uuid) -> (session: Self)
        ensures
            session.spec_id() == uuid,
            session@.receiving == seq![FlowDescriptor::spec_of::<PingOperation>()],
            session@.sending == seq![FlowDescriptor::spec_of::<StatusOperation>()],
            session@.pending == Map::<u64, WaitingState>::empty(),
            session@.next_op_id == 0,
            session@.queue == Seq::<PayloadView>::empty(),
            session@.wf(),
    {
        let mut receiving = Vec::new();
        receiving.push(FlowDescriptor::of::<PingOperation>());
        let mut sending = Vec::new();
        sending.push(FlowDescriptor::of::<StatusOperation>());
        let session = Self::with_flows(uuid, receiving, sending, SendBuffer::new());
        assert(session@.receiving =~= seq![FlowDescriptor::spec_of::<PingOperation>()]);
        assert(session@.sending =~= seq![FlowDescriptor::spec_of::<StatusOperation>()]);
        session
    }

    /// A session that serves the flows of `receiving` and initiates those of
    /// `sending`, with `send_buffer` for what it sends.
    pub fn with_flows(
        uuid: uuid::Uuid,
        receiving: Vec<FlowDescriptor>,
        sending: Vec<FlowDescriptor>,
        send_buffer: SendBuffer,
    ) -> (session: Self)
        ensures
            session.spec_id() == uuid,
            session@.receiving == receiving@,
            session@.sending == sending@,
            session@.pending == Map::<u64, WaitingState>::empty(),
            session@.next_op_id == send_buffer.next_id(),
            session@.queue == send_buffer.queue(),
            session@.wf(),
    {
        Session { id: uuid, state: pending_new(), send_buffer, receiving, sending }
    }

    /// The id that the session was made with. It stays for the life of the
    /// session.
    pub open spec fn spec_id(&self) -> uuid::Uuid {
        self@.id
    }

    /// The id of the session.
    pub fn id(&self) -> (id: uuid::Uuid)
        ensures
            id == self.spec_id(),
    {
        self.id
    }

    /// What a message of `kind` is to this session.
    pub fn classify(&self, kind: MessageKind) -> (class: MessageClass)
        ensures
            class == self@.class_of(kind),
    {
        if has_start(&self.receiving, kind) {
            MessageClass::Start
        } else if has_completion(&self.receiving, kind) {
            MessageClass::Completion
        } else if has_response(&self.sending, kind) {
            MessageClass::Response
        } else {
            MessageClass::Unhandled
        }
    }

    /// Takes a payload that has arrived and says what is to be done with it.
    /// The start of a flow that the session answers by itself is answered at
    /// once: the flow waits for its completion under the id of the message,
    /// and the response is queued under the same id. The start of any other
    /// flow that this peer serves is handed out for the router. A completion
    /// ends the flow that waits for it, and a response leaves the table with
    /// the flow that waits for it. A completion or a response that no flow
    /// waits for is a violation of the protocol, and changes nothing.
    pub fn handle_incoming_message(&mut self, message: Payload) -> (result: Result<
        Incoming,
        ProtocolError,
    >)
        ensures
            final(self)@ == old(self)@.receive(message@),
            final(self).spec_id() == old(self).spec_id(),
            (old(self)@.class_of(MessageKind::Ping) == MessageClass::Start && message@.operation
                == OperationView::Ping) ==> final(self)@ == old(self)@.respond(
                message.op_id,
                OperationView::PingReply,
            ),
            match result {
                Ok(incoming) => old(self)@.verdict(message@) == Ok::<IncomingView, ProtocolError>(
                    incoming@,
                ),
                Err(violation) => old(self)@.verdict(message@) == Err::<
                    IncomingView,
                    ProtocolError,
                >(violation),
            },
    {
        let op_id = message.op_id;
        match self.classify(message.operation.kind()) {
            MessageClass::Start => match message.operation.kind() {
                MessageKind::Ping => match self.serve_start::<PingOperation>(message) {
                    Ok(_) => Ok(Incoming::Answered { op_id }),
                    Err(unserved) => Ok(Incoming::Start(unserved)),
                },
                _ => Ok(Incoming::Start(message)),
            },
            MessageClass::Completion => {
                match pending_get(&self.state, op_id) {
                    Some(WaitingState::WaitingForCompletion) => {
                        let _ = pending_remove(&mut self.state, op_id);
                        Ok(Incoming::Completed { op_id })
                    },
                    _ => Err(ProtocolError::UnexpectedCompletion { op_id }),
                }
            },
            MessageClass::Response => {
                match pending_get(&self.state, op_id) {
                    Some(WaitingState::WaitingForResponse) => {
                        let _ = pending_remove(&mut self.state, op_id);
                        Ok(Incoming::Response(message))
                    },
                    _ => Err(ProtocolError::UnexpectedResponse { op_id }),
                }
            },
            MessageClass::Unhandled => Ok(Incoming::Dropped(message)),
        }
    }

    /// Answers the start of flow `op_id`: the flow waits for its completion
    /// from now on, and the response is queued.
    pub fn respond(&mut self, op_id: u64, response: Operation)
        ensures
            final(self)@ == old(self)@.respond(op_id, response@),
            final(self).spec_id() == old(self).spec_id(),
    {
        let _ = pending_insert(&mut self.state, op_id, WaitingState::WaitingForCompletion);
        self.send_buffer.push_payload(Payload { op_id, operation: response });
    }

    /// Serves the start of flow `Flow` by this peer's own receiver: asks the
    /// receiver for the response to the start message and answers the flow
    /// with it. A payload that is no start message of the flow is handed
    /// back, and nothing changes.
    pub fn serve_start<Flow>(&mut self, start: Payload) -> (result: Result<(), Payload>) where
        Flow: MuchsyncProtocolFlow,
        Self: Receiver<Flow>,

        ensures
            final(self).spec_id() == old(self).spec_id(),
            match result {
                Ok(_) => {
                    &&& start@.operation.kind() == Flow::StartMessage::kind()
                    &&& exists|response: OperationView|
                        {
                            &&& response.kind() == Flow::ResponseMessage::kind()
                            &&& final(self)@ == #[trigger] old(self)@.respond(
                                start.op_id,
                                response,
                            )
                        }
                },
                Err(unchanged) => {
                    &&& start@.operation.kind() != Flow::StartMessage::kind()
                    &&& unchanged == start
                    &&& final(self)@ == old(self)@
                },
            },
    {
        let Payload { op_id, operation } = start;
        match Flow::StartMessage::try_from_operation(operation) {
            Ok(message) => {
                proof {
                    message.operation_is_of_kind();
                }
                let response = self.on_start(message);
                proof {
                    response.operation_is_of_kind();
                }
                self.respond(op_id, response.into_operation());
                Ok(())
            },
            Err(operation) => Err(Payload { op_id, operation }),
        }
    }

    /// Starts a flow of this peer: gives it a fresh id, lets it wait for its
    /// response and queues the start message. The flow is in the table
    /// before its start is queued, so no response outruns it. Where every id
    /// has been handed out, nothing is queued and nothing changes.
    pub fn send_message<Flow>(&mut self, op: Flow::StartMessage) -> (result: Result<
        u64,
        ProtocolError,
    >) where Flow: MuchsyncProtocolFlow
        ensures
            final(self)@ == old(self)@.send(op.operation()),
            final(self).spec_id() == old(self).spec_id(),
            match result {
                Ok(op_id) => old(self)@.fresh_op_id() == Some(op_id),
                Err(violation) => old(self)@.fresh_op_id() is None && violation
                    == ProtocolError::OpIdExhausted,
            },
    {
        match self.send_buffer.peek_op_id() {
            Some(op_id) => {
                let _ = pending_insert(&mut self.state, op_id, WaitingState::WaitingForResponse);
                self.send_buffer.push_new_operation(op.into_operation())
            },
            None => Err(ProtocolError::OpIdExhausted),
        }
    }

    /// Takes the typed response of flow `Flow` out of the payload that
    /// answered it. A payload of another kind is a violation of the
    /// protocol.
    pub fn take_response<Flow>(response: Payload) -> (result: Result<
        Flow::ResponseMessage,
        ProtocolError,
    >) where Flow: MuchsyncProtocolFlow
        ensures
            match result {
                Ok(message) => response@.operation.kind() == Flow::ResponseMessage::kind()
                    && message.operation() == response@.operation,
                Err(violation) => response@.operation.kind() != Flow::ResponseMessage::kind()
                    && violation == (ProtocolError::UnexpectedResponse { op_id: response.op_id }),
            },
    {
        let op_id = response.op_id;
        match Flow::ResponseMessage::try_from_operation(response.operation) {
            Ok(message) => {
                proof {
                    message.operation_is_of_kind();
                }
                Ok(message)
            },
            Err(_) => Err(ProtocolError::UnexpectedResponse { op_id }),
        }
    }

    /// Queues the completion of flow `op_id`. Nothing is awaited after it: a
    /// completion ends the flow.
    pub fn send_completion<Flow>(&mut self, op_id: u64, completion: Flow::CompleteMessage) where
        Flow: MuchsyncProtocolFlow,
        Flow::CompleteMessage: MuchsyncProtocolMessage,

        ensures
            final(self)@ == old(self)@.complete(op_id, completion.operation()),
            final(self).spec_id() == old(self).spec_id(),
    {
        self.send_buffer.push_payload(Payload { op_id, operation: completion.into_operation() });
    }

    /// The payload that is to be sent next. It stays in the queue until it
    /// has been sent.
    pub fn next_to_send(&self) -> (front: Option<&Payload>)
        ensures
            match front {
                Some(payload) => self@.queue.len() > 0 && payload@ == self@.queue[0],
                None => self@.queue.len() == 0,
            },
    {
        self.send_buffer.next()
    }

    /// Takes the payload that was sent out of the queue.
    pub fn pop_sent(&mut self)
        ensures
            final(self)@ == old(self)@.sent(),
            final(self).spec_id() == old(self).spec_id(),
    {
        self.send_buffer.pop_front();
    }
}

/// What a peer answers to the start of a flow by itself.
pub trait Receiver<Flow: MuchsyncProtocolFlow> {
    /// The response to `start`.
    fn on_start(&self, start: Flow::StartMessage) -> Flow::ResponseMessage;
}

impl Receiver<PingOperation> for Session {
    fn on_start(&self, _start: Ping) -> PingReply {
        PingReply {  }
    }
}

/// The invariant of a session holds of every session that begins without
/// waiting flows, and whatever is done with a session keeps it.
pub proof fn session_keeps_invariant(
    session: SessionView,
    message: PayloadView,
    op_id: u64,
    operation: OperationView,
)
    requires
        session.wf(),
    ensures
        session.receive(message).wf(),
        session.respond(op_id, operation).wf(),
        session.send(operation).wf(),
        session.complete(op_id, operation).wf(),
        session.sent().wf(),
{
    let received = session.receive(message);
    assert forall|id: u64| #[trigger] received.outbound().contains(id) implies id
        < received.next_op_id by {
        assert(session.outbound().contains(id));
    }
    let responded = session.respond(op_id, operation);
    assert forall|id: u64| #[trigger] responded.outbound().contains(id) implies id
        < responded.next_op_id by {
        assert(session.outbound().contains(id));
    }
    let sent = session.send(operation);
    assert forall|id: u64| #[trigger] sent.outbound().contains(id) implies id
        < sent.next_op_id by {
        if session.fresh_op_id() is Some && id != session.next_op_id {
            assert(session.outbound().contains(id));
        }
        if session.fresh_op_id() is None {
            assert(session.outbound().contains(id));
        }
    }
    let completed = session.complete(op_id, operation);
    assert forall|id: u64| #[trigger] completed.outbound().contains(id) implies id
        < completed.next_op_id by {
        assert(session.outbound().contains(id));
    }
    let popped = session.sent();
    assert forall|id: u64| #[trigger] popped.outbound().contains(id) implies id
        < popped.next_op_id by {
        assert(session.outbound().contains(id));
    }
}

/// A ping that arrives at a session that serves the ping flow is answered
/// at once: the flow waits for its completion under the id of the ping, the
/// ping reply is queued under the same id behind what waits already, and no
/// operation id of this peer is used up.
pub proof fn arriving_ping_is_answered(session: SessionView, ping: PayloadView)
    requires
        ping.operation == OperationView::Ping,
        session.class_of(MessageKind::Ping) == MessageClass::Start,
    ensures
        session.verdict(ping) == Ok::<IncomingView, ProtocolError>(
            IncomingView::Answered { op_id: ping.op_id },
        ),
        session.receive(ping) == session.respond(ping.op_id, OperationView::PingReply),
        session.receive(ping).pending.contains_key(ping.op_id),
        session.receive(ping).pending[ping.op_id] == WaitingState::WaitingForCompletion,
        session.receive(ping).queue == session.queue.push(
            PayloadView { op_id: ping.op_id, operation: OperationView::PingReply },
        ),
        session.receive(ping).next_op_id == session.next_op_id,
        session.receive(ping).id == session.id,
{
}

/// The operation ids of the flows in flight are pairwise distinct: a flow
/// that this peer starts gets an id that no flow in flight has, and joins
/// the flows in flight under it, beside all that were there.
pub proof fn op_ids_in_flight_are_unique(session: SessionView, start: OperationView)
    requires
        session.wf(),
        session.fresh_op_id() is Some,
    ensures
        !session.outbound().contains(session.fresh_op_id()->Some_0),
        session.send(start).outbound() == session.outbound().insert(
            session.fresh_op_id()->Some_0,
        ),
{
    let op_id = session.fresh_op_id()->Some_0;
    if session.outbound().contains(op_id) {
        assert(op_id < session.next_op_id);
    }
    assert(session.send(start).outbound() =~= session.outbound().insert(op_id));
}

/// A response is delivered once at most: after the response of a flow has
/// been taken, no payload of the same id is taken as a response again,
/// unless this peer starts a flow under that id anew.
pub proof fn response_is_delivered_once(
    session: SessionView,
    first: PayloadView,
    second: PayloadView,
)
    requires
        session.verdict(first) matches Ok(IncomingView::Response(_)),
        second.op_id == first.op_id,
    ensures
        !session.receive(first).outbound().contains(first.op_id),
        !(session.receive(first).verdict(second) matches Ok(IncomingView::Response(_))),
{
}

/// What the send task does next.
#[derive(Debug, PartialEq, Eq)]
pub enum SendStep {
    /// Write this payload to the sink. It stays in the queue meanwhile.
    Transmit(Payload),
    /// Wait until something is queued.
    AwaitPush,
}

/// The decisions of the task that empties the send queue into the sink. It
/// looks at the payload in front, has it sent, and takes it out of the queue
/// only when it has been sent: a payload whose sending fails or is cancelled
/// stays in the queue, and the task ends.
pub struct SendTask;

impl SendTask {
    /// What is to be done next: the payload in front is to be sent, or the
    /// queue is empty and the task waits.
    pub fn next_step(connection: &Session) -> (step: SendStep)
        ensures
            match step {
                SendStep::Transmit(payload) => connection@.queue.len() > 0 && payload@
                    == connection@.queue[0],
                SendStep::AwaitPush => connection@.queue.len() == 0,
            },
    {
        match connection.next_to_send() {
            Some(payload) => SendStep::Transmit(payload.clone()),
            None => SendStep::AwaitPush,
        }
    }

    /// Takes note of how the sending of the payload in front ended, and says
    /// whether the task goes on. A payload that was sent leaves the queue; a
    /// failure ends the task, and the queue stays as it is.
    pub fn after_transmit(connection: &mut Session, sent: bool) -> (go_on: bool)
        ensures
            go_on == sent,
            final(connection).spec_id() == old(connection).spec_id(),
            final(connection)@ == (if sent {
                old(connection)@.sent()
            } else {
                old(connection)@
            }),
    {
        if sent {
            connection.pop_sent();
        }
        sent
    }
}

/// What the receive task does with an item of the stream.
#[derive(Debug)]
pub enum RecvStep {
    /// The payload was taken by the session: do with it what this says.
    Handle(Incoming),
    /// The line held a command that no message kind has: it is dropped.
    Skip,
    /// The stream failed: the task ends.
    Fail(Error),
    /// The peer violated the protocol: the task ends.
    Violation(ProtocolError),
}

/// The decisions of the task that hands the payloads of the stream to the
/// session.
pub struct RecvTask;

impl RecvTask {
    /// How many payloads are dispatched at the same time at most.
    pub const CONCURRENCY: usize = 3;

    /// Takes an item of the stream. A payload goes to the session, an
    /// unknown command is passed over, and every other error of the stream
    /// ends the task, as a violation of the protocol does.
    pub fn on_item(connection: &mut Session, item: Result<Payload, Error>) -> (step: RecvStep)
        ensures
            final(connection).spec_id() == old(connection).spec_id(),
            match item {
                Ok(message) => {
                    &&& final(connection)@ == old(connection)@.receive(message@)
                    &&& match step {
                        RecvStep::Handle(incoming) => old(connection)@.verdict(message@) == Ok::<
                            IncomingView,
                            ProtocolError,
                        >(incoming@),
                        RecvStep::Violation(violation) => old(connection)@.verdict(message@)
                            == Err::<IncomingView, ProtocolError>(violation),
                        _ => false,
                    }
                },
                Err(error) => {
                    &&& final(connection)@ == old(connection)@
                    &&& if error.spec_is_unknown_command() {
                        step is Skip
                    } else {
                        step matches RecvStep::Fail(failure) && failure == error
                    }
                },
            },
    {
        match item {
            Ok(message) => match connection.handle_incoming_message(message) {
                Ok(incoming) => RecvStep::Handle(incoming),
                Err(violation) => RecvStep::Violation(violation),
            },
            Err(error) => {
                if error.is_unknown_command() {
                    RecvStep::Skip
                } else {
                    RecvStep::Fail(error)
                }
            },
        }
    }
}

} // verus!
