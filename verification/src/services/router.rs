//! The state machine that drives one flow on the responder's side, and the
//! router that dispatches start messages to it.

use std::collections::HashMap;
use std::marker::PhantomData;
use vstd::prelude::*;

use crate::error::ProtocolError;
use crate::flow::FlowDescriptor;
use crate::flow::MuchsyncProtocolFlow;
use crate::operation::Error;
use crate::operation::ErrorAcknowledgement;
use crate::operation::Handler;
use crate::operation::MakeHandler;
use crate::operation::MessageKind;
use crate::operation::MuchsyncProtocolMessage;
use crate::operation::Operation;
use crate::operation::OperationView;
use crate::operation::ServerFlowSet;

verus! {

/// The mathematical value of an [`OperationError`].
pub ghost enum OperationErrorView {
    ClientSentUnexpectedMessage { received: Seq<char>, expected: Seq<char> },
    ServerError { ctx: Seq<char> },
    ProtocolViolation { violation: ProtocolError },
}

impl OperationErrorView {
    /// The text that describes the error to a reader.
    pub open spec fn description(self) -> Seq<char> {
        match self {
            OperationErrorView::ClientSentUnexpectedMessage { received, expected } => {
                "The client sent an unexpected message: '"@ + received + "'. '"@ + expected
                    + "' or 'error' was expected."@
            },
            OperationErrorView::ServerError { .. } => "Server errored"@,
            OperationErrorView::ProtocolViolation { .. } => "The peer violated the protocol"@,
        }
    }
}

/// Why one side of a flow failed.
#[derive(Debug, PartialEq, Eq)]
pub enum OperationError {
    /// The peer sent a message that the flow does not expect in its state.
    ClientSentUnexpectedMessage { received: &'static str, expected: &'static str },
    /// A handler of this side failed; `ctx` says why.
    ServerError { ctx: String },
    /// The peer behaved in a way that cannot be reconciled.
    ProtocolViolation { violation: ProtocolError },
}

impl View for OperationError {
    type V = OperationErrorView;

    open spec fn view(&self) -> OperationErrorView {
        match *self {
            OperationError::ClientSentUnexpectedMessage { received, expected } => {
                OperationErrorView::ClientSentUnexpectedMessage {
                    received: received@,
                    expected: expected@,
                }
            },
            OperationError::ServerError { ctx } => OperationErrorView::ServerError { ctx: ctx@ },
            OperationError::ProtocolViolation { violation } => {
                OperationErrorView::ProtocolViolation { violation }
            },
        }
    }
}

impl Clone for OperationError {
    fn clone(&self) -> (copy: OperationError)
        ensures
            copy == *self,
    {
        match self {
            OperationError::ClientSentUnexpectedMessage { received, expected } => {
                OperationError::ClientSentUnexpectedMessage {
                    received: *received,
                    expected: *expected,
                }
            },
            OperationError::ServerError { ctx } => OperationError::ServerError { ctx: ctx.clone() },
            OperationError::ProtocolViolation { violation } => {
                OperationError::ProtocolViolation { violation: *violation }
            },
        }
    }
}

impl OperationError {
    /// The text that describes the error to a reader.
    pub fn describe(&self) -> (text: String)
        ensures
            text@ == self@.description(),
    {
        match self {
            OperationError::ClientSentUnexpectedMessage { received, expected } => {
                let mut text = String::from_str("The client sent an unexpected message: '");
                text.append(received);
                text.append("'. '");
                text.append(expected);
                text.append("' or 'error' was expected.");
                text
            },
            OperationError::ServerError { .. } => String::from_str("Server errored"),
            OperationError::ProtocolViolation { .. } => {
                String::from_str("The peer violated the protocol")
            },
        }
    }

    /// The `error` message that tells the peer of this error.
    pub fn to_protocol_error(&self) -> (error: Error)
        ensures
            error.message@ == self@.description(),
    {
        Error { message: self.describe() }
    }
}

/// How a flow ended for each side: `None` where nothing was attempted with
/// that side.
#[derive(Debug, PartialEq, Eq)]
pub struct OperationStatus {
    pub client: Option<Result<(), OperationError>>,
    pub server: Option<Result<(), OperationError>>,
}

/// The mathematical value of an [`OperationStatus`].
pub ghost struct OperationStatusView {
    pub client: Option<Result<(), OperationErrorView>>,
    pub server: Option<Result<(), OperationErrorView>>,
}

/// The mathematical value of one side of an [`OperationStatus`].
pub open spec fn side_view(side: Option<Result<(), OperationError>>) -> Option<
    Result<(), OperationErrorView>,
> {
    match side {
        None => None,
        Some(Ok(_)) => Some(Ok(())),
        Some(Err(error)) => Some(Err(error@)),
    }
}

impl View for OperationStatus {
    type V = OperationStatusView;

    open spec fn view(&self) -> OperationStatusView {
        OperationStatusView { client: side_view(self.client), server: side_view(self.server) }
    }
}

fn clone_side(side: &Option<Result<(), OperationError>>) -> (copy: Option<
    Result<(), OperationError>,
>)
    ensures
        copy == *side,
{
    match side {
        None => None,
        Some(Ok(unit)) => Some(Ok(*unit)),
        Some(Err(error)) => Some(Err(error.clone())),
    }
}

impl Clone for OperationStatus {
    fn clone(&self) -> (copy: OperationStatus)
        ensures
            copy == *self,
    {
        OperationStatus { client: clone_side(&self.client), server: clone_side(&self.server) }
    }
}

/// The discriminant of a [`State`].
#[derive(Clone, Copy, Debug, PartialEq, Eq, Structural)]
pub enum StateKind {
    Start,
    Response,
    ErrorResponse,
    ErrorComplete,
    Done,
}

/// The mathematical value of a [`State`].
pub ghost enum StateView {
    Start(OperationView),
    Response(OperationView),
    ErrorResponse(OperationView),
    ErrorComplete(OperationView),
    Done,
}

impl StateView {
    /// The discriminant of the state.
    pub open spec fn kind(self) -> StateKind {
        match self {
            StateView::Start(_) => StateKind::Start,
            StateView::Response(_) => StateKind::Response,
            StateView::ErrorResponse(_) => StateKind::ErrorResponse,
            StateView::ErrorComplete(_) => StateKind::ErrorComplete,
            StateView::Done => StateKind::Done,
        }
    }
}

/// The state of one flow on the responder's side.
#[derive(Debug, PartialEq, Eq)]
pub enum State {
    /// The start message has arrived and waits for its handler.
    Start(Operation),
    /// The response is ready to be sent; the completion is awaited after it.
    Response(Operation),
    /// The handler failed: the error is ready to be sent, and its
    /// acknowledgement is awaited after it.
    ErrorResponse(Operation),
    /// The peer reported an error: the acknowledgement is ready to be sent.
    ErrorComplete(Operation),
    /// The flow has ended.
    Done,
}

impl View for State {
    type V = StateView;

    open spec fn view(&self) -> StateView {
        match *self {
            State::Start(operation) => StateView::Start(operation@),
            State::Response(operation) => StateView::Response(operation@),
            State::ErrorResponse(operation) => StateView::ErrorResponse(operation@),
            State::ErrorComplete(operation) => StateView::ErrorComplete(operation@),
            State::Done => StateView::Done,
        }
    }
}

impl Clone for State {
    fn clone(&self) -> (copy: State)
        ensures
            copy == *self,
    {
        match self {
            State::Start(operation) => State::Start(operation.clone()),
            State::Response(operation) => State::Response(operation.clone()),
            State::ErrorResponse(operation) => State::ErrorResponse(operation.clone()),
            State::ErrorComplete(operation) => State::ErrorComplete(operation.clone()),
            State::Done => State::Done,
        }
    }
}

impl State {
    /// The discriminant of the state.
    pub fn kind(&self) -> (kind: StateKind)
        ensures
            kind == self@.kind(),
    {
        match self {
            State::Start(_) => StateKind::Start,
            State::Response(_) => StateKind::Response,
            State::ErrorResponse(_) => StateKind::ErrorResponse,
            State::ErrorComplete(_) => StateKind::ErrorComplete,
            State::Done => StateKind::Done,
        }
    }
}

/// What the driver of a flow has to do next.
#[derive(Debug, PartialEq, Eq)]
pub enum Action {
    /// Hand the operation to the start handler and report what it returned.
    CallStartHandler(Operation),
    /// Hand the operation to the complete handler and report what it
    /// returned.
    CallCompleteHandler(Operation),
    /// Hand the operation to the error handler and report what it returned.
    CallErrorHandler(Operation),
    /// Send the operation to the peer.
    Send(Operation),
    /// Wait for the next operation of the peer.
    Receive,
    /// Tell the context of the state that the flow has entered.
    Report(State),
    /// The flow has ended with this status.
    Finish(OperationStatus),
    /// The flow was given up with this error.
    Fail(OperationError),
}

/// The mathematical value of an [`Action`].
pub ghost enum ActionView {
    CallStartHandler(OperationView),
    CallCompleteHandler(OperationView),
    CallErrorHandler(OperationView),
    Send(OperationView),
    Receive,
    Report(StateView),
    Finish(OperationStatusView),
    Fail(OperationErrorView),
}

impl View for Action {
    type V = ActionView;

    open spec fn view(&self) -> ActionView {
        match *self {
            Action::CallStartHandler(operation) => ActionView::CallStartHandler(operation@),
            Action::CallCompleteHandler(operation) => ActionView::CallCompleteHandler(operation@),
            Action::CallErrorHandler(operation) => ActionView::CallErrorHandler(operation@),
            Action::Send(operation) => ActionView::Send(operation@),
            Action::Receive => ActionView::Receive,
            Action::Report(state) => ActionView::Report(state@),
            Action::Finish(status) => ActionView::Finish(status@),
            Action::Fail(error) => ActionView::Fail(error@),
        }
    }
}

/// What came back from the action that the driver was asked for.
#[derive(Debug, PartialEq, Eq)]
pub enum Event {
    /// The start handler returned.
    StartHandled(Result<Operation, OperationError>),
    /// The complete handler returned.
    CompleteHandled(Result<(), OperationError>),
    /// The error handler returned.
    ErrorHandled(Result<Operation, OperationError>),
    /// The operation was sent.
    Sent,
    /// The peer sent this operation.
    Received(Operation),
    /// The context has been told of the state.
    Reported,
    /// The context failed to send, to receive or to take the report.
    ContextFailed(Error),
}

/// The mathematical value of an [`Event`].
pub ghost enum EventView {
    StartHandled(Result<OperationView, OperationErrorView>),
    CompleteHandled(Result<(), OperationErrorView>),
    ErrorHandled(Result<OperationView, OperationErrorView>),
    Sent,
    Received(OperationView),
    Reported,
    ContextFailed(Seq<char>),
}

impl View for Event {
    type V = EventView;

    open spec fn view(&self) -> EventView {
        match *self {
            Event::StartHandled(Ok(operation)) => EventView::StartHandled(Ok(operation@)),
            Event::StartHandled(Err(error)) => EventView::StartHandled(Err(error@)),
            Event::CompleteHandled(Ok(_)) => EventView::CompleteHandled(Ok(())),
            Event::CompleteHandled(Err(error)) => EventView::CompleteHandled(Err(error@)),
            Event::ErrorHandled(Ok(operation)) => EventView::ErrorHandled(Ok(operation@)),
            Event::ErrorHandled(Err(error)) => EventView::ErrorHandled(Err(error@)),
            Event::Sent => EventView::Sent,
            Event::Received(operation) => EventView::Received(operation@),
            Event::Reported => EventView::Reported,
            Event::ContextFailed(error) => EventView::ContextFailed(error.message@),
        }
    }
}

/// The mathematical value of a [`StateFuture`]: the state machine of one
/// flow on the responder's side.
pub ghost struct StateFutureView {
    /// The kind of the message that completes the flow.
    pub complete: MessageKind,
    /// The state that the flow is in.
    pub state: StateView,
    /// What is known of how the flow ends.
    pub status: OperationStatusView,
    /// What the driver has to do next.
    pub pending: ActionView,
}

impl StateFutureView {
    /// The first action of a state.
    pub open spec fn entry_action(state: StateView, status: OperationStatusView) -> ActionView {
        match state {
            StateView::Start(operation) => ActionView::CallStartHandler(operation),
            StateView::Response(operation) => ActionView::Send(operation),
            StateView::ErrorResponse(operation) => ActionView::Send(operation),
            StateView::ErrorComplete(operation) => ActionView::Send(operation),
            StateView::Done => ActionView::Finish(status),
        }
    }

    /// The machine at the start of a flow in the given state.
    pub open spec fn start(complete: MessageKind, state: StateView) -> StateFutureView {
        let status = OperationStatusView { client: None, server: None };
        StateFutureView { complete, state, status, pending: Self::entry_action(state, status) }
    }

    /// The machine after it has entered `state`: the state is to be reported.
    pub open spec fn enter(self, state: StateView, status: OperationStatusView) -> StateFutureView {
        StateFutureView { complete: self.complete, state, status, pending: ActionView::Report(state) }
    }

    /// The machine with another pending action, in the same state.
    pub open spec fn await_action(self, pending: ActionView) -> StateFutureView {
        StateFutureView { pending, ..self }
    }

    /// The machine after the start handler returned `result`.
    pub open spec fn after_start(
        self,
        result: Result<OperationView, OperationErrorView>,
    ) -> StateFutureView {
        match result {
            Ok(response) => self.enter(StateView::Response(response), self.status),
            Err(error) => {
                let status = OperationStatusView { server: Some(Err(error)), ..self.status };
                if error is ClientSentUnexpectedMessage {
                    self.enter(StateView::Done, status)
                } else {
                    self.enter(
                        StateView::ErrorResponse(
                            OperationView::Error { message: error.description() },
                        ),
                        status,
                    )
                }
            },
        }
    }

    /// The machine after the pending operation was sent.
    pub open spec fn after_send(self) -> StateFutureView {
        match self.state {
            StateView::Response(_) => self.await_action(ActionView::Receive),
            StateView::ErrorResponse(_) => self.await_action(ActionView::Receive),
            StateView::ErrorComplete(_) => self.enter(StateView::Done, self.status),
            _ => self,
        }
    }

    /// The machine after the peer sent `operation`.
    pub open spec fn after_receive(self, operation: OperationView) -> StateFutureView {
        match self.state {
            StateView::Response(_) => {
                if operation.kind() == self.complete {
                    self.await_action(ActionView::CallCompleteHandler(operation))
                } else if operation.kind() == MessageKind::Error {
                    self.await_action(ActionView::CallErrorHandler(operation))
                } else {
                    let error = OperationErrorView::ClientSentUnexpectedMessage {
                        received: operation.kind().wire_name(),
                        expected: self.complete.wire_name(),
                    };
                    self.enter(
                        StateView::Done,
                        OperationStatusView { client: Some(Err(error)), ..self.status },
                    )
                }
            },
            StateView::ErrorResponse(_) => {
                if operation.kind() == MessageKind::ErrorAcknowledgement {
                    self.enter(StateView::Done, self.status)
                } else {
                    self.await_action(
                        ActionView::Fail(
                            OperationErrorView::ProtocolViolation {
                                violation: ProtocolError::MissingErrorAcknowledgement {
                                    received: operation.kind(),
                                },
                            },
                        ),
                    )
                }
            },
            _ => self,
        }
    }

    /// The machine after the complete handler returned `result`.
    pub open spec fn after_complete(self, result: Result<(), OperationErrorView>) -> StateFutureView {
        self.enter(
            StateView::Done,
            OperationStatusView { client: Some(Ok(())), server: Some(result) },
        )
    }

    /// The machine after the error handler returned `result`.
    pub open spec fn after_error(
        self,
        result: Result<OperationView, OperationErrorView>,
    ) -> StateFutureView {
        match result {
            Ok(acknowledgement) => self.enter(
                StateView::ErrorComplete(acknowledgement),
                self.status,
            ),
            Err(error) => self.await_action(ActionView::Fail(error)),
        }
    }

    /// The machine after the context failed with `message`.
    pub open spec fn after_context_failure(self, message: Seq<char>) -> StateFutureView {
        self.await_action(ActionView::Fail(OperationErrorView::ServerError { ctx: message }))
    }

    /// The machine after `event`. An event that does not answer the pending
    /// action leaves the machine as it is.
    pub open spec fn step(self, event: EventView) -> StateFutureView {
        match (self.pending, event) {
            (ActionView::CallStartHandler(_), EventView::StartHandled(result)) => {
                self.after_start(result)
            },
            (ActionView::CallCompleteHandler(_), EventView::CompleteHandled(result)) => {
                self.after_complete(result)
            },
            (ActionView::CallErrorHandler(_), EventView::ErrorHandled(result)) => {
                self.after_error(result)
            },
            (ActionView::Send(_), EventView::Sent) => self.after_send(),
            (ActionView::Receive, EventView::Received(operation)) => self.after_receive(operation),
            (ActionView::Report(_), EventView::Reported) => {
                self.await_action(Self::entry_action(self.state, self.status))
            },
            (ActionView::Send(_), EventView::ContextFailed(message)) => {
                self.after_context_failure(message)
            },
            (ActionView::Receive, EventView::ContextFailed(message)) => {
                self.after_context_failure(message)
            },
            (ActionView::Report(_), EventView::ContextFailed(message)) => {
                self.after_context_failure(message)
            },
            _ => self,
        }
    }

    /// Whether `event` answers the pending action.
    pub open spec fn answers(self, event: EventView) -> bool {
        match (self.pending, event) {
            (ActionView::CallStartHandler(_), EventView::StartHandled(_)) => true,
            (ActionView::CallCompleteHandler(_), EventView::CompleteHandled(_)) => true,
            (ActionView::CallErrorHandler(_), EventView::ErrorHandled(_)) => true,
            (ActionView::Send(_), EventView::Sent) => true,
            (ActionView::Receive, EventView::Received(_)) => true,
            (ActionView::Report(_), EventView::Reported) => true,
            (ActionView::Send(_), EventView::ContextFailed(_)) => true,
            (ActionView::Receive, EventView::ContextFailed(_)) => true,
            (ActionView::Report(_), EventView::ContextFailed(_)) => true,
            _ => false,
        }
    }

    /// The machine after the events of `events`, one after the other.
    pub open spec fn run(self, events: Seq<EventView>) -> StateFutureView
        decreases events.len(),
    {
        if events.len() == 0 {
            self
        } else {
            self.run(events.drop_last()).step(events.last())
        }
    }

    /// The pending action fits the state: the invariant of the machine.
    pub open spec fn wf(self) -> bool {
        match self.pending {
            ActionView::CallStartHandler(operation) => self.state == StateView::Start(operation),
            ActionView::CallCompleteHandler(_) => self.state is Response,
            ActionView::CallErrorHandler(_) => self.state is Response,
            ActionView::Send(operation) => {
                ||| self.state == StateView::Response(operation)
                ||| self.state == StateView::ErrorResponse(operation)
                ||| self.state == StateView::ErrorComplete(operation)
            },
            ActionView::Receive => self.state is Response || self.state is ErrorResponse,
            ActionView::Report(state) => self.state == state,
            ActionView::Finish(status) => self.state is Done && self.status == status,
            ActionView::Fail(_) => true,
        }
    }

    /// The flow has ended or was given up: no event changes the machine.
    pub open spec fn finished(self) -> bool {
        self.pending is Finish || self.pending is Fail
    }

    /// How far the machine is from its end at most.
    pub open spec fn rank(self) -> nat {
        let of_state: nat = match self.state {
            StateView::Start(_) => 3,
            StateView::Response(_) => 2,
            StateView::ErrorResponse(_) => 2,
            StateView::ErrorComplete(_) => 1,
            StateView::Done => 0,
        };
        let of_action: nat = match self.pending {
            ActionView::Report(_) => 4,
            ActionView::CallStartHandler(_) => 3,
            ActionView::Send(_) => 3,
            ActionView::Receive => 2,
            ActionView::CallCompleteHandler(_) => 1,
            ActionView::CallErrorHandler(_) => 1,
            ActionView::Finish(_) => 0,
            ActionView::Fail(_) => 0,
        };
        5 * of_state + of_action
    }
}

/// A step keeps the invariant of the machine.
pub proof fn step_keeps_invariant(machine: StateFutureView, event: EventView)
    requires
        machine.wf(),
    ensures
        machine.step(event).wf(),
{
}

/// Every step that changes the state of a flow changes the state's
/// discriminant: the flow never passes from a state to another state of the
/// same kind.
pub proof fn state_advances(machine: StateFutureView, event: EventView)
    requires
        machine.wf(),
    ensures
        machine.step(event).state != machine.state ==> machine.step(event).state.kind()
            != machine.state.kind(),
{
}

/// Every answered action brings the flow nearer to its end, so a flow ends
/// after a bounded number of steps; an event that answers nothing changes
/// nothing.
pub proof fn step_makes_progress(machine: StateFutureView, event: EventView)
    requires
        machine.wf(),
    ensures
        machine.answers(event) ==> machine.step(event).rank() < machine.rank(),
        !machine.answers(event) ==> machine.step(event) == machine,
        machine.finished() ==> !machine.answers(event),
{
}

/// The state machine of one flow on the responder's side. It says which
/// action is due, and takes what came back from it; whoever drives it does
/// the sending, the waiting and the calls of the handlers.
#[derive(Debug)]
pub struct StateFuture {
    complete: MessageKind,
    state: State,
    status: OperationStatus,
    pending: Action,
}

impl View for StateFuture {
    type V = StateFutureView;

    closed spec fn view(&self) -> StateFutureView {
        StateFutureView {
            complete: self.complete,
            state: self.state@,
            status: self.status@,
            pending: self.pending@,
        }
    }
}

impl StateFuture {
    #[verifier::type_invariant]
    spec fn holds(&self) -> bool {
        self@.wf()
    }

    /// The machine of a flow that is completed by a message of kind
    /// `complete` and begins in `state`.
    pub fn new(complete: MessageKind, state: State) -> (machine: StateFuture)
        ensures
            machine@ == StateFutureView::start(complete, state@),
            machine@.wf(),
    {
        let status = OperationStatus { client: None, server: None };
        let pending = Self::entry_action(&state, &status);
        StateFuture { complete, state, status, pending }
    }

    fn entry_action(state: &State, status: &OperationStatus) -> (action: Action)
        ensures
            action@ == StateFutureView::entry_action(state@, status@),
    {
        match state {
            State::Start(operation) => Action::CallStartHandler(operation.clone()),
            State::Response(operation) => Action::Send(operation.clone()),
            State::ErrorResponse(operation) => Action::Send(operation.clone()),
            State::ErrorComplete(operation) => Action::Send(operation.clone()),
            State::Done => Action::Finish(status.clone()),
        }
    }

    fn enter(complete: MessageKind, state: State, status: OperationStatus) -> (machine: StateFuture)
        ensures
            machine@ == (StateFutureView {
                complete,
                state: state@,
                status: status@,
                pending: ActionView::Report(state@),
            }),
    {
        let pending = Action::Report(state.clone());
        StateFuture { complete, state, status, pending }
    }

    /// The action that is due.
    pub fn action(&self) -> (action: &Action)
        ensures
            action@ == self@.pending,
            self@.wf(),
    {
        proof {
            use_type_invariant(self);
        }
        &self.pending
    }

    /// The state that the flow is in.
    pub fn state(&self) -> (state: &State)
        ensures
            state@ == self@.state,
    {
        &self.state
    }

    /// What is known of how the flow ends.
    pub fn status(&self) -> (status: &OperationStatus)
        ensures
            status@ == self@.status,
    {
        &self.status
    }

    /// Takes what came back from the pending action and moves on.
    pub fn step(self, event: Event) -> (next: StateFuture)
        ensures
            next@ == self@.step(event@),
            self@.wf(),
            next@.wf(),
    {
        proof {
            use_type_invariant(&self);
            step_keeps_invariant(self@, event@);
        }
        let StateFuture { complete, state, status, pending } = self;
        match (pending, event) {
            (Action::CallStartHandler(_), Event::StartHandled(result)) => {
                match result {
                    Ok(response) => Self::enter(complete, State::Response(response), status),
                    Err(error) => {
                        let OperationStatus { client, server: _ } = status;
                        match error {
                            OperationError::ClientSentUnexpectedMessage { .. } => {
                                let status = OperationStatus { client, server: Some(Err(error)) };
                                Self::enter(complete, State::Done, status)
                            },
                            _ => {
                                let message = error.to_protocol_error();
                                let status = OperationStatus { client, server: Some(Err(error)) };
                                Self::enter(
                                    complete,
                                    State::ErrorResponse(Operation::Error(message)),
                                    status,
                                )
                            },
                        }
                    },
                }
            },
            (Action::CallCompleteHandler(_), Event::CompleteHandled(result)) => {
                let status = OperationStatus { client: Some(Ok(())), server: Some(result) };
                Self::enter(complete, State::Done, status)
            },
            (Action::CallErrorHandler(_), Event::ErrorHandled(result)) => {
                match result {
                    Ok(acknowledgement) => Self::enter(
                        complete,
                        State::ErrorComplete(acknowledgement),
                        status,
                    ),
                    Err(error) => StateFuture {
                        complete,
                        state,
                        status,
                        pending: Action::Fail(error),
                    },
                }
            },
            (Action::Send(operation), Event::Sent) => {
                match state {
                    State::Response(_) => StateFuture {
                        complete,
                        state,
                        status,
                        pending: Action::Receive,
                    },
                    State::ErrorResponse(_) => StateFuture {
                        complete,
                        state,
                        status,
                        pending: Action::Receive,
                    },
                    State::ErrorComplete(_) => Self::enter(complete, State::Done, status),
                    _ => StateFuture { complete, state, status, pending: Action::Send(operation) },
                }
            },
            (Action::Receive, Event::Received(operation)) => {
                Self::receive(complete, state, status, operation)
            },
            (Action::Report(_), Event::Reported) => {
                let pending = Self::entry_action(&state, &status);
                StateFuture { complete, state, status, pending }
            },
            (Action::Send(_), Event::ContextFailed(error)) => {
                Self::fail(complete, state, status, error)
            },
            (Action::Receive, Event::ContextFailed(error)) => {
                Self::fail(complete, state, status, error)
            },
            (Action::Report(_), Event::ContextFailed(error)) => {
                Self::fail(complete, state, status, error)
            },
            (pending, _) => StateFuture { complete, state, status, pending },
        }
    }

    fn fail(complete: MessageKind, state: State, status: OperationStatus, error: Error) -> (next:
        StateFuture)
        ensures
            next@ == (StateFutureView {
                complete,
                state: state@,
                status: status@,
                pending: ActionView::Fail(OperationErrorView::ServerError { ctx: error.message@ }),
            }),
    {
        StateFuture {
            complete,
            state,
            status,
            pending: Action::Fail(OperationError::ServerError { ctx: error.message }),
        }
    }

    fn receive(
        complete: MessageKind,
        state: State,
        status: OperationStatus,
        operation: Operation,
    ) -> (next: StateFuture)
        requires
            state is Response || state is ErrorResponse,
        ensures
            next@ == (StateFutureView {
                complete,
                state: state@,
                status: status@,
                pending: ActionView::Receive,
            }).after_receive(operation@),
    {
        let kind = operation.kind();
        match state {
            State::Response(_) => {
                if kind == complete {
                    StateFuture {
                        complete,
                        state,
                        status,
                        pending: Action::CallCompleteHandler(operation),
                    }
                } else if kind == MessageKind::Error {
                    StateFuture {
                        complete,
                        state,
                        status,
                        pending: Action::CallErrorHandler(operation),
                    }
                } else {
                    let error = OperationError::ClientSentUnexpectedMessage {
                        received: operation.name(),
                        expected: complete.name(),
                    };
                    let OperationStatus { client: _, server } = status;
                    Self::enter(
                        complete,
                        State::Done,
                        OperationStatus { client: Some(Err(error)), server },
                    )
                }
            },
            State::ErrorResponse(_) => {
                if kind == MessageKind::ErrorAcknowledgement {
                    Self::enter(complete, State::Done, status)
                } else {
                    let violation = ProtocolError::MissingErrorAcknowledgement { received: kind };
                    StateFuture {
                        complete,
                        state,
                        status,
                        pending: Action::Fail(OperationError::ProtocolViolation { violation }),
                    }
                }
            },
            _ => StateFuture { complete, state, status, pending: Action::Receive },
        }
    }
}

/// The connection as one flow sees it: where its operations go to and come
/// from, and who is told of its state.
pub trait OperationContext {
    /// What the handler makers are given.
    type MessageContext;

    /// The context for the handlers of one invocation.
    fn get_message_context(&self) -> Self::MessageContext;

    /// Sends an operation of the flow to the peer.
    fn send_operation(&self, op: &Operation) -> Result<(), Error>;

    /// Waits for the next operation of the flow from the peer.
    fn wait_for_operation(&self) -> Result<Operation, Error>;

    /// Takes note of the state that the flow has entered.
    fn update_state(&self, state: &State) -> Result<(), Error>;
}

/// What status-style handlers need of their surroundings.
pub trait ServiceCenterContext {
    /// The wall time in nanoseconds since the Unix epoch, as it goes on the
    /// wire.
    fn now_utc(&self) -> u64;

    /// For how long the system has been up.
    fn system_uptime(&self) -> std::time::Duration;
}

/// The error for a message of kind `received` where one of kind `expected`
/// is due.
pub open spec fn unexpected_message(received: MessageKind, expected: MessageKind) -> OperationErrorView {
    OperationErrorView::ClientSentUnexpectedMessage {
        received: received.wire_name(),
        expected: expected.wire_name(),
    }
}

/// Takes the message of type `MM` out of an operation, or says which
/// message came in its place.
pub fn to_protocol_message<MM>(op: Operation) -> (result: Result<MM, OperationError>) where
    MM: MuchsyncProtocolMessage,

    ensures
        match result {
            Ok(message) => message.operation() == op@ && op@.kind() == MM::kind(),
            Err(error) => op@.kind() != MM::kind() && error@ == unexpected_message(
                op@.kind(),
                MM::kind(),
            ),
        },
{
    let recv_op = op.name();
    proof {
        MM::message_name_is_wire_name();
    }
    match MM::try_from_operation(op) {
        Ok(message) => {
            proof {
                message.operation_is_of_kind();
            }
            Ok(message)
        },
        Err(_) => Err(
            OperationError::ClientSentUnexpectedMessage {
                received: recv_op,
                expected: MM::MESSAGE_NAME,
            },
        ),
    }
}

/// Wraps a message into the operation that carries it.
pub fn from_protocol_message<MM>(mm: MM) -> (operation: Operation) where MM: MuchsyncProtocolMessage
    ensures
        operation@ == mm.operation(),
        operation@.kind() == MM::kind(),
{
    proof {
        mm.operation_is_of_kind();
    }
    mm.into_operation()
}

/// Whether `event` is what a typed handler layer of a flow with the given
/// kinds can hand back for the pending action of `machine`: an operation of
/// the wrong kind never reaches a handler, and a handler answers with a
/// message of its type.
pub open spec fn typed_answer(
    start: MessageKind,
    response: MessageKind,
    complete: MessageKind,
    machine: StateFutureView,
    event: EventView,
) -> bool {
    match machine.pending {
        ActionView::CallStartHandler(operation) => {
            &&& event matches EventView::StartHandled(result)
            &&& operation.kind() != start ==> result == Err::<OperationView, OperationErrorView>(
                unexpected_message(operation.kind(), start),
            )
            &&& result matches Ok(answer) ==> answer.kind() == response
        },
        ActionView::CallCompleteHandler(operation) => {
            &&& event matches EventView::CompleteHandled(result)
            &&& operation.kind() != complete ==> result == Err::<(), OperationErrorView>(
                unexpected_message(operation.kind(), complete),
            )
        },
        ActionView::CallErrorHandler(operation) => {
            &&& event matches EventView::ErrorHandled(result)
            &&& operation.kind() != MessageKind::Error ==> result == Err::<
                OperationView,
                OperationErrorView,
            >(unexpected_message(operation.kind(), MessageKind::Error))
            &&& result matches Ok(answer) ==> answer == OperationView::ErrorAcknowledgement
        },
        _ => machine.answers(event),
    }
}

/// Whether `events` is a run of the flow from `machine` on in which every
/// event is a typed answer to the action that was pending when it came.
pub open spec fn typed_run(
    start: MessageKind,
    response: MessageKind,
    complete: MessageKind,
    machine: StateFutureView,
    events: Seq<EventView>,
) -> bool
    decreases events.len(),
{
    events.len() > 0 ==> {
        &&& typed_run(start, response, complete, machine, events.drop_last())
        &&& typed_answer(start, response, complete, machine.run(events.drop_last()), events.last())
    }
}

/// Whether `result` is how the flow of `machine` ends after `events`.
pub open spec fn ends_with(
    machine: StateFutureView,
    events: Seq<EventView>,
    result: Result<OperationStatus, OperationError>,
) -> bool {
    match result {
        Ok(status) => machine.run(events).pending == ActionView::Finish(status@),
        Err(error) => machine.run(events).pending == ActionView::Fail(error@),
    }
}

/// Whether `status` is how a flow with the given kinds can end that begins
/// in `state`: some typed run of its machine finishes with `status`.
pub open spec fn flow_ends_with(
    start: MessageKind,
    response: MessageKind,
    complete: MessageKind,
    state: StateView,
    status: OperationStatusView,
) -> bool {
    exists|events: Seq<EventView>|
        {
            &&& #[trigger] typed_run(
                start,
                response,
                complete,
                StateFutureView::start(complete, state),
                events,
            )
            &&& StateFutureView::start(complete, state).run(events).pending == ActionView::Finish(
                status,
            )
        }
}

/// How a flow ends whose start message is of the wrong kind: the responder
/// records the unexpected message, and nothing is attempted with the client.
pub open spec fn bad_start_status(received: MessageKind, expected: MessageKind) -> OperationStatusView {
    OperationStatusView { client: None, server: Some(Err(unexpected_message(received, expected))) }
}

fn handle_start<MM, H>(handler: H, op: Operation) -> (result: Result<Operation, OperationError>) where
    MM: MuchsyncProtocolMessage,
    H: Handler<MM>,
    H::Response: MuchsyncProtocolMessage,

    ensures
        op@.kind() != MM::kind() ==> (result matches Err(error) && error@ == unexpected_message(
            op@.kind(),
            MM::kind(),
        )),
        result matches Ok(answer) ==> answer@.kind() == <H::Response as MuchsyncProtocolMessage>::kind(),
{
    match to_protocol_message::<MM>(op) {
        Ok(message) => match handler.handle(message) {
            Ok(answer) => Ok(from_protocol_message(answer)),
            Err(error) => Err(error),
        },
        Err(error) => Err(error),
    }
}

fn handle_complete<MM, H>(handler: H, op: Operation) -> (result: Result<(), OperationError>) where
    MM: MuchsyncProtocolMessage,
    H: Handler<MM, Response = ()>,

    ensures
        op@.kind() != MM::kind() ==> (result matches Err(error) && error@ == unexpected_message(
            op@.kind(),
            MM::kind(),
        )),
{
    match to_protocol_message::<MM>(op) {
        Ok(message) => handler.handle(message),
        Err(error) => Err(error),
    }
}

impl StateFuture {
    /// Drives the flow to its end: performs each action that is due, with
    /// the typed handlers of flow `F` and through `ctx`, and hands back what
    /// came of it, until the flow has ended or is given up.
    ///
    /// The result is that of a run of the machine in which every event is a
    /// typed answer to the action that was pending. Which run it is depends
    /// on the handlers, the context and the peer.
    pub fn drive_to_completion<F, C, SH, CH, EH>(
        self,
        ctx: &C,
        start_handler: SH,
        complete_handler: CH,
        error_handler: EH,
    ) -> (result: Result<OperationStatus, OperationError>) where
        F: MuchsyncProtocolFlow,
        F::CompleteMessage: MuchsyncProtocolMessage,
        C: OperationContext,
        SH: Handler<F::StartMessage, Response = F::ResponseMessage>,
        CH: Handler<F::CompleteMessage, Response = ()>,
        EH: Handler<Error, Response = ErrorAcknowledgement>,

        ensures
            exists|events: Seq<EventView>|
                {
                    &&& #[trigger] typed_run(
                        F::StartMessage::kind(),
                        F::ResponseMessage::kind(),
                        F::CompleteMessage::kind(),
                        self@,
                        events,
                    )
                    &&& ends_with(self@, events, result)
                },
    {
        let ghost initial = self@;
        let ghost start = F::StartMessage::kind();
        let ghost response = F::ResponseMessage::kind();
        let ghost complete = F::CompleteMessage::kind();
        let ghost mut events: Seq<EventView> = Seq::empty();
        let mut machine = self;
        let mut start_handler = Some(start_handler);
        let mut complete_handler = Some(complete_handler);
        let mut error_handler = Some(error_handler);
        loop
            invariant
                initial == self@,
                start == F::StartMessage::kind(),
                response == F::ResponseMessage::kind(),
                complete == F::CompleteMessage::kind(),
                machine@ == initial.run(events),
                typed_run(start, response, complete, initial, events),
                machine@.state is Start ==> start_handler is Some,
                (machine@.state is Start || machine@.state is Response) && !machine@.finished()
                    ==> complete_handler is Some && error_handler is Some,
            decreases machine@.rank(),
        {
            let ghost before = machine@;
            let event = match machine.action() {
                Action::Finish(status) => {
                    let result = Ok(status.clone());
                    assert(ends_with(initial, events, result));
                    return result;
                },
                Action::Fail(error) => {
                    let result = Err(error.clone());
                    assert(ends_with(initial, events, result));
                    return result;
                },
                Action::CallStartHandler(operation) => {
                    let handler = start_handler.take().unwrap();
                    Event::StartHandled(
                        handle_start::<F::StartMessage, SH>(handler, operation.clone()),
                    )
                },
                Action::CallCompleteHandler(operation) => {
                    let handler = complete_handler.take().unwrap();
                    Event::CompleteHandled(
                        handle_complete::<F::CompleteMessage, CH>(handler, operation.clone()),
                    )
                },
                Action::CallErrorHandler(operation) => {
                    let handler = error_handler.take().unwrap();
                    Event::ErrorHandled(handle_start::<Error, EH>(handler, operation.clone()))
                },
                Action::Send(operation) => match ctx.send_operation(operation) {
                    Ok(_) => Event::Sent,
                    Err(error) => Event::ContextFailed(error),
                },
                Action::Receive => match ctx.wait_for_operation() {
                    Ok(operation) => Event::Received(operation),
                    Err(error) => Event::ContextFailed(error),
                },
                Action::Report(state) => match ctx.update_state(state) {
                    Ok(_) => Event::Reported,
                    Err(error) => Event::ContextFailed(error),
                },
            };
            proof {
                assert(typed_answer(start, response, complete, before, event@));
                step_makes_progress(before, event@);
                let longer = events.push(event@);
                assert(longer.drop_last() == events);
                assert(longer.last() == event@);
                events = longer;
            }
            machine = machine.step(event);
        }
    }
}

proof fn bad_start_runs(
    start: MessageKind,
    response: MessageKind,
    complete: MessageKind,
    operation: OperationView,
    events: Seq<EventView>,
)
    requires
        operation.kind() != start,
        typed_run(
            start,
            response,
            complete,
            StateFutureView::start(complete, StateView::Start(operation)),
            events,
        ),
    ensures
        events.len() <= 2,
        ({
            let initial = StateFutureView::start(complete, StateView::Start(operation));
            let status = bad_start_status(operation.kind(), start);
            let end = initial.run(events);
            &&& events.len() == 0 ==> end == initial
            &&& events.len() == 1 ==> end == initial.enter(StateView::Done, status)
            &&& events.len() == 2 ==> {
                ||| end.pending == ActionView::Finish(status)
                ||| (end.pending matches ActionView::Fail(error) && error is ServerError)
            }
        }),
    decreases events.len(),
{
    if events.len() > 0 {
        bad_start_runs(start, response, complete, operation, events.drop_last());
    }
}

/// Every beginning of a typed run is a typed run.
pub proof fn typed_run_begins_typed(
    start: MessageKind,
    response: MessageKind,
    complete: MessageKind,
    machine: StateFutureView,
    events: Seq<EventView>,
    length: int,
)
    requires
        typed_run(start, response, complete, machine, events),
        0 <= length <= events.len(),
    ensures
        typed_run(start, response, complete, machine, events.take(length)),
    decreases events.len(),
{
    if length < events.len() {
        typed_run_begins_typed(start, response, complete, machine, events.drop_last(), length);
        assert(events.drop_last().take(length) == events.take(length));
    } else {
        assert(events.take(length) == events);
    }
}

/// A start message of the wrong kind never reaches a handler: if the start
/// message of a flow is not of the flow's start kind, then every typed run
/// that ends the flow leaves the unexpected message recorded for the
/// responder and nothing attempted with the client, and the flow is given up
/// only where the context fails. At no point of such a run is anything to be
/// sent to the peer or awaited from it.
pub proof fn bad_start_ends_flow(
    start: MessageKind,
    response: MessageKind,
    complete: MessageKind,
    operation: OperationView,
    events: Seq<EventView>,
)
    requires
        operation.kind() != start,
        typed_run(
            start,
            response,
            complete,
            StateFutureView::start(complete, StateView::Start(operation)),
            events,
        ),
    ensures
        match StateFutureView::start(complete, StateView::Start(operation)).run(events).pending {
            ActionView::Finish(status) => status == bad_start_status(operation.kind(), start),
            ActionView::Fail(error) => error is ServerError,
            ActionView::Report(state) => state is Done,
            ActionView::CallStartHandler(_) => events.len() == 0,
            _ => false,
        },
        forall|length: int|
            0 <= length <= events.len() ==> {
                let pending = #[trigger] StateFutureView::start(
                    complete,
                    StateView::Start(operation),
                ).run(events.take(length)).pending;
                !(pending is Send) && !(pending is Receive)
            },
{
    bad_start_runs(start, response, complete, operation, events);
    let machine = StateFutureView::start(complete, StateView::Start(operation));
    assert forall|length: int| 0 <= length <= events.len() implies {
        let pending = #[trigger] machine.run(events.take(length)).pending;
        !(pending is Send) && !(pending is Receive)
    } by {
        typed_run_begins_typed(start, response, complete, machine, events, length);
        bad_start_runs(start, response, complete, operation, events.take(length));
    }
}

/// A flow whose handlers succeed and whose peer completes it ends well for
/// both sides: the response is sent, the completion is handled, and the
/// status records success for the client and for the server.
pub proof fn completed_flow_ends_well(
    complete: MessageKind,
    start: OperationView,
    response: OperationView,
    completion: OperationView,
)
    requires
        completion.kind() == complete,
    ensures
        ({
            let machine = StateFutureView::start(complete, StateView::Start(start));
            let answered = machine.step(EventView::StartHandled(Ok(response))).step(
                EventView::Reported,
            );
            let handled = answered.step(EventView::Sent).step(EventView::Received(completion)).step(
                EventView::CompleteHandled(Ok(())),
            );
            &&& answered.pending == ActionView::Send(response)
            &&& handled.step(EventView::Reported).pending == ActionView::Finish(
                OperationStatusView { client: Some(Ok(())), server: Some(Ok(())) },
            )
        }),
{
}

/// A flow whose start handler fails tells the peer: the error goes out as an
/// `error` message with the description of the failure, its acknowledgement
/// is awaited, and the status records the failure for the server and nothing
/// for the client. An error that says that the client sent an unexpected
/// message is not sent back: the flow ends at once.
pub proof fn failed_start_is_reported_to_the_peer(
    complete: MessageKind,
    start: OperationView,
    error: OperationErrorView,
)
    ensures
        ({
            let machine = StateFutureView::start(complete, StateView::Start(start));
            let failed = machine.step(EventView::StartHandled(Err(error)));
            let status = OperationStatusView { client: None, server: Some(Err(error)) };
            let message = OperationView::Error { message: error.description() };
            if error is ClientSentUnexpectedMessage {
                &&& failed.state == StateView::Done
                &&& failed.step(EventView::Reported).pending == ActionView::Finish(status)
            } else {
                let acknowledged = failed.step(EventView::Reported).step(EventView::Sent).step(
                    EventView::Received(OperationView::ErrorAcknowledgement),
                );
                &&& failed.state == StateView::ErrorResponse(message)
                &&& failed.step(EventView::Reported).pending == ActionView::Send(message)
                &&& acknowledged.state == StateView::Done
                &&& acknowledged.step(EventView::Reported).pending == ActionView::Finish(status)
            }
        }),
{
}

/// A peer that answers the response with anything but the completion or an
/// error ends the flow: the status records the unexpected message for the
/// client, and nothing is recorded for the server.
pub proof fn wrong_completion_ends_flow(
    complete: MessageKind,
    start: OperationView,
    response: OperationView,
    received: OperationView,
)
    requires
        received.kind() != complete,
        received.kind() != MessageKind::Error,
    ensures
        ({
            let machine = StateFutureView::start(complete, StateView::Start(start));
            let ended = machine.step(EventView::StartHandled(Ok(response))).step(
                EventView::Reported,
            ).step(EventView::Sent).step(EventView::Received(received));
            &&& ended.state == StateView::Done
            &&& ended.step(EventView::Reported).pending == ActionView::Finish(
                OperationStatusView {
                    client: Some(Err(unexpected_message(received.kind(), complete))),
                    server: None,
                },
            )
        }),
{
}

/// After an error was sent, only its acknowledgement ends the flow: any
/// other message of the peer is a violation of the protocol, and the flow
/// is given up.
pub proof fn missing_acknowledgement_is_a_violation(
    machine: StateFutureView,
    received: OperationView,
)
    requires
        machine.state is ErrorResponse,
        machine.pending is Receive,
        received.kind() != MessageKind::ErrorAcknowledgement,
    ensures
        machine.step(EventView::Received(received)).pending == ActionView::Fail(
            OperationErrorView::ProtocolViolation {
                violation: ProtocolError::MissingErrorAcknowledgement { received: received.kind() },
            },
        ),
{
}

/// What the router keeps for each flow: the flow's state machine with its
/// handler makers, ready to be called for each incoming start message.
pub trait OperationService<C> {
    /// The kind of the message that starts the flow.
    spec fn start_kind(&self) -> MessageKind;

    /// The kind of the message that answers the start.
    spec fn response_kind(&self) -> MessageKind;

    /// The kind of the message that completes the flow.
    spec fn complete_kind(&self) -> MessageKind;

    /// The kinds of the flow.
    fn flow(&self) -> (flow: FlowDescriptor)
        ensures
            flow.start == self.start_kind(),
            flow.response == self.response_kind(),
            flow.complete == Some(self.complete_kind()),
    ;

    /// Makes the handlers of one invocation and drives a flow from `state`
    /// to its end. An `Ok` is the end of a typed run of the flow's machine.
    fn call(&mut self, ctx: &C, state: State) -> (result: Result<OperationStatus, OperationError>)
        ensures
            final(self).start_kind() == old(self).start_kind(),
            final(self).response_kind() == old(self).response_kind(),
            final(self).complete_kind() == old(self).complete_kind(),
            result matches Ok(status) ==> flow_ends_with(
                old(self).start_kind(),
                old(self).response_kind(),
                old(self).complete_kind(),
                state@,
                status@,
            ),
            (state@ matches StateView::Start(operation) && operation.kind() != old(
                self,
            ).start_kind()) ==> (result matches Ok(status) ==> status@ == bad_start_status(
                state@->Start_0.kind(),
                old(self).start_kind(),
            )),
    ;
}

/// The state machine of flow `F` with its three handler makers.
pub struct ServerOperationHandler<F, SH, CH, EH> {
    start_handler: SH,
    complete_handler: CH,
    error_handler: EH,
    flow: PhantomData<F>,
}

impl<F, SH, CH, EH> ServerOperationHandler<F, SH, CH, EH> {
    /// The handler makers of the flow.
    pub closed spec fn makers(&self) -> ServerFlowSet<SH, CH, EH> {
        ServerFlowSet {
            start_handler_maker: self.start_handler,
            complete_handler_maker: self.complete_handler,
            error_handler_maker: self.error_handler,
        }
    }

    /// The handler of flow `F` with the makers of `flow`.
    pub fn new(flow: ServerFlowSet<SH, CH, EH>) -> (handler: Self)
        ensures
            handler.makers() == flow,
    {
        let ServerFlowSet { start_handler_maker, complete_handler_maker, error_handler_maker } =
            flow;
        ServerOperationHandler {
            start_handler: start_handler_maker,
            complete_handler: complete_handler_maker,
            error_handler: error_handler_maker,
            flow: PhantomData,
        }
    }
}

impl<F, SH, CH, EH, C> OperationService<C> for ServerOperationHandler<F, SH, CH, EH> where
    F: MuchsyncProtocolFlow,
    F::CompleteMessage: MuchsyncProtocolMessage,
    C: OperationContext,
    SH: MakeHandler<C::MessageContext, F::StartMessage>,
    SH::Handler: Handler<F::StartMessage, Response = F::ResponseMessage>,
    CH: MakeHandler<C::MessageContext, F::CompleteMessage>,
    CH::Handler: Handler<F::CompleteMessage, Response = ()>,
    EH: MakeHandler<C::MessageContext, Error>,
    EH::Handler: Handler<Error, Response = ErrorAcknowledgement>,
 {
    open spec fn start_kind(&self) -> MessageKind {
        F::StartMessage::kind()
    }

    open spec fn response_kind(&self) -> MessageKind {
        F::ResponseMessage::kind()
    }

    open spec fn complete_kind(&self) -> MessageKind {
        F::CompleteMessage::kind()
    }

    fn flow(&self) -> (flow: FlowDescriptor) {
        FlowDescriptor::of::<F>()
    }

    fn call(&mut self, ctx: &C, state: State) -> (result: Result<OperationStatus, OperationError>) {
        let start_handler = match self.start_handler.make_handler(ctx.get_message_context()) {
            Ok(handler) => handler,
            Err(error) => {
                return Err(error);
            },
        };
        let complete_handler = match self.complete_handler.make_handler(ctx.get_message_context()) {
            Ok(handler) => handler,
            Err(error) => {
                return Err(error);
            },
        };
        let error_handler = match self.error_handler.make_handler(ctx.get_message_context()) {
            Ok(handler) => handler,
            Err(error) => {
                return Err(error);
            },
        };
        let complete_message_kind = F::CompleteMessage::message_kind();
        let sfut = StateFuture::new(complete_message_kind, state);
        let ghost machine = sfut@;
        let result = sfut.drive_to_completion::<F, C, SH::Handler, CH::Handler, EH::Handler>(
            ctx,
            start_handler,
            complete_handler,
            error_handler,
        );
        proof {
            let events = choose|events: Seq<EventView>|
                {
                    &&& #[trigger] typed_run(
                        F::StartMessage::kind(),
                        F::ResponseMessage::kind(),
                        F::CompleteMessage::kind(),
                        machine,
                        events,
                    )
                    &&& ends_with(machine, events, result)
                };
            let initial = StateFutureView::start(F::CompleteMessage::kind(), state@);
            assert(machine == initial);
            if result is Ok {
                let status = result->Ok_0;
                assert(typed_run(
                    F::StartMessage::kind(),
                    F::ResponseMessage::kind(),
                    F::CompleteMessage::kind(),
                    initial,
                    events,
                ));
                assert(initial.run(events).pending == ActionView::Finish(status@));
            }
            if let StateView::Start(operation) = state@ {
                if operation.kind() != F::StartMessage::kind() {
                    bad_start_ends_flow(
                        F::StartMessage::kind(),
                        F::ResponseMessage::kind(),
                        F::CompleteMessage::kind(),
                        operation,
                        events,
                    );
                }
            }
        }
        result
    }
}

/// What the router names as expected where it has no flow for a message.
pub const REGISTERED_START_MESSAGE: &'static str = "a registered start message";

/// The error for a message of kind `received` that starts no registered
/// flow.
pub open spec fn unrouted_message(received: MessageKind) -> OperationErrorView {
    OperationErrorView::ClientSentUnexpectedMessage {
        received: received.wire_name(),
        expected: REGISTERED_START_MESSAGE@,
    }
}

/// The kinds of the flow that `service` drives.
pub open spec fn service_flow<C, H: OperationService<C>>(service: H) -> FlowDescriptor {
    FlowDescriptor {
        start: service.start_kind(),
        response: service.response_kind(),
        complete: Some(service.complete_kind()),
    }
}

/// The services in `map`, by the kind of the message that starts their flow.
/// Each service stands under the key of its start kind.
pub open spec fn registered_services<C, H: OperationService<C>>(map: Map<u8, H>) -> Map<
    MessageKind,
    H,
> {
    Map::new(
        |kind: MessageKind|
            map.contains_key(kind.spec_index()) && map[kind.spec_index()].start_kind() == kind,
        |kind: MessageKind| map[kind.spec_index()],
    )
}

/// The flows of `services`, by the kind of their start message.
pub open spec fn flows_of<C, H: OperationService<C>>(services: Map<MessageKind, H>) -> Map<
    MessageKind,
    FlowDescriptor,
> {
    Map::new(
        |kind: MessageKind| services.contains_key(kind),
        |kind: MessageKind| service_flow::<C, H>(services[kind]),
    )
}

/// Dispatches each start message to the service of its flow. The services
/// of all flows share the type `H`, and are called with a context of type
/// `C`.
pub struct Router<C, H> {
    map: HashMap<u8, H>,
    context: PhantomData<C>,
}

impl<C, H: OperationService<C>> Router<C, H> {
    /// The services of the router, by the kind of the message that starts
    /// their flow.
    pub closed spec fn services(&self) -> Map<MessageKind, H> {
        registered_services::<C, H>(self.map@)
    }

    /// The flows that the router serves, by the kind of their start message:
    /// the flows of its services.
    pub open spec fn flows(&self) -> Map<MessageKind, FlowDescriptor> {
        flows_of::<C, H>(self.services())
    }

    /// A builder without flows.
    pub fn builder() -> (builder: RouterBuilder<C, H>)
        ensures
            builder.services() == Map::<MessageKind, H>::empty(),
            builder.flows() == Map::<MessageKind, FlowDescriptor>::empty(),
    {
        RouterBuilder::new()
    }

    /// Whether the router serves a flow that starts with a message of
    /// `kind`.
    pub fn serves(&self, kind: MessageKind) -> (served: bool)
        ensures
            served == self.flows().contains_key(kind),
    {
        match self.map.get(&kind.index()) {
            Some(service) => service.flow().start == kind,
            None => false,
        }
    }

    /// Hands a start message to the service of its flow, which drives the
    /// flow to its end. A message that starts no flow of this router is
    /// answered with an error, and nothing else is done.
    pub fn handle_operation(&mut self, op: Operation, ctx: &C) -> (result: Result<
        OperationStatus,
        OperationError,
    >)
        ensures
            final(self).flows() == old(self).flows(),
            final(self).services().dom() == old(self).services().dom(),
            forall|kind: MessageKind|
                kind != op@.kind() && old(self).services().contains_key(kind) ==> final(self)
                    .services()[kind] == #[trigger] old(self).services()[kind],
            !old(self).services().contains_key(op@.kind()) ==> final(self).services() == old(self)
                .services(),
            !old(self).flows().contains_key(op@.kind()) ==> (result matches Err(error) && error@
                == unrouted_message(op@.kind())),
            (old(self).flows().contains_key(op@.kind()) && result is Ok) ==> ({
                let flow = old(self).flows()[op@.kind()];
                &&& flow.start == op@.kind()
                &&& flow.complete is Some
                &&& flow_ends_with(
                    flow.start,
                    flow.response,
                    flow.complete->Some_0,
                    StateView::Start(op@),
                    result->Ok_0@,
                )
            }),
    {
        let kind = op.kind();
        let key = kind.index();
        match self.map.remove(&key) {
            Some(mut service) => {
                let result = if service.flow().start == kind {
                    service.call(ctx, State::Start(op))
                } else {
                    Err(
                        OperationError::ClientSentUnexpectedMessage {
                            received: kind.name(),
                            expected: REGISTERED_START_MESSAGE,
                        },
                    )
                };
                self.map.insert(key, service);
                proof {
                    assert(final(self).services().dom() =~= old(self).services().dom());
                    assert(final(self).flows() =~= old(self).flows());
                }
                result
            },
            None => {
                proof {
                    assert(final(self).services() =~= old(self).services());
                    assert(final(self).flows() =~= old(self).flows());
                }
                Err(
                    OperationError::ClientSentUnexpectedMessage {
                        received: kind.name(),
                        expected: REGISTERED_START_MESSAGE,
                    },
                )
            },
        }
    }
}

/// Collects the flows of a router.
pub struct RouterBuilder<C, H> {
    map: HashMap<u8, H>,
    context: PhantomData<C>,
}

impl<C, H: OperationService<C>> RouterBuilder<C, H> {
    /// The services that were registered, by the kind of the message that
    /// starts their flow.
    pub closed spec fn services(&self) -> Map<MessageKind, H> {
        registered_services::<C, H>(self.map@)
    }

    /// The flows that were registered, by the kind of their start message:
    /// the flows of the registered services.
    pub open spec fn flows(&self) -> Map<MessageKind, FlowDescriptor> {
        flows_of::<C, H>(self.services())
    }

    fn new() -> (builder: Self)
        ensures
            builder.services() == Map::<MessageKind, H>::empty(),
            builder.flows() == Map::<MessageKind, FlowDescriptor>::empty(),
    {
        let builder = RouterBuilder { map: HashMap::new(), context: PhantomData };
        assert(builder.services() =~= Map::<MessageKind, H>::empty());
        assert(builder.flows() =~= Map::<MessageKind, FlowDescriptor>::empty());
        builder
    }

    /// Whether a flow that starts with a message of `kind` was registered.
    pub fn has_flow(&self, kind: MessageKind) -> (registered: bool)
        ensures
            registered == self.flows().contains_key(kind),
    {
        match self.map.get(&kind.index()) {
            Some(service) => service.flow().start == kind,
            None => false,
        }
    }

    /// Registers the service of a flow under the kind of the flow's start
    /// message. No flow may be registered twice.
    pub fn with_server_flow(self, flow: H) -> (builder: Self)
        requires
            !self.flows().contains_key(flow.start_kind()),
        ensures
            builder.services() == self.services().insert(flow.start_kind(), flow),
            builder.flows() == self.flows().insert(
                flow.start_kind(),
                service_flow::<C, H>(flow),
            ),
    {
        let key = flow.flow().start.index();
        let mut map = self.map;
        map.insert(key, flow);
        let builder = RouterBuilder { map, context: PhantomData };
        assert(builder.services() =~= self.services().insert(flow.start_kind(), flow));
        assert(builder.flows() =~= self.flows().insert(
            flow.start_kind(),
            service_flow::<C, H>(flow),
        ));
        builder
    }

    /// The router of the registered flows.
    pub fn build(self) -> (router: Router<C, H>)
        ensures
            router.services() == self.services(),
            router.flows() == self.flows(),
    {
        Router { map: self.map, context: PhantomData }
    }
}

/// One of two services: lets a router keep the services of different
/// flows, which are of different types, under one type.
pub enum EitherService<A, B> {
    Left(A),
    Right(B),
}

impl<C, A: OperationService<C>, B: OperationService<C>> OperationService<C> for EitherService<
    A,
    B,
> {
    open spec fn start_kind(&self) -> MessageKind {
        match self {
            EitherService::Left(service) => service.start_kind(),
            EitherService::Right(service) => service.start_kind(),
        }
    }

    open spec fn response_kind(&self) -> MessageKind {
        match self {
            EitherService::Left(service) => service.response_kind(),
            EitherService::Right(service) => service.response_kind(),
        }
    }

    open spec fn complete_kind(&self) -> MessageKind {
        match self {
            EitherService::Left(service) => service.complete_kind(),
            EitherService::Right(service) => service.complete_kind(),
        }
    }

    fn flow(&self) -> (flow: FlowDescriptor) {
        match self {
            EitherService::Left(service) => service.flow(),
            EitherService::Right(service) => service.flow(),
        }
    }

    fn call(&mut self, ctx: &C, state: State) -> (result: Result<OperationStatus, OperationError>) {
        match self {
            EitherService::Left(service) => service.call(ctx, state),
            EitherService::Right(service) => service.call(ctx, state),
        }
    }
}

} // verus!
