//! The flows of the protocol: each one binds the message that starts it,
//! the message that answers it and the message that completes it.

use vstd::prelude::*;

use crate::operation::MessageKind;
use crate::operation::MuchsyncProtocolMessage;

pub mod error;
pub mod ping;
pub mod status;

verus! {

/// One RPC shape: start, response and completion on a shared operation id.
pub trait MuchsyncProtocolFlow {
    /// The first message of the flow, sent by the initiator.
    type StartMessage: MuchsyncProtocolMessage;

    /// The message that the responder sends after it has handled the start.
    type ResponseMessage: MuchsyncProtocolMessage;

    /// The message by which the initiator ends the flow. A flow without a
    /// completion names a type here that is no message.
    type CompleteMessage;
}

/// The message kinds of a flow, as values.
#[derive(Clone, Copy, Debug, PartialEq, Eq, Structural)]
pub struct FlowDescriptor {
    /// The kind of the message that starts the flow.
    pub start: MessageKind,
    /// The kind of the message that answers the start.
    pub response: MessageKind,
    /// The kind of the message that completes the flow, if it has one.
    pub complete: Option<MessageKind>,
}

impl FlowDescriptor {
    /// The kinds of a flow that has a completion.
    pub open spec fn spec_of<F>() -> FlowDescriptor where
        F: MuchsyncProtocolFlow,
        F::CompleteMessage: MuchsyncProtocolMessage,
    {
        FlowDescriptor {
            start: F::StartMessage::kind(),
            response: F::ResponseMessage::kind(),
            complete: Some(F::CompleteMessage::kind()),
        }
    }

    /// The kinds of a flow that ends with its response.
    pub open spec fn spec_without_completion<F: MuchsyncProtocolFlow>() -> FlowDescriptor {
        FlowDescriptor {
            start: F::StartMessage::kind(),
            response: F::ResponseMessage::kind(),
            complete: None,
        }
    }

    /// The kinds of a flow that has a completion.
    pub fn of<F>() -> (descriptor: FlowDescriptor) where
        F: MuchsyncProtocolFlow,
        F::CompleteMessage: MuchsyncProtocolMessage,

        ensures
            descriptor == Self::spec_of::<F>(),
    {
        FlowDescriptor {
            start: F::StartMessage::message_kind(),
            response: F::ResponseMessage::message_kind(),
            complete: Some(F::CompleteMessage::message_kind()),
        }
    }

    /// The kinds of a flow that ends with its response.
    pub fn without_completion<F: MuchsyncProtocolFlow>() -> (descriptor: FlowDescriptor)
        ensures
            descriptor == Self::spec_without_completion::<F>(),
    {
        FlowDescriptor {
            start: F::StartMessage::message_kind(),
            response: F::ResponseMessage::message_kind(),
            complete: None,
        }
    }

    /// Whether a message of `kind` has a role in the flow.
    pub open spec fn has_role(self, kind: MessageKind) -> bool {
        self.start == kind || self.response == kind || self.complete == Some(kind)
    }

    /// No message kind plays two roles in the flow.
    pub open spec fn roles_are_distinct(self) -> bool {
        &&& self.start != self.response
        &&& self.complete != Some(self.start)
        &&& self.complete != Some(self.response)
    }

    /// No message kind has a role in both flows.
    pub open spec fn disjoint_from(self, other: FlowDescriptor) -> bool {
        forall|kind: MessageKind| !(self.has_role(kind) && other.has_role(kind))
    }
}

/// The message kinds of the built-in flows are disjoint: no kind plays two
/// roles in one of them, and no kind has a role in two of them.
pub proof fn built_in_flows_are_disjoint()
    ensures
        FlowDescriptor::spec_of::<ping::PingOperation>().roles_are_distinct(),
        FlowDescriptor::spec_of::<status::StatusOperation>().roles_are_distinct(),
        FlowDescriptor::spec_without_completion::<error::ErrorOperation>().roles_are_distinct(),
        FlowDescriptor::spec_of::<ping::PingOperation>().disjoint_from(
            FlowDescriptor::spec_of::<status::StatusOperation>(),
        ),
        FlowDescriptor::spec_of::<ping::PingOperation>().disjoint_from(
            FlowDescriptor::spec_without_completion::<error::ErrorOperation>(),
        ),
        FlowDescriptor::spec_of::<status::StatusOperation>().disjoint_from(
            FlowDescriptor::spec_without_completion::<error::ErrorOperation>(),
        ),
{
}

} // verus!
