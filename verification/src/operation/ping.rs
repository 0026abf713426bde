//! The messages of the ping flow. None of them has a body.

use vstd::prelude::*;

use crate::operation::MessageKind;
use crate::operation::MuchsyncProtocolMessage;
use crate::operation::Operation;
use crate::operation::OperationView;

verus! {

/// Starts a ping flow.
#[derive(Clone, Copy, Debug, PartialEq, Eq)]
pub struct Ping {
    // empty
}

impl MuchsyncProtocolMessage for Ping {
    const MESSAGE_NAME: &'static str = "ping";

    open spec fn kind() -> MessageKind {
        MessageKind::Ping
    }

    open spec fn operation(self) -> OperationView {
        OperationView::Ping
    }

    proof fn operation_is_of_kind(self) {
    }

    proof fn message_name_is_wire_name() {
    }

    fn message_kind() -> (kind: MessageKind) {
        MessageKind::Ping
    }

    fn into_operation(self) -> (operation: Operation) {
        Operation::Ping(self)
    }

    fn try_from_operation(operation: Operation) -> (result: Result<Self, Operation>) {
        match operation {
            Operation::Ping(message) => Ok(message),
            other => Err(other),
        }
    }
}

/// Answers a ping.
#[derive(Clone, Copy, Debug, PartialEq, Eq)]
pub struct PingReply {
    // empty
}

impl MuchsyncProtocolMessage for PingReply {
    const MESSAGE_NAME: &'static str = "pingRsp";

    open spec fn kind() -> MessageKind {
        MessageKind::PingReply
    }

    open spec fn operation(self) -> OperationView {
        OperationView::PingReply
    }

    proof fn operation_is_of_kind(self) {
    }

    proof fn message_name_is_wire_name() {
    }

    fn message_kind() -> (kind: MessageKind) {
        MessageKind::PingReply
    }

    fn into_operation(self) -> (operation: Operation) {
        Operation::PingReply(self)
    }

    fn try_from_operation(operation: Operation) -> (result: Result<Self, Operation>) {
        match operation {
            Operation::PingReply(message) => Ok(message),
            other => Err(other),
        }
    }
}

/// Ends a ping flow.
#[derive(Clone, Copy, Debug, Default, PartialEq, Eq)]
pub struct PingFin {
    // empty
}

impl MuchsyncProtocolMessage for PingFin {
    const MESSAGE_NAME: &'static str = "pingCmp";

    open spec fn kind() -> MessageKind {
        MessageKind::PingFin
    }

    open spec fn operation(self) -> OperationView {
        OperationView::PingFin
    }

    proof fn operation_is_of_kind(self) {
    }

    proof fn message_name_is_wire_name() {
    }

    fn message_kind() -> (kind: MessageKind) {
        MessageKind::PingFin
    }

    fn into_operation(self) -> (operation: Operation) {
        Operation::PingFin(self)
    }

    fn try_from_operation(operation: Operation) -> (result: Result<Self, Operation>) {
        match operation {
            Operation::PingFin(message) => Ok(message),
            other => Err(other),
        }
    }
}

impl From<Ping> for Operation {
    fn from(message: Ping) -> (operation: Operation) {
        Operation::Ping(message)
    }
}

impl vstd::std_specs::convert::FromSpecImpl<Ping> for Operation {
    open spec fn obeys_from_spec() -> bool {
        true
    }

    open spec fn from_spec(message: Ping) -> Operation {
        Operation::Ping(message)
    }
}

impl From<PingReply> for Operation {
    fn from(message: PingReply) -> (operation: Operation) {
        Operation::PingReply(message)
    }
}

impl vstd::std_specs::convert::FromSpecImpl<PingReply> for Operation {
    open spec fn obeys_from_spec() -> bool {
        true
    }

    open spec fn from_spec(message: PingReply) -> Operation {
        Operation::PingReply(message)
    }
}

impl From<PingFin> for Operation {
    fn from(message: PingFin) -> (operation: Operation) {
        Operation::PingFin(message)
    }
}

impl vstd::std_specs::convert::FromSpecImpl<PingFin> for Operation {
    open spec fn obeys_from_spec() -> bool {
        true
    }

    open spec fn from_spec(message: PingFin) -> Operation {
        Operation::PingFin(message)
    }
}

impl TryFrom<Operation> for Ping {
    type Error = Operation;

    fn try_from(operation: Operation) -> (result: Result<Ping, Operation>) {
        match operation {
            Operation::Ping(message) => Ok(message),
            other => Err(other),
        }
    }
}

impl vstd::std_specs::convert::TryFromSpecImpl<Operation> for Ping {
    open spec fn obeys_try_from_spec() -> bool {
        true
    }

    open spec fn try_from_spec(operation: Operation) -> Result<Ping, Operation> {
        match operation {
            Operation::Ping(message) => Ok(message),
            other => Err(other),
        }
    }
}

impl TryFrom<Operation> for PingReply {
    type Error = Operation;

    fn try_from(operation: Operation) -> (result: Result<PingReply, Operation>) {
        match operation {
            Operation::PingReply(message) => Ok(message),
            other => Err(other),
        }
    }
}

impl vstd::std_specs::convert::TryFromSpecImpl<Operation> for PingReply {
    open spec fn obeys_try_from_spec() -> bool {
        true
    }

    open spec fn try_from_spec(operation: Operation) -> Result<PingReply, Operation> {
        match operation {
            Operation::PingReply(message) => Ok(message),
            other => Err(other),
        }
    }
}

impl TryFrom<Operation> for PingFin {
    type Error = Operation;

    fn try_from(operation: Operation) -> (result: Result<PingFin, Operation>) {
        match operation {
            Operation::PingFin(message) => Ok(message),
            other => Err(other),
        }
    }
}

impl vstd::std_specs::convert::TryFromSpecImpl<Operation> for PingFin {
    open spec fn obeys_try_from_spec() -> bool {
        true
    }

    open spec fn try_from_spec(operation: Operation) -> Result<PingFin, Operation> {
        match operation {
            Operation::PingFin(message) => Ok(message),
            other => Err(other),
        }
    }
}

} // verus!
