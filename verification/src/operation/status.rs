//! The messages of the status flow.

use vstd::prelude::*;

use crate::operation::MessageKind;
use crate::operation::MuchsyncProtocolMessage;
use crate::operation::Operation;
use crate::operation::OperationView;

verus! {

/// Asks the peer for its status.
#[derive(Clone, Copy, Debug, PartialEq, Eq)]
pub struct Status {
    // empty
}

impl MuchsyncProtocolMessage for Status {
    const MESSAGE_NAME: &'static str = "status";

    open spec fn kind() -> MessageKind {
        MessageKind::Status
    }

    open spec fn operation(self) -> OperationView {
        OperationView::Status
    }

    proof fn operation_is_of_kind(self) {
    }

    proof fn message_name_is_wire_name() {
    }

    fn message_kind() -> (kind: MessageKind) {
        MessageKind::Status
    }

    fn into_operation(self) -> (operation: Operation) {
        Operation::Status(self)
    }

    fn try_from_operation(operation: Operation) -> (result: Result<Self, Operation>) {
        match operation {
            Operation::Status(message) => Ok(message),
            other => Err(other),
        }
    }
}

/// The status of the peer.
#[derive(Debug, PartialEq, Eq)]
pub struct StatusReply {
    /// Status code, using POSIX error numbers, 0 for "ok"
    pub code: i32,
    /// Status message
    pub message: String,
    /// Unix UTC system time in nanoseconds since the epoch
    pub time: u64,
}

impl Clone for StatusReply {
    fn clone(&self) -> (copy: StatusReply)
        ensures
            copy == *self,
    {
        StatusReply { code: self.code, message: self.message.clone(), time: self.time }
    }
}

impl MuchsyncProtocolMessage for StatusReply {
    const MESSAGE_NAME: &'static str = "statusRsp";

    open spec fn kind() -> MessageKind {
        MessageKind::StatusReply
    }

    open spec fn operation(self) -> OperationView {
        OperationView::StatusReply { code: self.code, message: self.message@, time: self.time }
    }

    proof fn operation_is_of_kind(self) {
    }

    proof fn message_name_is_wire_name() {
    }

    fn message_kind() -> (kind: MessageKind) {
        MessageKind::StatusReply
    }

    fn into_operation(self) -> (operation: Operation) {
        Operation::StatusReply(self)
    }

    fn try_from_operation(operation: Operation) -> (result: Result<Self, Operation>) {
        match operation {
            Operation::StatusReply(message) => Ok(message),
            other => Err(other),
        }
    }
}

/// Ends a status flow.
#[derive(Clone, Copy, Debug, Default, PartialEq, Eq)]
pub struct StatusFin {
    // empty
}

impl MuchsyncProtocolMessage for StatusFin {
    const MESSAGE_NAME: &'static str = "statusCmp";

    open spec fn kind() -> MessageKind {
        MessageKind::StatusFin
    }

    open spec fn operation(self) -> OperationView {
        OperationView::StatusFin
    }

    proof fn operation_is_of_kind(self) {
    }

    proof fn message_name_is_wire_name() {
    }

    fn message_kind() -> (kind: MessageKind) {
        MessageKind::StatusFin
    }

    fn into_operation(self) -> (operation: Operation) {
        Operation::StatusFin(self)
    }

    fn try_from_operation(operation: Operation) -> (result: Result<Self, Operation>) {
        match operation {
            Operation::StatusFin(message) => Ok(message),
            other => Err(other),
        }
    }
}

impl From<Status> for Operation {
    fn from(message: Status) -> (operation: Operation) {
        Operation::Status(message)
    }
}

impl vstd::std_specs::convert::FromSpecImpl<Status> for Operation {
    open spec fn obeys_from_spec() -> bool {
        true
    }

    open spec fn from_spec(message: Status) -> Operation {
        Operation::Status(message)
    }
}

impl From<StatusReply> for Operation {
    fn from(message: StatusReply) -> (operation: Operation) {
        Operation::StatusReply(message)
    }
}

impl vstd::std_specs::convert::FromSpecImpl<StatusReply> for Operation {
    open spec fn obeys_from_spec() -> bool {
        true
    }

    open spec fn from_spec(message: StatusReply) -> Operation {
        Operation::StatusReply(message)
    }
}

impl From<StatusFin> for Operation {
    fn from(message: StatusFin) -> (operation: Operation) {
        Operation::StatusFin(message)
    }
}

impl vstd::std_specs::convert::FromSpecImpl<StatusFin> for Operation {
    open spec fn obeys_from_spec() -> bool {
        true
    }

    open spec fn from_spec(message: StatusFin) -> Operation {
        Operation::StatusFin(message)
    }
}

impl TryFrom<Operation> for Status {
    type Error = Operation;

    fn try_from(operation: Operation) -> (result: Result<Status, Operation>) {
        match operation {
            Operation::Status(message) => Ok(message),
            other => Err(other),
        }
    }
}

impl vstd::std_specs::convert::TryFromSpecImpl<Operation> for Status {
    open spec fn obeys_try_from_spec() -> bool {
        true
    }

    open spec fn try_from_spec(operation: Operation) -> Result<Status, Operation> {
        match operation {
            Operation::Status(message) => Ok(message),
            other => Err(other),
        }
    }
}

impl TryFrom<Operation> for StatusReply {
    type Error = Operation;

    fn try_from(operation: Operation) -> (result: Result<StatusReply, Operation>) {
        match operation {
            Operation::StatusReply(message) => Ok(message),
            other => Err(other),
        }
    }
}

impl vstd::std_specs::convert::TryFromSpecImpl<Operation> for StatusReply {
    open spec fn obeys_try_from_spec() -> bool {
        true
    }

    open spec fn try_from_spec(operation: Operation) -> Result<StatusReply, Operation> {
        match operation {
            Operation::StatusReply(message) => Ok(message),
            other => Err(other),
        }
    }
}

impl TryFrom<Operation> for StatusFin {
    type Error = Operation;

    fn try_from(operation: Operation) -> (result: Result<StatusFin, Operation>) {
        match operation {
            Operation::StatusFin(message) => Ok(message),
            other => Err(other),
        }
    }
}

impl vstd::std_specs::convert::TryFromSpecImpl<Operation> for StatusFin {
    open spec fn obeys_try_from_spec() -> bool {
        true
    }

    open spec fn try_from_spec(operation: Operation) -> Result<StatusFin, Operation> {
        match operation {
            Operation::StatusFin(message) => Ok(message),
            other => Err(other),
        }
    }
}

} // verus!
