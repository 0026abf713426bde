//! The messages of the error flow, which may end any other flow from
//! either side.

use vstd::prelude::*;

use crate::operation::MessageKind;
use crate::operation::MuchsyncProtocolMessage;
use crate::operation::Operation;
use crate::operation::OperationView;

verus! {

/// Tells the peer that the flow failed.
#[derive(Debug, PartialEq, Eq)]
pub struct Error {
    /// Error message
    pub message: String,
}

impl Clone for Error {
    fn clone(&self) -> (copy: Error)
        ensures
            copy == *self,
    {
        Error { message: self.message.clone() }
    }
}

impl MuchsyncProtocolMessage for Error {
    const MESSAGE_NAME: &'static str = "error";

    open spec fn kind() -> MessageKind {
        MessageKind::Error
    }

    open spec fn operation(self) -> OperationView {
        OperationView::Error { message: self.message@ }
    }

    proof fn operation_is_of_kind(self) {
    }

    proof fn message_name_is_wire_name() {
    }

    fn message_kind() -> (kind: MessageKind) {
        MessageKind::Error
    }

    fn into_operation(self) -> (operation: Operation) {
        Operation::Error(self)
    }

    fn try_from_operation(operation: Operation) -> (result: Result<Self, Operation>) {
        match operation {
            Operation::Error(message) => Ok(message),
            other => Err(other),
        }
    }
}

/// Acknowledges an error.
#[derive(Clone, Copy, Debug, PartialEq, Eq)]
pub struct ErrorAcknowledgement {
    // empty
}

impl MuchsyncProtocolMessage for ErrorAcknowledgement {
    const MESSAGE_NAME: &'static str = "errorAck";

    open spec fn kind() -> MessageKind {
        MessageKind::ErrorAcknowledgement
    }

    open spec fn operation(self) -> OperationView {
        OperationView::ErrorAcknowledgement
    }

    proof fn operation_is_of_kind(self) {
    }

    proof fn message_name_is_wire_name() {
    }

    fn message_kind() -> (kind: MessageKind) {
        MessageKind::ErrorAcknowledgement
    }

    fn into_operation(self) -> (operation: Operation) {
        Operation::ErrorAcknowledgement(self)
    }

    fn try_from_operation(operation: Operation) -> (result: Result<Self, Operation>) {
        match operation {
            Operation::ErrorAcknowledgement(message) => Ok(message),
            other => Err(other),
        }
    }
}

impl From<Error> for Operation {
    fn from(message: Error) -> (operation: Operation) {
        Operation::Error(message)
    }
}

impl vstd::std_specs::convert::FromSpecImpl<Error> for Operation {
    open spec fn obeys_from_spec() -> bool {
        true
    }

    open spec fn from_spec(message: Error) -> Operation {
        Operation::Error(message)
    }
}

impl From<ErrorAcknowledgement> for Operation {
    fn from(message: ErrorAcknowledgement) -> (operation: Operation) {
        Operation::ErrorAcknowledgement(message)
    }
}

impl vstd::std_specs::convert::FromSpecImpl<ErrorAcknowledgement> for Operation {
    open spec fn obeys_from_spec() -> bool {
        true
    }

    open spec fn from_spec(message: ErrorAcknowledgement) -> Operation {
        Operation::ErrorAcknowledgement(message)
    }
}

impl TryFrom<Operation> for Error {
    type Error = Operation;

    fn try_from(operation: Operation) -> (result: Result<Error, Operation>) {
        match operation {
            Operation::Error(message) => Ok(message),
            other => Err(other),
        }
    }
}

impl vstd::std_specs::convert::TryFromSpecImpl<Operation> for Error {
    open spec fn obeys_try_from_spec() -> bool {
        true
    }

    open spec fn try_from_spec(operation: Operation) -> Result<Error, Operation> {
        match operation {
            Operation::Error(message) => Ok(message),
            other => Err(other),
        }
    }
}

impl TryFrom<Operation> for ErrorAcknowledgement {
    type Error = Operation;

    fn try_from(operation: Operation) -> (result: Result<ErrorAcknowledgement, Operation>) {
        match operation {
            Operation::ErrorAcknowledgement(message) => Ok(message),
            other => Err(other),
        }
    }
}

impl vstd::std_specs::convert::TryFromSpecImpl<Operation> for ErrorAcknowledgement {
    open spec fn obeys_try_from_spec() -> bool {
        true
    }

    open spec fn try_from_spec(operation: Operation) -> Result<ErrorAcknowledgement, Operation> {
        match operation {
            Operation::ErrorAcknowledgement(message) => Ok(message),
            other => Err(other),
        }
    }
}

} // verus!
