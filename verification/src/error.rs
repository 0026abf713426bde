//! The errors of the transport and the violations of the protocol.

use vstd::prelude::*;

use crate::operation::MessageKind;

verus! {

/// `std::io::Error`: why reading or writing failed. It is carried, and never
/// looked into.
#[verifier::external_type_specification]
#[verifier::external_body]
pub struct ExIoError(std::io::Error);

/// Behaviour of the peer that cannot be reconciled. Each of them is fatal to
/// the connection.
#[derive(Clone, Copy, Debug, PartialEq, Eq, Structural)]
pub enum ProtocolError {
    /// Every operation id has been handed out.
    OpIdExhausted,
    /// The peer completed a flow that was not answered.
    UnexpectedCompletion { op_id: u64 },
    /// The peer answered a flow that does not wait for a response.
    UnexpectedResponse { op_id: u64 },
    /// The peer answered an error with something else than its
    /// acknowledgement.
    MissingErrorAcknowledgement { received: MessageKind },
}

/// Why a line is no payload.
#[derive(Debug, PartialEq, Eq)]
pub enum DecodeError {
    /// The line is no JSON object; `detail` says what the parser found.
    Syntax { detail: String },
    /// The object has no unsigned 64-bit member `op_id`.
    OpId,
    /// The object has no text member `command`.
    Command { op_id: u64 },
    /// The command is well-formed, but no message kind has this tag.
    UnknownCommand { op_id: u64, command: String },
    /// A member that the message kind needs is missing or of the wrong
    /// type.
    Field { kind: MessageKind, field: &'static str },
}

/// The mathematical value of a [`DecodeError`].
pub ghost enum DecodeErrorView {
    Syntax { detail: Seq<char> },
    OpId,
    Command { op_id: u64 },
    UnknownCommand { op_id: u64, command: Seq<char> },
    Field { kind: MessageKind, field: Seq<char> },
}

impl View for DecodeError {
    type V = DecodeErrorView;

    open spec fn view(&self) -> DecodeErrorView {
        match *self {
            DecodeError::Syntax { detail } => DecodeErrorView::Syntax { detail: detail@ },
            DecodeError::OpId => DecodeErrorView::OpId,
            DecodeError::Command { op_id } => DecodeErrorView::Command { op_id },
            DecodeError::UnknownCommand { op_id, command } => DecodeErrorView::UnknownCommand {
                op_id,
                command: command@,
            },
            DecodeError::Field { kind, field } => DecodeErrorView::Field { kind, field: field@ },
        }
    }
}

/// What can go wrong between the byte streams and the payloads.
#[derive(Debug)]
pub enum Error {
    /// The connection failed.
    Io(std::io::Error),
    /// A line that was read is no payload.
    Deserialization(DecodeError),
    /// A payload could not be written as a line; the text says why.
    Serialization(String),
    /// A line could not be read.
    ReadingLine(std::io::Error),
    /// A line could not be written.
    WritingLine(std::io::Error),
}

impl Error {
    /// Whether the error is a command that no message kind has.
    pub open spec fn spec_is_unknown_command(&self) -> bool {
        self matches Error::Deserialization(DecodeError::UnknownCommand { .. })
    }

    /// Whether the error is a command that no message kind has: such a
    /// line is dropped, and the connection goes on.
    #[verifier::when_used_as_spec(spec_is_unknown_command)]
    pub fn is_unknown_command(&self) -> (unknown: bool)
        ensures
            unknown == self.spec_is_unknown_command(),
    {
        match self {
            Error::Deserialization(DecodeError::UnknownCommand { .. }) => true,
            _ => false,
        }
    }
}

} // verus!
