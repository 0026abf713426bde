//! The messages of the protocol: a tagged union of all message kinds, each
//! with its wire tag, and the payload that carries one of them on the wire.

use vstd::prelude::*;

use crate::services::router::OperationError;

pub mod error;
pub mod ping;
pub mod status;

pub use self::error::Error;
pub use self::error::ErrorAcknowledgement;
pub use self::ping::Ping;
pub use self::ping::PingFin;
pub use self::ping::PingReply;
pub use self::status::Status;
pub use self::status::StatusFin;
pub use self::status::StatusReply;

verus! {

/// The kind of a message: which variant of [`Operation`] carries it.
#[derive(Clone, Copy, Debug, PartialEq, Eq, Structural)]
pub enum MessageKind {
    Error,
    ErrorAcknowledgement,
    Ping,
    PingReply,
    PingFin,
    Status,
    StatusReply,
    StatusFin,
}

impl MessageKind {
    /// The wire tag of the kind: the value of the `command` member.
    pub open spec fn wire_name(self) -> Seq<char> {
        match self {
            MessageKind::Error => "error"@,
            MessageKind::ErrorAcknowledgement => "errorAck"@,
            MessageKind::Ping => "ping"@,
            MessageKind::PingReply => "pingRsp"@,
            MessageKind::PingFin => "pingCmp"@,
            MessageKind::Status => "status"@,
            MessageKind::StatusReply => "statusRsp"@,
            MessageKind::StatusFin => "statusCmp"@,
        }
    }

    /// The wire tag of the kind.
    pub fn name(self) -> (name: &'static str)
        ensures
            name@ == self.wire_name(),
    {
        match self {
            MessageKind::Error => "error",
            MessageKind::ErrorAcknowledgement => "errorAck",
            MessageKind::Ping => "ping",
            MessageKind::PingReply => "pingRsp",
            MessageKind::PingFin => "pingCmp",
            MessageKind::Status => "status",
            MessageKind::StatusReply => "statusRsp",
            MessageKind::StatusFin => "statusCmp",
        }
    }

    /// The place of the kind in the list of kinds.
    pub open spec fn spec_index(self) -> u8 {
        match self {
            MessageKind::Error => 0,
            MessageKind::ErrorAcknowledgement => 1,
            MessageKind::Ping => 2,
            MessageKind::PingReply => 3,
            MessageKind::PingFin => 4,
            MessageKind::Status => 5,
            MessageKind::StatusReply => 6,
            MessageKind::StatusFin => 7,
        }
    }

    /// The place of the kind in the list of kinds: a key for tables.
    #[verifier::when_used_as_spec(spec_index)]
    pub fn index(self) -> (index: u8)
        ensures
            index == self.spec_index(),
    {
        match self {
            MessageKind::Error => 0,
            MessageKind::ErrorAcknowledgement => 1,
            MessageKind::Ping => 2,
            MessageKind::PingReply => 3,
            MessageKind::PingFin => 4,
            MessageKind::Status => 5,
            MessageKind::StatusReply => 6,
            MessageKind::StatusFin => 7,
        }
    }

    /// The kind with the given wire tag, or `None` where no kind has it.
    pub fn from_name(name: &str) -> (kind: Option<MessageKind>)
        ensures
            match kind {
                Some(k) => k.wire_name() == name@,
                None => forall|k: MessageKind| k.wire_name() != name@,
            },
    {
        if same_text(name, "error") {
            Some(MessageKind::Error)
        } else if same_text(name, "errorAck") {
            Some(MessageKind::ErrorAcknowledgement)
        } else if same_text(name, "ping") {
            Some(MessageKind::Ping)
        } else if same_text(name, "pingRsp") {
            Some(MessageKind::PingReply)
        } else if same_text(name, "pingCmp") {
            Some(MessageKind::PingFin)
        } else if same_text(name, "status") {
            Some(MessageKind::Status)
        } else if same_text(name, "statusRsp") {
            Some(MessageKind::StatusReply)
        } else if same_text(name, "statusCmp") {
            Some(MessageKind::StatusFin)
        } else {
            None
        }
    }
}

/// Wire tags are globally unique: two kinds with the same tag are the same
/// kind.
pub proof fn wire_names_are_unique(a: MessageKind, b: MessageKind)
    requires
        a.wire_name() == b.wire_name(),
    ensures
        a == b,
{
    reveal_strlit("error");
    reveal_strlit("errorAck");
    reveal_strlit("ping");
    reveal_strlit("pingRsp");
    reveal_strlit("pingCmp");
    reveal_strlit("status");
    reveal_strlit("statusRsp");
    reveal_strlit("statusCmp");
    if a != b {
        let x = a.wire_name();
        let y = b.wire_name();
        assert(x.len() != y.len() || x[0] != y[0] || x[4] != y[4] || x[6] != y[6]);
    }
}

/// `str`'s `==` of std: the two strings hold the same characters.
#[verifier::external_body]
pub(crate) fn same_text(a: &str, b: &str) -> (same: bool)
    ensures
        same == (a@ == b@),
{
    a == b
}

/// The mathematical value of an [`Operation`].
pub ghost enum OperationView {
    Error { message: Seq<char> },
    ErrorAcknowledgement,
    Ping,
    PingReply,
    PingFin,
    Status,
    StatusReply { code: i32, message: Seq<char>, time: u64 },
    StatusFin,
}

impl OperationView {
    /// The kind of the message.
    pub open spec fn kind(self) -> MessageKind {
        match self {
            OperationView::Error { .. } => MessageKind::Error,
            OperationView::ErrorAcknowledgement => MessageKind::ErrorAcknowledgement,
            OperationView::Ping => MessageKind::Ping,
            OperationView::PingReply => MessageKind::PingReply,
            OperationView::PingFin => MessageKind::PingFin,
            OperationView::Status => MessageKind::Status,
            OperationView::StatusReply { .. } => MessageKind::StatusReply,
            OperationView::StatusFin => MessageKind::StatusFin,
        }
    }
}

/// One message on the wire.
#[derive(Debug, PartialEq, Eq)]
pub enum Operation {
    Error(Error),
    ErrorAcknowledgement(ErrorAcknowledgement),
    Ping(Ping),
    PingReply(PingReply),
    PingFin(PingFin),
    Status(Status),
    StatusReply(StatusReply),
    StatusFin(StatusFin),
}

impl View for Operation {
    type V = OperationView;

    open spec fn view(&self) -> OperationView {
        match *self {
            Operation::Error(m) => OperationView::Error { message: m.message@ },
            Operation::ErrorAcknowledgement(_) => OperationView::ErrorAcknowledgement,
            Operation::Ping(_) => OperationView::Ping,
            Operation::PingReply(_) => OperationView::PingReply,
            Operation::PingFin(_) => OperationView::PingFin,
            Operation::Status(_) => OperationView::Status,
            Operation::StatusReply(m) => OperationView::StatusReply {
                code: m.code,
                message: m.message@,
                time: m.time,
            },
            Operation::StatusFin(_) => OperationView::StatusFin,
        }
    }
}

impl Operation {
    /// The kind of the message.
    pub fn kind(&self) -> (kind: MessageKind)
        ensures
            kind == self@.kind(),
    {
        match self {
            Operation::Error(_) => MessageKind::Error,
            Operation::ErrorAcknowledgement(_) => MessageKind::ErrorAcknowledgement,
            Operation::Ping(_) => MessageKind::Ping,
            Operation::PingReply(_) => MessageKind::PingReply,
            Operation::PingFin(_) => MessageKind::PingFin,
            Operation::Status(_) => MessageKind::Status,
            Operation::StatusReply(_) => MessageKind::StatusReply,
            Operation::StatusFin(_) => MessageKind::StatusFin,
        }
    }

    /// The wire tag of the message.
    pub fn name(&self) -> (name: &'static str)
        ensures
            name@ == self@.kind().wire_name(),
    {
        proof {
            Error::message_name_is_wire_name();
            ErrorAcknowledgement::message_name_is_wire_name();
            Ping::message_name_is_wire_name();
            PingReply::message_name_is_wire_name();
            PingFin::message_name_is_wire_name();
            Status::message_name_is_wire_name();
            StatusReply::message_name_is_wire_name();
            StatusFin::message_name_is_wire_name();
        }
        match self {
            Operation::Error(_) => Error::MESSAGE_NAME,
            Operation::ErrorAcknowledgement(_) => ErrorAcknowledgement::MESSAGE_NAME,
            Operation::Ping(_) => Ping::MESSAGE_NAME,
            Operation::PingReply(_) => PingReply::MESSAGE_NAME,
            Operation::PingFin(_) => PingFin::MESSAGE_NAME,
            Operation::Status(_) => Status::MESSAGE_NAME,
            Operation::StatusReply(_) => StatusReply::MESSAGE_NAME,
            Operation::StatusFin(_) => StatusFin::MESSAGE_NAME,
        }
    }
}

impl Clone for Operation {
    fn clone(&self) -> (copy: Operation)
        ensures
            copy == *self,
    {
        match self {
            Operation::Error(m) => Operation::Error(m.clone()),
            Operation::ErrorAcknowledgement(_) => Operation::ErrorAcknowledgement(
                ErrorAcknowledgement {  },
            ),
            Operation::Ping(_) => Operation::Ping(Ping {  }),
            Operation::PingReply(_) => Operation::PingReply(PingReply {  }),
            Operation::PingFin(_) => Operation::PingFin(PingFin {  }),
            Operation::Status(_) => Operation::Status(Status {  }),
            Operation::StatusReply(m) => Operation::StatusReply(m.clone()),
            Operation::StatusFin(_) => Operation::StatusFin(StatusFin {  }),
        }
    }
}

/// A message type of the protocol: one variant of [`Operation`], with its
/// wire tag and the conversions between the two.
pub trait MuchsyncProtocolMessage: Sized {
    /// The wire tag of the message.
    const MESSAGE_NAME: &'static str;

    /// The kind of the message.
    spec fn kind() -> MessageKind;

    /// The operation that carries the message.
    spec fn operation(self) -> OperationView;

    /// The operation that carries a message is of the message's kind.
    proof fn operation_is_of_kind(self)
        ensures
            self.operation().kind() == Self::kind(),
    ;

    /// The constant holds the wire tag of the message's kind.
    proof fn message_name_is_wire_name()
        ensures
            Self::MESSAGE_NAME@ == Self::kind().wire_name(),
    ;

    /// The kind of the message.
    fn message_kind() -> (kind: MessageKind)
        ensures
            kind == Self::kind(),
    ;

    /// Wraps the message into the operation that carries it.
    fn into_operation(self) -> (operation: Operation)
        ensures
            operation@ == self.operation(),
    ;

    /// Takes the message out of an operation of its kind; hands an operation
    /// of any other kind back unchanged.
    fn try_from_operation(operation: Operation) -> (result: Result<Self, Operation>)
        ensures
            match result {
                Ok(message) => message.operation() == operation@,
                Err(unchanged) => unchanged == operation && operation@.kind() != Self::kind(),
            },
    ;
}

/// Any JSON value, for members that no message kind describes.
#[derive(Debug)]
pub struct Object(pub serde_json::Value);

/// The mathematical value of a [`Payload`].
pub ghost struct PayloadView {
    pub op_id: u64,
    pub operation: OperationView,
}

/// The unit of framing: an operation with the id of the flow it belongs to.
#[derive(Debug, PartialEq, Eq)]
pub struct Payload {
    pub op_id: u64,
    pub operation: Operation,
}

impl View for Payload {
    type V = PayloadView;

    open spec fn view(&self) -> PayloadView {
        PayloadView { op_id: self.op_id, operation: self.operation@ }
    }
}

impl Clone for Payload {
    fn clone(&self) -> (copy: Payload)
        ensures
            copy == *self,
    {
        Payload { op_id: self.op_id, operation: self.operation.clone() }
    }
}

/// A handler for one message of a flow: it turns the incoming message into
/// the outgoing one, once.
pub trait Handler<Request> {
    /// What the handler answers with.
    type Response;

    /// Handles the message.
    fn handle(self, request: Request) -> Result<Self::Response, OperationError>;
}

/// Makes the handler of one invocation from the context of the message.
pub trait MakeHandler<Target, Request> {
    /// The handler that is made.
    type Handler: Handler<Request>;

    /// Makes a handler for `target`.
    fn make_handler(&mut self, target: Target) -> Result<Self::Handler, OperationError>;
}

/// The three handler makers of a flow on the responder's side.
pub struct ServerFlowSet<SH, CH, EH> {
    /// Makes the handler of the start message.
    pub start_handler_maker: SH,
    /// Makes the handler of the completion.
    pub complete_handler_maker: CH,
    /// Makes the handler of an error of the peer.
    pub error_handler_maker: EH,
}

impl<SH, CH, EH> ServerFlowSet<SH, CH, EH> {
    /// Binds the three makers of a flow together.
    pub fn new(start_handler_maker: SH, complete_handler_maker: CH, error_handler_maker: EH) -> (set:
        Self)
        ensures
            set.start_handler_maker == start_handler_maker,
            set.complete_handler_maker == complete_handler_maker,
            set.error_handler_maker == error_handler_maker,
    {
        ServerFlowSet { start_handler_maker, complete_handler_maker, error_handler_maker }
    }
}

} // verus!
