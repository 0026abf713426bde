use muchsyncrs_protocol::error::DecodeError;
use muchsyncrs_protocol::error::Error;
use muchsyncrs_protocol::error::ProtocolError;
use muchsyncrs_protocol::flow::error::ErrorOperation;
use muchsyncrs_protocol::flow::ping::PingOperation;
use muchsyncrs_protocol::flow::status::StatusOperation;
use muchsyncrs_protocol::flow::FlowDescriptor;
use muchsyncrs_protocol::operation::ErrorAcknowledgement;
use muchsyncrs_protocol::operation::MessageKind;
use muchsyncrs_protocol::operation::Operation;
use muchsyncrs_protocol::operation::Payload;
use muchsyncrs_protocol::operation::Ping;
use muchsyncrs_protocol::operation::PingFin;
use muchsyncrs_protocol::operation::PingReply;
use muchsyncrs_protocol::operation::Status;
use muchsyncrs_protocol::operation::StatusFin;
use muchsyncrs_protocol::operation::StatusReply;
use muchsyncrs_protocol::session::Incoming;
use muchsyncrs_protocol::session::MessageClass;
use muchsyncrs_protocol::session::Receiver;
use muchsyncrs_protocol::session::RecvStep;
use muchsyncrs_protocol::session::RecvTask;
use muchsyncrs_protocol::session::SendBuffer;
use muchsyncrs_protocol::session::SendStep;
use muchsyncrs_protocol::session::SendTask;
use muchsyncrs_protocol::session::Session;

fn session() -> Session {
    Session::new(uuid::Uuid::from_u128(7))
}

fn status_reply(op_id: u64, message: &str) -> Payload {
    Payload {
        op_id,
        operation: Operation::StatusReply(StatusReply {
            code: 0,
            message: String::from(message),
            time: 1_000 + op_id,
        }),
    }
}

fn drain(session: &mut Session) -> Vec<Payload> {
    let mut sent = Vec::new();
    while let Some(payload) = session.next_to_send() {
        sent.push(payload.clone());
        session.pop_sent();
    }
    sent
}

#[test]
fn session_keeps_its_id() {
    let id = uuid::Uuid::from_u128(0x1234_5678_9abc_def0);
    assert_eq!(Session::new(id).id(), id);
}

#[test]
fn new_send_buffer_is_empty_and_starts_at_zero() {
    let mut buffer = SendBuffer::new();
    assert!(buffer.next().is_none());
    assert_eq!(buffer.peek_op_id(), Some(0));
    assert_eq!(buffer.push_new_operation(Operation::Ping(Ping {})), Ok(0));
    assert_eq!(buffer.push_new_operation(Operation::Status(Status {})), Ok(1));
    assert_eq!(buffer.peek_op_id(), Some(2));
    assert_eq!(
        buffer.next(),
        Some(&Payload { op_id: 0, operation: Operation::Ping(Ping {}) })
    );
    buffer.pop_front();
    assert_eq!(
        buffer.next(),
        Some(&Payload { op_id: 1, operation: Operation::Status(Status {}) })
    );
    buffer.pop_front();
    assert!(buffer.next().is_none());
    buffer.pop_front();
    assert!(buffer.next().is_none());
}

#[test]
fn send_buffer_is_first_in_first_out() {
    let mut buffer = SendBuffer::new();
    buffer.push_payload(Payload { op_id: 9, operation: Operation::PingFin(PingFin {}) });
    buffer.push_payload(Payload { op_id: 3, operation: Operation::Ping(Ping {}) });
    assert_eq!(buffer.next().map(|payload| payload.op_id), Some(9));
    assert_eq!(buffer.peek_op_id(), Some(0));
    buffer.pop_front();
    assert_eq!(buffer.next().map(|payload| payload.op_id), Some(3));
}

#[test]
fn op_id_exhaustion_queues_nothing() {
    let mut buffer = SendBuffer::starting_at(u32::MAX - 1);
    assert_eq!(
        buffer.push_new_operation(Operation::Ping(Ping {})),
        Ok(u64::from(u32::MAX - 1))
    );
    buffer.pop_front();
    assert_eq!(buffer.peek_op_id(), None);
    assert_eq!(
        buffer.push_new_operation(Operation::Ping(Ping {})),
        Err(ProtocolError::OpIdExhausted)
    );
    assert!(buffer.next().is_none());
}

#[test]
fn session_out_of_op_ids_refuses_to_send() {
    let mut session = Session::with_flows(
        uuid::Uuid::from_u128(1),
        vec![FlowDescriptor::of::<PingOperation>()],
        vec![FlowDescriptor::of::<StatusOperation>()],
        SendBuffer::starting_at(u32::MAX),
    );
    assert_eq!(
        session.send_message::<StatusOperation>(Status {}),
        Err(ProtocolError::OpIdExhausted)
    );
    assert!(session.next_to_send().is_none());
    // no flow was installed either: a response under the refused id is a violation
    assert_eq!(
        session.handle_incoming_message(status_reply(u64::from(u32::MAX), "late")),
        Err(ProtocolError::UnexpectedResponse { op_id: u64::from(u32::MAX) })
    );
}

#[test]
fn default_session_serves_ping_and_initiates_status() {
    let session = session();
    assert_eq!(session.classify(MessageKind::Ping), MessageClass::Start);
    assert_eq!(session.classify(MessageKind::PingFin), MessageClass::Completion);
    assert_eq!(session.classify(MessageKind::StatusReply), MessageClass::Response);
    assert_eq!(session.classify(MessageKind::PingReply), MessageClass::Unhandled);
    assert_eq!(session.classify(MessageKind::Status), MessageClass::Unhandled);
    assert_eq!(session.classify(MessageKind::StatusFin), MessageClass::Unhandled);
    assert_eq!(session.classify(MessageKind::Error), MessageClass::Unhandled);
    assert_eq!(session.classify(MessageKind::ErrorAcknowledgement), MessageClass::Unhandled);
}

#[test]
fn session_with_other_flows_classifies_by_them() {
    let session = Session::with_flows(
        uuid::Uuid::from_u128(2),
        vec![
            FlowDescriptor::of::<StatusOperation>(),
            FlowDescriptor::without_completion::<ErrorOperation>(),
        ],
        vec![FlowDescriptor::of::<PingOperation>()],
        SendBuffer::new(),
    );
    assert_eq!(session.classify(MessageKind::Status), MessageClass::Start);
    assert_eq!(session.classify(MessageKind::StatusFin), MessageClass::Completion);
    assert_eq!(session.classify(MessageKind::Error), MessageClass::Start);
    assert_eq!(session.classify(MessageKind::PingReply), MessageClass::Response);
    assert_eq!(session.classify(MessageKind::Ping), MessageClass::Unhandled);
    assert_eq!(session.classify(MessageKind::ErrorAcknowledgement), MessageClass::Unhandled);
}

#[test]
fn flow_descriptors_name_the_kinds_of_their_flows() {
    assert_eq!(
        FlowDescriptor::of::<PingOperation>(),
        FlowDescriptor {
            start: MessageKind::Ping,
            response: MessageKind::PingReply,
            complete: Some(MessageKind::PingFin),
        }
    );
    assert_eq!(
        FlowDescriptor::of::<StatusOperation>(),
        FlowDescriptor {
            start: MessageKind::Status,
            response: MessageKind::StatusReply,
            complete: Some(MessageKind::StatusFin),
        }
    );
    assert_eq!(
        FlowDescriptor::without_completion::<ErrorOperation>(),
        FlowDescriptor {
            start: MessageKind::Error,
            response: MessageKind::ErrorAcknowledgement,
            complete: None,
        }
    );
}

#[test]
fn served_flow_runs_from_start_to_completion() {
    let mut session = session();
    let start = Payload { op_id: 17, operation: Operation::Ping(Ping {}) };

    let incoming = session.handle_incoming_message(start);
    assert_eq!(incoming, Ok(Incoming::Answered { op_id: 17 }));
    assert_eq!(session.on_start(Ping {}), PingReply {});
    assert_eq!(
        session.next_to_send(),
        Some(&Payload { op_id: 17, operation: Operation::PingReply(PingReply {}) })
    );

    let completion = Payload { op_id: 17, operation: Operation::PingFin(PingFin {}) };
    assert_eq!(
        session.handle_incoming_message(completion.clone()),
        Ok(Incoming::Completed { op_id: 17 })
    );
    // the flow is over: a second completion has nothing to complete
    assert_eq!(
        session.handle_incoming_message(completion),
        Err(ProtocolError::UnexpectedCompletion { op_id: 17 })
    );
}

#[test]
fn completion_of_an_unanswered_flow_is_a_violation() {
    let mut session = session();
    assert_eq!(
        session.handle_incoming_message(Payload {
            op_id: 4,
            operation: Operation::PingFin(PingFin {}),
        }),
        Err(ProtocolError::UnexpectedCompletion { op_id: 4 })
    );
    // a flow that waits for its response is not completed by the peer either
    assert_eq!(session.send_message::<StatusOperation>(Status {}), Ok(0));
    assert_eq!(
        session.handle_incoming_message(Payload {
            op_id: 0,
            operation: Operation::PingFin(PingFin {}),
        }),
        Err(ProtocolError::UnexpectedCompletion { op_id: 0 })
    );
    assert_eq!(
        session.handle_incoming_message(status_reply(0, "still there")),
        Ok(Incoming::Response(status_reply(0, "still there")))
    );
}

#[test]
fn unhandled_messages_are_dropped() {
    let mut session = session();
    let payload = Payload { op_id: 1, operation: Operation::Status(Status {}) };
    assert_eq!(
        session.handle_incoming_message(payload.clone()),
        Ok(Incoming::Dropped(payload))
    );
    let payload = Payload {
        op_id: 2,
        operation: Operation::ErrorAcknowledgement(ErrorAcknowledgement {}),
    };
    assert_eq!(
        session.handle_incoming_message(payload.clone()),
        Ok(Incoming::Dropped(payload))
    );
    assert!(session.next_to_send().is_none());
}

#[test]
fn multiplexed_flows_get_their_own_responses() {
    let mut session = session();
    let first = session.send_message::<StatusOperation>(Status {}).unwrap();
    let second = session.send_message::<StatusOperation>(Status {}).unwrap();
    assert_eq!((first, second), (0, 1));
    assert_ne!(first, second);
    assert_eq!(
        drain(&mut session),
        vec![
            Payload { op_id: 0, operation: Operation::Status(Status {}) },
            Payload { op_id: 1, operation: Operation::Status(Status {}) },
        ]
    );

    // the peer answers in reverse order
    let later = session.handle_incoming_message(status_reply(second, "second")).unwrap();
    let earlier = session.handle_incoming_message(status_reply(first, "first")).unwrap();
    assert_eq!(later, Incoming::Response(status_reply(1, "second")));
    assert_eq!(earlier, Incoming::Response(status_reply(0, "first")));

    // each response is delivered once
    assert_eq!(
        session.handle_incoming_message(status_reply(second, "second")),
        Err(ProtocolError::UnexpectedResponse { op_id: 1 })
    );
    assert_eq!(
        session.handle_incoming_message(status_reply(first, "first")),
        Err(ProtocolError::UnexpectedResponse { op_id: 0 })
    );

    // each caller completes its own flow
    for incoming in [earlier, later] {
        let Incoming::Response(payload) = incoming else {
            panic!("not a response");
        };
        let op_id = payload.op_id;
        let reply = Session::take_response::<StatusOperation>(payload).unwrap();
        assert_eq!(reply.time, 1_000 + op_id);
        session.send_completion::<StatusOperation>(op_id, StatusFin {});
    }
    assert_eq!(
        drain(&mut session),
        vec![
            Payload { op_id: 0, operation: Operation::StatusFin(StatusFin {}) },
            Payload { op_id: 1, operation: Operation::StatusFin(StatusFin {}) },
        ]
    );
}

#[test]
fn response_without_a_waiting_flow_is_a_violation() {
    let mut session = session();
    assert_eq!(
        session.handle_incoming_message(status_reply(0, "nobody asked")),
        Err(ProtocolError::UnexpectedResponse { op_id: 0 })
    );
    // a flow that waits for its completion takes no response
    session.respond(5, Operation::PingReply(PingReply {}));
    assert_eq!(
        session.handle_incoming_message(status_reply(5, "wrong state")),
        Err(ProtocolError::UnexpectedResponse { op_id: 5 })
    );
    assert_eq!(
        session.handle_incoming_message(Payload {
            op_id: 5,
            operation: Operation::PingFin(PingFin {}),
        }),
        Ok(Incoming::Completed { op_id: 5 })
    );
}

#[test]
fn response_of_another_kind_is_a_violation() {
    let payload = Payload { op_id: 3, operation: Operation::PingReply(PingReply {}) };
    assert_eq!(
        Session::take_response::<StatusOperation>(payload.clone()),
        Err(ProtocolError::UnexpectedResponse { op_id: 3 })
    );
    assert_eq!(Session::take_response::<PingOperation>(payload), Ok(PingReply {}));
}

#[test]
fn send_task_sends_in_order_and_keeps_what_failed() {
    let mut session = session();
    assert_eq!(SendTask::next_step(&session), SendStep::AwaitPush);
    session.send_message::<StatusOperation>(Status {}).unwrap();
    session.respond(8, Operation::PingReply(PingReply {}));

    let first = Payload { op_id: 0, operation: Operation::Status(Status {}) };
    let second = Payload { op_id: 8, operation: Operation::PingReply(PingReply {}) };
    assert_eq!(SendTask::next_step(&session), SendStep::Transmit(first.clone()));
    // peeking does not take the payload out
    assert_eq!(SendTask::next_step(&session), SendStep::Transmit(first.clone()));
    assert!(SendTask::after_transmit(&mut session, true));
    assert_eq!(SendTask::next_step(&session), SendStep::Transmit(second.clone()));
    assert!(!SendTask::after_transmit(&mut session, false));
    assert_eq!(SendTask::next_step(&session), SendStep::Transmit(second));
    assert!(SendTask::after_transmit(&mut session, true));
    assert_eq!(SendTask::next_step(&session), SendStep::AwaitPush);
}

#[test]
fn recv_task_hands_payloads_on_and_ends_on_errors() {
    let mut session = session();
    assert_eq!(RecvTask::CONCURRENCY, 3);

    let start = Payload { op_id: 1, operation: Operation::Ping(Ping {}) };
    assert!(matches!(
        RecvTask::on_item(&mut session, Ok(start)),
        RecvStep::Handle(Incoming::Answered { op_id: 1 })
    ));
    assert_eq!(
        session.next_to_send(),
        Some(&Payload { op_id: 1, operation: Operation::PingReply(PingReply {}) })
    );
    assert!(matches!(
        RecvTask::on_item(&mut session, Ok(status_reply(1, "unasked"))),
        RecvStep::Violation(ProtocolError::UnexpectedResponse { op_id: 1 })
    ));
    let unknown = Error::Deserialization(DecodeError::UnknownCommand {
        op_id: 2,
        command: String::from("frobnicate"),
    });
    assert!(unknown.is_unknown_command());
    assert!(matches!(RecvTask::on_item(&mut session, Err(unknown)), RecvStep::Skip));
    let broken = Error::Deserialization(DecodeError::OpId);
    assert!(!broken.is_unknown_command());
    assert!(matches!(
        RecvTask::on_item(&mut session, Err(broken)),
        RecvStep::Fail(Error::Deserialization(DecodeError::OpId))
    ));
    let closed = Error::ReadingLine(std::io::Error::new(std::io::ErrorKind::BrokenPipe, "gone"));
    assert!(matches!(
        RecvTask::on_item(&mut session, Err(closed)),
        RecvStep::Fail(Error::ReadingLine(_))
    ));
}

#[test]
fn session_serves_ping_by_itself() {
    let mut session = session();
    let start = Payload { op_id: 21, operation: Operation::Ping(Ping {}) };
    assert_eq!(session.serve_start::<PingOperation>(start), Ok(()));
    assert_eq!(
        drain(&mut session),
        vec![Payload { op_id: 21, operation: Operation::PingReply(PingReply {}) }]
    );
    assert_eq!(
        session.handle_incoming_message(Payload {
            op_id: 21,
            operation: Operation::PingFin(PingFin {}),
        }),
        Ok(Incoming::Completed { op_id: 21 })
    );

    // a payload that is no ping is handed back, and nothing is answered
    let other = Payload { op_id: 22, operation: Operation::Status(Status {}) };
    assert_eq!(session.serve_start::<PingOperation>(other.clone()), Err(other));
    assert!(session.next_to_send().is_none());
    assert_eq!(
        session.handle_incoming_message(Payload {
            op_id: 22,
            operation: Operation::PingFin(PingFin {}),
        }),
        Err(ProtocolError::UnexpectedCompletion { op_id: 22 })
    );
}

#[test]
fn arriving_ping_is_answered_under_its_own_id() {
    let mut session = session();
    session.send_message::<StatusOperation>(Status {}).unwrap();
    let id = session.id();

    // the peer's id is echoed, and no id of this peer is used up
    assert_eq!(
        session.handle_incoming_message(Payload { op_id: 40, operation: Operation::Ping(Ping {}) }),
        Ok(Incoming::Answered { op_id: 40 })
    );
    assert_eq!(
        drain(&mut session),
        vec![
            Payload { op_id: 0, operation: Operation::Status(Status {}) },
            Payload { op_id: 40, operation: Operation::PingReply(PingReply {}) },
        ]
    );
    assert_eq!(session.send_message::<StatusOperation>(Status {}), Ok(1));
    assert_eq!(session.id(), id);
    assert_eq!(
        session.handle_incoming_message(Payload {
            op_id: 40,
            operation: Operation::PingFin(PingFin {}),
        }),
        Ok(Incoming::Completed { op_id: 40 })
    );
    assert_eq!(session.id(), id);
}

#[test]
fn start_of_a_flow_without_own_receiver_is_handed_out() {
    let mut session = Session::with_flows(
        uuid::Uuid::from_u128(3),
        vec![FlowDescriptor::of::<StatusOperation>()],
        vec![],
        SendBuffer::new(),
    );
    let start = Payload { op_id: 6, operation: Operation::Status(Status {}) };
    assert_eq!(
        session.handle_incoming_message(start.clone()),
        Ok(Incoming::Start(start))
    );
    assert!(session.next_to_send().is_none());
    // nothing waits until the router's answer is given
    assert_eq!(
        session.handle_incoming_message(Payload {
            op_id: 6,
            operation: Operation::StatusFin(StatusFin {}),
        }),
        Err(ProtocolError::UnexpectedCompletion { op_id: 6 })
    );
    session.respond(6, Operation::StatusReply(StatusReply {
        code: 0,
        message: String::from("ok"),
        time: 1,
    }));
    assert_eq!(
        session.handle_incoming_message(Payload {
            op_id: 6,
            operation: Operation::StatusFin(StatusFin {}),
        }),
        Ok(Incoming::Completed { op_id: 6 })
    );
    // a ping is no start for this session
    let ping = Payload { op_id: 7, operation: Operation::Ping(Ping {}) };
    assert_eq!(session.handle_incoming_message(ping.clone()), Ok(Incoming::Dropped(ping)));
}

#[test]
fn op_ids_grow_whatever_happens_between() {
    let mut buffer = SendBuffer::new();
    let first = buffer.push_new_operation(Operation::Ping(Ping {})).unwrap();
    buffer.push_payload(Payload { op_id: 99, operation: Operation::PingFin(PingFin {}) });
    buffer.pop_front();
    buffer.pop_front();
    buffer.pop_front();
    let second = buffer.push_new_operation(Operation::Ping(Ping {})).unwrap();
    buffer.push_payload(Payload { op_id: 0, operation: Operation::PingFin(PingFin {}) });
    let third = buffer.push_new_operation(Operation::Ping(Ping {})).unwrap();
    assert!(first < second && second < third);
    assert_eq!((first, second, third), (0, 1, 2));
}
