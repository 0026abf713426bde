use muchsyncrs_protocol::error::DecodeError;
use muchsyncrs_protocol::error::Error;
use muchsyncrs_protocol::operation::Error as ErrorMessage;
use muchsyncrs_protocol::operation::ErrorAcknowledgement;
use muchsyncrs_protocol::operation::MessageKind;
use muchsyncrs_protocol::operation::MuchsyncProtocolMessage;
use muchsyncrs_protocol::operation::Operation;
use muchsyncrs_protocol::operation::Payload;
use muchsyncrs_protocol::operation::Ping;
use muchsyncrs_protocol::operation::PingFin;
use muchsyncrs_protocol::operation::PingReply;
use muchsyncrs_protocol::operation::Status;
use muchsyncrs_protocol::operation::StatusFin;
use muchsyncrs_protocol::operation::StatusReply;
use muchsyncrs_protocol::serde::time::nanos;
use muchsyncrs_protocol::serde::time::nanos::optional;
use muchsyncrs_protocol::serde::time::nanos::optional::TimestampOutOfRange;
use muchsyncrs_protocol::transport::decode_payload;
use muchsyncrs_protocol::transport::read_to_eol;
use muchsyncrs_protocol::transport::split_frames;
use muchsyncrs_protocol::transport::write_to_buffer;
use muchsyncrs_protocol::transport::NEWLINE;

fn all_operations() -> Vec<Operation> {
    vec![
        Operation::Error(ErrorMessage { message: String::from("it broke\nbadly: \"x\"") }),
        Operation::ErrorAcknowledgement(ErrorAcknowledgement {}),
        Operation::Ping(Ping {}),
        Operation::PingReply(PingReply {}),
        Operation::PingFin(PingFin {}),
        Operation::Status(Status {}),
        Operation::StatusReply(StatusReply {
            code: -5,
            message: String::from("Eingabe-/Ausgabefehler \u{1F4A5}"),
            time: u64::MAX,
        }),
        Operation::StatusFin(StatusFin {}),
    ]
}

fn text(line: &[u8]) -> &str {
    std::str::from_utf8(line).unwrap()
}

#[test]
fn wire_names_match_the_message_catalogue() {
    let names: Vec<&str> = all_operations().iter().map(|op| op.name()).collect();
    assert_eq!(
        names,
        vec![
            "error",
            "errorAck",
            "ping",
            "pingRsp",
            "pingCmp",
            "status",
            "statusRsp",
            "statusCmp"
        ]
    );
    for op in all_operations() {
        assert_eq!(op.kind().name(), op.name());
        assert_eq!(MessageKind::from_name(op.name()), Some(op.kind()));
    }
    assert_eq!(MessageKind::from_name("pong"), None);
    assert_eq!(MessageKind::from_name("Ping"), None);
    assert_eq!(MessageKind::from_name(""), None);
    assert_eq!(Ping::MESSAGE_NAME, "ping");
    assert_eq!(PingReply::MESSAGE_NAME, "pingRsp");
    assert_eq!(PingFin::MESSAGE_NAME, "pingCmp");
    assert_eq!(Status::MESSAGE_NAME, "status");
    assert_eq!(StatusReply::MESSAGE_NAME, "statusRsp");
    assert_eq!(StatusFin::MESSAGE_NAME, "statusCmp");
    assert_eq!(ErrorMessage::MESSAGE_NAME, "error");
    assert_eq!(ErrorAcknowledgement::MESSAGE_NAME, "errorAck");
    assert_eq!(Ping::message_kind(), MessageKind::Ping);
    assert_eq!(StatusReply::message_kind(), MessageKind::StatusReply);
}

#[test]
fn message_kinds_have_distinct_indices() {
    let mut indices: Vec<u8> = all_operations().iter().map(|op| op.kind().index()).collect();
    assert_eq!(indices, vec![0, 1, 2, 3, 4, 5, 6, 7]);
    indices.dedup();
    assert_eq!(indices.len(), 8);
}

#[test]
fn typed_messages_go_in_and_out_of_operations() {
    assert_eq!(Ping {}.into_operation(), Operation::Ping(Ping {}));
    assert_eq!(Ping::try_from_operation(Operation::Ping(Ping {})), Ok(Ping {}));
    assert_eq!(
        Ping::try_from_operation(Operation::PingFin(PingFin {})),
        Err(Operation::PingFin(PingFin {}))
    );
    for op in all_operations() {
        let back = match op.clone() {
            Operation::Error(m) => m.into_operation(),
            Operation::ErrorAcknowledgement(m) => m.into_operation(),
            Operation::Ping(m) => m.into_operation(),
            Operation::PingReply(m) => m.into_operation(),
            Operation::PingFin(m) => m.into_operation(),
            Operation::Status(m) => m.into_operation(),
            Operation::StatusReply(m) => m.into_operation(),
            Operation::StatusFin(m) => m.into_operation(),
        };
        assert_eq!(back, op);
        assert_eq!(
            StatusReply::try_from_operation(op.clone()).is_ok(),
            op.kind() == MessageKind::StatusReply
        );
        assert_eq!(
            ErrorMessage::try_from_operation(op.clone()).is_ok(),
            op.kind() == MessageKind::Error
        );
    }
}

#[test]
fn payloads_are_written_as_one_compact_line() {
    let line = write_to_buffer(&Payload { op_id: 0, operation: Operation::Ping(Ping {}) }).unwrap();
    assert_eq!(text(&line), "{\"op_id\":0,\"command\":\"ping\"}\n");

    let line = write_to_buffer(&Payload {
        op_id: 18_446_744_073_709_551_615,
        operation: Operation::StatusReply(StatusReply {
            code: -5,
            message: String::from("a \"b\"\nc"),
            time: 1_700_000_000_000_000_000,
        }),
    })
    .unwrap();
    assert_eq!(
        text(&line),
        "{\"op_id\":18446744073709551615,\"command\":\"statusRsp\",\"code\":-5,\"message\":\"a \\\"b\\\"\\nc\",\"time\":1700000000000000000}\n"
    );

    let line = write_to_buffer(&Payload {
        op_id: 3,
        operation: Operation::Error(ErrorMessage { message: String::from("no") }),
    })
    .unwrap();
    assert_eq!(text(&line), "{\"op_id\":3,\"command\":\"error\",\"message\":\"no\"}\n");

    let line = write_to_buffer(&Payload { op_id: 3, operation: Operation::Ping(Ping {}) }).unwrap();
    assert_eq!(line, b"{\"op_id\":3,\"command\":\"ping\"}\n".to_vec());
}

#[test]
fn written_lines_end_with_their_only_newline() {
    for (op_id, operation) in all_operations().into_iter().enumerate() {
        let line = write_to_buffer(&Payload { op_id: op_id as u64, operation }).unwrap();
        assert_eq!(line.last(), Some(&NEWLINE));
        assert_eq!(line.iter().filter(|byte| **byte == NEWLINE).count(), 1);
    }
}

#[test]
fn written_payloads_are_read_back() {
    for (op_id, operation) in all_operations().into_iter().enumerate() {
        let payload = Payload { op_id: 1_000 * op_id as u64, operation };
        let line = write_to_buffer(&payload).unwrap();
        assert_eq!(decode_payload(&line), Ok(payload.clone()));
        assert_eq!(decode_payload(&line[..line.len() - 1]), Ok(payload.clone()));
        assert!(matches!(read_to_eol(&line), Ok(Some(read)) if read == payload));
    }
}

#[test]
fn read_lines_are_written_back() {
    for line in [
        "{\"op_id\":44,\"command\":\"ping\"}\n",
        "{\"op_id\":0,\"command\":\"errorAck\"}\n",
        "{\"op_id\":7,\"command\":\"statusRsp\",\"code\":2,\"message\":\"ENOENT\",\"time\":12}\n",
        "{\"op_id\":1,\"command\":\"error\",\"message\":\"\"}\n",
    ] {
        let payload = decode_payload(line.as_bytes()).unwrap();
        assert_eq!(text(&write_to_buffer(&payload).unwrap()), line);
    }
}

#[test]
fn every_payload_is_written() {
    for op_id in [0, 1, u64::from(u32::MAX), u64::MAX] {
        for operation in all_operations() {
            assert!(write_to_buffer(&Payload { op_id, operation }).is_ok());
        }
    }
    let message: String = (0u8..128).map(char::from).collect();
    let payload = Payload { op_id: 9, operation: Operation::Error(ErrorMessage { message }) };
    let line = write_to_buffer(&payload).unwrap();
    assert_eq!(decode_payload(&line), Ok(payload));
}

#[test]
fn lines_in_another_order_are_written_back_in_the_order_of_the_wire() {
    let payload = decode_payload(b"{\"time\":1,\"command\":\"statusRsp\",\"message\":\"m\",\"code\":0,\"op_id\":2}").unwrap();
    assert_eq!(
        text(&write_to_buffer(&payload).unwrap()),
        "{\"op_id\":2,\"command\":\"statusRsp\",\"code\":0,\"message\":\"m\",\"time\":1}\n"
    );
}

#[test]
fn members_are_read_in_any_order_and_others_passed_over() {
    let payload = decode_payload(
        b"  { \"op_id\" : 5, \"time\": 9, \"extra\": [1, {\"a\": null}], \"message\": \"m\", \"command\": \"statusRsp\", \"code\": 0 }  \n",
    );
    assert_eq!(
        payload,
        Ok(Payload {
            op_id: 5,
            operation: Operation::StatusReply(StatusReply {
                code: 0,
                message: String::from("m"),
                time: 9,
            }),
        })
    );
    assert_eq!(
        decode_payload(b"{\"op_id\":1,\"command\":\"ping\",\"message\":17}"),
        Ok(Payload { op_id: 1, operation: Operation::Ping(Ping {}) })
    );
}

#[test]
fn empty_read_is_the_end_of_the_stream() {
    assert!(matches!(read_to_eol(b""), Ok(None)));
    assert!(matches!(
        read_to_eol(b"\n"),
        Err(Error::Deserialization(DecodeError::Syntax { .. }))
    ));
}

#[test]
fn lines_that_are_no_objects_are_refused() {
    for line in [
        &b"not json"[..],
        b"{\"op_id\":1,\"command\":\"ping\"",
        b"[1,2]",
        b"17",
        b"\"ping\"",
        b"{\"op_id\":1,\"command\":\"ping\"} trailing",
        b"\xff\xfe",
    ] {
        assert!(matches!(decode_payload(line), Err(DecodeError::Syntax { .. })));
        assert!(matches!(
            read_to_eol(line),
            Err(Error::Deserialization(DecodeError::Syntax { .. }))
        ));
    }
}

#[test]
fn objects_without_a_proper_op_id_are_refused() {
    for line in [
        &b"{\"command\":\"ping\"}"[..],
        b"{\"op_id\":-1,\"command\":\"ping\"}",
        b"{\"op_id\":1.5,\"command\":\"ping\"}",
        b"{\"op_id\":\"1\",\"command\":\"ping\"}",
        b"{\"op_id\":18446744073709551616,\"command\":\"ping\"}",
        b"{\"op_id\":null,\"command\":\"ping\"}",
        b"{}",
    ] {
        assert_eq!(decode_payload(line), Err(DecodeError::OpId));
    }
}

#[test]
fn objects_without_a_proper_command_are_refused() {
    assert_eq!(decode_payload(b"{\"op_id\":3}"), Err(DecodeError::Command { op_id: 3 }));
    assert_eq!(
        decode_payload(b"{\"op_id\":3,\"command\":7}"),
        Err(DecodeError::Command { op_id: 3 })
    );
    assert_eq!(
        decode_payload(b"{\"op_id\":3,\"command\":[\"ping\"]}"),
        Err(DecodeError::Command { op_id: 3 })
    );
}

#[test]
fn unknown_commands_are_told_apart() {
    let result = decode_payload(b"{\"op_id\":9,\"command\":\"frobnicate\",\"x\":1}");
    assert_eq!(
        result,
        Err(DecodeError::UnknownCommand { op_id: 9, command: String::from("frobnicate") })
    );
    let error = read_to_eol(b"{\"op_id\":9,\"command\":\"PING\"}\n").unwrap_err();
    assert!(error.is_unknown_command());
    let error = read_to_eol(b"{\"op_id\":9}\n").unwrap_err();
    assert!(!error.is_unknown_command());
}

#[test]
fn messages_without_their_members_are_refused() {
    let field = |kind, field| Err(DecodeError::Field { kind, field });
    assert_eq!(
        decode_payload(b"{\"op_id\":1,\"command\":\"error\"}"),
        field(MessageKind::Error, "message")
    );
    assert_eq!(
        decode_payload(b"{\"op_id\":1,\"command\":\"error\",\"message\":5}"),
        field(MessageKind::Error, "message")
    );
    assert_eq!(
        decode_payload(b"{\"op_id\":1,\"command\":\"statusRsp\",\"message\":\"m\",\"time\":1}"),
        field(MessageKind::StatusReply, "code")
    );
    assert_eq!(
        decode_payload(
            b"{\"op_id\":1,\"command\":\"statusRsp\",\"code\":2147483648,\"message\":\"m\",\"time\":1}"
        ),
        field(MessageKind::StatusReply, "code")
    );
    assert_eq!(
        decode_payload(
            b"{\"op_id\":1,\"command\":\"statusRsp\",\"code\":-2147483649,\"message\":\"m\",\"time\":1}"
        ),
        field(MessageKind::StatusReply, "code")
    );
    assert_eq!(
        decode_payload(
            b"{\"op_id\":1,\"command\":\"statusRsp\",\"code\":1.0,\"message\":\"m\",\"time\":1}"
        ),
        field(MessageKind::StatusReply, "code")
    );
    assert_eq!(
        decode_payload(b"{\"op_id\":1,\"command\":\"statusRsp\",\"code\":1,\"time\":1}"),
        field(MessageKind::StatusReply, "message")
    );
    assert_eq!(
        decode_payload(b"{\"op_id\":1,\"command\":\"statusRsp\",\"code\":1,\"message\":\"m\"}"),
        field(MessageKind::StatusReply, "time")
    );
    assert_eq!(
        decode_payload(
            b"{\"op_id\":1,\"command\":\"statusRsp\",\"code\":1,\"message\":\"m\",\"time\":-1}"
        ),
        field(MessageKind::StatusReply, "time")
    );
}

#[test]
fn status_code_limits_are_read() {
    for code in [i32::MIN, -1, 0, 1, i32::MAX] {
        let payload = Payload {
            op_id: 1,
            operation: Operation::StatusReply(StatusReply {
                code,
                message: String::new(),
                time: 0,
            }),
        };
        let line = write_to_buffer(&payload).unwrap();
        assert_eq!(decode_payload(&line), Ok(payload));
    }
}

#[test]
fn read_lines_agree_with_serde_json() {
    let line = b"{\"op_id\":12,\"command\":\"statusRsp\",\"code\":-3,\"message\":\"x\\u00e9\",\"time\":99}";
    let value: serde_json::Value = serde_json::from_slice(line).unwrap();
    let payload = decode_payload(line).unwrap();
    assert_eq!(value["op_id"].as_u64(), Some(payload.op_id));
    assert_eq!(value["command"].as_str(), Some(payload.operation.name()));
    let Operation::StatusReply(reply) = payload.operation else {
        panic!("not a status reply");
    };
    assert_eq!(value["code"].as_i64(), Some(i64::from(reply.code)));
    assert_eq!(value["message"].as_str(), Some(reply.message.as_str()));
    assert_eq!(reply.message, "x\u{e9}");
    assert_eq!(value["time"].as_u64(), Some(reply.time));
}

#[test]
fn concatenated_lines_are_split_and_read_back() {
    let payloads: Vec<Payload> = all_operations()
        .into_iter()
        .enumerate()
        .map(|(op_id, operation)| Payload { op_id: op_id as u64, operation })
        .collect();
    let mut wire = Vec::new();
    let mut lines = Vec::new();
    for payload in &payloads {
        let line = write_to_buffer(payload).unwrap();
        wire.extend_from_slice(&line);
        lines.push(line);
    }
    let (frames, rest) = split_frames(&wire);
    assert_eq!(rest, wire.len());
    assert_eq!(frames, lines);
    let read: Vec<Payload> = frames.iter().map(|frame| decode_payload(frame).unwrap()).collect();
    assert_eq!(read, payloads);
}

#[test]
fn unfinished_line_is_left_for_later() {
    let (frames, rest) = split_frames(b"ab\n\ncd\nef");
    assert_eq!(frames, vec![b"ab\n".to_vec(), b"\n".to_vec(), b"cd\n".to_vec()]);
    assert_eq!(rest, 7);
    let (frames, rest) = split_frames(b"no newline");
    assert!(frames.is_empty());
    assert_eq!(rest, 0);
    let (frames, rest) = split_frames(b"");
    assert!(frames.is_empty());
    assert_eq!(rest, 0);
    let (frames, rest) = split_frames(b"\n");
    assert_eq!(frames, vec![vec![NEWLINE]]);
    assert_eq!(rest, 1);
}

#[test]
fn timestamps_go_on_the_wire_as_nanoseconds() {
    assert_eq!(nanos::serialize(0), 0);
    assert_eq!(nanos::serialize(1_700_000_000_123_456_789), 1_700_000_000_123_456_789);
    assert_eq!(nanos::serialize(i128::from(u64::MAX)), u64::MAX);
    assert_eq!(nanos::serialize(i128::from(u64::MAX) + 1), 0);
    assert_eq!(nanos::serialize(i128::from(u64::MAX) + 8), 7);
    assert_eq!(nanos::serialize(-1), u64::MAX);
    assert_eq!(nanos::deserialize(0), 0);
    assert_eq!(nanos::deserialize(u64::MAX), 18_446_744_073_709_551_615);
    assert_eq!(nanos::deserialize(nanos::serialize(42)), 42);
}

#[test]
fn optional_timestamps_are_refused_out_of_range() {
    assert_eq!(optional::serialize(None), Ok(None));
    assert_eq!(optional::serialize(Some(0)), Ok(Some(0)));
    assert_eq!(optional::serialize(Some(i128::from(u64::MAX))), Ok(Some(u64::MAX)));
    assert_eq!(
        optional::serialize(Some(i128::from(u64::MAX) + 1)),
        Err(TimestampOutOfRange { unix_timestamp_nanos: 18_446_744_073_709_551_616 })
    );
    assert_eq!(
        optional::serialize(Some(-1)),
        Err(TimestampOutOfRange { unix_timestamp_nanos: -1 })
    );
    assert_eq!(
        TimestampOutOfRange { unix_timestamp_nanos: -1 }.message(),
        "OffsetDateTime does not fit in u64"
    );
    assert_eq!(optional::deserialize(None), None);
    assert_eq!(optional::deserialize(Some(5)), Some(5));
    assert_eq!(optional::deserialize(Some(u64::MAX)), Some(i128::from(u64::MAX)));
}

#[test]
fn std_conversions_agree_with_the_message_trait() {
    assert_eq!(Operation::from(Ping {}), Operation::Ping(Ping {}));
    assert_eq!(Operation::from(PingReply {}), Operation::PingReply(PingReply {}));
    assert_eq!(Operation::from(PingFin {}), Operation::PingFin(PingFin {}));
    assert_eq!(Operation::from(Status {}), Operation::Status(Status {}));
    assert_eq!(Operation::from(StatusFin {}), Operation::StatusFin(StatusFin {}));
    assert_eq!(
        Operation::from(ErrorAcknowledgement {}),
        Operation::ErrorAcknowledgement(ErrorAcknowledgement {})
    );
    let reply = StatusReply { code: 1, message: String::from("m"), time: 2 };
    let operation: Operation = reply.clone().into();
    assert_eq!(operation, Operation::StatusReply(reply.clone()));
    assert_eq!(StatusReply::try_from(operation.clone()), Ok(reply));
    assert_eq!(Ping::try_from(operation.clone()), Err(operation));
    let error = ErrorMessage { message: String::from("e") };
    let operation = Operation::from(error.clone());
    assert_eq!(ErrorMessage::try_from(operation.clone()), Ok(error));
    assert_eq!(ErrorAcknowledgement::try_from(operation.clone()), Err(operation));
    for op in all_operations() {
        assert_eq!(Ping::try_from(op.clone()).is_ok(), op.kind() == MessageKind::Ping);
        assert_eq!(PingReply::try_from(op.clone()).is_ok(), op.kind() == MessageKind::PingReply);
        assert_eq!(PingFin::try_from(op.clone()).is_ok(), op.kind() == MessageKind::PingFin);
        assert_eq!(Status::try_from(op.clone()).is_ok(), op.kind() == MessageKind::Status);
        assert_eq!(StatusFin::try_from(op.clone()).is_ok(), op.kind() == MessageKind::StatusFin);
    }
}
