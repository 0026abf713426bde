//! The framing of payloads: one JSON object per line. A payload is written
//! as an object with the members `op_id` and `command` and the members of
//! its operation beside them, and a line is read back into a payload.

use vstd::prelude::*;

use crate::error::DecodeError;
use crate::error::DecodeErrorView;
use crate::error::Error;
use crate::operation::ErrorAcknowledgement;
use crate::operation::MessageKind;
use crate::operation::Operation;
use crate::operation::OperationView;
use crate::operation::Payload;
use crate::operation::PayloadView;
use crate::operation::Ping;
use crate::operation::PingFin;
use crate::operation::PingReply;
use crate::operation::Status;
use crate::operation::StatusFin;
use crate::operation::StatusReply;

verus! {

/// `Value` of serde_json: any JSON value. It is never looked into but
/// through the object that holds it.
#[verifier::external_type_specification]
#[verifier::external_body]
pub struct ExJsonValue(serde_json::Value);

/// `Map` of serde_json: a JSON object. What it holds is known by
/// [`json_members`] alone.
#[verifier::external_type_specification]
#[verifier::external_body]
#[verifier::reject_recursive_types(K)]
#[verifier::reject_recursive_types(V)]
pub struct ExJsonMap<K, V>(serde_json::Map<K, V>);

/// The byte that ends a line.
pub const NEWLINE: u8 = 10;

/// A member of a JSON object, as far as the protocol reads it.
pub ghost enum JsonMember {
    /// An integer number.
    Integer(int),
    /// A string.
    Text(Seq<char>),
    /// Anything else.
    Other,
}

/// What a JSON object holds: its members by their names.
pub uninterp spec fn json_members(object: serde_json::Map<String, serde_json::Value>) -> Map<
    Seq<char>,
    JsonMember,
>;

/// The names of the members of a JSON object, each once, in the order in
/// which the members were put in.
pub uninterp spec fn json_names(object: serde_json::Map<String, serde_json::Value>) -> Seq<
    Seq<char>,
>;

/// The members of the JSON object that `text` is, or what the parser says
/// of a `text` that is no JSON object.
pub uninterp spec fn json_object(text: Seq<u8>) -> Result<Map<Seq<char>, JsonMember>, Seq<char>>;

/// The compact JSON text of an object with the given members, written in
/// the order of `names`.
pub uninterp spec fn json_text(names: Seq<Seq<char>>, members: Map<Seq<char>, JsonMember>) -> Seq<
    u8,
>;

/// The names of an object after a member `name` was put in: a new name
/// comes last, and a name that the object has keeps its place.
pub open spec fn names_with(
    names: Seq<Seq<char>>,
    members: Map<Seq<char>, JsonMember>,
    name: Seq<char>,
) -> Seq<Seq<char>> {
    if members.contains_key(name) {
        names
    } else {
        names.push(name)
    }
}

/// The integer member `name` of an object, if it has one.
pub open spec fn integer_member(members: Map<Seq<char>, JsonMember>, name: Seq<char>) -> Option<
    int,
> {
    if members.contains_key(name) && members[name] is Integer {
        Some(members[name]->Integer_0)
    } else {
        None
    }
}

/// The text member `name` of an object, if it has one.
pub open spec fn text_member(members: Map<Seq<char>, JsonMember>, name: Seq<char>) -> Option<
    Seq<char>,
> {
    if members.contains_key(name) && members[name] is Text {
        Some(members[name]->Text_0)
    } else {
        None
    }
}

/// Whether every member is an integer or a text.
pub open spec fn plain_members(members: Map<Seq<char>, JsonMember>) -> bool {
    forall|name: Seq<char>| #[trigger] members.contains_key(name) ==> !(members[name] is Other)
}

/// `serde_json::from_slice` for a `Map<String, Value>`: parses a JSON
/// object. An `Err` holds the parser's message.
#[verifier::external_body]
fn json_parse(text: &[u8]) -> (parsed: Result<serde_json::Map<String, serde_json::Value>, String>)
    ensures
        match parsed {
            Ok(object) => json_object(text@) == Ok::<Map<Seq<char>, JsonMember>, Seq<char>>(
                json_members(object),
            ),
            Err(detail) => json_object(text@) == Err::<Map<Seq<char>, JsonMember>, Seq<char>>(
                detail@,
            ),
        },
{
    match serde_json::from_slice(text) {
        Ok(object) => Ok(object),
        Err(error) => Err(error.to_string()),
    }
}

/// `serde_json::to_vec` for a `Map<String, Value>` of integers and texts:
/// the compact JSON text of the object, its members in the order in which
/// they were put in (serde_json keeps that order with its feature
/// `preserve_order`). Such an object is always written: its names are
/// strings, its values are integers and strings, and the text goes into a
/// `Vec`. The `Err` that the signature of `to_vec` allows for holds the
/// serializer's message.
#[verifier::external_body]
fn json_print(object: &serde_json::Map<String, serde_json::Value>) -> (printed: Result<
    Vec<u8>,
    String,
>)
    requires
        plain_members(json_members(*object)),
    ensures
        printed is Ok,
        printed matches Ok(text) ==> text@ == json_text(
            json_names(*object),
            json_members(*object),
        ),
{
    match serde_json::to_vec(object) {
        Ok(text) => Ok(text),
        Err(error) => Err(error.to_string()),
    }
}

/// `Map::new` of serde_json: an object without members.
#[verifier::external_body]
fn object_new() -> (object: serde_json::Map<String, serde_json::Value>)
    ensures
        json_members(object) == (Map::<Seq<char>, JsonMember>::empty()),
        json_names(object) == Seq::<Seq<char>>::empty(),
{
    serde_json::Map::new()
}

/// `Map::insert` of serde_json with a number made from a `u64`: the object
/// has the integer under `name` afterwards, in place of what stood there. A
/// new name comes last in the order of the names.
#[verifier::external_body]
fn object_insert_u64(
    object: &mut serde_json::Map<String, serde_json::Value>,
    name: &str,
    value: u64,
)
    ensures
        json_members(*final(object)) == json_members(*old(object)).insert(
            name@,
            JsonMember::Integer(value as int),
        ),
        json_names(*final(object)) == names_with(
            json_names(*old(object)),
            json_members(*old(object)),
            name@,
        ),
{
    object.insert(name.to_owned(), serde_json::Value::from(value));
}

/// `Map::insert` of serde_json with a number made from an `i64`: the object
/// has the integer under `name` afterwards, in place of what stood there. A
/// new name comes last in the order of the names.
#[verifier::external_body]
fn object_insert_i64(
    object: &mut serde_json::Map<String, serde_json::Value>,
    name: &str,
    value: i64,
)
    ensures
        json_members(*final(object)) == json_members(*old(object)).insert(
            name@,
            JsonMember::Integer(value as int),
        ),
        json_names(*final(object)) == names_with(
            json_names(*old(object)),
            json_members(*old(object)),
            name@,
        ),
{
    object.insert(name.to_owned(), serde_json::Value::from(value));
}

/// `Map::insert` of serde_json with a string: the object has the text under
/// `name` afterwards, in place of what stood there. A new name comes last in
/// the order of the names.
#[verifier::external_body]
fn object_insert_text(
    object: &mut serde_json::Map<String, serde_json::Value>,
    name: &str,
    value: &str,
)
    ensures
        json_members(*final(object)) == json_members(*old(object)).insert(
            name@,
            JsonMember::Text(value@),
        ),
        json_names(*final(object)) == names_with(
            json_names(*old(object)),
            json_members(*old(object)),
            name@,
        ),
{
    object.insert(name.to_owned(), serde_json::Value::String(value.to_owned()));
}

/// `Map::get` and `Value::as_u64` of serde_json: the member `name` where it
/// is an integer that a `u64` holds.
#[verifier::external_body]
fn object_u64(object: &serde_json::Map<String, serde_json::Value>, name: &str) -> (found: Option<
    u64,
>)
    ensures
        found == (match integer_member(json_members(*object), name@) {
            Some(number) => if 0 <= number <= u64::MAX {
                Some(number as u64)
            } else {
                None
            },
            None => None,
        }),
{
    object.get(name)?.as_u64()
}

/// `Map::get` and `Value::as_i64` of serde_json: the member `name` where it
/// is an integer that an `i64` holds.
#[verifier::external_body]
fn object_i64(object: &serde_json::Map<String, serde_json::Value>, name: &str) -> (found: Option<
    i64,
>)
    ensures
        found == (match integer_member(json_members(*object), name@) {
            Some(number) => if i64::MIN <= number <= i64::MAX {
                Some(number as i64)
            } else {
                None
            },
            None => None,
        }),
{
    object.get(name)?.as_i64()
}

/// `Map::get` of serde_json, and the string of the value: the member `name`
/// where it is a text.
#[verifier::external_body]
fn object_text(object: &serde_json::Map<String, serde_json::Value>, name: &str) -> (found: Option<
    String,
>)
    ensures
        match found {
            Some(text) => text_member(json_members(*object), name@) == Some(text@),
            None => text_member(json_members(*object), name@) is None,
        },
{
    match object.get(name) {
        Some(serde_json::Value::String(text)) => Some(text.clone()),
        _ => None,
    }
}

/// The members of the object that a payload is written as.
pub open spec fn payload_members(payload: PayloadView) -> Map<Seq<char>, JsonMember> {
    let common = Map::<Seq<char>, JsonMember>::empty().insert(
        "op_id"@,
        JsonMember::Integer(payload.op_id as int),
    ).insert("command"@, JsonMember::Text(payload.operation.kind().wire_name()));
    match payload.operation {
        OperationView::Error { message } => common.insert("message"@, JsonMember::Text(message)),
        OperationView::StatusReply { code, message, time } => common.insert(
            "code"@,
            JsonMember::Integer(code as int),
        ).insert("message"@, JsonMember::Text(message)).insert(
            "time"@,
            JsonMember::Integer(time as int),
        ),
        _ => common,
    }
}

/// The names of the members that a payload is written with, in their order
/// on the wire: the operation id first, the command behind it, and the
/// members of the operation behind both.
pub open spec fn payload_names(payload: PayloadView) -> Seq<Seq<char>> {
    let common = seq!["op_id"@, "command"@];
    match payload.operation {
        OperationView::Error { .. } => common.push("message"@),
        OperationView::StatusReply { .. } => common.push("code"@).push("message"@).push("time"@),
        _ => common,
    }
}

/// The operation of kind `kind` that the members of an object give, or the
/// name of the member that is missing or of the wrong type.
pub open spec fn operation_of_members(
    kind: MessageKind,
    members: Map<Seq<char>, JsonMember>,
) -> Result<OperationView, DecodeErrorView> {
    match kind {
        MessageKind::Error => match text_member(members, "message"@) {
            Some(message) => Ok(OperationView::Error { message }),
            None => Err(DecodeErrorView::Field { kind, field: "message"@ }),
        },
        MessageKind::ErrorAcknowledgement => Ok(OperationView::ErrorAcknowledgement),
        MessageKind::Ping => Ok(OperationView::Ping),
        MessageKind::PingReply => Ok(OperationView::PingReply),
        MessageKind::PingFin => Ok(OperationView::PingFin),
        MessageKind::Status => Ok(OperationView::Status),
        MessageKind::StatusReply => match integer_member(members, "code"@) {
            Some(code) if i32::MIN <= code <= i32::MAX => match text_member(members, "message"@) {
                Some(message) => match integer_member(members, "time"@) {
                    Some(time) if 0 <= time <= u64::MAX => Ok(
                        OperationView::StatusReply {
                            code: code as i32,
                            message,
                            time: time as u64,
                        },
                    ),
                    _ => Err(DecodeErrorView::Field { kind, field: "time"@ }),
                },
                None => Err(DecodeErrorView::Field { kind, field: "message"@ }),
            },
            _ => Err(DecodeErrorView::Field { kind, field: "code"@ }),
        },
        MessageKind::StatusFin => Ok(OperationView::StatusFin),
    }
}

/// The kind with the wire tag `name`, if there is one.
pub open spec fn kind_of_name(name: Seq<char>) -> Option<MessageKind> {
    if exists|kind: MessageKind| kind.wire_name() == name {
        Some(choose|kind: MessageKind| kind.wire_name() == name)
    } else {
        None
    }
}

/// The payload that the members of an object give, or why they give none.
/// Members that the payload does not need are passed over.
pub open spec fn payload_of_members(members: Map<Seq<char>, JsonMember>) -> Result<
    PayloadView,
    DecodeErrorView,
> {
    match integer_member(members, "op_id"@) {
        Some(id) if 0 <= id <= u64::MAX => {
            let op_id = id as u64;
            match text_member(members, "command"@) {
                Some(command) => match kind_of_name(command) {
                    Some(kind) => match operation_of_members(kind, members) {
                        Ok(operation) => Ok(PayloadView { op_id, operation }),
                        Err(error) => Err(error),
                    },
                    None => Err(DecodeErrorView::UnknownCommand { op_id, command }),
                },
                None => Err(DecodeErrorView::Command { op_id }),
            }
        },
        _ => Err(DecodeErrorView::OpId),
    }
}

/// The payload that a line gives, or why it gives none.
pub open spec fn payload_of_line(line: Seq<u8>) -> Result<PayloadView, DecodeErrorView> {
    match json_object(line) {
        Ok(members) => payload_of_members(members),
        Err(detail) => Err(DecodeErrorView::Syntax { detail }),
    }
}

/// Whether `text` holds the byte that ends a line.
pub open spec fn holds_newline(text: Seq<u8>) -> bool {
    exists|i: int| 0 <= i < text.len() && text[i] == NEWLINE
}

fn has_newline(text: &Vec<u8>) -> (found: bool)
    ensures
        found == holds_newline(text@),
{
    let mut i: usize = 0;
    while i < text.len()
        invariant
            i <= text.len(),
            forall|j: int| 0 <= j < i ==> text@[j] != NEWLINE,
        decreases text.len() - i,
    {
        if text[i] == NEWLINE {
            return true;
        }
        i += 1;
    }
    false
}

fn operation_from_object(
    kind: MessageKind,
    object: &serde_json::Map<String, serde_json::Value>,
) -> (result: Result<Operation, DecodeError>)
    ensures
        match result {
            Ok(operation) => operation_of_members(kind, json_members(*object)) == Ok::<
                OperationView,
                DecodeErrorView,
            >(operation@),
            Err(error) => operation_of_members(kind, json_members(*object)) == Err::<
                OperationView,
                DecodeErrorView,
            >(error@),
        },
{
    match kind {
        MessageKind::Error => match object_text(object, "message") {
            Some(message) => Ok(Operation::Error(crate::operation::Error { message })),
            None => Err(DecodeError::Field { kind, field: "message" }),
        },
        MessageKind::ErrorAcknowledgement => Ok(
            Operation::ErrorAcknowledgement(ErrorAcknowledgement {  }),
        ),
        MessageKind::Ping => Ok(Operation::Ping(Ping {  })),
        MessageKind::PingReply => Ok(Operation::PingReply(PingReply {  })),
        MessageKind::PingFin => Ok(Operation::PingFin(PingFin {  })),
        MessageKind::Status => Ok(Operation::Status(Status {  })),
        MessageKind::StatusReply => {
            let code = match object_i64(object, "code") {
                Some(code) => {
                    if code < i32::MIN as i64 || code > i32::MAX as i64 {
                        return Err(DecodeError::Field { kind, field: "code" });
                    }
                    code as i32
                },
                None => {
                    return Err(DecodeError::Field { kind, field: "code" });
                },
            };
            let message = match object_text(object, "message") {
                Some(message) => message,
                None => {
                    return Err(DecodeError::Field { kind, field: "message" });
                },
            };
            let time = match object_u64(object, "time") {
                Some(time) => time,
                None => {
                    return Err(DecodeError::Field { kind, field: "time" });
                },
            };
            Ok(Operation::StatusReply(StatusReply { code, message, time }))
        },
        MessageKind::StatusFin => Ok(Operation::StatusFin(StatusFin {  })),
    }
}

/// Reads a line as a payload. The line may end with its newline.
pub fn decode_payload(line: &[u8]) -> (result: Result<Payload, DecodeError>)
    ensures
        match result {
            Ok(payload) => payload_of_line(line@) == Ok::<PayloadView, DecodeErrorView>(payload@),
            Err(error) => payload_of_line(line@) == Err::<PayloadView, DecodeErrorView>(error@),
        },
{
    let object = match json_parse(line) {
        Ok(object) => object,
        Err(detail) => {
            return Err(DecodeError::Syntax { detail });
        },
    };
    let op_id = match object_u64(&object, "op_id") {
        Some(op_id) => op_id,
        None => {
            return Err(DecodeError::OpId);
        },
    };
    let command = match object_text(&object, "command") {
        Some(command) => command,
        None => {
            return Err(DecodeError::Command { op_id });
        },
    };
    let kind = match MessageKind::from_name(command.as_str()) {
        Some(kind) => kind,
        None => {
            return Err(DecodeError::UnknownCommand { op_id, command });
        },
    };
    proof {
        assert forall|other: MessageKind| other.wire_name() == command@ implies other == kind by {
            crate::operation::wire_names_are_unique(other, kind);
        }
    }
    match operation_from_object(kind, &object) {
        Ok(operation) => Ok(Payload { op_id, operation }),
        Err(error) => Err(error),
    }
}

/// The line that a payload is written as: the compact JSON text of its
/// object, and the newline that ends it.
pub open spec fn payload_line(payload: PayloadView) -> Seq<u8> {
    payload_text(payload).push(NEWLINE)
}

/// The compact JSON text of the object of a payload.
pub open spec fn payload_text(payload: PayloadView) -> Seq<u8> {
    json_text(payload_names(payload), payload_members(payload))
}

/// Whether the line of a payload is one line and reads as that payload.
/// Only such a line is handed out.
pub open spec fn reads_back(payload: PayloadView) -> bool {
    &&& !holds_newline(payload_text(payload))
    &&& payload_of_line(payload_line(payload)) == Ok::<PayloadView, DecodeErrorView>(payload)
}

fn same_operation(left: &Operation, right: &Operation) -> (same: bool)
    ensures
        same == (left@ == right@),
{
    match (left, right) {
        (Operation::Error(a), Operation::Error(b)) => a.message == b.message,
        (Operation::ErrorAcknowledgement(_), Operation::ErrorAcknowledgement(_)) => true,
        (Operation::Ping(_), Operation::Ping(_)) => true,
        (Operation::PingReply(_), Operation::PingReply(_)) => true,
        (Operation::PingFin(_), Operation::PingFin(_)) => true,
        (Operation::Status(_), Operation::Status(_)) => true,
        (Operation::StatusReply(a), Operation::StatusReply(b)) => {
            a.code == b.code && a.message == b.message && a.time == b.time
        },
        (Operation::StatusFin(_), Operation::StatusFin(_)) => true,
        _ => false,
    }
}

/// Writes a payload as a line: the compact JSON text of its object, and the
/// newline that ends it. The line is read back before it is handed out, so
/// every line that is written reads as the payload that it was written for.
pub fn write_to_buffer(payload: &Payload) -> (result: Result<Vec<u8>, Error>)
    ensures
        match result {
            Ok(line) => {
                &&& line@ == payload_line(payload@)
                &&& is_frame(line@)
                &&& payload_of_line(line@) == Ok::<PayloadView, DecodeErrorView>(payload@)
            },
            Err(error) => error is Serialization,
        },
        result is Ok <==> reads_back(payload@),
{
    let mut object = object_new();
    object_insert_u64(&mut object, "op_id", payload.op_id);
    object_insert_text(&mut object, "command", payload.operation.name());
    match &payload.operation {
        Operation::Error(message) => {
            object_insert_text(&mut object, "message", message.message.as_str());
        },
        Operation::StatusReply(reply) => {
            object_insert_i64(&mut object, "code", reply.code as i64);
            object_insert_text(&mut object, "message", reply.message.as_str());
            object_insert_u64(&mut object, "time", reply.time);
        },
        _ => {},
    }
    proof {
        member_names_are_distinct();
        assert(json_members(object) == payload_members(payload@));
        assert(json_names(object) == payload_names(payload@));
    }
    let mut line = match json_print(&object) {
        Ok(line) => line,
        Err(detail) => {
            return Err(Error::Serialization(detail));
        },
    };
    if has_newline(&line) {
        return Err(
            Error::Serialization(String::from_str("the text of a payload holds a newline")),
        );
    }
    line.push(NEWLINE);
    assert(line@.drop_last() == payload_text(payload@));
    match decode_payload(line.as_slice()) {
        Ok(read) => {
            if read.op_id == payload.op_id && same_operation(&read.operation, &payload.operation) {
                Ok(line)
            } else {
                Err(
                    Error::Serialization(
                        String::from_str("the text of a payload reads as another payload"),
                    ),
                )
            }
        },
        Err(_) => Err(
            Error::Serialization(String::from_str("the text of a payload reads as no payload")),
        ),
    }
}

/// Takes what was read up to the end of a line: nothing at all is the end
/// of the stream, and anything else is read as a payload.
pub fn read_to_eol(line: &[u8]) -> (result: Result<Option<Payload>, Error>)
    ensures
        line@.len() == 0 ==> result matches Ok(None),
        line@.len() > 0 ==> match result {
            Ok(Some(payload)) => payload_of_line(line@) == Ok::<PayloadView, DecodeErrorView>(
                payload@,
            ),
            Ok(None) => false,
            Err(Error::Deserialization(error)) => payload_of_line(line@) == Err::<
                PayloadView,
                DecodeErrorView,
            >(error@),
            Err(_) => false,
        },
{
    if line.len() == 0 {
        return Ok(None);
    }
    match decode_payload(line) {
        Ok(payload) => Ok(Some(payload)),
        Err(error) => Err(Error::Deserialization(error)),
    }
}

proof fn member_names_are_distinct()
    ensures
        "op_id"@ != "command"@,
        "op_id"@ != "message"@,
        "op_id"@ != "code"@,
        "op_id"@ != "time"@,
        "command"@ != "message"@,
        "command"@ != "code"@,
        "command"@ != "time"@,
        "message"@ != "code"@,
        "message"@ != "time"@,
        "code"@ != "time"@,
{
    reveal_strlit("op_id");
    reveal_strlit("command");
    reveal_strlit("message");
    reveal_strlit("code");
    reveal_strlit("time");
    assert("op_id"@.len() == 5);
    assert("command"@.len() == 7);
    assert("message"@.len() == 7);
    assert("code"@.len() == 4);
    assert("time"@.len() == 4);
    assert("command"@[0] != "message"@[0]);
    assert("code"@[0] != "time"@[0]);
}

/// A payload that is written and read back is the same payload, as far as
/// the members of its object go: the object that a payload is written as
/// gives that payload.
pub proof fn written_payload_is_read_back(payload: PayloadView)
    ensures
        payload_of_members(payload_members(payload)) == Ok::<PayloadView, DecodeErrorView>(payload),
{
    member_names_are_distinct();
    let members = payload_members(payload);
    let kind = payload.operation.kind();
    assert(integer_member(members, "op_id"@) == Some(payload.op_id as int));
    assert(text_member(members, "command"@) == Some(kind.wire_name()));
    assert(kind_of_name(kind.wire_name()) == Some(kind)) by {
        let chosen = choose|other: MessageKind| other.wire_name() == kind.wire_name();
        crate::operation::wire_names_are_unique(chosen, kind);
    }
    assert(operation_of_members(kind, members) == Ok::<OperationView, DecodeErrorView>(
        payload.operation,
    ));
}

/// An object that is read and written back is the same object, but for the
/// members that a payload does not need: every member that the payload is
/// written with stands in the object that gave the payload, and an object
/// without other members is written back as it was.
pub proof fn read_members_are_written_back(
    members: Map<Seq<char>, JsonMember>,
    payload: PayloadView,
)
    requires
        payload_of_members(members) == Ok::<PayloadView, DecodeErrorView>(payload),
    ensures
        payload_members(payload).submap_of(members),
        members.dom() == payload_members(payload).dom() ==> payload_members(payload) == members,
{
    member_names_are_distinct();
    let command = text_member(members, "command"@)->Some_0;
    let kind = kind_of_name(command)->Some_0;
    assert(kind.wire_name() == command);
    assert(payload.operation.kind() == kind);
    let written = payload_members(payload);
    assert forall|name: Seq<char>| #[trigger] written.contains_key(name) implies members.contains_key(
        name,
    ) && members[name] == written[name] by {}
    if members.dom() == written.dom() {
        assert(written =~= members);
    }
}

/// A line that was written is written again as it was: the line of a payload
/// that is handed out reads as that payload, and that payload is written as
/// the same line, byte for byte.
pub proof fn written_line_is_written_again(payload: PayloadView, read: PayloadView)
    requires
        reads_back(payload),
        payload_of_line(payload_line(payload)) == Ok::<PayloadView, DecodeErrorView>(read),
    ensures
        read == payload,
        reads_back(read),
        payload_line(read) == payload_line(payload),
        is_frame(payload_line(payload)),
{
    assert(payload_line(payload).drop_last() == payload_text(payload));
}

/// Whether `frame` is a line: some bytes without a newline, and the newline
/// that ends them.
pub open spec fn is_frame(frame: Seq<u8>) -> bool {
    &&& frame.len() > 0
    &&& frame.last() == NEWLINE
    &&& !holds_newline(frame.drop_last())
}

/// The lines one after the other, as they stand on the wire.
pub open spec fn join_frames(frames: Seq<Seq<u8>>) -> Seq<u8>
    decreases frames.len(),
{
    if frames.len() == 0 {
        Seq::empty()
    } else {
        frames[0] + join_frames(frames.skip(1))
    }
}

/// The lines that `bytes` holds behind an unfinished line `current`, each
/// with its newline. Bytes behind the last newline are no line yet.
pub open spec fn frames_behind(current: Seq<u8>, bytes: Seq<u8>) -> Seq<Seq<u8>>
    decreases bytes.len(),
{
    if bytes.len() == 0 {
        Seq::empty()
    } else if bytes[0] == NEWLINE {
        seq![current.push(NEWLINE)] + frames_behind(Seq::empty(), bytes.skip(1))
    } else {
        frames_behind(current.push(bytes[0]), bytes.skip(1))
    }
}

/// The lines that `bytes` holds, each with its newline.
pub open spec fn split_frames_of(bytes: Seq<u8>) -> Seq<Seq<u8>> {
    frames_behind(Seq::empty(), bytes)
}

proof fn frame_is_split_off(current: Seq<u8>, frame: Seq<u8>, rest: Seq<u8>)
    requires
        is_frame(frame),
    ensures
        frames_behind(current, frame + rest) == seq![current + frame] + split_frames_of(rest),
    decreases frame.len(),
{
    let bytes = frame + rest;
    if frame.len() == 1 {
        assert(bytes.skip(1) =~= rest);
        assert(current.push(NEWLINE) =~= current + frame);
    } else {
        let shorter = frame.skip(1);
        assert(frame[0] != NEWLINE) by {
            assert(frame.drop_last()[0] == frame[0]);
        }
        assert(is_frame(shorter)) by {
            assert(shorter.last() == frame.last());
            if holds_newline(shorter.drop_last()) {
                let i = choose|i: int|
                    0 <= i < shorter.drop_last().len() && shorter.drop_last()[i] == NEWLINE;
                assert(frame.drop_last()[i + 1] == NEWLINE);
            }
        }
        assert(bytes.skip(1) =~= shorter + rest);
        frame_is_split_off(current.push(frame[0]), shorter, rest);
        assert(current.push(frame[0]) + shorter =~= current + frame);
    }
}

/// Framing loses nothing and adds nothing: lines that are written one after
/// the other are read back as the same lines in the same order.
pub proof fn joined_frames_are_split(frames: Seq<Seq<u8>>)
    requires
        forall|i: int| 0 <= i < frames.len() ==> is_frame(#[trigger] frames[i]),
    ensures
        split_frames_of(join_frames(frames)) == frames,
    decreases frames.len(),
{
    if frames.len() > 0 {
        let rest = frames.skip(1);
        assert forall|i: int| 0 <= i < rest.len() implies is_frame(#[trigger] rest[i]) by {
            assert(rest[i] == frames[i + 1]);
        }
        joined_frames_are_split(rest);
        frame_is_split_off(Seq::empty(), frames[0], join_frames(rest));
        assert(Seq::<u8>::empty() + frames[0] =~= frames[0]);
        assert(seq![frames[0]] + rest =~= frames);
    }
}

/// The views of the lines in `frames`.
pub open spec fn frame_views(frames: Seq<Vec<u8>>) -> Seq<Seq<u8>> {
    frames.map_values(|frame: Vec<u8>| frame@)
}

/// Cuts what was read into its lines, each with its newline. Bytes behind
/// the last newline belong to a line that has not arrived in full: `rest`
/// says where they begin.
pub fn split_frames(buffer: &[u8]) -> (cut: (Vec<Vec<u8>>, usize))
    ensures
        frame_views(cut.0@) == split_frames_of(buffer@),
        cut.1 <= buffer@.len(),
        !holds_newline(buffer@.skip(cut.1 as int)),
        join_frames(split_frames_of(buffer@)) == buffer@.take(cut.1 as int),
{
    let mut frames: Vec<Vec<u8>> = Vec::new();
    let mut current: Vec<u8> = Vec::new();
    let mut rest: usize = 0;
    let mut i: usize = 0;
    proof {
        assert(frame_views(frames@) =~= Seq::<Seq<u8>>::empty());
        assert(buffer@.skip(0) =~= buffer@);
        assert(buffer@.take(0) =~= Seq::<u8>::empty());
    }
    while i < buffer.len()
        invariant
            i <= buffer.len(),
            rest <= i,
            current@ == buffer@.subrange(rest as int, i as int),
            !holds_newline(current@),
            split_frames_of(buffer@) == frame_views(frames@) + frames_behind(
                current@,
                buffer@.skip(i as int),
            ),
            join_frames(frame_views(frames@)) == buffer@.take(rest as int),
            forall|j: int| 0 <= j < frames@.len() ==> is_frame(#[trigger] frame_views(frames@)[j]),
        decreases buffer.len() - i,
    {
        let byte = buffer[i];
        let ghost before = frame_views(frames@);
        let ghost tail = buffer@.skip(i as int);
        assert(tail[0] == byte);
        assert(tail.skip(1) =~= buffer@.skip(i + 1));
        current.push(byte);
        if byte == NEWLINE {
            let ghost frame = current@;
            assert(is_frame(frame)) by {
                assert(frame.drop_last() =~= buffer@.subrange(rest as int, i as int));
            }
            frames.push(current);
            current = Vec::new();
            proof {
                assert(frame_views(frames@) =~= before.push(frame));
                assert(before.push(frame) =~= before + seq![frame]);
                assert(frame =~= buffer@.subrange(rest as int, i + 1));
                joined_frames_append(before, frame);
                assert(buffer@.take(rest as int) + frame =~= buffer@.take(i + 1));
                assert(current@ =~= buffer@.subrange(i + 1, i + 1));
            }
            rest = i + 1;
        } else {
            proof {
                assert(current@ =~= buffer@.subrange(rest as int, i + 1));
                if holds_newline(current@) {
                    let k = choose|k: int| 0 <= k < current@.len() && current@[k] == NEWLINE;
                    assert(buffer@.subrange(rest as int, i as int)[k] == NEWLINE);
                }
            }
        }
        i += 1;
    }
    proof {
        assert(buffer@.skip(i as int) =~= Seq::<u8>::empty());
        assert(frame_views(frames@) + Seq::<Seq<u8>>::empty() =~= frame_views(frames@));
        assert(buffer@.skip(rest as int) =~= current@);
    }
    (frames, rest)
}

proof fn joined_frames_append(frames: Seq<Seq<u8>>, frame: Seq<u8>)
    ensures
        join_frames(frames.push(frame)) == join_frames(frames) + frame,
    decreases frames.len(),
{
    if frames.len() == 0 {
        assert(frames.push(frame).skip(1) =~= Seq::<Seq<u8>>::empty());
        assert(join_frames(frames.push(frame).skip(1)) =~= Seq::<u8>::empty());
        assert(join_frames(frames.push(frame)) =~= frame);
        assert(join_frames(frames) + frame =~= frame);
    } else {
        assert(frames.push(frame).skip(1) =~= frames.skip(1).push(frame));
        joined_frames_append(frames.skip(1), frame);
        assert(frames[0] + (join_frames(frames.skip(1)) + frame) =~= (frames[0] + join_frames(
            frames.skip(1),
        )) + frame);
    }
}

/// What is written is what is read: lines that each read as a payload, written
/// one after the other, are cut into the same lines, and so read as the same
/// payloads in the same order.
pub proof fn written_payloads_are_read_in_order(frames: Seq<Seq<u8>>, payloads: Seq<PayloadView>)
    requires
        frames.len() == payloads.len(),
        forall|i: int|
            0 <= i < frames.len() ==> is_frame(#[trigger] frames[i]) && payload_of_line(frames[i])
                == Ok::<PayloadView, DecodeErrorView>(payloads[i]),
    ensures
        split_frames_of(join_frames(frames)).len() == payloads.len(),
        forall|i: int|
            0 <= i < payloads.len() ==> payload_of_line(
                #[trigger] split_frames_of(join_frames(frames))[i],
            ) == Ok::<PayloadView, DecodeErrorView>(payloads[i]),
{
    joined_frames_are_split(frames);
}

} // verus!
