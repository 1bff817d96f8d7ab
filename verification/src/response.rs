//! The writer: one reply or one error, as one frame on the sink.

use crate::error::{rendering, ErrorKind, MessagingError, MessagingErrorView};
use crate::frame::{fits, frame_of, oversize, put_frame};
use crate::json::{
    from_i64, from_members, from_string, insert, json_model, json_text, new_members, no_members,
    to_text, Json, JsonNumber,
};
use crate::prefix::Endianness;
use serde_json::Value;
use vstd::prelude::*;
use vstd::string::StringExecFns;
use vstd::utf8::encode_utf8;

verus! {

/// The message that answers the request `id` with a payload: an object with
/// the members `rpc_id` and `reply`, and no other.
pub open spec fn reply_message(id: i64, reply: Json) -> Json {
    Json::Object(
        no_members().insert("rpc_id"@, Json::Number(JsonNumber::Integer(id as int))).insert(
            "reply"@,
            reply,
        ),
    )
}

/// The message that answers the request `id` with a failure: an object with
/// the members `rpc_id` and `error`, the rendering of the failure, and no
/// other.
pub open spec fn error_message(id: i64, error: MessagingErrorView) -> Json {
    Json::Object(
        no_members().insert("rpc_id"@, Json::Number(JsonNumber::Integer(id as int))).insert(
            "error"@,
            Json::String(rendering(error)),
        ),
    )
}

/// The failure of a write whose message has no JSON text.
pub open spec fn no_text() -> MessagingErrorView {
    MessagingErrorView { kind: ErrorKind::Encode, context: "message cannot be written as JSON"@ }
}

/// The payload that carries a message: its JSON text in UTF-8, where the
/// message has a text and the text is short enough for a frame.
pub open spec fn payload_of_message(message: Json) -> Result<Seq<u8>, MessagingErrorView> {
    match json_text(message) {
        Some(text) => if fits(encode_utf8(text)) {
            Ok(encode_utf8(text))
        } else {
            Err(oversize())
        },
        None => Err(no_text()),
    }
}

/// What a sink that held `before` holds after one write of a message: the
/// frame of the message after what was there, or, where the write fails, only
/// what was there.
pub open spec fn written(before: Seq<u8>, order: Endianness, message: Json) -> Seq<u8> {
    match payload_of_message(message) {
        Ok(payload) => before + frame_of(order, payload),
        Err(_) => before,
    }
}

/// What a write of a message returns.
pub open spec fn write_outcome(message: Json) -> Result<(), MessagingErrorView> {
    match payload_of_message(message) {
        Ok(_) => Ok(()),
        Err(e) => Err(e),
    }
}

/// The result of a write as contracts see it.
pub open spec fn write_view(r: Result<(), MessagingError>) -> Result<(), MessagingErrorView> {
    match r {
        Ok(_) => Ok(()),
        Err(e) => Err(e@),
    }
}

/// Builds the message that answers the request `id` with a payload.
pub fn reply_to(id: i64, reply: Value) -> (message: Value)
    ensures
        json_model(message) == reply_message(id, json_model(reply)),
{
    let mut members = new_members();
    insert(&mut members, String::from_str("rpc_id"), from_i64(id));
    insert(&mut members, String::from_str("reply"), reply);
    from_members(members)
}

/// Builds the message that answers the request `id` with a failure.
pub fn error_to(id: i64, error: &MessagingError) -> (message: Value)
    ensures
        json_model(message) == error_message(id, error@),
{
    let mut members = new_members();
    insert(&mut members, String::from_str("rpc_id"), from_i64(id));
    insert(&mut members, String::from_str("error"), from_string(error.render()));
    from_members(members)
}

/// Writes a message as one frame: its JSON text, behind the length of that
/// text in bytes. Where the message has no text, or a text too long for the
/// length field, nothing is written.
pub fn encode_and_send(out: &mut Vec<u8>, order: Endianness, message: &Value) -> (r: Result<
    (),
    MessagingError,
>)
    ensures
        final(out)@ == written(old(out)@, order, json_model(*message)),
        write_view(r) == write_outcome(json_model(*message)),
{
    match to_text(message) {
        Ok(text) => put_frame(out, order, text.as_str().as_bytes()),
        Err(_) => Err(MessagingError::new(ErrorKind::Encode, "message cannot be written as JSON")),
    }
}

/// Answers the request `id` with a payload, as one frame on the sink.
pub fn write_reply(out: &mut Vec<u8>, order: Endianness, id: i64, reply: Value) -> (r: Result<
    (),
    MessagingError,
>)
    ensures
        final(out)@ == written(old(out)@, order, reply_message(id, json_model(reply))),
        write_view(r) == write_outcome(reply_message(id, json_model(reply))),
{
    let message = reply_to(id, reply);
    encode_and_send(out, order, &message)
}

/// Answers the request `id` with a failure, as one frame on the sink.
pub fn write_error(
    out: &mut Vec<u8>,
    order: Endianness,
    id: i64,
    error: MessagingError,
) -> (r: Result<(), MessagingError>)
    ensures
        final(out)@ == written(old(out)@, order, error_message(id, error@)),
        write_view(r) == write_outcome(error_message(id, error@)),
{
    let message = error_to(id, &error);
    encode_and_send(out, order, &message)
}

} // verus!
