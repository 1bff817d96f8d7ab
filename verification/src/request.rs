//! The reader: one frame off the input, parsed, with its correlation id.

use crate::error::{ErrorKind, MessagingError, MessagingErrorView};
use crate::frame::{after_first_frame, first_payload, short_read, starts_with_frame, FrameReader};
use crate::json::{as_i64, as_integer, get, json_model, json_parsed, member, parse, Json};
use crate::prefix::Endianness;
use serde_json::Value;
use vstd::prelude::*;

verus! {

/// The correlation id of a message: its member `rpc_id`, where that is an
/// integer that fits `i64`.
pub open spec fn rpc_id_of(message: Json) -> Option<i64> {
    match member(message, "rpc_id"@) {
        Some(id) => as_integer(id),
        None => None,
    }
}

/// The failure of a read whose payload is no JSON text.
pub open spec fn not_json() -> MessagingErrorView {
    MessagingErrorView { kind: ErrorKind::Decode, context: "payload is not JSON text"@ }
}

/// The failure of a read whose message carries no usable correlation id.
pub open spec fn no_rpc_id() -> MessagingErrorView {
    MessagingErrorView {
        kind: ErrorKind::Protocol,
        context: "rpc_id is missing or is not a 64-bit integer"@,
    }
}

/// The request that a message is: the message with its correlation id.
pub open spec fn request_of_message(message: Json) -> Result<(i64, Json), MessagingErrorView> {
    match rpc_id_of(message) {
        Some(id) => Ok((id, message)),
        None => Err(no_rpc_id()),
    }
}

/// The request that a payload spells.
pub open spec fn request_of_payload(payload: Seq<u8>) -> Result<(i64, Json), MessagingErrorView> {
    match json_parsed(payload) {
        Some(message) => request_of_message(message),
        None => Err(not_json()),
    }
}

/// What one read makes of an input: the request in its first frame, or the
/// failure.
pub open spec fn read_outcome(order: Endianness, input: Seq<u8>) -> Result<
    (i64, Json),
    MessagingErrorView,
> {
    if starts_with_frame(order, input) {
        request_of_payload(first_payload(order, input))
    } else {
        Err(short_read(input))
    }
}

/// What one read leaves of an input: all that follows the first frame,
/// whatever the frame held, and nothing where the input ended early.
pub open spec fn unread_after(order: Endianness, input: Seq<u8>) -> Seq<u8> {
    if starts_with_frame(order, input) {
        after_first_frame(order, input)
    } else {
        Seq::empty()
    }
}

/// The result of a read as contracts see it: the message by its model, the
/// failure by its view.
pub open spec fn outcome_view(r: Result<(i64, Value), MessagingError>) -> Result<
    (i64, Json),
    MessagingErrorView,
> {
    match r {
        Ok((id, message)) => Ok((id, json_model(message))),
        Err(e) => Err(e@),
    }
}

/// The correlation id that a message carries.
pub fn correlation_id(message: &Value) -> (r: Result<i64, MessagingError>)
    ensures
        match r {
            Ok(id) => rpc_id_of(json_model(*message)) == Some(id),
            Err(e) => rpc_id_of(json_model(*message)) is None && e@ == no_rpc_id(),
        },
{
    let id = match get(message, "rpc_id") {
        Some(field) => as_i64(field),
        None => None,
    };
    match id {
        Some(id) => Ok(id),
        None => Err(
            MessagingError::new(
                ErrorKind::Protocol,
                "rpc_id is missing or is not a 64-bit integer",
            ),
        ),
    }
}

/// Takes a parsed message for a request: the whole message, and beside it the
/// correlation id that it carries.
pub fn into_request(message: Value) -> (r: Result<(i64, Value), MessagingError>)
    ensures
        outcome_view(r) == request_of_message(json_model(message)),
        r matches Ok((_, same)) ==> same == message,
{
    match correlation_id(&message) {
        Ok(id) => Ok((id, message)),
        Err(e) => Err(e),
    }
}

/// Parses the payload of a frame into a request.
pub fn parse_request(payload: &[u8]) -> (r: Result<(i64, Value), MessagingError>)
    ensures
        outcome_view(r) == request_of_payload(payload@),
{
    match parse(payload) {
        Ok(message) => into_request(message),
        Err(_) => Err(MessagingError::new(ErrorKind::Decode, "payload is not JSON text")),
    }
}

/// Reads one request: takes the first frame off the input, parses its payload
/// and finds the correlation id. A frame that was read whole is used up even
/// where its payload is refused, so the next read starts at the next frame.
pub fn read_request(reader: &mut FrameReader<'_>) -> (r: Result<(i64, Value), MessagingError>)
    ensures
        final(reader).byte_order() == old(reader).byte_order(),
        final(reader)@ == unread_after(old(reader).byte_order(), old(reader)@),
        outcome_view(r) == read_outcome(old(reader).byte_order(), old(reader)@),
{
    match reader.read_frame() {
        Ok(payload) => parse_request(payload),
        Err(e) => {
            assert(reader@ =~= Seq::<u8>::empty());
            Err(e)
        },
    }
}

} // verus!
