//! What holds between the writer and the reader of one channel.

use crate::error::{rendering, ErrorKind, MessagingError, MessagingErrorView};
use crate::frame::{
    first_payload, frame_of, lemma_frame_round_trip, lemma_length_field, short_read,
    starts_with_frame,
};
use crate::json::{json_parsed, member, Json, JsonNumber};
use crate::prefix::{prefix_value, Endianness};
use crate::request::{
    no_rpc_id, read_outcome, request_of_message, request_of_payload, rpc_id_of, unread_after,
};
use crate::response::{error_message, payload_of_message, reply_message, written};
use vstd::prelude::*;

verus! {

/// The names of the three members are three different strings.
proof fn lemma_member_names()
    ensures
        "rpc_id"@ != "reply"@,
        "rpc_id"@ != "error"@,
        "reply"@ != "error"@,
{
    reveal_strlit("rpc_id");
    reveal_strlit("reply");
    reveal_strlit("error");
    assert("rpc_id"@.len() == 6 && "reply"@.len() == 5 && "error"@.len() == 5);
    assert("reply"@[0] != "error"@[0]);
}

/// A reply carries the id of its request and the payload, and no failure.
pub proof fn lemma_reply_members(id: i64, reply: Json)
    ensures
        rpc_id_of(reply_message(id, reply)) == Some(id),
        member(reply_message(id, reply), "reply"@) == Some(reply),
        member(reply_message(id, reply), "error"@) is None,
{
    lemma_member_names();
}

/// An error reply carries the id of its request and the rendering of the
/// failure, and no payload.
pub proof fn lemma_error_members(id: i64, error: MessagingErrorView)
    ensures
        rpc_id_of(error_message(id, error)) == Some(id),
        member(error_message(id, error), "error"@) == Some(Json::String(rendering(error))),
        member(error_message(id, error), "reply"@) is None,
{
    lemma_member_names();
}

/// In every frame that is written, the length field equals the number of
/// bytes of JSON text that follow it, and nothing follows the text.
pub proof fn lemma_written_length(before: Seq<u8>, order: Endianness, message: Json)
    requires
        payload_of_message(message) is Ok,
    ensures
        ({
            let payload = payload_of_message(message)->Ok_0;
            let frame = frame_of(order, payload);
            &&& written(before, order, message) == before + frame
            &&& frame.len() == 4 + payload.len()
            &&& prefix_value(order, frame) == payload.len()
            &&& frame.skip(4) == payload
        }),
{
    lemma_length_field(order, payload_of_message(message)->Ok_0);
}

/// A message that was written is read back by a reader of the same byte
/// order: it finds one whole frame, whose payload is, byte for byte, the JSON
/// text of the message, and leaves what came after the frame. Where that text
/// parses to the message again, the read gives the message and the
/// correlation id that it carries.
pub proof fn lemma_message_round_trip(order: Endianness, message: Json, rest: Seq<u8>)
    requires
        payload_of_message(message) is Ok,
    ensures
        ({
            let payload = payload_of_message(message)->Ok_0;
            let input = written(Seq::empty(), order, message) + rest;
            &&& starts_with_frame(order, input)
            &&& first_payload(order, input) == payload
            &&& unread_after(order, input) == rest
            &&& read_outcome(order, input) == request_of_payload(payload)
            &&& json_parsed(payload) == Some(message) ==> read_outcome(order, input)
                == request_of_message(message)
        }),
{
    let payload = payload_of_message(message)->Ok_0;
    lemma_frame_round_trip(order, payload, rest);
    assert(written(Seq::empty(), order, message) =~= frame_of(order, payload));
}

/// A reply to the request `id` that was written is read back as a frame that
/// holds the JSON text of an object with `rpc_id` equal to `id` and `reply`
/// equal to the payload. Where that text parses to the object again, the read
/// gives `id` and the object.
pub proof fn lemma_reply_round_trip(order: Endianness, id: i64, reply: Json, rest: Seq<u8>)
    requires
        payload_of_message(reply_message(id, reply)) is Ok,
    ensures
        ({
            let message = reply_message(id, reply);
            let payload = payload_of_message(message)->Ok_0;
            let input = written(Seq::empty(), order, message) + rest;
            &&& first_payload(order, input) == payload
            &&& unread_after(order, input) == rest
            &&& member(message, "rpc_id"@) == Some(Json::Number(JsonNumber::Integer(id as int)))
            &&& member(message, "reply"@) == Some(reply)
            &&& json_parsed(payload) == Some(message) ==> read_outcome(order, input) == Ok::<
                _,
                MessagingErrorView,
            >((id, message))
        }),
{
    lemma_reply_members(id, reply);
    lemma_message_round_trip(order, reply_message(id, reply), rest);
}

/// Two writes of one failure under one id put the same bytes on their sinks,
/// whatever the sinks held.
pub proof fn lemma_error_frames_agree(
    order: Endianness,
    id: i64,
    first: MessagingError,
    second: MessagingError,
    before_first: Seq<u8>,
    before_second: Seq<u8>,
)
    requires
        first@ == second@,
    ensures
        written(before_first, order, error_message(id, first@)).skip(before_first.len() as int)
            == written(before_second, order, error_message(id, second@)).skip(
            before_second.len() as int,
        ),
{
    let message = error_message(id, first@);
    match payload_of_message(message) {
        Ok(payload) => {
            let frame = frame_of(order, payload);
            assert((before_first + frame).skip(before_first.len() as int) =~= frame);
            assert((before_second + frame).skip(before_second.len() as int) =~= frame);
        },
        Err(_) => {
            assert(before_first.skip(before_first.len() as int) =~= Seq::<u8>::empty());
            assert(before_second.skip(before_second.len() as int) =~= Seq::<u8>::empty());
        },
    }
}

/// An input that ends inside the length field gives a failure of the kind
/// `Io`, and never a request.
pub proof fn lemma_short_input(order: Endianness, input: Seq<u8>)
    requires
        input.len() < 4,
    ensures
        read_outcome(order, input) == Err::<(i64, Json), _>(short_read(input)),
        short_read(input).kind == ErrorKind::Io,
        unread_after(order, input).len() == 0,
{
}

/// A message without the member `rpc_id` gives a failure of the kind
/// `Protocol`.
pub proof fn lemma_missing_id(message: Json)
    requires
        member(message, "rpc_id"@) is None,
    ensures
        request_of_message(message) == Err::<(i64, Json), _>(no_rpc_id()),
        no_rpc_id().kind == ErrorKind::Protocol,
{
}

} // verus!
